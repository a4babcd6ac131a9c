use vstd::prelude::*;
use crate::ids::EntityID;
use crate::locator::{camera_after, resolve_spec, selection_after, warp, Resolution};
use crate::ui::Canvas;
use crate::world::{Sim, StreetMap};

verus! {

/// What the text box reported this frame.
#[derive(Debug)]
pub enum InputResult {
    Canceled,
    /// The text was submitted.
    Done(String),
    /// Still being edited; the text so far.
    StillActive(String),
}

/// The warp controller: idle, or capturing a locator.
#[derive(Debug)]
pub enum WarpState {
    Empty,
    EnteringSearch(String),
}

impl WarpState {
    pub fn new() -> (r: WarpState)
        ensures
            r is Empty,
    {
        WarpState::Empty
    }

    /// Handles one frame of input. When idle, `start_pressed` opens an empty
    /// search box. While capturing, the text box's report decides: a cancel
    /// discards the text, a submit resolves it (see `warp`) and then goes
    /// idle, an edit keeps the text so far. Returns whether the controller is
    /// capturing afterwards. The camera and selection change only on a submit.
    pub fn event(
        &mut self,
        start_pressed: bool,
        text: InputResult,
        map: &StreetMap,
        sim: &Sim,
        canvas: &mut Canvas,
        selected: &mut Option<EntityID>,
    ) -> (r: (bool, Option<Resolution>))
        requires
            map.wf(),
        ensures
            r.0 == ((*final(self)) is EnteringSearch),
            match *old(self) {
                WarpState::Empty => {
                    &&& r.1 is None
                    &&& *final(canvas) == *old(canvas)
                    &&& *final(selected) == *old(selected)
                    &&& if start_pressed {
                        (*final(self)) is EnteringSearch && (*final(self))->EnteringSearch_0@.len() == 0
                    } else {
                        (*final(self)) is Empty
                    }
                },
                WarpState::EnteringSearch(_) => match text {
                    InputResult::Canceled => {
                        &&& r.1 is None
                        &&& *final(canvas) == *old(canvas)
                        &&& *final(selected) == *old(selected)
                        &&& (*final(self)) is Empty
                    },
                    InputResult::Done(s) => {
                        &&& r.1 == Some(resolve_spec(s@, map, sim))
                        &&& *final(canvas) == camera_after(resolve_spec(s@, map, sim), *old(canvas))
                        &&& *final(selected) == selection_after(
                            resolve_spec(s@, map, sim),
                            *old(selected),
                        )
                        &&& (*final(self)) is Empty
                    },
                    InputResult::StillActive(s) => {
                        &&& r.1 is None
                        &&& *final(canvas) == *old(canvas)
                        &&& *final(selected) == *old(selected)
                        &&& (*final(self)) is EnteringSearch && (*final(self))->EnteringSearch_0@ == s@
                    },
                },
            },
    {
        let mut outcome: Option<Resolution> = None;
        match self {
            WarpState::Empty => {
                if start_pressed {
                    *self = WarpState::EnteringSearch(String::new());
                }
            },
            WarpState::EnteringSearch(_) => match text {
                InputResult::Canceled => {
                    *self = WarpState::Empty;
                },
                InputResult::Done(to) => {
                    outcome = Some(warp(to.as_str(), map, sim, canvas, selected));
                    *self = WarpState::Empty;
                },
                InputResult::StillActive(so_far) => {
                    *self = WarpState::EnteringSearch(so_far);
                },
            },
        }
        let active = match self {
            WarpState::Empty => false,
            WarpState::EnteringSearch(_) => true,
        };
        (active, outcome)
    }

    /// The text to show in the search box, while capturing.
    pub fn draw(&self) -> (r: Option<&String>)
        ensures
            match *self {
                WarpState::Empty => r is None,
                WarpState::EnteringSearch(s) => r is Some && r->0@ == s@,
            },
    {
        match self {
            WarpState::Empty => None,
            WarpState::EnteringSearch(s) => Some(s),
        }
    }
}

} // verus!
