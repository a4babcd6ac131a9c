use vstd::prelude::*;
use crate::geometry::Pt;
use crate::ids::TripID;

verus! {

/// The camera, by the map point at the center of the view.
#[derive(Clone, Copy, Debug, PartialEq, Eq, Structural)]
pub struct Canvas {
    pub center: Pt,
}

impl Canvas {
    pub fn new(center: Pt) -> (r: Canvas)
        ensures
            r.center == center,
    {
        Canvas { center }
    }

    /// Moves the view so that `pt` is at its center.
    pub fn center_on_map_pt(&mut self, pt: Pt)
        ensures
            final(self).center == pt,
    {
        self.center = pt;
    }
}

/// A line of the status panel.
#[derive(Clone, Copy, Debug, PartialEq, Eq, Structural)]
pub enum MenuLine {
    /// The camera follows this trip.
    Following(TripID),
    /// The route viewer shows this trip's route.
    ShowingRoute(TripID),
}

} // verus!
