use vstd::prelude::*;
use crate::geometry::Pt;
use crate::ids::{agent_of, AgentID, EntityID, TripID};
use crate::ui::{Canvas, MenuLine};
use crate::world::Sim;

verus! {

/// The camera is locked onto a trip: where it was last seen (if it could be
/// located then) and at which simulation time.
#[derive(Clone, Copy, Debug, PartialEq, Eq, Structural)]
pub struct Following {
    pub trip: TripID,
    pub last_pt: Option<Pt>,
    pub time: u64,
}

/// The route overlay, which handles its own input and drawing.
#[derive(Clone, Copy, Debug, PartialEq, Eq, Structural)]
pub enum RouteViewer {
    Inactive,
    /// Showing the route of this agent's trip.
    Active(AgentID, TripID),
}

/// Camera tracking of a selected agent, beside the route overlay.
pub struct AgentTools {
    pub following: Option<Following>,
    pub route_viewer: RouteViewer,
}

/// The trip that following could start on: that of the selected agent.
pub open spec fn follow_candidate(sel: Option<EntityID>, sim: &Sim) -> Option<(AgentID, TripID)> {
    match sel {
        Some(id) => match agent_of(id) {
            Some(a) => match sim.trip_of(a) {
                Some(t) => Some((a, t)),
                None => None,
            },
            None => None,
        },
        None => None,
    }
}

/// The follow state once the follow command of this frame is taken into account.
pub open spec fn after_start(
    f: Option<Following>,
    sel: Option<EntityID>,
    sim: &Sim,
    follow_pressed: bool,
) -> Option<Following> {
    match f {
        Some(_) => f,
        None => match follow_candidate(sel, sim) {
            Some((_, t)) => if follow_pressed {
                Some(Following { trip: t, last_pt: sim.trip_point(t), time: sim.time })
            } else {
                None
            },
            None => None,
        },
    }
}

/// Whether the simulation has moved on since the followed trip was last seen.
pub open spec fn time_moved(f: Option<Following>, sim: &Sim) -> bool {
    f matches Some(fl) && fl.time != sim.time
}

/// Where the camera is recentered for follow state `f`: the trip's point, when
/// time has moved and the trip can be located.
pub open spec fn recenter_spec(f: Option<Following>, sim: &Sim) -> Option<Pt> {
    if time_moved(f, sim) {
        sim.trip_point(f->0.trip)
    } else {
        None
    }
}

/// The followed trip that could not be located although time has moved.
pub open spec fn vanished_spec(f: Option<Following>, sim: &Sim) -> Option<TripID> {
    if time_moved(f, sim) && sim.trip_point(f->0.trip) is None {
        Some(f->0.trip)
    } else {
        None
    }
}

/// Follow state `f` after observing `sim`: when time has moved, the freshly
/// observed point and time are stored, whether or not the point is known.
pub open spec fn after_track(f: Option<Following>, sim: &Sim) -> Option<Following> {
    if time_moved(f, sim) {
        Some(Following { trip: f->0.trip, last_pt: sim.trip_point(f->0.trip), time: sim.time })
    } else {
        f
    }
}

/// The follow state at the end of a frame.
pub open spec fn next_following(
    f: Option<Following>,
    sel: Option<EntityID>,
    sim: &Sim,
    follow_pressed: bool,
    stop_pressed: bool,
) -> Option<Following> {
    let s = after_start(f, sel, sim, follow_pressed);
    if stop_pressed && s is Some {
        None
    } else {
        after_track(s, sim)
    }
}

/// Where a frame recenters the camera, if it does.
pub open spec fn frame_recenter(
    f: Option<Following>,
    sel: Option<EntityID>,
    sim: &Sim,
    follow_pressed: bool,
) -> Option<Pt> {
    recenter_spec(after_start(f, sel, sim, follow_pressed), sim)
}

/// The status lines for a tool state.
pub open spec fn menu_lines(following: Option<Following>, rv: RouteViewer) -> Seq<MenuLine> {
    let a = match following {
        Some(fl) => seq![MenuLine::Following(fl.trip)],
        None => Seq::empty(),
    };
    let b = match rv {
        RouteViewer::Active(_, t) => seq![MenuLine::ShowingRoute(t)],
        RouteViewer::Inactive => Seq::empty(),
    };
    a + b
}

impl AgentTools {
    pub fn new() -> (r: AgentTools)
        ensures
            r.following is None,
            r.route_viewer is Inactive,
    {
        AgentTools { following: None, route_viewer: RouteViewer::Inactive }
    }

    /// Appends the status lines: the followed trip, then the trip whose route
    /// is shown.
    pub fn update_menu_info(&self, txt: &mut Vec<MenuLine>)
        ensures
            final(txt)@ == old(txt)@ + menu_lines(self.following, self.route_viewer),
    {
        if let Some(fl) = self.following {
            txt.push(MenuLine::Following(fl.trip));
        }
        if let RouteViewer::Active(_, t) = self.route_viewer {
            txt.push(MenuLine::ShowingRoute(t));
        }
    }

    /// The agent and trip that the follow command would lock onto now.
    pub fn follow_offer(&self, selection: Option<EntityID>, sim: &Sim) -> (r: Option<(AgentID, TripID)>)
        ensures
            r == (if self.following is None {
                follow_candidate(selection, sim)
            } else {
                None
            }),
    {
        if self.following.is_some() {
            return None;
        }
        match selection {
            Some(id) => match id.agent_id() {
                Some(a) => match sim.agent_to_trip(a) {
                    Some(t) => Some((a, t)),
                    None => None,
                },
                None => None,
            },
            None => None,
        }
    }

    /// One frame of agent tracking. When not following, the follow command
    /// locks onto the selected agent's trip, if it has one. When following and
    /// simulation time has moved, the camera is centered on the trip's point
    /// if it can be located, and the observation is stored either way. The
    /// stop command, heeded only while following, clears the follow state.
    /// Returns the followed trip when it could not be located this frame.
    pub fn event(
        &mut self,
        selection: Option<EntityID>,
        sim: &Sim,
        follow_pressed: bool,
        stop_pressed: bool,
        canvas: &mut Canvas,
    ) -> (vanished: Option<TripID>)
        ensures
            final(self).following == next_following(
                old(self).following,
                selection,
                sim,
                follow_pressed,
                stop_pressed,
            ),
            final(self).route_viewer == old(self).route_viewer,
            *final(canvas) == match frame_recenter(old(self).following, selection, sim, follow_pressed) {
                Some(p) => Canvas { center: p },
                None => *old(canvas),
            },
            vanished == vanished_spec(after_start(old(self).following, selection, sim, follow_pressed), sim),
    {
        if self.following.is_none() && follow_pressed {
            if let Some((_, trip)) = self.follow_offer(selection, sim) {
                self.following = Some(Following {
                    trip,
                    last_pt: sim.get_canonical_pt_per_trip(trip),
                    time: sim.time(),
                });
            }
        }
        let mut vanished: Option<TripID> = None;
        if let Some(fl) = self.following {
            let now = sim.time();
            if now != fl.time {
                let maybe_pt = sim.get_canonical_pt_per_trip(fl.trip);
                match maybe_pt {
                    Some(pt) => canvas.center_on_map_pt(pt),
                    None => {
                        vanished = Some(fl.trip);
                    },
                }
                self.following = Some(Following { trip: fl.trip, last_pt: maybe_pt, time: now });
            }
            if stop_pressed {
                self.following = None;
            }
        }
        vanished
    }

    /// What to draw: the route overlay.
    pub fn draw(&self) -> (r: RouteViewer)
        ensures
            r == self.route_viewer,
    {
        self.route_viewer
    }
}

/// Following starts only on the follow command, and only onto the trip of the
/// selected agent.
pub proof fn lemma_follow_needs_agent_trip(
    sel: Option<EntityID>,
    sim: &Sim,
    follow_pressed: bool,
    stop_pressed: bool,
)
    ensures
        next_following(None, sel, sim, follow_pressed, stop_pressed) matches Some(fl) ==> {
            &&& follow_pressed
            &&& follow_candidate(sel, sim) matches Some((_, t)) && t == fl.trip
        },
{
}

/// The camera is recentered only onto the followed trip's point, and only when
/// that point can be located and time has moved since it was last observed.
pub proof fn lemma_recenter_only_when_located(
    f: Option<Following>,
    sel: Option<EntityID>,
    sim: &Sim,
    follow_pressed: bool,
)
    ensures
        frame_recenter(f, sel, sim, follow_pressed) matches Some(p) ==> {
            let s = after_start(f, sel, sim, follow_pressed);
            &&& s matches Some(fl)
            &&& fl.time != sim.time
            &&& sim.trip_point(fl.trip) == Some(p)
        },
{
}

/// A frame that observes the same simulation time as the frame before it does
/// not recenter the camera, whatever the input: at most one recenter per
/// distinct observed time.
pub proof fn lemma_recenter_once_per_time(
    f: Option<Following>,
    sel: Option<EntityID>,
    sim: &Sim,
    follow_pressed: bool,
    stop_pressed: bool,
    sel2: Option<EntityID>,
    sim2: &Sim,
    follow_pressed2: bool,
)
    requires
        sim2.time == sim.time,
    ensures
        frame_recenter(
            next_following(f, sel, sim, follow_pressed, stop_pressed),
            sel2,
            sim2,
            follow_pressed2,
        ) is None,
{
}

/// The stop command while following clears the follow state entirely.
pub proof fn lemma_stop_clears(
    f: Option<Following>,
    sel: Option<EntityID>,
    sim: &Sim,
    follow_pressed: bool,
)
    requires
        after_start(f, sel, sim, follow_pressed) is Some,
    ensures
        next_following(f, sel, sim, follow_pressed, true) is None,
{
}

/// Without follow state, a frame moves no camera, and follow state stays
/// absent unless a new follow begins on the follow command.
pub proof fn lemma_idle_frames_keep_camera(
    sel: Option<EntityID>,
    sim: &Sim,
    follow_pressed: bool,
    stop_pressed: bool,
)
    ensures
        frame_recenter(None, sel, sim, follow_pressed) is None,
        vanished_spec(after_start(None, sel, sim, follow_pressed), sim) is None,
        !follow_pressed ==> next_following(None, sel, sim, follow_pressed, stop_pressed) is None,
{
}

} // verus!
