use vstd::prelude::*;
use crate::geometry::{Pt, centroid};
use crate::ids::{AgentID, EntityKind, TripID};

verus! {

/// A road, by the ids of its lanes that run in its forward direction.
pub struct Road {
    pub children_forwards: Vec<usize>,
}

/// A lane, by the first point of its center line.
pub struct Lane {
    pub first_pt: Pt,
}

/// An intersection, by its position.
pub struct Intersection {
    pub point: Pt,
}

/// An outlined map feature (a building, an area, a parcel), by its boundary.
pub struct Polygon {
    pub points: Vec<Pt>,
}

/// The static map: each table is indexed by the entity's numeric id.
pub struct StreetMap {
    pub roads: Vec<Road>,
    pub lanes: Vec<Lane>,
    pub intersections: Vec<Intersection>,
    pub buildings: Vec<Polygon>,
    pub areas: Vec<Polygon>,
    pub parcels: Vec<Polygon>,
}

/// An agent present in the simulation: where it is drawn, and its trip.
#[derive(Clone, Copy, Debug, PartialEq, Eq, Structural)]
pub struct Agent {
    pub pos: Pt,
    pub trip: Option<TripID>,
}

/// What the simulation answers at one moment. Agents and trips are indexed by
/// their numeric ids; an empty slot is one that is not present now.
pub struct Sim {
    /// Current simulation time, in ticks.
    pub time: u64,
    pub peds: Vec<Option<Agent>>,
    pub cars: Vec<Option<Agent>>,
    /// The canonical point of each trip, where it can be located now.
    pub trip_points: Vec<Option<Pt>>,
}

pub open spec fn polygons_wf(ps: Seq<Polygon>) -> bool {
    forall|i: int| 0 <= i < ps.len() ==> (#[trigger] ps[i]).points@.len() > 0
}

impl StreetMap {
    /// Every road has a forward lane that exists, and every outline has a point.
    pub open spec fn wf(&self) -> bool {
        &&& forall|i: int|
            0 <= i < self.roads@.len() ==> {
                let ch = (#[trigger] self.roads@[i]).children_forwards@;
                ch.len() > 0 && ch[0] < self.lanes@.len()
            }
        &&& polygons_wf(self.buildings@)
        &&& polygons_wf(self.areas@)
        &&& polygons_wf(self.parcels@)
    }

    /// Where warping to entity `idx` of kind `k` of the map centers the camera:
    /// for a road, the first point of its first forward lane; for a lane, its
    /// first point; for an intersection, its position; for an outline, its
    /// centroid. None where no such entity exists, or `k` is an agent kind.
    pub open spec fn target(&self, k: EntityKind, idx: usize) -> Option<Pt> {
        let i = idx as int;
        match k {
            EntityKind::Road => if i < self.roads@.len() {
                Some(self.lanes@[self.roads@[i].children_forwards@[0] as int].first_pt)
            } else {
                None
            },
            EntityKind::Lane => if i < self.lanes@.len() {
                Some(self.lanes@[i].first_pt)
            } else {
                None
            },
            EntityKind::Intersection => if i < self.intersections@.len() {
                Some(self.intersections@[i].point)
            } else {
                None
            },
            EntityKind::Building => if i < self.buildings@.len() {
                Some(centroid(self.buildings@[i].points@))
            } else {
                None
            },
            EntityKind::Area => if i < self.areas@.len() {
                Some(centroid(self.areas@[i].points@))
            } else {
                None
            },
            EntityKind::Parcel => if i < self.parcels@.len() {
                Some(centroid(self.parcels@[i].points@))
            } else {
                None
            },
            _ => None,
        }
    }

    /// Checks the map's well-formedness.
    pub fn is_well_formed(&self) -> (r: bool)
        ensures
            r == self.wf(),
    {
        let mut i: usize = 0;
        while i < self.roads.len()
            invariant
                i <= self.roads@.len(),
                forall|j: int|
                    0 <= j < i ==> {
                        let ch = (#[trigger] self.roads@[j]).children_forwards@;
                        ch.len() > 0 && ch[0] < self.lanes@.len()
                    },
            decreases self.roads@.len() - i,
        {
            let ch = &self.roads[i].children_forwards;
            if ch.len() == 0 || ch[0] >= self.lanes.len() {
                return false;
            }
            i = i + 1;
        }
        all_outlined(&self.buildings) && all_outlined(&self.areas) && all_outlined(&self.parcels)
    }

    /// The point that warping to entity `idx` of kind `k` of the map centers on.
    pub fn target_of(&self, k: EntityKind, idx: usize) -> (r: Option<Pt>)
        requires
            self.wf(),
        ensures
            r == self.target(k, idx),
    {
        match k {
            EntityKind::Road => if idx < self.roads.len() {
                Some(self.lanes[self.roads[idx].children_forwards[0]].first_pt)
            } else {
                None
            },
            EntityKind::Lane => if idx < self.lanes.len() {
                Some(self.lanes[idx].first_pt)
            } else {
                None
            },
            EntityKind::Intersection => if idx < self.intersections.len() {
                Some(self.intersections[idx].point)
            } else {
                None
            },
            EntityKind::Building => outline_center(&self.buildings, idx),
            EntityKind::Area => outline_center(&self.areas, idx),
            EntityKind::Parcel => outline_center(&self.parcels, idx),
            _ => None,
        }
    }
}

fn all_outlined(ps: &Vec<Polygon>) -> (r: bool)
    ensures
        r == polygons_wf(ps@),
{
    let mut i: usize = 0;
    while i < ps.len()
        invariant
            i <= ps@.len(),
            forall|j: int| 0 <= j < i ==> (#[trigger] ps@[j]).points@.len() > 0,
        decreases ps@.len() - i,
    {
        if ps[i].points.len() == 0 {
            return false;
        }
        i = i + 1;
    }
    true
}

fn outline_center(ps: &Vec<Polygon>, idx: usize) -> (r: Option<Pt>)
    requires
        polygons_wf(ps@),
    ensures
        r == (if idx < ps@.len() {
            Some(centroid(ps@[idx as int].points@))
        } else {
            None
        }),
{
    if idx < ps.len() {
        Some(Pt::center(&ps[idx].points))
    } else {
        None
    }
}

impl Sim {
    pub open spec fn ped_at(&self, i: usize) -> Option<Agent> {
        if (i as int) < self.peds@.len() {
            self.peds@[i as int]
        } else {
            None
        }
    }

    pub open spec fn car_at(&self, i: usize) -> Option<Agent> {
        if (i as int) < self.cars@.len() {
            self.cars@[i as int]
        } else {
            None
        }
    }

    pub open spec fn agent(&self, a: AgentID) -> Option<Agent> {
        match a {
            AgentID::Pedestrian(i) => self.ped_at(i),
            AgentID::Car(i) => self.car_at(i),
        }
    }

    /// The trip of agent `a`, where the agent is present and has one.
    pub open spec fn trip_of(&self, a: AgentID) -> Option<TripID> {
        match self.agent(a) {
            Some(ag) => ag.trip,
            None => None,
        }
    }

    /// Where trip `t` can be located now, if anywhere.
    pub open spec fn trip_point(&self, t: TripID) -> Option<Pt> {
        if (t.0 as int) < self.trip_points@.len() {
            self.trip_points@[t.0 as int]
        } else {
            None
        }
    }

    /// Where warping to agent `idx` of kind `k` centers the camera: where the
    /// agent is drawn. None where it is absent, or `k` is a map kind.
    pub open spec fn target(&self, k: EntityKind, idx: usize) -> Option<Pt> {
        match k {
            EntityKind::Pedestrian => match self.ped_at(idx) {
                Some(ag) => Some(ag.pos),
                None => None,
            },
            EntityKind::Car => match self.car_at(idx) {
                Some(ag) => Some(ag.pos),
                None => None,
            },
            _ => None,
        }
    }

    pub fn time(&self) -> (r: u64)
        ensures
            r == self.time,
    {
        self.time
    }

    fn agent_entry(&self, a: AgentID) -> (r: Option<Agent>)
        ensures
            r == self.agent(a),
    {
        match a {
            AgentID::Pedestrian(i) => if i < self.peds.len() {
                self.peds[i]
            } else {
                None
            },
            AgentID::Car(i) => if i < self.cars.len() {
                self.cars[i]
            } else {
                None
            },
        }
    }

    /// Where pedestrian `id` is drawn, if it is present.
    pub fn get_draw_ped(&self, id: usize) -> (r: Option<Pt>)
        ensures
            r == self.target(EntityKind::Pedestrian, id),
    {
        match self.agent_entry(AgentID::Pedestrian(id)) {
            Some(ag) => Some(ag.pos),
            None => None,
        }
    }

    /// Where the front of car `id` is drawn, if it is present.
    pub fn get_draw_car(&self, id: usize) -> (r: Option<Pt>)
        ensures
            r == self.target(EntityKind::Car, id),
    {
        match self.agent_entry(AgentID::Car(id)) {
            Some(ag) => Some(ag.pos),
            None => None,
        }
    }

    /// The trip that agent `a` is on, if it is present and on one.
    pub fn agent_to_trip(&self, a: AgentID) -> (r: Option<TripID>)
        ensures
            r == self.trip_of(a),
    {
        match self.agent_entry(a) {
            Some(ag) => ag.trip,
            None => None,
        }
    }

    /// Where trip `t` can be located now, if anywhere.
    pub fn get_canonical_pt_per_trip(&self, t: TripID) -> (r: Option<Pt>)
        ensures
            r == self.trip_point(t),
    {
        if t.0 < self.trip_points.len() {
            self.trip_points[t.0]
        } else {
            None
        }
    }
}

} // verus!
