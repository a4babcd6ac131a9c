use vstd::prelude::*;

verus! {

/// A trip: one agent's journey through the simulation.
#[derive(Clone, Copy, Debug, PartialEq, Eq, Structural)]
pub struct TripID(pub usize);

/// A simulated agent.
#[derive(Clone, Copy, Debug, PartialEq, Eq, Structural)]
pub enum AgentID {
    Car(usize),
    Pedestrian(usize),
}

/// Something that can be selected in the viewer.
#[derive(Clone, Copy, Debug, PartialEq, Eq, Structural)]
pub enum EntityID {
    Road(usize),
    Lane(usize),
    Intersection(usize),
    Building(usize),
    Area(usize),
    Pedestrian(usize),
    Car(usize),
}

/// The kinds of entity a locator can name. A parcel can be warped to but
/// not selected.
#[derive(Clone, Copy, Debug, PartialEq, Eq, Structural)]
pub enum EntityKind {
    Road,
    Lane,
    Intersection,
    Building,
    Area,
    Parcel,
    Pedestrian,
    Car,
}

/// The agent an entity denotes, if it is one.
pub open spec fn agent_of(id: EntityID) -> Option<AgentID> {
    match id {
        EntityID::Pedestrian(i) => Some(AgentID::Pedestrian(i)),
        EntityID::Car(i) => Some(AgentID::Car(i)),
        _ => None,
    }
}

/// The kind named by a locator's category letter.
pub open spec fn kind_of_category(c: char) -> Option<EntityKind> {
    if c == 'r' {
        Some(EntityKind::Road)
    } else if c == 'l' {
        Some(EntityKind::Lane)
    } else if c == 'i' {
        Some(EntityKind::Intersection)
    } else if c == 'b' {
        Some(EntityKind::Building)
    } else if c == 'a' {
        Some(EntityKind::Area)
    } else if c == 'e' {
        Some(EntityKind::Parcel)
    } else if c == 'p' {
        Some(EntityKind::Pedestrian)
    } else if c == 'c' {
        Some(EntityKind::Car)
    } else {
        None
    }
}

/// The selectable identifier of entity `idx` of kind `k`; none for a parcel.
pub open spec fn selectable_id(k: EntityKind, idx: usize) -> Option<EntityID> {
    match k {
        EntityKind::Road => Some(EntityID::Road(idx)),
        EntityKind::Lane => Some(EntityID::Lane(idx)),
        EntityKind::Intersection => Some(EntityID::Intersection(idx)),
        EntityKind::Building => Some(EntityID::Building(idx)),
        EntityKind::Area => Some(EntityID::Area(idx)),
        EntityKind::Parcel => None,
        EntityKind::Pedestrian => Some(EntityID::Pedestrian(idx)),
        EntityKind::Car => Some(EntityID::Car(idx)),
    }
}

impl EntityID {
    /// The agent this entity denotes, if it is a pedestrian or a car.
    pub fn agent_id(&self) -> (r: Option<AgentID>)
        ensures
            r == agent_of(*self),
    {
        match *self {
            EntityID::Pedestrian(i) => Some(AgentID::Pedestrian(i)),
            EntityID::Car(i) => Some(AgentID::Car(i)),
            _ => None,
        }
    }
}

impl EntityKind {
    /// The kind named by a locator's category letter, if any.
    pub fn from_category(c: char) -> (r: Option<EntityKind>)
        ensures
            r == kind_of_category(c),
    {
        match c {
            'r' => Some(EntityKind::Road),
            'l' => Some(EntityKind::Lane),
            'i' => Some(EntityKind::Intersection),
            'b' => Some(EntityKind::Building),
            'a' => Some(EntityKind::Area),
            'e' => Some(EntityKind::Parcel),
            'p' => Some(EntityKind::Pedestrian),
            'c' => Some(EntityKind::Car),
            _ => None,
        }
    }

    /// The identifier that selecting entity `idx` of this kind sets.
    pub fn selectable(&self, idx: usize) -> (r: Option<EntityID>)
        ensures
            r == selectable_id(*self, idx),
    {
        match *self {
            EntityKind::Road => Some(EntityID::Road(idx)),
            EntityKind::Lane => Some(EntityID::Lane(idx)),
            EntityKind::Intersection => Some(EntityID::Intersection(idx)),
            EntityKind::Building => Some(EntityID::Building(idx)),
            EntityKind::Area => Some(EntityID::Area(idx)),
            EntityKind::Parcel => None,
            EntityKind::Pedestrian => Some(EntityID::Pedestrian(idx)),
            EntityKind::Car => Some(EntityID::Car(idx)),
        }
    }
}

} // verus!
