use vstd::prelude::*;
use vstd::string::StrSliceExecFns;
use crate::geometry::Pt;
use crate::ids::{EntityID, EntityKind, kind_of_category, selectable_id};
use crate::ui::Canvas;
use crate::world::{Sim, StreetMap};

verus! {

pub open spec fn is_digit(c: char) -> bool {
    '0' <= c && c <= '9'
}

pub open spec fn digit_value(c: char) -> nat {
    ((c as u32) - ('0' as u32)) as nat
}

pub open spec fn all_digits(d: Seq<char>) -> bool {
    forall|i: int| 0 <= i < d.len() ==> is_digit(#[trigger] d[i])
}

/// The number that a string of decimal digits denotes.
pub open spec fn decimal_value(d: Seq<char>) -> nat
    decreases d.len(),
{
    if d.len() == 0 {
        0
    } else {
        decimal_value(d.drop_last()) * 10 + digit_value(d.last())
    }
}

/// A locator token: a category letter followed by one or more decimal digits
/// whose value fits in `usize`, and nothing else.
pub open spec fn parse_locator_spec(s: Seq<char>) -> Option<(char, usize)> {
    let d = s.subrange(1, s.len() as int);
    if s.len() >= 2 && all_digits(d) && decimal_value(d) <= usize::MAX {
        Some((s[0], decimal_value(d) as usize))
    } else {
        None
    }
}

/// What a locator came to.
#[derive(Clone, Copy, Debug, PartialEq, Eq, Structural)]
pub enum Resolution {
    /// Not a locator token: nothing happens and nothing is reported.
    Ignored,
    /// A well-formed token whose category letter names no kind.
    UnknownCategory(char),
    /// A well-formed token naming an entity that does not exist.
    Missing(EntityKind, usize),
    /// The camera was centered on the entity's point.
    Warped(EntityKind, usize, Pt),
}

/// Where warping to entity `idx` of kind `k` centers the camera, if it exists.
pub open spec fn entity_target(map: &StreetMap, sim: &Sim, k: EntityKind, idx: usize) -> Option<Pt> {
    match k {
        EntityKind::Pedestrian | EntityKind::Car => sim.target(k, idx),
        _ => map.target(k, idx),
    }
}

/// What resolving locator `s` comes to.
pub open spec fn resolve_spec(s: Seq<char>, map: &StreetMap, sim: &Sim) -> Resolution {
    match parse_locator_spec(s) {
        None => Resolution::Ignored,
        Some((c, idx)) => match kind_of_category(c) {
            None => Resolution::UnknownCategory(c),
            Some(k) => match entity_target(map, sim, k, idx) {
                None => Resolution::Missing(k, idx),
                Some(p) => Resolution::Warped(k, idx, p),
            },
        },
    }
}

/// The selection after a resolution: the entity warped to where it can be
/// selected, else what was selected before.
pub open spec fn selection_after(r: Resolution, before: Option<EntityID>) -> Option<EntityID> {
    match r {
        Resolution::Warped(k, idx, _) => match selectable_id(k, idx) {
            Some(id) => Some(id),
            None => before,
        },
        _ => before,
    }
}

/// The camera after a resolution: centered on the point warped to, else as before.
pub open spec fn camera_after(r: Resolution, before: Canvas) -> Canvas {
    match r {
        Resolution::Warped(_, _, p) => Canvas { center: p },
        _ => before,
    }
}

proof fn lemma_prefix_value_le(d: Seq<char>, j: int)
    requires
        0 <= j <= d.len(),
    ensures
        decimal_value(d.take(j)) <= decimal_value(d),
    decreases d.len(),
{
    if j < d.len() {
        assert(d.drop_last().take(j) =~= d.take(j));
        lemma_prefix_value_le(d.drop_last(), j);
    } else {
        assert(d.take(j) =~= d);
    }
}

/// Splits a locator token into its category letter and index.
pub fn parse_locator(line: &str) -> (r: Option<(char, usize)>)
    ensures
        r == parse_locator_spec(line@),
{
    let n = line.unicode_len();
    if n < 2 {
        return None;
    }
    let ghost d = line@.subrange(1, n as int);
    let mut acc: usize = 0;
    let mut i: usize = 1;
    while i < n
        invariant
            n == line@.len(),
            d == line@.subrange(1, n as int),
            1 <= i <= n,
            all_digits(d.take(i - 1)),
            acc == decimal_value(d.take(i - 1)),
        decreases n - i,
    {
        let c = line.get_char(i);
        proof {
            assert(d.take(i as int).drop_last() =~= d.take(i - 1));
            assert(d.take(i as int).last() == c);
        }
        if !('0' <= c && c <= '9') {
            assert(!is_digit(d[i - 1]));
            return None;
        }
        let v = (c as u32 - '0' as u32) as usize;
        let next = match acc.checked_mul(10) {
            Some(m) => m.checked_add(v),
            None => None,
        };
        match next {
            Some(a) => {
                acc = a;
            },
            None => {
                proof {
                    lemma_prefix_value_le(d, i as int);
                }
                return None;
            },
        }
        i = i + 1;
    }
    assert(d.take(n - 1) =~= d);
    Some((line.get_char(0), acc))
}

/// Resolves locator `line` against the map and the simulation. Where it names
/// an entity that exists, selects it (unless it is a parcel, which cannot be
/// selected) and centers the camera on its point; otherwise changes nothing.
pub fn warp(
    line: &str,
    map: &StreetMap,
    sim: &Sim,
    canvas: &mut Canvas,
    selected: &mut Option<EntityID>,
) -> (r: Resolution)
    requires
        map.wf(),
    ensures
        r == resolve_spec(line@, map, sim),
        *final(selected) == selection_after(r, *old(selected)),
        *final(canvas) == camera_after(r, *old(canvas)),
{
    let (c, idx) = match parse_locator(line) {
        Some(tok) => tok,
        None => {
            return Resolution::Ignored;
        },
    };
    let kind = match EntityKind::from_category(c) {
        Some(k) => k,
        None => {
            return Resolution::UnknownCategory(c);
        },
    };
    let target = match kind {
        EntityKind::Pedestrian => sim.get_draw_ped(idx),
        EntityKind::Car => sim.get_draw_car(idx),
        _ => map.target_of(kind, idx),
    };
    let pt = match target {
        Some(p) => p,
        None => {
            return Resolution::Missing(kind, idx);
        },
    };
    if let Some(id) = kind.selectable(idx) {
        *selected = Some(id);
    }
    canvas.center_on_map_pt(pt);
    Resolution::Warped(kind, idx, pt)
}

/// A valid token naming an entity that exists centers the camera on that
/// entity's point, and selects the entity unless it is a parcel.
pub proof fn lemma_existing_entity_warps(
    s: Seq<char>,
    map: &StreetMap,
    sim: &Sim,
    sel: Option<EntityID>,
    cam: Canvas,
    k: EntityKind,
    idx: usize,
    p: Pt,
)
    requires
        parse_locator_spec(s) matches Some((c, i)) && kind_of_category(c) == Some(k) && i == idx,
        entity_target(map, sim, k, idx) == Some(p),
    ensures
        resolve_spec(s, map, sim) == Resolution::Warped(k, idx, p),
        camera_after(resolve_spec(s, map, sim), cam) == (Canvas { center: p }),
        k != EntityKind::Parcel ==> selection_after(resolve_spec(s, map, sim), sel)
            == selectable_id(k, idx),
        k != EntityKind::Parcel ==> selectable_id(k, idx) is Some,
{
}

/// A malformed token (empty, without digits, with a non-digit after the
/// category letter, or with an unknown category letter) changes neither the
/// selection nor the camera.
pub proof fn lemma_malformed_token_no_change(
    s: Seq<char>,
    map: &StreetMap,
    sim: &Sim,
    sel: Option<EntityID>,
    cam: Canvas,
)
    requires
        s.len() < 2 || !all_digits(s.subrange(1, s.len() as int)) || kind_of_category(s[0]) is None,
    ensures
        selection_after(resolve_spec(s, map, sim), sel) == sel,
        camera_after(resolve_spec(s, map, sim), cam) == cam,
{
}

/// A parcel token never changes the selection.
pub proof fn lemma_parcel_keeps_selection(
    s: Seq<char>,
    map: &StreetMap,
    sim: &Sim,
    sel: Option<EntityID>,
)
    requires
        s.len() > 0,
        s[0] == 'e',
    ensures
        selection_after(resolve_spec(s, map, sim), sel) == sel,
{
}

} // verus!
