use editor::agent::{AgentTools, Following, RouteViewer};
use editor::geometry::Pt;
use editor::ids::{AgentID, EntityID, EntityKind, TripID};
use editor::locator::{parse_locator, warp, Resolution};
use editor::ui::{Canvas, MenuLine};
use editor::warp::{InputResult, WarpState};
use editor::world::{Agent, Intersection, Lane, Polygon, Road, Sim, StreetMap};

fn pt(x: u64, y: u64) -> Pt {
    Pt::new(x, y)
}

fn square(x: u64, y: u64) -> Polygon {
    Polygon { points: vec![pt(x, y), pt(x + 4, y), pt(x + 4, y + 3), pt(x, y + 3)] }
}

fn sample_map() -> StreetMap {
    let lanes: Vec<Lane> = (0..43).map(|i| Lane { first_pt: pt(100 + i, 200 + i) }).collect();
    StreetMap {
        roads: vec![Road { children_forwards: vec![7, 8] }, Road { children_forwards: vec![42] }],
        lanes,
        intersections: vec![Intersection { point: pt(5, 6) }],
        buildings: vec![square(10, 20)],
        areas: vec![Polygon { points: vec![pt(0, 0), pt(9, 0), pt(0, 9)] }],
        parcels: vec![square(30, 40)],
    }
}

fn sample_sim(time: u64) -> Sim {
    Sim {
        time,
        peds: vec![None, Some(Agent { pos: pt(1, 2), trip: Some(TripID(3)) })],
        cars: vec![
            Some(Agent { pos: pt(7, 8), trip: None }),
            Some(Agent { pos: pt(9, 9), trip: Some(TripID(0)) }),
        ],
        trip_points: vec![Some(pt(50, 60)), None, None, Some(pt(70, 80))],
    }
}

fn do_warp(line: &str) -> (Resolution, Canvas, Option<EntityID>) {
    let map = sample_map();
    assert!(map.is_well_formed());
    let sim = sample_sim(0);
    let mut canvas = Canvas::new(pt(0, 0));
    let mut selected = Some(EntityID::Intersection(0));
    let r = warp(line, &map, &sim, &mut canvas, &mut selected);
    (r, canvas, selected)
}

#[test]
fn parse_accepts_category_and_digits() {
    assert_eq!(parse_locator("l42"), Some(('l', 42)));
    assert_eq!(parse_locator("c007"), Some(('c', 7)));
    assert_eq!(parse_locator("x0"), Some(('x', 0)));
    assert_eq!(parse_locator("l18446744073709551615"), Some(('l', usize::MAX)));
}

#[test]
fn parse_rejects_malformed() {
    assert_eq!(parse_locator(""), None);
    assert_eq!(parse_locator("b"), None);
    assert_eq!(parse_locator("zz9"), None);
    assert_eq!(parse_locator("l4x"), None);
    assert_eq!(parse_locator("l+5"), None);
    assert_eq!(parse_locator("l 5"), None);
    assert_eq!(parse_locator("l18446744073709551616"), None);
}

#[test]
fn lane_token_selects_lane_and_centers() {
    let (r, canvas, selected) = do_warp("l42");
    assert_eq!(r, Resolution::Warped(EntityKind::Lane, 42, pt(142, 242)));
    assert_eq!(selected, Some(EntityID::Lane(42)));
    assert_eq!(canvas.center, pt(142, 242));
}

#[test]
fn two_letter_category_is_silent_no_op() {
    let (r, canvas, selected) = do_warp("zz9");
    assert_eq!(r, Resolution::Ignored);
    assert_eq!(selected, Some(EntityID::Intersection(0)));
    assert_eq!(canvas.center, pt(0, 0));
}

#[test]
fn category_without_digits_is_no_op() {
    let (r, canvas, selected) = do_warp("b");
    assert_eq!(r, Resolution::Ignored);
    assert_eq!(selected, Some(EntityID::Intersection(0)));
    assert_eq!(canvas.center, pt(0, 0));
}

#[test]
fn empty_and_digits_only_tokens_change_nothing() {
    let (r, canvas, selected) = do_warp("");
    assert_eq!(r, Resolution::Ignored);
    assert_eq!((canvas.center, selected), (pt(0, 0), Some(EntityID::Intersection(0))));
    let (r, canvas, selected) = do_warp("42");
    assert_eq!(r, Resolution::UnknownCategory('4'));
    assert_eq!((canvas.center, selected), (pt(0, 0), Some(EntityID::Intersection(0))));
}

#[test]
fn unknown_category_is_reported() {
    let (r, canvas, selected) = do_warp("x5");
    assert_eq!(r, Resolution::UnknownCategory('x'));
    assert_eq!(selected, Some(EntityID::Intersection(0)));
    assert_eq!(canvas.center, pt(0, 0));
}

#[test]
fn missing_entity_is_reported() {
    let (r, canvas, selected) = do_warp("l43");
    assert_eq!(r, Resolution::Missing(EntityKind::Lane, 43));
    assert_eq!(selected, Some(EntityID::Intersection(0)));
    assert_eq!(canvas.center, pt(0, 0));
    assert_eq!(do_warp("p0").0, Resolution::Missing(EntityKind::Pedestrian, 0));
    assert_eq!(do_warp("c2").0, Resolution::Missing(EntityKind::Car, 2));
    assert_eq!(do_warp("r2").0, Resolution::Missing(EntityKind::Road, 2));
}

#[test]
fn road_token_centers_on_first_forward_lane() {
    let (r, canvas, selected) = do_warp("r0");
    assert_eq!(r, Resolution::Warped(EntityKind::Road, 0, pt(107, 207)));
    assert_eq!(selected, Some(EntityID::Road(0)));
    assert_eq!(canvas.center, pt(107, 207));
}

#[test]
fn intersection_token_centers_on_point() {
    let (_, canvas, selected) = do_warp("i0");
    assert_eq!(selected, Some(EntityID::Intersection(0)));
    assert_eq!(canvas.center, pt(5, 6));
}

#[test]
fn outline_tokens_center_on_centroid() {
    let (_, canvas, selected) = do_warp("b0");
    assert_eq!(selected, Some(EntityID::Building(0)));
    assert_eq!(canvas.center, pt(12, 21));
    let (_, canvas, selected) = do_warp("a0");
    assert_eq!(selected, Some(EntityID::Area(0)));
    assert_eq!(canvas.center, pt(3, 3));
}

#[test]
fn parcel_token_moves_camera_only() {
    let (r, canvas, selected) = do_warp("e0");
    assert_eq!(r, Resolution::Warped(EntityKind::Parcel, 0, pt(32, 41)));
    assert_eq!(selected, Some(EntityID::Intersection(0)));
    assert_eq!(canvas.center, pt(32, 41));
}

#[test]
fn agent_tokens_select_agents() {
    let (_, canvas, selected) = do_warp("p1");
    assert_eq!(selected, Some(EntityID::Pedestrian(1)));
    assert_eq!(canvas.center, pt(1, 2));
    let (_, canvas, selected) = do_warp("c0");
    assert_eq!(selected, Some(EntityID::Car(0)));
    assert_eq!(canvas.center, pt(7, 8));
}

#[test]
fn centroid_rounds_down() {
    assert_eq!(Pt::center(&vec![pt(0, 0), pt(1, 1)]), pt(0, 0));
    assert_eq!(Pt::center(&vec![pt(u64::MAX, u64::MAX), pt(u64::MAX, u64::MAX)]), pt(u64::MAX, u64::MAX));
}

#[test]
fn ill_formed_map_is_detected() {
    let mut map = sample_map();
    map.roads.push(Road { children_forwards: vec![] });
    assert!(!map.is_well_formed());
    let mut map = sample_map();
    map.roads.push(Road { children_forwards: vec![43] });
    assert!(!map.is_well_formed());
    let mut map = sample_map();
    map.parcels.push(Polygon { points: vec![] });
    assert!(!map.is_well_formed());
}

#[test]
fn warp_state_transitions() {
    let map = sample_map();
    let sim = sample_sim(0);
    let mut canvas = Canvas::new(pt(0, 0));
    let mut selected = None;
    let mut st = WarpState::new();
    let (active, r) = st.event(false, InputResult::Done("l1".to_string()), &map, &sim, &mut canvas, &mut selected);
    assert!(!active);
    assert_eq!(r, None);
    assert!(st.draw().is_none());
    let (active, _) = st.event(true, InputResult::Canceled, &map, &sim, &mut canvas, &mut selected);
    assert!(active);
    assert_eq!(st.draw().map(|s| s.as_str()), Some(""));
    let (active, _) = st.event(false, InputResult::StillActive("l4".to_string()), &map, &sim, &mut canvas, &mut selected);
    assert!(active);
    assert_eq!(st.draw().map(|s| s.as_str()), Some("l4"));
    let (active, _) = st.event(false, InputResult::Canceled, &map, &sim, &mut canvas, &mut selected);
    assert!(!active);
    assert_eq!(selected, None);
    st.event(true, InputResult::Canceled, &map, &sim, &mut canvas, &mut selected);
    let (active, r) = st.event(false, InputResult::Done("l1".to_string()), &map, &sim, &mut canvas, &mut selected);
    assert!(!active);
    assert_eq!(r, Some(Resolution::Warped(EntityKind::Lane, 1, pt(101, 201))));
    assert_eq!(selected, Some(EntityID::Lane(1)));
    assert_eq!(canvas.center, pt(101, 201));
}

#[test]
fn follow_needs_agent_with_trip() {
    let sim = sample_sim(0);
    let mut canvas = Canvas::new(pt(0, 0));
    let mut tools = AgentTools::new();
    tools.event(None, &sim, true, false, &mut canvas);
    assert_eq!(tools.following, None);
    tools.event(Some(EntityID::Lane(1)), &sim, true, false, &mut canvas);
    assert_eq!(tools.following, None);
    tools.event(Some(EntityID::Car(0)), &sim, true, false, &mut canvas);
    assert_eq!(tools.following, None);
    assert_eq!(tools.follow_offer(Some(EntityID::Car(0)), &sim), None);
    assert_eq!(tools.follow_offer(Some(EntityID::Pedestrian(1)), &sim), Some((AgentID::Pedestrian(1), TripID(3))));
    tools.event(Some(EntityID::Pedestrian(1)), &sim, false, false, &mut canvas);
    assert_eq!(tools.following, None);
    tools.event(Some(EntityID::Pedestrian(1)), &sim, true, false, &mut canvas);
    assert_eq!(tools.following, Some(Following { trip: TripID(3), last_pt: Some(pt(70, 80)), time: 0 }));
    assert_eq!(canvas.center, pt(0, 0));
    assert_eq!(tools.follow_offer(Some(EntityID::Pedestrian(1)), &sim), None);
}

#[test]
fn follow_recenters_once_per_time() {
    let mut canvas = Canvas::new(pt(0, 0));
    let mut tools = AgentTools::new();
    tools.event(Some(EntityID::Car(1)), &sample_sim(0), true, false, &mut canvas);
    assert_eq!(canvas.center, pt(0, 0));
    let mut sim = sample_sim(1);
    assert_eq!(tools.event(None, &sim, false, false, &mut canvas), None);
    assert_eq!(canvas.center, pt(50, 60));
    sim.trip_points[0] = Some(pt(51, 61));
    tools.event(None, &sim, false, false, &mut canvas);
    assert_eq!(canvas.center, pt(50, 60));
    sim.time = 2;
    tools.event(None, &sim, false, false, &mut canvas);
    assert_eq!(canvas.center, pt(51, 61));
    assert_eq!(tools.following, Some(Following { trip: TripID(0), last_pt: Some(pt(51, 61)), time: 2 }));
}

#[test]
fn vanished_trip_keeps_following() {
    let mut canvas = Canvas::new(pt(0, 0));
    let mut tools = AgentTools::new();
    tools.event(Some(EntityID::Car(1)), &sample_sim(0), true, false, &mut canvas);
    let mut sim = sample_sim(1);
    sim.trip_points[0] = None;
    assert_eq!(tools.event(None, &sim, false, false, &mut canvas), Some(TripID(0)));
    assert_eq!(canvas.center, pt(0, 0));
    assert_eq!(tools.following, Some(Following { trip: TripID(0), last_pt: None, time: 1 }));
    let sim = sample_sim(2);
    assert_eq!(tools.event(None, &sim, false, false, &mut canvas), None);
    assert_eq!(canvas.center, pt(50, 60));
}

#[test]
fn stop_clears_follow_state() {
    let mut canvas = Canvas::new(pt(0, 0));
    let mut tools = AgentTools::new();
    tools.event(Some(EntityID::Car(1)), &sample_sim(0), false, true, &mut canvas);
    assert_eq!(tools.following, None);
    tools.event(Some(EntityID::Car(1)), &sample_sim(0), true, false, &mut canvas);
    assert!(tools.following.is_some());
    tools.event(None, &sample_sim(1), false, true, &mut canvas);
    assert_eq!(tools.following, None);
    assert_eq!(canvas.center, pt(50, 60));
    let mut moved = sample_sim(5);
    moved.trip_points[0] = Some(pt(1, 1));
    tools.event(None, &moved, false, false, &mut canvas);
    assert_eq!(canvas.center, pt(50, 60));
    assert_eq!(tools.following, None);
}

#[test]
fn menu_lines_name_trips() {
    let mut tools = AgentTools::new();
    let mut txt = Vec::new();
    tools.update_menu_info(&mut txt);
    assert!(txt.is_empty());
    let mut canvas = Canvas::new(pt(0, 0));
    tools.event(Some(EntityID::Car(1)), &sample_sim(0), true, false, &mut canvas);
    tools.route_viewer = RouteViewer::Active(AgentID::Pedestrian(1), TripID(3));
    tools.update_menu_info(&mut txt);
    assert_eq!(txt, vec![MenuLine::Following(TripID(0)), MenuLine::ShowingRoute(TripID(3))]);
    assert_eq!(tools.draw(), RouteViewer::Active(AgentID::Pedestrian(1), TripID(3)));
}
