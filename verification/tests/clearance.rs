use smart_road::car::clearance::{
    get_crossing_box, get_narrow_box, get_right_lane_box, headings_cross, ConflictBox, Half,
};
use smart_road::car::{Car, Direction, Lane};
use smart_road::state::GlobalState;

fn state_with(cars: Vec<Car>) -> GlobalState {
    let mut state = GlobalState::new(1_600_000, 900_000);
    state.set_cars(cars);
    state
}

fn car_at(direction: Direction, lane: Lane, x: i64, y: i64) -> Car {
    let state = GlobalState::new(1_600_000, 900_000);
    let mut car = Car::spawn(direction, lane, 0, &state.intersection);
    car.set_x(x);
    car.set_y(y);
    car
}

#[test]
fn same_lane_is_not_clear_behind_a_vehicle_one_pixel_ahead() {
    let a = car_at(Direction::South, Lane::Middle, 720_001, 0);
    let mut b = car_at(Direction::South, Lane::Middle, 720_001, a.get_y() + 1_000);
    b.set_speed(1_000);
    let state = state_with(vec![a, b]);
    let mut me = a;
    assert!(!me.is_at_intersection(&state));
    assert!(!me.same_lane_is_clear(&state));
    assert_eq!(me.get_target_speed(), 900);
    assert_eq!(me, Car { target_speed: 900, ..a });
}

#[test]
fn same_lane_governor_rounds_towards_zero() {
    let a = car_at(Direction::South, Lane::Middle, 720_001, 0);
    let mut b = car_at(Direction::South, Lane::Middle, 720_001, 1_000);
    b.set_speed(1_995);
    let state = state_with(vec![b]);
    let mut me = a;
    assert!(!me.same_lane_is_clear(&state));
    assert_eq!(me.get_target_speed(), 1_795);
}

#[test]
fn same_lane_is_clear_on_an_empty_road() {
    let a = car_at(Direction::South, Lane::Middle, 720_001, 0);
    let state = state_with(vec![a]);
    let mut me = a;
    me.set_target_speed(777);
    let before = me;
    assert!(me.same_lane_is_clear(&state));
    assert_eq!(me, before);
    let empty = state_with(vec![]);
    assert!(me.same_lane_is_clear(&empty));
}

#[test]
fn same_lane_looks_one_car_and_one_lane_ahead_on_the_open_road() {
    let a = car_at(Direction::South, Lane::Middle, 720_001, 0);
    let near = car_at(Direction::South, Lane::Middle, 720_001, 66_665);
    let far = car_at(Direction::South, Lane::Middle, 720_001, 66_666);
    let mut me = a;
    assert!(!me.same_lane_is_clear(&state_with(vec![near])));
    let mut me = a;
    assert!(me.same_lane_is_clear(&state_with(vec![far])));
}

#[test]
fn same_lane_looks_further_at_the_junction() {
    // Heading south: one car width and 1.8 safety distances.
    let south = car_at(Direction::South, Lane::Middle, 720_001, 300_000);
    let near = car_at(Direction::South, Lane::Middle, 720_001, 300_000 + 85_330);
    let far = car_at(Direction::South, Lane::Middle, 720_001, 300_000 + 85_331);
    let mut me = south;
    assert!(me.is_at_intersection(&state_with(vec![])));
    assert!(!me.same_lane_is_clear(&state_with(vec![near])));
    let mut me = south;
    assert!(me.same_lane_is_clear(&state_with(vec![far])));
    // Heading north: one car width and 1.5 safety distances.
    let north = car_at(Direction::North, Lane::Middle, 879_999, 600_000);
    let near = car_at(Direction::North, Lane::Middle, 879_999, 600_000 - 73_330);
    let far = car_at(Direction::North, Lane::Middle, 879_999, 600_000 - 73_331);
    let mut me = north;
    assert!(!me.same_lane_is_clear(&state_with(vec![near])));
    let mut me = north;
    assert!(me.same_lane_is_clear(&state_with(vec![far])));
}

#[test]
fn same_lane_heading_west_and_east() {
    let west = car_at(Direction::West, Lane::Left, 1_600_000, 423_334);
    let lead = car_at(Direction::West, Lane::Left, 1_600_000 - 66_665, 423_334);
    let behind = car_at(Direction::West, Lane::Left, 1_600_000 + 10, 423_334);
    let mut me = west;
    assert!(!me.same_lane_is_clear(&state_with(vec![behind, lead])));
    let mut me = west;
    assert!(me.same_lane_is_clear(&state_with(vec![behind])));
    let east = car_at(Direction::East, Lane::Right, 0, 583_332);
    let lead = car_at(Direction::East, Lane::Right, 66_665, 583_332);
    let mut me = east;
    assert!(!me.same_lane_is_clear(&state_with(vec![lead])));
}

#[test]
fn same_lane_ignores_other_lanes_headings_and_vehicles_behind() {
    let a = car_at(Direction::South, Lane::Middle, 720_001, 100_000);
    let other_lane = car_at(Direction::South, Lane::Left, 773_334, 101_000);
    let other_heading = car_at(Direction::North, Lane::Middle, 720_001, 101_000);
    let behind = car_at(Direction::South, Lane::Middle, 720_001, 99_000);
    let beside = car_at(Direction::South, Lane::Middle, 720_001, 100_000);
    let mut me = a;
    assert!(me.same_lane_is_clear(&state_with(vec![other_lane, other_heading, behind, beside])));
}

#[test]
fn same_lane_takes_the_first_lead_in_fleet_order() {
    let a = car_at(Direction::South, Lane::Middle, 720_001, 0);
    let mut first = car_at(Direction::South, Lane::Middle, 720_001, 40_000);
    first.set_speed(1_000);
    let mut second = car_at(Direction::South, Lane::Middle, 720_001, 20_000);
    second.set_speed(500);
    let mut me = a;
    assert!(!me.same_lane_is_clear(&state_with(vec![first, second])));
    assert_eq!(me.get_target_speed(), 900);
    let mut me = a;
    assert!(!me.same_lane_is_clear(&state_with(vec![second, first])));
    assert_eq!(me.get_target_speed(), 450);
}

#[test]
fn at_intersection_before_the_turn() {
    let state = state_with(vec![]);
    assert!(!car_at(Direction::South, Lane::Middle, 720_001, 263_335).is_at_intersection(&state));
    assert!(car_at(Direction::South, Lane::Middle, 720_001, 263_336).is_at_intersection(&state));
    assert!(!car_at(Direction::North, Lane::Middle, 879_999, 636_665).is_at_intersection(&state));
    assert!(car_at(Direction::North, Lane::Middle, 879_999, 636_664).is_at_intersection(&state));
    assert!(!car_at(Direction::East, Lane::Middle, 613_335, 529_999).is_at_intersection(&state));
    assert!(car_at(Direction::East, Lane::Middle, 613_336, 529_999).is_at_intersection(&state));
    assert!(!car_at(Direction::West, Lane::Middle, 986_665, 370_001).is_at_intersection(&state));
    assert!(car_at(Direction::West, Lane::Middle, 986_664, 370_001).is_at_intersection(&state));
}

#[test]
fn at_intersection_after_the_turn() {
    let state = state_with(vec![]);
    let turned = |direction, x, y| {
        let mut car = car_at(direction, Lane::Middle, x, y);
        car.leaving_intersection(true);
        car
    };
    assert!(turned(Direction::South, 720_001, 596_665).is_at_intersection(&state));
    assert!(!turned(Direction::South, 720_001, 596_666).is_at_intersection(&state));
    assert!(turned(Direction::North, 879_999, 303_335).is_at_intersection(&state));
    assert!(!turned(Direction::North, 879_999, 303_334).is_at_intersection(&state));
    assert!(turned(Direction::East, 946_665, 529_999).is_at_intersection(&state));
    assert!(!turned(Direction::East, 946_666, 529_999).is_at_intersection(&state));
    assert!(turned(Direction::West, 653_335, 370_001).is_at_intersection(&state));
    assert!(!turned(Direction::West, 653_334, 370_001).is_at_intersection(&state));
    // A vehicle that has turned counts as at the junction however far it is
    // from it on the near side.
    assert!(turned(Direction::South, 720_001, -5_000_000).is_at_intersection(&state));
}

#[test]
fn crossing_boxes_carry_the_tuned_measures() {
    let state = GlobalState::new(1_600_000, 900_000);
    let d = state.get_intersection().get_dimensions();
    assert_eq!(
        get_crossing_box(&d, Direction::North, Lane::Left, Half::Before),
        ConflictBox { near: 7_999, far: Some(90_665), low: 31_999, high: 37_333 }
    );
    assert_eq!(
        get_crossing_box(&d, Direction::North, Lane::Left, Half::Past),
        ConflictBox { near: 7_999, far: Some(79_999), low: 31_999, high: 37_333 }
    );
    assert_eq!(
        get_crossing_box(&d, Direction::North, Lane::Middle, Half::Before),
        ConflictBox { near: 7_999, far: Some(79_999), low: 31_999, high: 37_333 }
    );
    assert_eq!(
        get_crossing_box(&d, Direction::South, Lane::Left, Half::Before),
        ConflictBox { near: 7_999, far: Some(133_332), low: 31_999, high: 31_999 }
    );
    assert_eq!(
        get_crossing_box(&d, Direction::South, Lane::Middle, Half::Past),
        ConflictBox { near: 7_999, far: None, low: 31_999, high: 31_999 }
    );
    assert_eq!(
        get_crossing_box(&d, Direction::West, Lane::Left, Half::Before),
        ConflictBox { near: 7_999, far: Some(159_999), low: 31_999, high: 31_999 }
    );
    assert_eq!(
        get_crossing_box(&d, Direction::West, Lane::Left, Half::Past),
        ConflictBox { near: 7_999, far: Some(53_333), low: 37_333, high: 31_999 }
    );
    assert_eq!(
        get_crossing_box(&d, Direction::West, Lane::Middle, Half::Before),
        ConflictBox { near: 7_999, far: Some(63_999), low: 37_333, high: 37_333 }
    );
    assert_eq!(
        get_crossing_box(&d, Direction::West, Lane::Middle, Half::Past),
        ConflictBox { near: 7_999, far: Some(63_999), low: 42_666, high: 37_333 }
    );
    assert_eq!(
        get_crossing_box(&d, Direction::East, Lane::Left, Half::Before),
        ConflictBox { near: 7_999, far: Some(133_332), low: 31_999, high: 37_333 }
    );
    assert_eq!(
        get_crossing_box(&d, Direction::East, Lane::Left, Half::Past),
        ConflictBox { near: 7_999, far: Some(63_999), low: 31_999, high: 31_999 }
    );
    assert_eq!(
        get_crossing_box(&d, Direction::East, Lane::Middle, Half::Before),
        ConflictBox { near: 7_999, far: Some(159_999), low: 31_999, high: 31_999 }
    );
    assert_eq!(
        get_crossing_box(&d, Direction::East, Lane::Middle, Half::Past),
        ConflictBox { near: 7_999, far: Some(79_999), low: 31_999, high: 37_333 }
    );
}

#[test]
fn right_lane_and_narrow_boxes_carry_the_tuned_measures() {
    let state = GlobalState::new(1_600_000, 900_000);
    let d = state.get_intersection().get_dimensions();
    assert_eq!(
        get_right_lane_box(&d, Direction::North),
        ConflictBox { near: 7_999, far: Some(53_333), low: 26_666, high: 26_666 }
    );
    assert_eq!(
        get_right_lane_box(&d, Direction::South),
        ConflictBox { near: 6_666, far: Some(63_999), low: 9_333, high: 26_666 }
    );
    assert_eq!(
        get_right_lane_box(&d, Direction::West),
        ConflictBox { near: 6_666, far: Some(53_333), low: 26_666, high: 26_666 }
    );
    assert_eq!(
        get_right_lane_box(&d, Direction::East),
        ConflictBox { near: 6_666, far: Some(53_333), low: 26_666, high: 26_666 }
    );
    assert_eq!(
        get_narrow_box(&d, Direction::South),
        ConflictBox { near: 6_666, far: Some(95_999), low: 17_332, high: 17_332 }
    );
    assert_eq!(
        get_narrow_box(&d, Direction::West),
        ConflictBox { near: 6_666, far: Some(79_999), low: 17_332, high: 17_332 }
    );
    assert_eq!(
        get_narrow_box(&d, Direction::North),
        ConflictBox { near: 6_666, far: Some(74_666), low: 17_332, high: 17_332 }
    );
    assert_eq!(
        get_narrow_box(&d, Direction::East),
        ConflictBox { near: 6_666, far: Some(85_332), low: 17_332, high: 17_332 }
    );
}

#[test]
fn box_sides_are_open() {
    let region = ConflictBox { near: 10, far: Some(20), low: 5, high: 7 };
    assert!(region.contains(11, 0));
    assert!(region.contains(19, -4));
    assert!(region.contains(19, 6));
    assert!(!region.contains(10, 0));
    assert!(!region.contains(20, 0));
    assert!(!region.contains(15, -5));
    assert!(!region.contains(15, 7));
    let open = ConflictBox { near: 10, far: None, low: 5, high: 7 };
    assert!(open.contains(1_000_000_000_000_000_000_000, 0));
    assert!(!open.contains(10, 0));
}

#[test]
fn headings_cross_when_one_is_upright_and_the_other_is_not() {
    assert!(headings_cross(Direction::North, Direction::East));
    assert!(headings_cross(Direction::North, Direction::West));
    assert!(headings_cross(Direction::South, Direction::East));
    assert!(headings_cross(Direction::West, Direction::South));
    assert!(headings_cross(Direction::East, Direction::North));
    assert!(!headings_cross(Direction::North, Direction::South));
    assert!(!headings_cross(Direction::North, Direction::North));
    assert!(!headings_cross(Direction::East, Direction::West));
}

#[test]
fn crossing_is_blocked_by_a_moving_vehicle_in_the_box() {
    let me = car_at(Direction::North, Lane::Left, 826_666, 500_000);
    let mut other = car_at(Direction::East, Lane::Middle, 836_666, 450_000);
    other.set_speed(1_000);
    let state = state_with(vec![me, other]);
    let mut probe = me;
    probe.set_target_speed(1_200);
    assert!(!probe.crossing_lane_is_clear(&state));
    assert_eq!(probe, Car { target_speed: 0, ..me });
}

#[test]
fn crossing_defers_to_the_narrow_box_for_a_vehicle_at_rest() {
    let me = car_at(Direction::North, Lane::Left, 826_666, 500_000);
    // At rest and straight ahead: the narrow box is not free either.
    let ahead = car_at(Direction::East, Lane::Middle, 836_666, 450_000);
    let mut probe = me;
    assert!(!probe.narrow_crossing_lane_is_clear(&state_with(vec![ahead])));
    assert!(!probe.crossing_lane_is_clear(&state_with(vec![ahead])));
    // At rest and off to the side: in the wide box, not in the narrow one.
    let aside = car_at(Direction::East, Lane::Middle, 846_666, 450_000);
    let mut probe = me;
    probe.set_target_speed(1_200);
    let before = probe;
    assert!(probe.narrow_crossing_lane_is_clear(&state_with(vec![aside])));
    assert!(probe.crossing_lane_is_clear(&state_with(vec![aside])));
    assert_eq!(probe, before);
    // The same vehicle in motion blocks.
    let mut moving = aside;
    moving.set_speed(150);
    assert!(!probe.crossing_lane_is_clear(&state_with(vec![moving])));
}

#[test]
fn crossing_ignores_parallel_traffic_and_vehicles_on_its_own_coordinates() {
    let me = car_at(Direction::North, Lane::Left, 826_666, 500_000);
    let mut parallel = car_at(Direction::South, Lane::Left, 836_666, 450_000);
    parallel.set_speed(1_000);
    let mut same_x = car_at(Direction::East, Lane::Middle, 826_666, 450_000);
    same_x.set_speed(1_000);
    let mut probe = me;
    assert!(probe.crossing_lane_is_clear(&state_with(vec![parallel, same_x, me])));
}

#[test]
fn crossing_box_has_open_sides() {
    let me = car_at(Direction::North, Lane::Left, 826_666, 500_000);
    let blocks = |x: i64, y: i64| {
        let mut other = car_at(Direction::West, Lane::Middle, x, y);
        other.set_speed(1_000);
        let mut probe = me;
        !probe.crossing_lane_is_clear(&state_with(vec![other]))
    };
    assert!(!blocks(830_000, 500_000 - 7_999));
    assert!(blocks(830_000, 500_000 - 8_000));
    assert!(blocks(830_000, 500_000 - 90_664));
    assert!(!blocks(830_000, 500_000 - 90_665));
    assert!(!blocks(826_666 - 31_999, 450_000));
    assert!(blocks(826_666 - 31_998, 450_000));
    assert!(blocks(826_666 + 37_332, 450_000));
    assert!(!blocks(826_666 + 37_333, 450_000));
}

#[test]
fn crossing_box_is_shorter_past_the_middle() {
    let mut other = car_at(Direction::West, Lane::Middle, 830_000, 0);
    other.set_speed(1_000);
    let before = car_at(Direction::North, Lane::Left, 826_666, 500_000);
    other.set_y(500_000 - 85_000);
    let mut probe = before;
    assert!(!probe.crossing_lane_is_clear(&state_with(vec![other])));
    let past = car_at(Direction::North, Lane::Left, 826_666, 400_000);
    other.set_y(400_000 - 85_000);
    let mut probe = past;
    assert!(probe.crossing_lane_is_clear(&state_with(vec![other])));
    other.set_y(400_000 - 79_998);
    assert!(!probe.crossing_lane_is_clear(&state_with(vec![other])));
}

#[test]
fn crossing_is_clear_outside_the_junction_and_on_its_middle_line() {
    let mut other = car_at(Direction::West, Lane::Middle, 830_000, 0);
    other.set_speed(1_000);
    let outside = car_at(Direction::North, Lane::Left, 826_666, 450_000 + 159_999);
    other.set_y(outside.get_y() - 50_000);
    let mut probe = outside;
    assert!(probe.crossing_lane_is_clear(&state_with(vec![other])));
    let inside = car_at(Direction::North, Lane::Left, 826_666, 450_000 + 159_998);
    other.set_y(inside.get_y() - 50_000);
    let mut probe = inside;
    assert!(!probe.crossing_lane_is_clear(&state_with(vec![other])));
    let middle = car_at(Direction::North, Lane::Left, 826_666, 450_000);
    other.set_y(middle.get_y() - 50_000);
    let mut probe = middle;
    assert!(probe.crossing_lane_is_clear(&state_with(vec![other])));
}

#[test]
fn south_past_the_middle_looks_ahead_without_end() {
    let me = car_at(Direction::South, Lane::Middle, 720_001, 500_000);
    let mut other = car_at(Direction::East, Lane::Middle, 730_000, 5_000_000);
    other.set_speed(1_000);
    let mut probe = me;
    assert!(!probe.crossing_lane_is_clear(&state_with(vec![other])));
    let before = car_at(Direction::South, Lane::Middle, 720_001, 400_000);
    let mut probe = before;
    assert!(probe.crossing_lane_is_clear(&state_with(vec![other])));
}

#[test]
fn right_lane_is_held_to_a_creep_by_any_vehicle_ahead() {
    let me = car_at(Direction::North, Lane::Right, 933_332, 800_000);
    let mut other = car_at(Direction::North, Lane::Middle, 920_000, 770_000);
    other.set_speed(1_000);
    let mut probe = me;
    probe.set_target_speed(1_200);
    assert!(!probe.crossing_lane_is_clear(&state_with(vec![other])));
    assert_eq!(probe, Car { target_speed: 200, ..me });

    let south = car_at(Direction::South, Lane::Right, 666_668, 100_000);
    let mut near_side = car_at(Direction::East, Lane::Middle, 666_668 - 9_332, 130_000);
    near_side.set_speed(500);
    let mut probe = south;
    assert!(!probe.crossing_lane_is_clear(&state_with(vec![near_side])));
    assert_eq!(probe.get_target_speed(), 200);
    near_side.set_x(666_668 - 9_333);
    let mut probe = south;
    assert!(probe.crossing_lane_is_clear(&state_with(vec![near_side])));

    let west = car_at(Direction::West, Lane::Right, 1_000_000, 316_668);
    let mut ahead = car_at(Direction::South, Lane::Middle, 1_000_000 - 30_000, 320_000);
    ahead.set_speed(500);
    let mut probe = west;
    assert!(!probe.crossing_lane_is_clear(&state_with(vec![ahead])));
    assert_eq!(probe.get_target_speed(), 200);

    let east = car_at(Direction::East, Lane::Right, 100_000, 583_332);
    let mut ahead = car_at(Direction::East, Lane::Middle, 130_000, 570_000);
    ahead.set_speed(500);
    let mut probe = east;
    assert!(!probe.crossing_lane_is_clear(&state_with(vec![ahead])));
}

#[test]
fn west_and_east_cross_against_upright_traffic() {
    let west = car_at(Direction::West, Lane::Left, 900_000, 423_334);
    let mut upright = car_at(Direction::South, Lane::Middle, 800_000, 430_000);
    upright.set_speed(700);
    let mut probe = west;
    assert!(!probe.crossing_lane_is_clear(&state_with(vec![upright])));
    let mut level = upright;
    level.set_current_direction(Direction::East);
    let mut probe = west;
    assert!(probe.crossing_lane_is_clear(&state_with(vec![level])));

    let east = car_at(Direction::East, Lane::Middle, 700_000, 529_999);
    let mut upright = car_at(Direction::North, Lane::Middle, 850_000, 540_000);
    upright.set_speed(700);
    let mut probe = east;
    assert!(!probe.crossing_lane_is_clear(&state_with(vec![upright])));
    let mut level = upright;
    level.set_current_direction(Direction::West);
    let mut probe = east;
    assert!(probe.crossing_lane_is_clear(&state_with(vec![level])));
}

#[test]
fn narrow_box_by_heading() {
    let blocks = |me: Car, x: i64, y: i64| {
        let other = car_at(Direction::North, Lane::Middle, x, y);
        let mut probe = me;
        let clear = probe.narrow_crossing_lane_is_clear(&state_with(vec![other, me]));
        assert_eq!(probe, me);
        !clear
    };
    let south = car_at(Direction::South, Lane::Middle, 720_001, 400_000);
    assert!(blocks(south, 725_000, 400_000 + 95_998));
    assert!(!blocks(south, 725_000, 400_000 + 95_999));
    assert!(!blocks(south, 725_000, 400_000 + 6_666));
    assert!(!blocks(south, 720_001 + 17_332, 450_000));
    assert!(blocks(south, 720_001 + 17_331, 450_000));
    assert!(!blocks(south, 720_001, 450_000));
    let north = car_at(Direction::North, Lane::Middle, 879_999, 500_000);
    assert!(blocks(north, 885_000, 500_000 - 74_665));
    assert!(!blocks(north, 885_000, 500_000 - 74_666));
    let west = car_at(Direction::West, Lane::Middle, 900_000, 370_001);
    assert!(blocks(west, 900_000 - 79_998, 375_000));
    assert!(!blocks(west, 900_000 - 79_999, 375_000));
    let east = car_at(Direction::East, Lane::Middle, 700_000, 529_999);
    assert!(blocks(east, 700_000 + 85_331, 535_000));
    assert!(!blocks(east, 700_000 + 85_332, 535_000));
}

#[test]
fn adjust_speed_cruises_on_the_open_road() {
    let me = car_at(Direction::South, Lane::Middle, 720_001, 0);
    let state = state_with(vec![me]);
    let mut car = me;
    car.adjust_speed(&state);
    assert_eq!(car, Car { target_speed: 2_200, speed: 150, y: 199, ..me });
}

#[test]
fn adjust_speed_slows_to_crossing_speed_at_the_junction() {
    let mut me = car_at(Direction::South, Lane::Middle, 720_001, 300_000);
    me.set_speed(2_200);
    let state = state_with(vec![me]);
    let mut car = me;
    car.adjust_speed(&state);
    // 1.333 * 2.05 = 2.73265
    assert_eq!(car, Car { target_speed: 1_200, speed: 2_050, y: 302_732, ..me });
}

#[test]
fn adjust_speed_brakes_behind_a_lead_vehicle_and_before_crossing_traffic() {
    let mut me = car_at(Direction::South, Lane::Middle, 720_001, 0);
    me.set_speed(400);
    let mut lead = car_at(Direction::South, Lane::Middle, 720_001, 30_000);
    lead.set_speed(2_000);
    let mut car = me;
    car.adjust_speed(&state_with(vec![me, lead]));
    assert_eq!(car, Car { target_speed: 0, speed: 250, y: 333, ..me });

    let mut me = car_at(Direction::North, Lane::Left, 826_666, 500_000);
    me.set_speed(100);
    let mut other = car_at(Direction::East, Lane::Middle, 836_666, 450_000);
    other.set_speed(1_000);
    let mut car = me;
    car.adjust_speed(&state_with(vec![me, other]));
    assert_eq!(car, Car { target_speed: 0, speed: 0, ..me });
}
