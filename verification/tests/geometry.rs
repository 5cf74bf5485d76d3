use smart_road::car::{Direction, Lane};
use smart_road::intersection::dimensions::Dimensions;
use smart_road::intersection::lanes::{calculate_axis, Lanes};
use smart_road::intersection::{Intersection, Point, Segment};

#[test]
fn dimensions_of_a_sixteen_to_nine_window() {
    let dimensions = Dimensions::new(1_600_000, 900_000);
    assert_eq!(dimensions.get_y_max(), 450_000);
    assert_eq!(dimensions.get_x_max(), 800_000);
    assert_eq!(dimensions.get_center(), Point { x: 800_000, y: 450_000 });
}

#[test]
fn dimensions_of_a_wider_window_are_bound_by_its_height() {
    let dimensions = Dimensions::new(2_000_000, 900_000);
    assert_eq!(dimensions.get_y_max(), 450_000);
    assert_eq!(dimensions.get_x_max(), 800_000);
    assert_eq!(dimensions.get_center(), Point { x: 1_000_000, y: 450_000 });
}

#[test]
fn dimensions_of_a_narrower_window_are_bound_by_its_width() {
    let dimensions = Dimensions::new(900_000, 1_600_000);
    assert_eq!(dimensions.get_x_max(), 450_000);
    assert_eq!(dimensions.get_y_max(), 253_125);
    assert_eq!(dimensions.get_center(), Point { x: 450_000, y: 800_000 });
}

#[test]
fn road_sizes_follow_from_the_half_width() {
    let dimensions = Dimensions::new(1_600_000, 900_000);
    assert_eq!(dimensions.get_lane_width(), 53_333);
    assert_eq!(dimensions.get_car_width(), 13_333);
    assert_eq!(dimensions.get_safety_distance(), 39_999);
    assert_eq!(dimensions.get_intersection_width(), 319_998);
    assert_eq!(dimensions.get_speed_unit(), 1_333);
}

#[test]
fn dimensions_of_an_empty_window_are_zero() {
    let dimensions = Dimensions::new(0, 0);
    assert_eq!(dimensions, Dimensions::default());
    assert_eq!(dimensions.get_x_max(), 0);
    assert_eq!(dimensions.get_y_max(), 0);
    assert_eq!(dimensions.get_lane_width(), 0);
}

#[test]
fn dimensions_at_the_window_limit() {
    let dimensions = Dimensions::new(1_000_000_000_000, 1_000_000_000_000);
    assert_eq!(dimensions.get_x_max(), 500_000_000_000);
    assert_eq!(dimensions.get_y_max(), 281_250_000_000);
}

#[test]
fn lane_axes_lie_on_their_side_of_the_centre() {
    let intersection = Intersection::new(1_600_000, 900_000);
    assert_eq!(
        intersection.get_lanes(Direction::South),
        Lanes { left_axis: 773_334, middle_axis: 720_001, right_axis: 666_668 }
    );
    assert_eq!(
        intersection.get_lanes(Direction::North),
        Lanes { left_axis: 826_666, middle_axis: 879_999, right_axis: 933_332 }
    );
    assert_eq!(
        intersection.get_lanes(Direction::West),
        Lanes { left_axis: 423_334, middle_axis: 370_001, right_axis: 316_668 }
    );
    assert_eq!(
        intersection.get_lanes(Direction::East),
        Lanes { left_axis: 476_666, middle_axis: 529_999, right_axis: 583_332 }
    );
}

#[test]
fn lane_axis_by_lane() {
    let lanes = Lanes { left_axis: 1, middle_axis: 2, right_axis: 3 };
    assert_eq!(lanes.get_axis(Lane::Left), 1);
    assert_eq!(lanes.get_axis(Lane::Middle), 2);
    assert_eq!(lanes.get_axis(Lane::Right), 3);
}

#[test]
fn calculate_axis_replaces_stale_axes() {
    let mut intersection = Intersection::new(1_600_000, 900_000);
    let placed = intersection;
    intersection.north = Lanes::default();
    intersection.west = Lanes { left_axis: 7, middle_axis: 8, right_axis: 9 };
    calculate_axis(&mut intersection);
    assert_eq!(intersection, placed);
}

#[test]
fn intersection_records_its_window() {
    let intersection = Intersection::new(1_800_000, 1_000_000);
    assert_eq!(intersection.get_window_width(), 1_800_000);
    assert_eq!(intersection.get_window_height(), 1_000_000);
    assert_eq!(intersection.get_dimensions(), Dimensions::new(1_800_000, 1_000_000));
    assert!(!intersection.has_changed(1_800_000, 1_000_000));
    assert!(intersection.has_changed(1_800_001, 1_000_000));
    assert!(intersection.has_changed(1_800_000, 999_999));
}

#[test]
fn default_intersection_is_that_of_an_empty_window() {
    assert_eq!(Intersection::default(), Intersection::new(0, 0));
    assert_eq!(Point::default(), Point { x: 0, y: 0 });
}

#[test]
fn lane_markings_are_twenty_eight_lines() {
    let intersection = Intersection::new(1_600_000, 900_000);
    let lines = intersection.draw();
    assert_eq!(lines.len(), 28);
    // Topmost line of the west arm and its continuation on the east arm.
    assert_eq!(
        lines[0],
        Segment { from: Point { x: 0, y: 290_001 }, to: Point { x: 640_001, y: 290_001 } }
    );
    assert_eq!(
        lines[1],
        Segment {
            from: Point { x: 959_999, y: 290_001 },
            to: Point { x: 1_600_000, y: 290_001 }
        }
    );
    // Leftmost line of the north arm and of the south arm.
    assert_eq!(
        lines[2],
        Segment { from: Point { x: 640_001, y: 290_001 }, to: Point { x: 640_001, y: 0 } }
    );
    assert_eq!(
        lines[3],
        Segment {
            from: Point { x: 640_001, y: 609_999 },
            to: Point { x: 640_001, y: 900_000 }
        }
    );
    // The last line runs three lanes beyond the centre.
    assert_eq!(
        lines[27],
        Segment {
            from: Point { x: 959_999, y: 609_999 },
            to: Point { x: 959_999, y: 900_000 }
        }
    );
}

#[test]
fn lane_axes_are_twelve_lines_through_the_lane_middles() {
    let intersection = Intersection::new(1_600_000, 900_000);
    let lines = intersection.draw_axis();
    assert_eq!(lines.len(), 12);
    // The first axis is the right lane of the heading south.
    assert_eq!(
        lines[0],
        Segment { from: Point { x: 666_667, y: 0 }, to: Point { x: 666_667, y: 900_000 } }
    );
    assert_eq!(
        lines[1],
        Segment { from: Point { x: 0, y: 316_667 }, to: Point { x: 1_600_000, y: 316_667 } }
    );
    assert_eq!(
        lines[10],
        Segment { from: Point { x: 933_332, y: 0 }, to: Point { x: 933_332, y: 900_000 } }
    );
}
