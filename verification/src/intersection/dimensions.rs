//! The lengths that everything else is measured in, derived from the window.

use vstd::prelude::*;
use crate::car::Direction;
use crate::intersection::Point;
use crate::units::WINDOW_LIMIT;

verus! {

/// The lengths of one generation of the geometry. All of them follow from the
/// window's width and height and stay as they are until the window changes.
#[derive(Debug, Clone, Copy, PartialEq, Eq, Structural)]
pub struct Dimensions {
    pub center: Point,
    pub car_width: i64,
    pub lane_width: i64,
    pub safety_distance: i64,
    pub intersection_width: i64,
    pub x_max: i64,
    pub y_max: i64,
    pub speed_unit: i64,
}

/// A window size that a geometry can be derived from.
pub open spec fn window_fits(width: int, height: int) -> bool {
    0 <= width <= WINDOW_LIMIT && 0 <= height <= WINDOW_LIMIT
}

/// A window size whose field has a positive width and height.
pub open spec fn window_has_extent(width: int, height: int) -> bool {
    4 <= width && 2 <= height
}

impl Dimensions {
    /// The lengths are those of a window of this width and height: the largest
    /// 16:9 field that fits, centred in the window, and the road sizes that
    /// follow from its half-width.
    pub open spec fn derived_from(&self, width: int, height: int) -> bool {
        let wide = 9 * width >= 16 * height;
        &&& self.center.x == width / 2
        &&& self.center.y == height / 2
        &&& self.x_max == if wide { (height / 2) * 16 / 9 } else { width / 2 }
        &&& self.y_max == if wide { height / 2 } else { (width / 2) * 9 / 16 }
        &&& self.sizes_follow()
    }

    /// Lane, car, safety margin, junction and speed unit are the fixed
    /// fractions of the half-width.
    pub open spec fn sizes_follow(&self) -> bool {
        &&& self.lane_width == self.x_max / 15
        &&& self.car_width == self.lane_width / 4
        &&& self.safety_distance == 3 * self.car_width
        &&& self.intersection_width == 6 * self.lane_width
        &&& self.speed_unit == self.car_width / 10
    }

    /// What holds of every derived geometry: the field lies inside the window,
    /// whose size is within the limit, and the road sizes follow from it.
    pub open spec fn wf(&self) -> bool {
        &&& 0 <= self.x_max <= self.center.x <= WINDOW_LIMIT / 2
        &&& 0 <= self.y_max <= self.center.y <= WINDOW_LIMIT / 2
        &&& self.sizes_follow()
    }

    /// The half-extent of the field along the line of travel of a heading.
    pub open spec fn extent_along(&self, direction: Direction) -> i64 {
        match direction {
            Direction::North | Direction::South => self.y_max,
            _ => self.x_max,
        }
    }

    /// The coordinate of the centre on the line of travel of a heading.
    pub open spec fn center_along(&self, direction: Direction) -> i64 {
        match direction {
            Direction::North | Direction::South => self.center.y,
            _ => self.center.x,
        }
    }

    /// Both half-extents are positive, so that positions can be rescaled to
    /// this geometry.
    pub open spec fn has_extent(&self) -> bool {
        self.x_max > 0 && self.y_max > 0
    }

    /// Derives the lengths from the window's width and height.
    pub fn new(width: i64, height: i64) -> (dimensions: Dimensions)
        requires
            window_fits(width as int, height as int),
        ensures
            dimensions.derived_from(width as int, height as int),
            dimensions.wf(),
            dimensions.has_extent() == window_has_extent(width as int, height as int),
    {
        let x_max: i64;
        let y_max: i64;
        if 9 * width >= 16 * height {
            y_max = height / 2;
            x_max = y_max * 16 / 9;
        } else {
            x_max = width / 2;
            y_max = x_max * 9 / 16;
        }
        let lane_width: i64 = x_max / 15;
        let car_width: i64 = lane_width / 4;
        Dimensions {
            center: Point { x: width / 2, y: height / 2 },
            car_width,
            lane_width,
            safety_distance: car_width * 3,
            intersection_width: lane_width * 6,
            x_max,
            y_max,
            speed_unit: car_width / 10,
        }
    }

    pub fn get_center(&self) -> (center: Point)
        ensures
            center == self.center,
    {
        self.center
    }

    pub fn get_car_width(&self) -> (width: i64)
        ensures
            width == self.car_width,
    {
        self.car_width
    }

    pub fn get_lane_width(&self) -> (width: i64)
        ensures
            width == self.lane_width,
    {
        self.lane_width
    }

    pub fn get_intersection_width(&self) -> (width: i64)
        ensures
            width == self.intersection_width,
    {
        self.intersection_width
    }

    pub fn get_x_max(&self) -> (extent: i64)
        ensures
            extent == self.x_max,
    {
        self.x_max
    }

    pub fn get_y_max(&self) -> (extent: i64)
        ensures
            extent == self.y_max,
    {
        self.y_max
    }

    pub fn get_speed_unit(&self) -> (unit: i64)
        ensures
            unit == self.speed_unit,
    {
        self.speed_unit
    }

    pub fn get_safety_distance(&self) -> (distance: i64)
        ensures
            distance == self.safety_distance,
    {
        self.safety_distance
    }
}

impl Default for Dimensions {
    /// The lengths of an empty window: all zero.
    fn default() -> (dimensions: Dimensions)
        ensures
            dimensions.derived_from(0, 0),
            dimensions.wf(),
    {
        Dimensions::new(0, 0)
    }
}

} // verus!
