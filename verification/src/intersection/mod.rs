//! The junction: window, dimensions and lane axes.

pub mod dimensions;
pub mod lanes;

use vstd::prelude::*;
use vstd::pervasive::unreached;
use crate::car::{Direction, Lane};
use crate::intersection::dimensions::{window_fits, window_has_extent, Dimensions};
use crate::intersection::lanes::{calculate_axis, Lanes};
use crate::units::{tenths, tenths_of, WINDOW_LIMIT};

verus! {

/// A point of the window, `x` to the right and `y` downwards.
#[derive(Debug, Clone, Copy, PartialEq, Eq, Structural)]
pub struct Point {
    pub x: i64,
    pub y: i64,
}

/// A straight line to draw, from one point to another.
#[derive(Debug, Clone, Copy, PartialEq, Eq, Structural)]
pub struct Segment {
    pub from: Point,
    pub to: Point,
}

/// The line from `(x1, y1)` to `(x2, y2)`.
pub open spec fn segment(x1: int, y1: int, x2: int, y2: int) -> Segment {
    Segment { from: Point { x: x1 as i64, y: y1 as i64 }, to: Point { x: x2 as i64, y: y2 as i64 } }
}

/// The lane markings. Seven lines bound the six lanes of each road; line
/// `k / 4` of them, counted from the top or the left, is drawn on arm
/// `k % 4`: from the left edge of the field to the junction, from the
/// junction to the right edge, from the junction up to the top edge, and from
/// the junction down to the bottom edge.
pub open spec fn road_line(dimensions: Dimensions, k: int) -> Segment {
    let d = dimensions;
    let reach = 3 * d.lane_width;
    let across = (k / 4) * d.lane_width - reach;
    if k % 4 == 0 {
        segment(d.center.x - d.x_max, d.center.y + across, d.center.x - reach, d.center.y + across)
    } else if k % 4 == 1 {
        segment(d.center.x + reach, d.center.y + across, d.center.x + d.x_max, d.center.y + across)
    } else if k % 4 == 2 {
        segment(d.center.x + across, d.center.y - reach, d.center.x + across, d.center.y - d.y_max)
    } else {
        segment(d.center.x + across, d.center.y + reach, d.center.x + across, d.center.y + d.y_max)
    }
}

/// The lane axes, for checking a geometry by eye. Axis `k / 2`, counted from
/// the left or the top, is drawn from top to bottom of the window if `k` is
/// even and from left to right if it is odd.
pub open spec fn axis_line(dimensions: Dimensions, k: int) -> Segment {
    let d = dimensions;
    let across = tenths(5 + 10 * (k / 2), d.lane_width as int) - 3 * d.lane_width;
    if k % 2 == 0 {
        segment(d.center.x + across, 0, d.center.x + across, 2 * d.center.y)
    } else {
        segment(0, d.center.y + across, 2 * d.center.x, d.center.y + across)
    }
}

/// The geometry of the junction for one window size.
#[derive(Debug, Clone, Copy, PartialEq, Eq, Structural)]
pub struct Intersection {
    pub window_width: i64,
    pub window_height: i64,
    pub dimensions: Dimensions,
    pub north: Lanes,
    pub east: Lanes,
    pub south: Lanes,
    pub west: Lanes,
}

impl Intersection {
    /// The lane axes of vehicles heading `direction`.
    pub open spec fn lanes(&self, direction: Direction) -> Lanes {
        match direction {
            Direction::North => self.north,
            Direction::East => self.east,
            Direction::South => self.south,
            _ => self.west,
        }
    }

    /// The lateral coordinate that a vehicle heading `direction` in `lane`
    /// keeps to.
    pub open spec fn lane_axis(&self, direction: Direction, lane: Lane) -> i64 {
        self.lanes(direction).axis(lane)
    }

    /// The axes of all four headings are where the dimensions put them.
    pub open spec fn lanes_placed(&self) -> bool {
        &&& self.north.placed(self.dimensions, Direction::North)
        &&& self.east.placed(self.dimensions, Direction::East)
        &&& self.south.placed(self.dimensions, Direction::South)
        &&& self.west.placed(self.dimensions, Direction::West)
    }

    /// The geometry is the one derived from the window size that it records.
    pub open spec fn wf(&self) -> bool {
        &&& window_fits(self.window_width as int, self.window_height as int)
        &&& self.dimensions.derived_from(self.window_width as int, self.window_height as int)
        &&& self.dimensions.wf()
        &&& self.lanes_placed()
    }

    /// Derives the whole geometry from the window's width and height.
    pub fn new(width: i64, height: i64) -> (intersection: Intersection)
        requires
            window_fits(width as int, height as int),
        ensures
            intersection.wf(),
            intersection.window_width == width,
            intersection.window_height == height,
            intersection.dimensions.has_extent() == window_has_extent(width as int, height as int),
    {
        let unset = Lanes::default();
        let mut intersection = Intersection {
            window_width: width,
            window_height: height,
            dimensions: Dimensions::new(width, height),
            north: unset,
            east: unset,
            south: unset,
            west: unset,
        };
        calculate_axis(&mut intersection);
        intersection
    }

    /// Tells whether the geometry is the one derived from the window size
    /// that it records.
    pub fn is_wf(&self) -> (ok: bool)
        ensures
            ok == self.wf(),
    {
        if self.window_width < 0 || self.window_width > WINDOW_LIMIT || self.window_height < 0
            || self.window_height > WINDOW_LIMIT {
            return false;
        }
        let derived = Intersection::new(self.window_width, self.window_height);
        proof {
            if self.wf() {
                assert(self.north.axis(Lane::Left) == derived.north.axis(Lane::Left));
                assert(self.north.axis(Lane::Middle) == derived.north.axis(Lane::Middle));
                assert(self.north.axis(Lane::Right) == derived.north.axis(Lane::Right));
                assert(self.east.axis(Lane::Left) == derived.east.axis(Lane::Left));
                assert(self.east.axis(Lane::Middle) == derived.east.axis(Lane::Middle));
                assert(self.east.axis(Lane::Right) == derived.east.axis(Lane::Right));
                assert(self.south.axis(Lane::Left) == derived.south.axis(Lane::Left));
                assert(self.south.axis(Lane::Middle) == derived.south.axis(Lane::Middle));
                assert(self.south.axis(Lane::Right) == derived.south.axis(Lane::Right));
                assert(self.west.axis(Lane::Left) == derived.west.axis(Lane::Left));
                assert(self.west.axis(Lane::Middle) == derived.west.axis(Lane::Middle));
                assert(self.west.axis(Lane::Right) == derived.west.axis(Lane::Right));
            }
        }
        *self == derived
    }

    /// Describes the lane markings as the lines to draw.
    pub fn draw(&self) -> (lines: Vec<Segment>)
        requires
            self.dimensions.wf(),
        ensures
            lines@.len() == 28,
            forall|k: int| 0 <= k < 28 ==> #[trigger] lines@[k] == road_line(self.dimensions, k),
    {
        let d = &self.dimensions;
        let reach: i64 = 3 * d.lane_width;
        let mut lines: Vec<Segment> = Vec::new();
        let mut i: i64 = 0;
        while i < 7
            invariant
                0 <= i <= 7,
                d == &self.dimensions,
                d.wf(),
                reach == 3 * d.lane_width,
                lines@.len() == 4 * i,
                forall|k: int| 0 <= k < 4 * i ==> #[trigger] lines@[k] == road_line(*d, k),
            decreases 7 - i,
        {
            assert(0 <= i * d.lane_width <= 7 * d.lane_width) by (nonlinear_arith)
                requires
                    0 <= i < 7,
                    0 <= d.lane_width,
            ;
            let across: i64 = i * d.lane_width - reach;
            let x: i64 = d.center.x + across;
            let y: i64 = d.center.y + across;
            lines.push(
                Segment {
                    from: Point { x: d.center.x - d.x_max, y },
                    to: Point { x: d.center.x - reach, y },
                },
            );
            lines.push(
                Segment {
                    from: Point { x: d.center.x + reach, y },
                    to: Point { x: d.center.x + d.x_max, y },
                },
            );
            lines.push(
                Segment {
                    from: Point { x, y: d.center.y - reach },
                    to: Point { x, y: d.center.y - d.y_max },
                },
            );
            lines.push(
                Segment {
                    from: Point { x, y: d.center.y + reach },
                    to: Point { x, y: d.center.y + d.y_max },
                },
            );
            i += 1;
        }
        lines
    }

    /// Describes the lane axes as the lines to draw.
    pub fn draw_axis(&self) -> (lines: Vec<Segment>)
        requires
            self.dimensions.wf(),
        ensures
            lines@.len() == 12,
            forall|k: int| 0 <= k < 12 ==> #[trigger] lines@[k] == axis_line(self.dimensions, k),
    {
        let d = &self.dimensions;
        let reach: i64 = 3 * d.lane_width;
        let mut lines: Vec<Segment> = Vec::new();
        let mut i: i64 = 0;
        while i < 6
            invariant
                0 <= i <= 6,
                d == &self.dimensions,
                d.wf(),
                reach == 3 * d.lane_width,
                lines@.len() == 2 * i,
                forall|k: int| 0 <= k < 2 * i ==> #[trigger] lines@[k] == axis_line(*d, k),
            decreases 6 - i,
        {
            let across: i64 = tenths_of(5 + 10 * i, d.lane_width) - reach;
            let x: i64 = d.center.x + across;
            let y: i64 = d.center.y + across;
            lines.push(Segment { from: Point { x, y: 0 }, to: Point { x, y: 2 * d.center.y } });
            lines.push(Segment { from: Point { x: 0, y }, to: Point { x: 2 * d.center.x, y } });
            i += 1;
        }
        lines
    }

    /// Whether the window now has another size than the one this geometry was
    /// derived from.
    pub fn has_changed(&self, width: i64, height: i64) -> (changed: bool)
        ensures
            changed == (self.window_width != width || self.window_height != height),
    {
        self.window_height != height || self.window_width != width
    }

    pub fn get_window_width(&self) -> (width: i64)
        ensures
            width == self.window_width,
    {
        self.window_width
    }

    pub fn get_window_height(&self) -> (height: i64)
        ensures
            height == self.window_height,
    {
        self.window_height
    }

    pub fn get_dimensions(&self) -> (dimensions: Dimensions)
        ensures
            dimensions == self.dimensions,
    {
        self.dimensions
    }

    /// The lane axes of vehicles heading `direction`.
    pub fn get_lanes(&self, direction: Direction) -> (lanes: Lanes)
        requires
            direction != Direction::Random,
        ensures
            lanes == self.lanes(direction),
    {
        match direction {
            Direction::North => self.north,
            Direction::East => self.east,
            Direction::South => self.south,
            Direction::West => self.west,
            Direction::Random => unreached(),
        }
    }
}

impl Default for Point {
    /// The origin.
    fn default() -> (point: Point)
        ensures
            point == (Point { x: 0, y: 0 }),
    {
        Point { x: 0, y: 0 }
    }
}

impl Default for Intersection {
    /// The geometry of an empty window.
    fn default() -> (intersection: Intersection)
        ensures
            intersection.wf(),
            intersection.window_width == 0,
            intersection.window_height == 0,
    {
        Intersection::new(0, 0)
    }
}

} // verus!
