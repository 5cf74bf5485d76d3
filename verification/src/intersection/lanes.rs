//! Where the three lanes of each heading run.

use vstd::prelude::*;
use crate::car::{Direction, Lane};
use crate::intersection::Intersection;
use crate::intersection::dimensions::Dimensions;
use crate::units::{tenths, tenths_of};

verus! {

/// The lateral coordinate of each lane of one heading: an `x` for the headings
/// north and south, a `y` for east and west.
#[derive(Debug, Clone, Copy, PartialEq, Eq, Structural)]
pub struct Lanes {
    pub left_axis: i64,
    pub middle_axis: i64,
    pub right_axis: i64,
}

/// Distance of a lane's axis from the centre, in tenths of a lane width.
pub open spec fn lane_offset(lane: Lane) -> int {
    match lane {
        Lane::Left => 5,
        Lane::Middle => 15,
        Lane::Right => 25,
    }
}

/// Where the axis of `lane` runs for vehicles heading `direction`. Traffic
/// keeps to the right: the lanes heading south and west lie below the centre
/// coordinate, those heading north and east above it.
pub open spec fn axis_position(dimensions: Dimensions, direction: Direction, lane: Lane) -> int {
    let offset = tenths(lane_offset(lane), dimensions.lane_width as int);
    match direction {
        Direction::South => dimensions.center.x - offset,
        Direction::North => dimensions.center.x + offset,
        Direction::West => dimensions.center.y - offset,
        _ => dimensions.center.y + offset,
    }
}

impl Lanes {
    /// The axis of one lane.
    pub open spec fn axis(&self, lane: Lane) -> i64 {
        match lane {
            Lane::Left => self.left_axis,
            Lane::Middle => self.middle_axis,
            Lane::Right => self.right_axis,
        }
    }

    /// Gives the axis of one lane.
    pub fn get_axis(&self, lane: Lane) -> (axis: i64)
        ensures
            axis == self.axis(lane),
    {
        match lane {
            Lane::Left => self.left_axis,
            Lane::Middle => self.middle_axis,
            Lane::Right => self.right_axis,
        }
    }

    /// The three axes are those of `direction` in a geometry of these
    /// dimensions.
    pub open spec fn placed(&self, dimensions: Dimensions, direction: Direction) -> bool {
        forall|lane: Lane| #[trigger] self.axis(lane) == axis_position(dimensions, direction, lane)
    }
}

/// Places the lane axes of all four headings from the dimensions that the
/// intersection holds.
pub fn calculate_axis(intersection: &mut Intersection)
    requires
        old(intersection).dimensions.wf(),
    ensures
        final(intersection).window_width == old(intersection).window_width,
        final(intersection).window_height == old(intersection).window_height,
        final(intersection).dimensions == old(intersection).dimensions,
        final(intersection).lanes_placed(),
{
    let center = intersection.dimensions.center;
    let lane_width: i64 = intersection.dimensions.lane_width;
    let near: i64 = tenths_of(5, lane_width);
    let mid: i64 = tenths_of(15, lane_width);
    let far: i64 = tenths_of(25, lane_width);

    intersection.south.right_axis = center.x - far;
    intersection.south.middle_axis = center.x - mid;
    intersection.south.left_axis = center.x - near;

    intersection.north.left_axis = center.x + near;
    intersection.north.middle_axis = center.x + mid;
    intersection.north.right_axis = center.x + far;

    intersection.west.right_axis = center.y - far;
    intersection.west.middle_axis = center.y - mid;
    intersection.west.left_axis = center.y - near;

    intersection.east.left_axis = center.y + near;
    intersection.east.middle_axis = center.y + mid;
    intersection.east.right_axis = center.y + far;
}

impl Default for Lanes {
    /// All three axes at zero.
    fn default() -> (lanes: Lanes)
        ensures
            lanes == (Lanes { left_axis: 0, middle_axis: 0, right_axis: 0 }),
    {
        Lanes { left_axis: 0, middle_axis: 0, right_axis: 0 }
    }
}

} // verus!
