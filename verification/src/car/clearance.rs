//! The clearance tests by which a vehicle decides whether it may go on.
//!
//! Each test looks at the whole fleet from the place of one vehicle. All
//! distances are taken in the vehicle's own frame: `ahead` along its heading,
//! `aside` across it, `depth` past the middle of the window.

use vstd::prelude::*;
use vstd::pervasive::unreached;
use crate::car::{Car, Direction, Lane};
use crate::intersection::dimensions::Dimensions;
use crate::state::GlobalState;
use crate::units::{tenths, tenths_of, CREEP_SPEED};

verus! {

/// A region in the frame of one vehicle: what lies further ahead than `near`
/// and, where `far` is given, nearer than `far`, and less than `low` to the
/// one side and less than `high` to the other.
#[derive(Debug, Clone, Copy, PartialEq, Eq, Structural)]
pub struct ConflictBox {
    pub near: i64,
    pub far: Option<i64>,
    pub low: i64,
    pub high: i64,
}

/// Which half of the junction a vehicle is in: before or past the middle.
#[derive(Debug, Clone, Copy, PartialEq, Eq, Structural)]
pub enum Half {
    Before,
    Past,
}

/// A length given as tenths of a car width plus tenths of a lane width.
pub open spec fn measure(dimensions: Dimensions, parts: (i64, i64)) -> i64 {
    (tenths(parts.0 as int, dimensions.car_width as int) + tenths(
        parts.1 as int,
        dimensions.lane_width as int,
    )) as i64
}

/// The box whose sides are the given measures, each a pair of tenths of a car
/// width and tenths of a lane width.
pub open spec fn box_of(
    dimensions: Dimensions,
    near: (i64, i64),
    far: Option<(i64, i64)>,
    low: (i64, i64),
    high: (i64, i64),
) -> ConflictBox {
    ConflictBox {
        near: measure(dimensions, near),
        far: match far {
            Some(f) => Some(measure(dimensions, f)),
            None => None,
        },
        low: measure(dimensions, low),
        high: measure(dimensions, high),
    }
}

/// The region that a vehicle in the left or middle lane needs free of
/// crossing traffic while it is in the given half of the junction.
pub open spec fn crossing_box(
    dimensions: Dimensions,
    direction: Direction,
    lane: Lane,
    half: Half,
) -> ConflictBox {
    let d = dimensions;
    match direction {
        Direction::North => match (lane, half) {
            (Lane::Left, Half::Before) => box_of(d, (6, 0), Some((20, 12)), (0, 6), (0, 7)),
            _ => box_of(d, (6, 0), Some((20, 10)), (0, 6), (0, 7)),
        },
        Direction::South => match half {
            Half::Before => box_of(d, (6, 0), Some((20, 20)), (0, 6), (0, 6)),
            Half::Past => box_of(d, (6, 0), None, (0, 6), (0, 6)),
        },
        Direction::West => match (lane, half) {
            (Lane::Left, Half::Before) => box_of(d, (6, 0), Some((0, 30)), (0, 6), (0, 6)),
            (Lane::Left, Half::Past) => box_of(d, (6, 0), Some((0, 10)), (0, 7), (0, 6)),
            (_, Half::Before) => box_of(d, (6, 0), Some((0, 12)), (0, 7), (0, 7)),
            (_, Half::Past) => box_of(d, (6, 0), Some((0, 12)), (0, 8), (0, 7)),
        },
        _ => match (lane, half) {
            (Lane::Left, Half::Before) => box_of(d, (6, 0), Some((0, 25)), (0, 6), (0, 7)),
            (Lane::Left, Half::Past) => box_of(d, (6, 0), Some((0, 12)), (0, 6), (0, 6)),
            (_, Half::Before) => box_of(d, (6, 0), Some((0, 30)), (0, 6), (0, 6)),
            (_, Half::Past) => box_of(d, (6, 0), Some((0, 15)), (0, 6), (0, 7)),
        },
    }
}

/// The region that a vehicle in the right lane needs free of any other
/// vehicle, wherever it is.
pub open spec fn right_lane_box(dimensions: Dimensions, direction: Direction) -> ConflictBox {
    let d = dimensions;
    match direction {
        Direction::North => box_of(d, (6, 0), Some((0, 10)), (0, 5), (0, 5)),
        Direction::South => box_of(d, (5, 0), Some((0, 12)), (7, 0), (0, 5)),
        _ => box_of(d, (5, 0), Some((0, 10)), (0, 5), (0, 5)),
    }
}

/// The tighter region, measured in car widths, that decides between two
/// vehicles that block each other at rest.
pub open spec fn narrow_box(dimensions: Dimensions, direction: Direction) -> ConflictBox {
    let d = dimensions;
    match direction {
        Direction::South => box_of(d, (5, 0), Some((0, 18)), (13, 0), (13, 0)),
        Direction::West => box_of(d, (5, 0), Some((0, 15)), (13, 0), (13, 0)),
        Direction::North => box_of(d, (5, 0), Some((0, 14)), (13, 0), (13, 0)),
        _ => box_of(d, (5, 0), Some((0, 16)), (13, 0), (13, 0)),
    }
}

/// Whether one heading runs north-south and the other east-west.
pub open spec fn crosses(a: Direction, b: Direction) -> bool {
    let a_upright = a == Direction::North || a == Direction::South;
    let b_upright = b == Direction::North || b == Direction::South;
    a_upright != b_upright
}

/// The speed that a vehicle is held to behind a lead vehicle: nine tenths of
/// the lead's speed.
pub open spec fn governed(lead_speed: int) -> int {
    lead_speed * 9 / 10
}

/// The target speed of a vehicle that finds crossing traffic in its way.
pub open spec fn held_target(lane: Lane) -> i64 {
    if lane == Lane::Right { CREEP_SPEED } else { 0 }
}

impl ConflictBox {
    /// Whether a place that far ahead and that far aside lies in the region.
    /// All sides are open.
    pub open spec fn holds(&self, ahead: int, aside: int) -> bool {
        &&& self.near < ahead
        &&& (self.far matches Some(far) ==> ahead < far)
        &&& -self.low < aside < self.high
    }
}

impl Car {
    /// Whether the vehicle is at the junction: before its turn, once it is
    /// within two car widths of the junction's near edge; after its turn,
    /// until it is within one car width of the far edge.
    pub open spec fn at_intersection(&self, dimensions: Dimensions) -> bool {
        let half_width = dimensions.intersection_width / 2;
        if self.leaving_intersection {
            self.depth(dimensions) < half_width - dimensions.car_width
        } else {
            self.depth(dimensions) > -(half_width + 2 * dimensions.car_width)
        }
    }

    /// How far ahead of its position the vehicle looks for a lead vehicle in
    /// its own lane. It looks from its front, one car width ahead of its
    /// position: one lane width on the open road, and at the junction 1.8
    /// safety distances when heading south or west and 1.5 when heading
    /// north or east.
    pub open spec fn look_ahead(&self, dimensions: Dimensions) -> int {
        let margin = if !self.at_intersection(dimensions) {
            dimensions.lane_width as int
        } else if self.current_direction == Direction::South || self.current_direction
            == Direction::West {
            tenths(18, dimensions.safety_distance as int)
        } else {
            tenths(15, dimensions.safety_distance as int)
        };
        dimensions.car_width + margin
    }

    /// Whether `other` is a lead vehicle that the vehicle has to hold back
    /// for: on the same heading and in the same lane, ahead of it and within
    /// its look-ahead distance.
    pub open spec fn follows(&self, other: Car, dimensions: Dimensions) -> bool {
        &&& other.current_direction == self.current_direction
        &&& other.lane == self.lane
        &&& 0 < self.ahead(other) < self.look_ahead(dimensions)
    }

    /// No vehicle of the fleet is a lead vehicle to hold back for.
    pub open spec fn same_lane_clear(&self, cars: Seq<Car>, dimensions: Dimensions) -> bool {
        forall|j: int| 0 <= j < cars.len() ==> !self.follows(#[trigger] cars[j], dimensions)
    }

    /// `cars[j]` is the first vehicle of the fleet that the vehicle has to
    /// hold back for.
    pub open spec fn first_lead(&self, cars: Seq<Car>, dimensions: Dimensions, j: int) -> bool {
        &&& 0 <= j < cars.len()
        &&& self.follows(cars[j], dimensions)
        &&& forall|k: int| 0 <= k < j ==> !self.follows(#[trigger] cars[k], dimensions)
    }

    /// Which half of the junction the vehicle is in, if it is within three
    /// lane widths of the middle and not exactly on it.
    pub open spec fn crossing_half(&self, dimensions: Dimensions) -> Option<Half> {
        let depth = self.depth(dimensions);
        let span = 3 * dimensions.lane_width;
        if -span < depth < 0 {
            Some(Half::Before)
        } else if 0 < depth < span {
            Some(Half::Past)
        } else {
            None
        }
    }

    /// The region that the vehicle needs free before it crosses, if it needs
    /// any where it is.
    pub open spec fn primary_box(&self, dimensions: Dimensions) -> Option<ConflictBox> {
        if self.lane == Lane::Right {
            Some(right_lane_box(dimensions, self.current_direction))
        } else {
            match self.crossing_half(dimensions) {
                Some(half) => Some(
                    crossing_box(dimensions, self.current_direction, self.lane, half),
                ),
                None => None,
            }
        }
    }

    /// Whether `other` stands somewhere else than the vehicle itself: both
    /// of its coordinates differ. A vehicle has no other identity.
    pub open spec fn apart_from(&self, other: Car) -> bool {
        other.x != self.x && other.y != self.y
    }

    /// Whether `other` is in the vehicle's way across the junction: in the
    /// region that the vehicle needs free and, unless the vehicle is in the
    /// right lane, on a heading that crosses its own.
    pub open spec fn conflicts(&self, other: Car, dimensions: Dimensions) -> bool {
        &&& self.primary_box(dimensions) matches Some(region)
        &&& region.holds(self.ahead(other), self.aside(other))
        &&& self.apart_from(other)
        &&& (self.lane == Lane::Right || crosses(self.current_direction, other.current_direction))
    }

    /// Whether `other` is within the tighter region straight ahead.
    pub open spec fn crowded_by(&self, other: Car, dimensions: Dimensions) -> bool {
        &&& narrow_box(dimensions, self.current_direction).holds(
            self.ahead(other),
            self.aside(other),
        )
        &&& self.apart_from(other)
    }

    /// No vehicle of the fleet is within the tighter region.
    pub open spec fn narrow_clear(&self, cars: Seq<Car>, dimensions: Dimensions) -> bool {
        forall|j: int| 0 <= j < cars.len() ==> !self.crowded_by(#[trigger] cars[j], dimensions)
    }

    /// Whether `other` stops the vehicle from crossing: it is in the way and
    /// either moves or, at rest, leaves the tighter region not free.
    pub open spec fn blocked_by(&self, other: Car, cars: Seq<Car>, dimensions: Dimensions) -> bool {
        &&& self.conflicts(other, dimensions)
        &&& !(other.speed == 0 && self.narrow_clear(cars, dimensions))
    }

    /// No vehicle of the fleet stops the vehicle from crossing.
    pub open spec fn crossing_clear(&self, cars: Seq<Car>, dimensions: Dimensions) -> bool {
        forall|j: int|
            0 <= j < cars.len() ==> !self.blocked_by(#[trigger] cars[j], cars, dimensions)
    }
}

/// Whether a pair of tenths is one that the tables use.
pub open spec fn small_parts(parts: (i64, i64)) -> bool {
    0 <= parts.0 <= 100 && 0 <= parts.1 <= 100
}

/// Computes a length from its tenths of a car width and of a lane width.
pub fn get_measure(dimensions: &Dimensions, parts: (i64, i64)) -> (length: i64)
    requires
        dimensions.wf(),
        small_parts(parts),
    ensures
        length == measure(*dimensions, parts),
{
    tenths_of(parts.0, dimensions.car_width) + tenths_of(parts.1, dimensions.lane_width)
}

/// Builds the box whose sides are the given measures.
pub fn get_box(
    dimensions: &Dimensions,
    near: (i64, i64),
    far: Option<(i64, i64)>,
    low: (i64, i64),
    high: (i64, i64),
) -> (region: ConflictBox)
    requires
        dimensions.wf(),
        small_parts(near),
        far matches Some(f) ==> small_parts(f),
        small_parts(low),
        small_parts(high),
    ensures
        region == box_of(*dimensions, near, far, low, high),
{
    ConflictBox {
        near: get_measure(dimensions, near),
        far: match far {
            Some(f) => Some(get_measure(dimensions, f)),
            None => None,
        },
        low: get_measure(dimensions, low),
        high: get_measure(dimensions, high),
    }
}

/// Looks up the region that a vehicle in the left or middle lane needs free
/// of crossing traffic.
pub fn get_crossing_box(
    dimensions: &Dimensions,
    direction: Direction,
    lane: Lane,
    half: Half,
) -> (region: ConflictBox)
    requires
        direction != Direction::Random,
        dimensions.wf(),
    ensures
        region == crossing_box(*dimensions, direction, lane, half),
{
    let d = dimensions;
    match direction {
        Direction::North => match (lane, half) {
            (Lane::Left, Half::Before) => get_box(d, (6, 0), Some((20, 12)), (0, 6), (0, 7)),
            _ => get_box(d, (6, 0), Some((20, 10)), (0, 6), (0, 7)),
        },
        Direction::South => match half {
            Half::Before => get_box(d, (6, 0), Some((20, 20)), (0, 6), (0, 6)),
            Half::Past => get_box(d, (6, 0), None, (0, 6), (0, 6)),
        },
        Direction::West => match (lane, half) {
            (Lane::Left, Half::Before) => get_box(d, (6, 0), Some((0, 30)), (0, 6), (0, 6)),
            (Lane::Left, Half::Past) => get_box(d, (6, 0), Some((0, 10)), (0, 7), (0, 6)),
            (_, Half::Before) => get_box(d, (6, 0), Some((0, 12)), (0, 7), (0, 7)),
            (_, Half::Past) => get_box(d, (6, 0), Some((0, 12)), (0, 8), (0, 7)),
        },
        Direction::East => match (lane, half) {
            (Lane::Left, Half::Before) => get_box(d, (6, 0), Some((0, 25)), (0, 6), (0, 7)),
            (Lane::Left, Half::Past) => get_box(d, (6, 0), Some((0, 12)), (0, 6), (0, 6)),
            (_, Half::Before) => get_box(d, (6, 0), Some((0, 30)), (0, 6), (0, 6)),
            (_, Half::Past) => get_box(d, (6, 0), Some((0, 15)), (0, 6), (0, 7)),
        },
        Direction::Random => unreached(),
    }
}

/// Looks up the region that a vehicle in the right lane needs free.
pub fn get_right_lane_box(dimensions: &Dimensions, direction: Direction) -> (region: ConflictBox)
    requires
        direction != Direction::Random,
        dimensions.wf(),
    ensures
        region == right_lane_box(*dimensions, direction),
{
    let d = dimensions;
    match direction {
        Direction::North => get_box(d, (6, 0), Some((0, 10)), (0, 5), (0, 5)),
        Direction::South => get_box(d, (5, 0), Some((0, 12)), (7, 0), (0, 5)),
        Direction::East | Direction::West => get_box(d, (5, 0), Some((0, 10)), (0, 5), (0, 5)),
        Direction::Random => unreached(),
    }
}

/// Looks up the tighter region straight ahead.
pub fn get_narrow_box(dimensions: &Dimensions, direction: Direction) -> (region: ConflictBox)
    requires
        direction != Direction::Random,
        dimensions.wf(),
    ensures
        region == narrow_box(*dimensions, direction),
{
    let d = dimensions;
    match direction {
        Direction::South => get_box(d, (5, 0), Some((0, 18)), (13, 0), (13, 0)),
        Direction::West => get_box(d, (5, 0), Some((0, 15)), (13, 0), (13, 0)),
        Direction::North => get_box(d, (5, 0), Some((0, 14)), (13, 0), (13, 0)),
        Direction::East => get_box(d, (5, 0), Some((0, 16)), (13, 0), (13, 0)),
        Direction::Random => unreached(),
    }
}

/// Tells whether one heading runs north-south and the other east-west.
pub fn headings_cross(a: Direction, b: Direction) -> (crossing: bool)
    ensures
        crossing == crosses(a, b),
{
    let a_upright = a == Direction::North || a == Direction::South;
    let b_upright = b == Direction::North || b == Direction::South;
    a_upright != b_upright
}

impl ConflictBox {
    /// Tells whether a place that far ahead and that far aside lies in the
    /// region.
    pub fn contains(&self, ahead: i128, aside: i128) -> (inside: bool)
        ensures
            inside == self.holds(ahead as int, aside as int),
    {
        let before_far = match self.far {
            Some(far) => ahead < far as i128,
            None => true,
        };
        (self.near as i128) < ahead && before_far && -(self.low as i128) < aside && aside
            < self.high as i128
    }
}

impl Car {
    /// Measures how far the vehicle is past the middle of the window.
    pub fn get_depth(&self, dimensions: &Dimensions) -> (depth: i128)
        requires
            self.current_direction != Direction::Random,
        ensures
            depth == self.depth(*dimensions),
    {
        match self.current_direction {
            Direction::North => dimensions.center.y as i128 - self.y as i128,
            Direction::South => self.y as i128 - dimensions.center.y as i128,
            Direction::West => dimensions.center.x as i128 - self.x as i128,
            Direction::East => self.x as i128 - dimensions.center.x as i128,
            Direction::Random => unreached(),
        }
    }

    /// Measures how far `other` is ahead of the vehicle.
    pub fn get_ahead(&self, other: &Car) -> (ahead: i128)
        requires
            self.current_direction != Direction::Random,
        ensures
            ahead == self.ahead(*other),
    {
        match self.current_direction {
            Direction::North => self.y as i128 - other.y as i128,
            Direction::South => other.y as i128 - self.y as i128,
            Direction::West => self.x as i128 - other.x as i128,
            Direction::East => other.x as i128 - self.x as i128,
            Direction::Random => unreached(),
        }
    }

    /// Measures how far `other` is to the side of the vehicle's line.
    pub fn get_aside(&self, other: &Car) -> (aside: i128)
        requires
            self.current_direction != Direction::Random,
        ensures
            aside == self.aside(*other),
    {
        match self.current_direction {
            Direction::North | Direction::South => other.x as i128 - self.x as i128,
            Direction::East | Direction::West => other.y as i128 - self.y as i128,
            Direction::Random => unreached(),
        }
    }

    /// Tells whether the vehicle is at the junction.
    pub fn is_at_intersection(self, global_state: &GlobalState) -> (at: bool)
        requires
            self.current_direction != Direction::Random,
            global_state.intersection.dimensions.wf(),
        ensures
            at == self.at_intersection(global_state.intersection.dimensions),
    {
        let dimensions = &global_state.intersection.dimensions;
        let half_width: i64 = dimensions.intersection_width / 2;
        let depth: i128 = self.get_depth(dimensions);
        if self.leaving_intersection {
            depth < (half_width - dimensions.car_width) as i128
        } else {
            depth > -((half_width + 2 * dimensions.car_width) as i128)
        }
    }

    /// Computes how far ahead the vehicle looks for a lead vehicle.
    pub fn get_look_ahead(&self, global_state: &GlobalState) -> (reach: i64)
        requires
            self.current_direction != Direction::Random,
            global_state.intersection.dimensions.wf(),
        ensures
            reach == self.look_ahead(global_state.intersection.dimensions),
    {
        let dimensions = &global_state.intersection.dimensions;
        let margin: i64 = if !self.is_at_intersection(global_state) {
            dimensions.lane_width
        } else if self.current_direction == Direction::South || self.current_direction
            == Direction::West {
            tenths_of(18, dimensions.safety_distance)
        } else {
            tenths_of(15, dimensions.safety_distance)
        };
        dimensions.car_width + margin
    }

    /// Looks through the fleet for a lead vehicle in the vehicle's own lane.
    /// If there is none, the way is clear and the vehicle stays as it is. If
    /// there is one, the way is not clear, and the target speed becomes nine
    /// tenths of the speed of the first such vehicle in fleet order.
    pub fn same_lane_is_clear(&mut self, global_state: &GlobalState) -> (clear: bool)
        requires
            old(self).current_direction != Direction::Random,
            global_state.wf(),
        ensures
            clear == old(self).same_lane_clear(
                global_state.cars@,
                global_state.intersection.dimensions,
            ),
            clear ==> *final(self) == *old(self),
            !clear ==> exists|j: int|
                old(self).first_lead(global_state.cars@, global_state.intersection.dimensions, j)
                    && *final(self) == (Car {
                    target_speed: governed(global_state.cars@[j].speed as int) as i64,
                    ..*old(self)
                }),
            old(self).wf() ==> final(self).wf(),
    {
        let reach: i128 = self.get_look_ahead(global_state) as i128;
        let count: usize = global_state.cars.len();
        let mut i: usize = 0;
        while i < count
            invariant
                i <= count,
                count == global_state.cars@.len(),
                global_state.wf(),
                *self == *old(self),
                self.current_direction != Direction::Random,
                reach == self.look_ahead(global_state.intersection.dimensions),
                forall|j: int|
                    0 <= j < i ==> !self.follows(
                        #[trigger] global_state.cars@[j],
                        global_state.intersection.dimensions,
                    ),
            decreases count - i,
        {
            let other = &global_state.cars[i];
            let ahead: i128 = self.get_ahead(other);
            if other.current_direction == self.current_direction && other.lane == self.lane && 0
                < ahead && ahead < reach {
                self.target_speed = other.speed * 9 / 10;
                assert(old(self).first_lead(
                    global_state.cars@,
                    global_state.intersection.dimensions,
                    i as int,
                ));
                return false;
            }
            i += 1;
        }
        true
    }

    /// Tells which half of the junction the vehicle is in.
    pub fn get_crossing_half(&self, dimensions: &Dimensions) -> (half: Option<Half>)
        requires
            self.current_direction != Direction::Random,
            dimensions.wf(),
        ensures
            half == self.crossing_half(*dimensions),
    {
        let depth: i128 = self.get_depth(dimensions);
        let span: i128 = (3 * dimensions.lane_width) as i128;
        if -span < depth && depth < 0 {
            Some(Half::Before)
        } else if 0 < depth && depth < span {
            Some(Half::Past)
        } else {
            None
        }
    }

    /// Looks up the region that the vehicle needs free before it crosses.
    pub fn get_primary_box(&self, dimensions: &Dimensions) -> (region: Option<ConflictBox>)
        requires
            self.current_direction != Direction::Random,
            dimensions.wf(),
        ensures
            region == self.primary_box(*dimensions),
    {
        if self.lane == Lane::Right {
            Some(get_right_lane_box(dimensions, self.current_direction))
        } else {
            match self.get_crossing_half(dimensions) {
                Some(half) => Some(
                    get_crossing_box(dimensions, self.current_direction, self.lane, half),
                ),
                None => None,
            }
        }
    }

    /// Tells whether `other` stands somewhere else than the vehicle itself.
    pub fn is_apart_from(&self, other: &Car) -> (apart: bool)
        ensures
            apart == self.apart_from(*other),
    {
        other.x != self.x && other.y != self.y
    }

    /// Looks through the fleet for a vehicle within the tighter region
    /// straight ahead. The vehicle itself stays as it is.
    pub fn narrow_crossing_lane_is_clear(&mut self, global_state: &GlobalState) -> (clear: bool)
        requires
            old(self).current_direction != Direction::Random,
            global_state.intersection.dimensions.wf(),
        ensures
            clear == old(self).narrow_clear(
                global_state.cars@,
                global_state.intersection.dimensions,
            ),
            *final(self) == *old(self),
    {
        let region = get_narrow_box(&global_state.intersection.dimensions, self.current_direction);
        let count: usize = global_state.cars.len();
        let mut i: usize = 0;
        while i < count
            invariant
                i <= count,
                count == global_state.cars@.len(),
                *self == *old(self),
                self.current_direction != Direction::Random,
                region == narrow_box(global_state.intersection.dimensions, self.current_direction),
                forall|j: int|
                    0 <= j < i ==> !self.crowded_by(
                        #[trigger] global_state.cars@[j],
                        global_state.intersection.dimensions,
                    ),
            decreases count - i,
        {
            let other = &global_state.cars[i];
            if region.contains(self.get_ahead(other), self.get_aside(other)) && self.is_apart_from(
                other,
            ) {
                return false;
            }
            i += 1;
        }
        true
    }

    /// Looks through the fleet for a vehicle that stops this one from
    /// crossing. If there is none, the way is clear and the vehicle stays as
    /// it is. If there is one, the way is not clear, and the target speed
    /// becomes 0.2 in a right lane and 0 in the others.
    pub fn crossing_lane_is_clear(&mut self, global_state: &GlobalState) -> (clear: bool)
        requires
            old(self).current_direction != Direction::Random,
            global_state.intersection.dimensions.wf(),
        ensures
            clear == old(self).crossing_clear(
                global_state.cars@,
                global_state.intersection.dimensions,
            ),
            clear ==> *final(self) == *old(self),
            !clear ==> *final(self) == (Car {
                target_speed: held_target(old(self).lane),
                ..*old(self)
            }),
            old(self).wf() ==> final(self).wf(),
    {
        let region = match self.get_primary_box(&global_state.intersection.dimensions) {
            Some(region) => region,
            None => {
                return true;
            },
        };
        let count: usize = global_state.cars.len();
        let mut i: usize = 0;
        while i < count
            invariant
                i <= count,
                count == global_state.cars@.len(),
                global_state.intersection.dimensions.wf(),
                *self == *old(self),
                self.current_direction != Direction::Random,
                self.primary_box(global_state.intersection.dimensions) == Some(region),
                forall|j: int|
                    0 <= j < i ==> !self.blocked_by(
                        #[trigger] global_state.cars@[j],
                        global_state.cars@,
                        global_state.intersection.dimensions,
                    ),
            decreases count - i,
        {
            let other = &global_state.cars[i];
            if region.contains(self.get_ahead(other), self.get_aside(other)) && self.is_apart_from(
                other,
            ) && (self.lane == Lane::Right || headings_cross(
                self.current_direction,
                other.current_direction,
            )) {
                if !(other.speed == 0 && self.narrow_crossing_lane_is_clear(global_state)) {
                    self.target_speed = if self.lane == Lane::Right { CREEP_SPEED } else { 0 };
                    return false;
                }
            }
            i += 1;
        }
        true
    }
}

} // verus!
