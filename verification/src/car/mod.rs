//! One vehicle: where it is, where it is going and how fast.

pub mod cars;
pub mod clearance;

use vstd::prelude::*;
use vstd::pervasive::unreached;
use crate::chance::random_below;
use crate::intersection::Intersection;
use crate::intersection::dimensions::Dimensions;
use crate::state::GlobalState;
use crate::units::{
    saturate, saturating, tenths, tenths_of, CROSSING_SPEED, CRUISE_SPEED, SCALE, SPEED_STEP,
};

verus! {

/// Number of sprites that a new vehicle chooses among.
pub const SPRITE_CHOICES: u32 = 20;

/// A direction of travel, or the request to pick one at random when a vehicle
/// is created. No vehicle ever travels in the direction `Random`.
#[derive(Debug, Clone, Copy, PartialEq, Eq, Structural)]
pub enum Direction {
    North,
    South,
    East,
    West,
    Random,
}

/// The lane that a vehicle keeps for its whole life. It decides the turn: the
/// left lane turns left, the middle lane goes straight on, the right lane
/// turns right.
#[derive(Debug, Clone, Copy, PartialEq, Eq, Structural)]
pub enum Lane {
    Left,
    Middle,
    Right,
}

/// One vehicle. A vehicle has no identity of its own: the fleet knows it by
/// its place in the sequence.
#[derive(Debug, Clone, Copy, PartialEq, Eq, Structural)]
pub struct Car {
    /// Which picture the vehicle is drawn with.
    pub sprite: usize,
    pub x: i64,
    pub y: i64,
    /// Angle of the picture, in thousandths of a radian.
    pub rotation: i64,
    /// Set once the vehicle has taken its turn at the junction.
    pub leaving_intersection: bool,
    pub target_speed: i64,
    pub speed: i64,
    /// The heading that the vehicle entered with.
    pub direction_from: Direction,
    pub current_direction: Direction,
    pub lane: Lane,
    /// Where, relative to the middle of the window, the vehicle turns.
    pub turn_offset: i64,
    /// Ticks since the vehicle was created.
    pub driving_time: u64,
}

/// What it takes to draw one vehicle: the top left corner and the size of
/// the picture, which sprite it shows and the angle that it is turned by
/// about its middle.
#[derive(Debug, Clone, Copy, PartialEq, Eq, Structural)]
pub struct Picture {
    pub x: i64,
    pub y: i64,
    pub width: i64,
    pub height: i64,
    pub sprite: usize,
    pub rotation: i64,
}

/// The angle that a vehicle heading `direction` is drawn at, in thousandths
/// of a radian: a quarter turn clockwise for each step from north over east
/// and south to west.
pub open spec fn heading_angle(direction: Direction) -> i64 {
    match direction {
        Direction::North => 0,
        Direction::East => 1571,
        Direction::South => 3142,
        _ => 4712,
    }
}

/// The heading after the turn, by the heading before it and the lane.
pub open spec fn turn_target(direction: Direction, lane: Lane) -> Direction {
    match (direction, lane) {
        (_, Lane::Middle) => direction,
        (Direction::North, Lane::Left) => Direction::West,
        (Direction::North, Lane::Right) => Direction::East,
        (Direction::South, Lane::Left) => Direction::East,
        (Direction::South, Lane::Right) => Direction::West,
        (Direction::West, Lane::Left) => Direction::South,
        (Direction::West, Lane::Right) => Direction::North,
        (Direction::East, Lane::Left) => Direction::North,
        (Direction::East, Lane::Right) => Direction::South,
        (Direction::Random, _) => Direction::Random,
    }
}

/// Where a vehicle that entered heading `direction` in `lane` turns, as the
/// signed distance of that place from the middle of the window along its way
/// in: the axis of the lane that it turns into.
pub open spec fn turn_offset_for(dimensions: Dimensions, direction: Direction, lane: Lane) -> int {
    let out = match lane {
        Lane::Right => tenths(25, dimensions.lane_width as int),
        Lane::Middle => 0,
        Lane::Left => -tenths(5, dimensions.lane_width as int),
    };
    match direction {
        Direction::North | Direction::West => out,
        _ => -out,
    }
}

/// The lanes that a new vehicle draws from, each with the same chance: one
/// chance in seven for the left lane, three each for the middle and the
/// right lane.
pub open spec fn lane_draws() -> Seq<Lane> {
    seq![
        Lane::Left,
        Lane::Middle,
        Lane::Right,
        Lane::Middle,
        Lane::Middle,
        Lane::Right,
        Lane::Right,
    ]
}

/// The headings that a new vehicle draws from, each with the same chance.
pub open spec fn direction_draws() -> Seq<Direction> {
    seq![Direction::North, Direction::South, Direction::East, Direction::West]
}

/// The lane of a new vehicle by a number drawn from 0 to 6.
pub open spec fn lane_for_draw(drawn: int) -> Lane {
    lane_draws()[drawn]
}

/// The heading of a new vehicle by a number drawn from 0 to 3.
pub open spec fn direction_for_draw(drawn: int) -> Direction {
    direction_draws()[drawn]
}

/// The speed one tick later of a vehicle that has `speed` and aims at
/// `target`: of the speeds that are no more than a step of 0.15 away from
/// `speed`, the one nearest to the target.
pub open spec fn speed_toward(speed: int, target: int) -> int {
    if target > speed + SPEED_STEP {
        speed + SPEED_STEP
    } else if target < speed - SPEED_STEP {
        speed - SPEED_STEP
    } else {
        target
    }
}

impl Car {
    /// The vehicle travels in a real direction and its speeds are within the
    /// limits.
    pub open spec fn wf(&self) -> bool {
        &&& self.direction_from != Direction::Random
        &&& self.current_direction != Direction::Random
        &&& 0 <= self.speed <= CRUISE_SPEED
        &&& 0 <= self.target_speed <= CRUISE_SPEED
    }

    /// The vehicle is on the way that its entry heading and its lane lay
    /// down: on the entry heading until it has turned, and from then on the
    /// heading that the turn table gives.
    pub open spec fn on_route(&self) -> bool {
        self.current_direction == if self.leaving_intersection {
            turn_target(self.direction_from, self.lane)
        } else {
            self.direction_from
        }
    }

    /// The picture of the vehicle points where the vehicle goes.
    pub open spec fn faces_ahead(&self) -> bool {
        self.rotation == heading_angle(self.current_direction)
    }

    /// How far the vehicle is past the middle of the window along its
    /// heading; negative while it approaches.
    pub open spec fn depth(&self, dimensions: Dimensions) -> int {
        match self.current_direction {
            Direction::North => dimensions.center.y - self.y,
            Direction::South => self.y - dimensions.center.y,
            Direction::West => dimensions.center.x - self.x,
            _ => self.x - dimensions.center.x,
        }
    }

    /// The coordinate that changes as the vehicle travels: `y` on the
    /// headings north and south, `x` on east and west.
    pub open spec fn travel(&self) -> i64 {
        match self.current_direction {
            Direction::North | Direction::South => self.y,
            _ => self.x,
        }
    }

    /// How far `other` is ahead of the vehicle along the vehicle's heading.
    pub open spec fn ahead(&self, other: Car) -> int {
        match self.current_direction {
            Direction::North => self.y - other.y,
            Direction::South => other.y - self.y,
            Direction::West => self.x - other.x,
            _ => other.x - self.x,
        }
    }

    /// How far `other` is to the side of the vehicle's line of travel, in
    /// window coordinates: to the right or downwards if positive.
    pub open spec fn aside(&self, other: Car) -> int {
        match self.current_direction {
            Direction::North | Direction::South => other.x - self.x,
            _ => other.y - self.y,
        }
    }

    /// The vehicle as it is created at the outer end of its entry corridor:
    /// on the axis of its lane, at rest, not yet turned.
    pub open spec fn spawned(
        &self,
        direction: Direction,
        lane: Lane,
        sprite: usize,
        geometry: Intersection,
    ) -> bool {
        let d = geometry.dimensions;
        &&& self.sprite == sprite
        &&& self.x == match direction {
            Direction::West => d.center.x + d.x_max,
            Direction::East => d.center.x - d.x_max,
            _ => geometry.lane_axis(direction, lane) as int,
        }
        &&& self.y == match direction {
            Direction::North => d.center.y + d.y_max,
            Direction::South => d.center.y - d.y_max,
            _ => geometry.lane_axis(direction, lane) as int,
        }
        &&& self.rotation == heading_angle(direction)
        &&& !self.leaving_intersection
        &&& self.target_speed == 0
        &&& self.speed == 0
        &&& self.direction_from == direction
        &&& self.current_direction == direction
        &&& self.lane == lane
        &&& self.turn_offset == turn_offset_for(d, direction, lane)
        &&& self.driving_time == 0
    }

    /// Whether the vehicle has reached the place of its turn and has not
    /// turned yet.
    pub open spec fn turn_due(&self, geometry: Intersection) -> bool {
        !self.leaving_intersection && match self.current_direction {
            Direction::South => self.y >= geometry.window_height / 2 + self.turn_offset,
            Direction::North => self.y <= geometry.window_height / 2 + self.turn_offset,
            Direction::East => self.x >= geometry.window_width / 2 + self.turn_offset,
            _ => self.x <= geometry.window_width / 2 + self.turn_offset,
        }
    }

    /// The vehicle after its turn: on the heading that the turn table gives,
    /// drawn at that heading's angle, marked as turned.
    pub open spec fn turned(self) -> Car {
        let heading = turn_target(self.current_direction, self.lane);
        Car {
            current_direction: heading,
            rotation: heading_angle(heading),
            leaving_intersection: true,
            ..self
        }
    }

    /// The vehicle one tick older.
    pub open spec fn aged(self) -> Car {
        Car {
            driving_time: if self.driving_time < u64::MAX {
                (self.driving_time + 1) as u64
            } else {
                self.driving_time
            },
            ..self
        }
    }

    /// The vehicle moved on by what it covers in one tick at its speed, and
    /// centred on the axis of its lane.
    pub open spec fn advanced(self, geometry: Intersection) -> Car {
        let step = geometry.dimensions.speed_unit * self.speed / (SCALE as int);
        let axis = geometry.lane_axis(self.current_direction, self.lane);
        match self.current_direction {
            Direction::North => Car { y: saturate(self.y - step), x: axis, ..self },
            Direction::South => Car { y: saturate(self.y + step), x: axis, ..self },
            Direction::West => Car { x: saturate(self.x - step), y: axis, ..self },
            _ => Car { x: saturate(self.x + step), y: axis, ..self },
        }
    }

    /// The speed that the vehicle aims at, given the fleet around it: cruising
    /// speed on a free road, crossing speed at the junction while nothing
    /// crosses, and a halt behind a lead vehicle or before crossing traffic.
    pub open spec fn target_for(&self, cars: Seq<Car>, dimensions: Dimensions) -> i64 {
        if !self.same_lane_clear(cars, dimensions) {
            0
        } else if !self.at_intersection(dimensions) {
            CRUISE_SPEED
        } else if self.crossing_clear(cars, dimensions) {
            CROSSING_SPEED
        } else {
            0
        }
    }

    /// The vehicle after it has chosen its target speed among the given
    /// fleet, taken one step of speed towards it and moved on.
    pub open spec fn driven(self, cars: Seq<Car>, geometry: Intersection) -> Car {
        let target = self.target_for(cars, geometry.dimensions);
        (Car {
            target_speed: target,
            speed: speed_toward(self.speed as int, target as int) as i64,
            ..self
        }).advanced(geometry)
    }

    /// The vehicle brought to where it will turn, if it has not turned yet.
    pub open spec fn turned_if_due(self, geometry: Intersection) -> Car {
        if self.turn_due(geometry) { self.turned() } else { self }
    }

    /// The vehicle one tick later: turned if it has reached the place of its
    /// turn, one tick older, and driven on among the given fleet.
    pub open spec fn ticked(self, cars: Seq<Car>, geometry: Intersection) -> Car {
        self.turned_if_due(geometry).aged().driven(cars, geometry)
    }

    /// Whether the vehicle has left the window: it is a car width or more
    /// beyond the edge that its heading leads to.
    pub open spec fn finished(&self, dimensions: Dimensions) -> bool {
        self.depth(dimensions) >= dimensions.extent_along(self.current_direction)
            + dimensions.car_width
    }

    /// Whether the vehicle can have come out of `before` by one tick: its
    /// speed is within the limits and no more than a step away from the
    /// speed before, entry heading, lane and sprite are the same, and the
    /// heading is the same too unless this was the tick of its one turn, in
    /// which the heading became what the turn table gives.
    pub open spec fn steps_from(&self, before: Car) -> bool {
        &&& self.wf()
        &&& -SPEED_STEP <= self.speed - before.speed <= SPEED_STEP
        &&& self.direction_from == before.direction_from
        &&& self.lane == before.lane
        &&& self.sprite == before.sprite
        &&& self.turn_offset == before.turn_offset
        &&& before.leaving_intersection ==> self.leaving_intersection
        &&& if self.leaving_intersection == before.leaving_intersection {
            self.current_direction == before.current_direction
        } else {
            self.current_direction == turn_target(before.current_direction, before.lane)
        }
        &&& before.on_route() ==> self.on_route()
        &&& if self.leaving_intersection == before.leaving_intersection {
            self.rotation == before.rotation
        } else {
            self.faces_ahead()
        }
    }

    /// Where and how the vehicle is drawn.
    pub open spec fn picture(&self, dimensions: Dimensions) -> Picture {
        Picture {
            x: saturate(self.x - dimensions.car_width / 2),
            y: saturate(self.y - dimensions.car_width),
            width: dimensions.car_width,
            height: (2 * dimensions.car_width) as i64,
            sprite: self.sprite,
            rotation: self.rotation,
        }
    }
}

/// Gives the angle that a vehicle on this heading is drawn at.
pub fn angle_of(direction: Direction) -> (angle: i64)
    requires
        direction != Direction::Random,
    ensures
        angle == heading_angle(direction),
{
    match direction {
        Direction::North => 0,
        Direction::East => 1571,
        Direction::South => 3142,
        Direction::West => 4712,
        Direction::Random => unreached(),
    }
}

/// Gives the lane for a number drawn from 0 to 6.
pub fn lane_from_draw(drawn: u32) -> (lane: Lane)
    requires
        drawn < 7,
    ensures
        lane == lane_for_draw(drawn as int),
{
    if drawn == 0 {
        Lane::Left
    } else if drawn == 1 || drawn == 3 || drawn == 4 {
        Lane::Middle
    } else {
        Lane::Right
    }
}

/// Gives the heading for a number drawn from 0 to 3.
pub fn direction_from_draw(drawn: u32) -> (direction: Direction)
    requires
        drawn < 4,
    ensures
        direction == direction_for_draw(drawn as int),
        direction != Direction::Random,
{
    if drawn == 0 {
        Direction::North
    } else if drawn == 1 {
        Direction::South
    } else if drawn == 2 {
        Direction::East
    } else {
        Direction::West
    }
}

/// Takes one step of speed towards the target.
pub fn step_speed(speed: i64, target: i64) -> (next: i64)
    requires
        0 <= speed <= CRUISE_SPEED,
        0 <= target <= CRUISE_SPEED,
    ensures
        next == speed_toward(speed as int, target as int),
        0 <= next <= CRUISE_SPEED,
        -SPEED_STEP <= next - speed <= SPEED_STEP,
{
    if speed < target {
        if target - speed <= SPEED_STEP { target } else { speed + SPEED_STEP }
    } else if speed - target <= SPEED_STEP {
        target
    } else {
        speed - SPEED_STEP
    }
}

impl Car {
    /// Creates a vehicle at the outer end of the corridor that leads into the
    /// junction on the given heading, in a lane and with a sprite drawn at
    /// random. For `Direction::Random` the heading is drawn too.
    pub fn new(direction: Direction, global_state: &GlobalState) -> (car: Car)
        requires
            global_state.intersection.wf(),
        ensures
            car.spawned(car.direction_from, car.lane, car.sprite, global_state.intersection),
            car.direction_from != Direction::Random,
            direction != Direction::Random ==> car.direction_from == direction,
            car.sprite < SPRITE_CHOICES,
            car.wf(),
            car.on_route(),
            car.faces_ahead(),
    {
        let sprite: u32 = random_below(SPRITE_CHOICES);
        let lane = Self::select_random_lane();
        let heading = if direction == Direction::Random {
            Self::select_random_direction()
        } else {
            direction
        };
        Self::spawn(heading, lane, sprite as usize, &global_state.intersection)
    }

    /// Creates the vehicle that enters on the given heading, in the given
    /// lane and with the given sprite.
    pub fn spawn(direction: Direction, lane: Lane, sprite: usize, geometry: &Intersection) -> (car:
        Car)
        requires
            direction != Direction::Random,
            geometry.wf(),
        ensures
            car.spawned(direction, lane, sprite, *geometry),
            car.wf(),
            car.on_route(),
            car.faces_ahead(),
    {
        let dimensions = &geometry.dimensions;
        let center = dimensions.center;
        let axis: i64 = geometry.get_lanes(direction).get_axis(lane);
        let out: i64 = match lane {
            Lane::Right => tenths_of(25, dimensions.lane_width),
            Lane::Middle => 0,
            Lane::Left => -tenths_of(5, dimensions.lane_width),
        };
        Car {
            sprite,
            x: match direction {
                Direction::West => center.x + dimensions.x_max,
                Direction::East => center.x - dimensions.x_max,
                Direction::North | Direction::South => axis,
                Direction::Random => unreached(),
            },
            y: match direction {
                Direction::North => center.y + dimensions.y_max,
                Direction::South => center.y - dimensions.y_max,
                Direction::East | Direction::West => axis,
                Direction::Random => unreached(),
            },
            rotation: angle_of(direction),
            leaving_intersection: false,
            target_speed: 0,
            speed: 0,
            direction_from: direction,
            current_direction: direction,
            lane,
            turn_offset: match direction {
                Direction::North | Direction::West => out,
                Direction::South | Direction::East => -out,
                Direction::Random => unreached(),
            },
            driving_time: 0,
        }
    }

    /// Draws the lane of a new vehicle: the entry of the lane table at a
    /// number drawn from 0 to 6. Which entry it is differs from call to call.
    fn select_random_lane() -> (lane: Lane)
        ensures
            exists|drawn: int|
                0 <= drawn < lane_draws().len() && lane == #[trigger] lane_for_draw(drawn),
    {
        let drawn: u32 = random_below(7);
        lane_from_draw(drawn)
    }

    /// Draws the heading of a new vehicle: the entry of the heading table at
    /// a number drawn from 0 to 3, which is never `Random`. Which entry it is
    /// differs from call to call.
    fn select_random_direction() -> (direction: Direction)
        ensures
            exists|drawn: int|
                0 <= drawn < direction_draws().len() && direction
                    == #[trigger] direction_for_draw(drawn),
            direction != Direction::Random,
    {
        let drawn: u32 = random_below(4);
        direction_from_draw(drawn)
    }

    /// Sets the angle of the picture to that of the current heading.
    pub fn calculate_rotation(&mut self)
        requires
            old(self).current_direction != Direction::Random,
        ensures
            *final(self) == (Car {
                rotation: heading_angle(old(self).current_direction),
                ..*old(self)
            }),
    {
        self.rotation = angle_of(self.current_direction);
    }

    /// Puts the vehicle on the heading that the turn table gives for its
    /// current heading and its lane.
    pub fn change_direction(&mut self)
        requires
            old(self).current_direction != Direction::Random,
        ensures
            *final(self) == (Car {
                current_direction: turn_target(old(self).current_direction, old(self).lane),
                ..*old(self)
            }),
            final(self).current_direction != Direction::Random,
    {
        let lane = self.lane;
        self.current_direction = match self.current_direction {
            Direction::North => match lane {
                Lane::Left => Direction::West,
                Lane::Middle => Direction::North,
                Lane::Right => Direction::East,
            },
            Direction::South => match lane {
                Lane::Left => Direction::East,
                Lane::Middle => Direction::South,
                Lane::Right => Direction::West,
            },
            Direction::West => match lane {
                Lane::Left => Direction::South,
                Lane::Middle => Direction::West,
                Lane::Right => Direction::North,
            },
            Direction::East => match lane {
                Lane::Left => Direction::North,
                Lane::Middle => Direction::East,
                Lane::Right => Direction::South,
            },
            Direction::Random => unreached(),
        };
    }

    /// Tells whether the vehicle is well-formed.
    pub fn is_wf(&self) -> (ok: bool)
        ensures
            ok == self.wf(),
    {
        self.direction_from != Direction::Random && self.current_direction != Direction::Random
            && 0 <= self.speed && self.speed <= CRUISE_SPEED && 0 <= self.target_speed
            && self.target_speed <= CRUISE_SPEED
    }

    /// Tells whether the vehicle has reached the place of its turn and has
    /// not turned yet.
    pub fn is_turn_due(&self, geometry: &Intersection) -> (due: bool)
        requires
            self.current_direction != Direction::Random,
            geometry.wf(),
        ensures
            due == self.turn_due(*geometry),
    {
        if self.leaving_intersection {
            return false;
        }
        let offset: i128 = self.turn_offset as i128;
        match self.current_direction {
            Direction::South => self.y as i128 >= (geometry.window_height / 2) as i128 + offset,
            Direction::North => self.y as i128 <= (geometry.window_height / 2) as i128 + offset,
            Direction::East => self.x as i128 >= (geometry.window_width / 2) as i128 + offset,
            Direction::West => self.x as i128 <= (geometry.window_width / 2) as i128 + offset,
            Direction::Random => unreached(),
        }
    }

    /// Takes the turn: new heading, new angle, and the mark that the vehicle
    /// has turned.
    pub fn take_turn(&mut self)
        requires
            old(self).current_direction != Direction::Random,
        ensures
            *final(self) == old(self).turned(),
            final(self).current_direction != Direction::Random,
    {
        self.change_direction();
        self.leaving_intersection(true);
        self.calculate_rotation();
    }

    /// Chooses the target speed among the fleet of `global_state`, takes one
    /// step of speed towards it and moves the vehicle on. The speed stays
    /// between 0 and 2.2 and changes by no more than 0.15; heading, lane and
    /// entry heading stay as they are.
    pub fn adjust_speed(&mut self, global_state: &GlobalState)
        requires
            old(self).wf(),
            global_state.wf(),
        ensures
            *final(self) == old(self).driven(global_state.cars@, global_state.intersection),
            final(self).wf(),
            -SPEED_STEP <= final(self).speed - old(self).speed <= SPEED_STEP,
            final(self).current_direction == old(self).current_direction,
            final(self).direction_from == old(self).direction_from,
            final(self).lane == old(self).lane,
            final(self).leaving_intersection == old(self).leaving_intersection,
    {
        if self.same_lane_is_clear(global_state) {
            self.target_speed = CRUISE_SPEED;
            if self.is_at_intersection(global_state) {
                self.target_speed = CROSSING_SPEED;
                if !self.crossing_lane_is_clear(global_state) {
                    self.target_speed = 0;
                }
            }
        } else {
            self.target_speed = 0;
        }
        self.speed = step_speed(self.speed, self.target_speed);
        self.update_coords(global_state);
    }

    /// Moves the vehicle on by what it covers in one tick at its speed and
    /// centres it on the axis of its lane.
    pub fn update_coords(&mut self, global_state: &GlobalState)
        requires
            old(self).wf(),
            global_state.intersection.wf(),
        ensures
            *final(self) == old(self).advanced(global_state.intersection),
    {
        let geometry = &global_state.intersection;
        let unit: i64 = geometry.dimensions.speed_unit;
        assert(0 <= unit * self.speed <= unit * CRUISE_SPEED) by (nonlinear_arith)
            requires
                0 <= unit,
                0 <= self.speed <= CRUISE_SPEED,
        ;
        let step: i128 = (unit * self.speed / SCALE) as i128;
        let axis: i64 = geometry.get_lanes(self.current_direction).get_axis(self.lane);
        match self.current_direction {
            Direction::North => {
                self.y = saturating(self.y as i128 - step);
                self.x = axis;
            },
            Direction::South => {
                self.y = saturating(self.y as i128 + step);
                self.x = axis;
            },
            Direction::West => {
                self.x = saturating(self.x as i128 - step);
                self.y = axis;
            },
            Direction::East => {
                self.x = saturating(self.x as i128 + step);
                self.y = axis;
            },
            Direction::Random => unreached(),
        }
    }

    /// Tells whether the vehicle has left the window.
    pub fn is_finished(&self, dimensions: &Dimensions) -> (gone: bool)
        requires
            self.current_direction != Direction::Random,
            dimensions.wf(),
        ensures
            gone == self.finished(*dimensions),
    {
        let extent: i64 = match self.current_direction {
            Direction::North | Direction::South => dimensions.y_max,
            Direction::East | Direction::West => dimensions.x_max,
            Direction::Random => unreached(),
        };
        self.get_depth(dimensions) >= (extent + dimensions.car_width) as i128
    }

    /// Describes how the vehicle is drawn: its picture is one car width wide
    /// and two long, with the vehicle's position in the middle of its width
    /// and of its length.
    pub fn draw(&self, global_state: &GlobalState) -> (picture: Picture)
        requires
            self.current_direction != Direction::Random,
            global_state.intersection.dimensions.wf(),
        ensures
            picture == self.picture(global_state.intersection.dimensions),
    {
        let car_width: i64 = global_state.intersection.dimensions.car_width;
        Picture {
            x: saturating(self.x as i128 - (car_width / 2) as i128),
            y: saturating(self.y as i128 - car_width as i128),
            width: car_width,
            height: 2 * car_width,
            sprite: self.sprite,
            rotation: self.rotation,
        }
    }

    pub fn set_x(&mut self, new_value: i64)
        ensures
            *final(self) == (Car { x: new_value, ..*old(self) }),
    {
        self.x = new_value;
    }

    pub fn set_y(&mut self, new_value: i64)
        ensures
            *final(self) == (Car { y: new_value, ..*old(self) }),
    {
        self.y = new_value;
    }

    pub fn set_rotation(&mut self, new_value: i64)
        ensures
            *final(self) == (Car { rotation: new_value, ..*old(self) }),
    {
        self.rotation = new_value;
    }

    /// Marks the vehicle as turned, or as not turned.
    pub fn leaving_intersection(&mut self, new_value: bool)
        ensures
            *final(self) == (Car { leaving_intersection: new_value, ..*old(self) }),
    {
        self.leaving_intersection = new_value;
    }

    pub fn set_speed(&mut self, new_value: i64)
        ensures
            *final(self) == (Car { speed: new_value, ..*old(self) }),
    {
        self.speed = new_value;
    }

    pub fn set_target_speed(&mut self, new_value: i64)
        ensures
            *final(self) == (Car { target_speed: new_value, ..*old(self) }),
    {
        self.target_speed = new_value;
    }

    pub fn set_current_direction(&mut self, new_value: Direction)
        ensures
            *final(self) == (Car { current_direction: new_value, ..*old(self) }),
    {
        self.current_direction = new_value;
    }

    pub fn set_driving_time(&mut self, new_value: u64)
        ensures
            *final(self) == (Car { driving_time: new_value, ..*old(self) }),
    {
        self.driving_time = new_value;
    }

    pub fn get_x(&self) -> (x: i64)
        ensures
            x == self.x,
    {
        self.x
    }

    pub fn get_y(&self) -> (y: i64)
        ensures
            y == self.y,
    {
        self.y
    }

    pub fn get_rotation(&self) -> (rotation: i64)
        ensures
            rotation == self.rotation,
    {
        self.rotation
    }

    pub fn is_leaving_intersection(&self) -> (leaving: bool)
        ensures
            leaving == self.leaving_intersection,
    {
        self.leaving_intersection
    }

    pub fn get_speed(&self) -> (speed: i64)
        ensures
            speed == self.speed,
    {
        self.speed
    }

    pub fn get_target_speed(&self) -> (speed: i64)
        ensures
            speed == self.target_speed,
    {
        self.target_speed
    }

    pub fn get_current_direction(&self) -> (direction: Direction)
        ensures
            direction == self.current_direction,
    {
        self.current_direction
    }

    pub fn get_lane(&self) -> (lane: Lane)
        ensures
            lane == self.lane,
    {
        self.lane
    }

    pub fn get_turn_offset(&self) -> (offset: i64)
        ensures
            offset == self.turn_offset,
    {
        self.turn_offset
    }

    pub fn get_driving_time(&self) -> (time: u64)
        ensures
            time == self.driving_time,
    {
        self.driving_time
    }

    pub fn get_sprite(&self) -> (sprite: usize)
        ensures
            sprite == self.sprite,
    {
        self.sprite
    }
}

/// One tick takes a well-formed vehicle to a vehicle that can have come out
/// of it: whatever the fleet around it, the speed stays between 0 and 2.2 and
/// moves by no more than 0.15, entry heading and lane stay, and the heading
/// changes only in the tick of the turn, to what the turn table gives.
pub proof fn tick_is_a_lawful_step(car: Car, cars: Seq<Car>, geometry: Intersection)
    requires
        car.wf(),
    ensures
        car.ticked(cars, geometry).steps_from(car),
        0 <= car.ticked(cars, geometry).speed <= CRUISE_SPEED,
{
}

/// A vehicle never moves back: after a tick it is where it was or further
/// along the heading that it now has.
pub proof fn tick_never_moves_back(car: Car, cars: Seq<Car>, geometry: Intersection)
    requires
        car.wf(),
        geometry.dimensions.wf(),
    ensures
        ({
            let next = car.ticked(cars, geometry);
            match next.current_direction {
                Direction::North => next.y <= car.y,
                Direction::South => next.y >= car.y,
                Direction::West => next.x <= car.x,
                _ => next.x >= car.x,
            }
        }),
{
    let before = car.turned_if_due(geometry).aged();
    let target = before.target_for(cars, geometry.dimensions);
    let speed = speed_toward(before.speed as int, target as int);
    let unit = geometry.dimensions.speed_unit as int;
    assert(unit * speed / (SCALE as int) >= 0) by (nonlinear_arith)
        requires
            unit >= 0,
            speed >= 0,
    ;
}

/// A new vehicle starts inside the window: in a geometry with a field it has
/// not left the window, and it is not yet due to turn.
pub proof fn new_vehicle_is_on_its_way_in(
    car: Car,
    direction: Direction,
    lane: Lane,
    sprite: usize,
    geometry: Intersection,
)
    requires
        car.spawned(direction, lane, sprite, geometry),
        direction != Direction::Random,
        geometry.wf(),
        geometry.dimensions.has_extent(),
    ensures
        !car.finished(geometry.dimensions),
        !car.turn_due(geometry),
        car.depth(geometry.dimensions) == -geometry.dimensions.extent_along(direction),
{
    let d = geometry.dimensions;
    assert(tenths(25, d.lane_width as int) < d.y_max && tenths(25, d.lane_width as int) < d.x_max)
        by (nonlinear_arith)
        requires
            d.lane_width == d.x_max / 15,
            d.x_max > 0,
            d.y_max > 0,
            d.y_max * 16 >= d.x_max * 9 - 16,
    ;
}

/// Over a life of lawful steps a vehicle keeps its entry heading and its
/// lane, and its heading changes once at most: until the turn it is the
/// entry heading, from the turn on it is what the turn table gives for the
/// entry heading and the lane, and a vehicle that has turned never turns
/// again.
pub proof fn route_is_kept(life: Seq<Car>, i: int, j: int)
    requires
        forall|k: int| 0 <= k < life.len() - 1 ==> (#[trigger] life[k + 1]).steps_from(life[k]),
        0 <= i <= j < life.len(),
        life[0].on_route(),
    ensures
        life[j].direction_from == life[i].direction_from,
        life[j].lane == life[i].lane,
        life[i].on_route(),
        life[j].on_route(),
        life[i].leaving_intersection ==> life[j].leaving_intersection
            && life[j].current_direction == life[i].current_direction,
        !life[j].leaving_intersection ==> life[j].current_direction == life[0].direction_from,
        life[j].leaving_intersection ==> life[j].current_direction == turn_target(
            life[0].direction_from,
            life[0].lane,
        ),
    decreases j,
{
    if j > 0 {
        route_is_kept(life, 0, j - 1);
        if i < j {
            route_is_kept(life, i, j - 1);
        }
        assert(life[j - 1 + 1].steps_from(life[j - 1]));
    }
}

/// Over a life of lawful steps the picture of a vehicle that pointed ahead
/// at the start points ahead ever after, at one of the four fixed angles.
pub proof fn picture_keeps_facing_ahead(life: Seq<Car>, j: int)
    requires
        forall|k: int| 0 <= k < life.len() - 1 ==> (#[trigger] life[k + 1]).steps_from(life[k]),
        0 <= j < life.len(),
        life[0].faces_ahead(),
    ensures
        life[j].faces_ahead(),
    decreases j,
{
    if j > 0 {
        picture_keeps_facing_ahead(life, j - 1);
        assert(life[j - 1 + 1].steps_from(life[j - 1]));
    }
}

/// Of the seven equal chances of a new vehicle's lane, one is the left
/// lane's, three are the middle lane's and three the right lane's; each of
/// the four headings has one chance of four.
pub proof fn chances_of_a_new_vehicle()
    ensures
        lane_draws().len() == 7,
        lane_draws().filter(|lane: Lane| lane == Lane::Left).len() == 1,
        lane_draws().filter(|lane: Lane| lane == Lane::Middle).len() == 3,
        lane_draws().filter(|lane: Lane| lane == Lane::Right).len() == 3,
        direction_draws().len() == 4,
        direction_draws().no_duplicates(),
        !direction_draws().contains(Direction::Random),
{
    reveal_with_fuel(Seq::filter, 8);
}

} // verus!
