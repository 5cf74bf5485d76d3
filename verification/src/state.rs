//! The simulation context: geometry, fleet, statistics and what the screen
//! shows.

use vstd::prelude::*;
use vstd::pervasive::unreached;
use vstd::arithmetic::div_mod::{lemma_fundamental_div_mod, lemma_mod_bound};
use crate::car::{Car, Direction};
use crate::car::cars::{after_departures, staying, ticked_fleet, CarTraits};
use crate::intersection::Intersection;
use crate::intersection::dimensions::{window_fits, window_has_extent, Dimensions};
use crate::statistics::Statistics;
use crate::units::{saturate, saturating, SCALE, WINDOW_LIMIT};

verus! {

/// Change of the menu text's opacity from one frame to the next: 0.015.
pub const BREATH: i64 = 15;

/// What the program is showing.
#[derive(Debug, Clone, Copy, PartialEq, Eq, Structural)]
pub enum AnimationState {
    Menu,
    Running,
    Paused,
}

/// The keys that were pressed since the last frame.
#[derive(Debug, Clone, Copy, PartialEq, Eq, Structural)]
pub struct KeyPresses {
    pub space: bool,
    pub down: bool,
    pub up: bool,
    pub right: bool,
    pub left: bool,
    pub r: bool,
    pub escape: bool,
}

/// Everything that one simulation consists of. The caller owns it and hands
/// it to each step.
#[derive(Debug)]
pub struct GlobalState {
    pub intersection: Intersection,
    pub cars: Vec<Car>,
    pub statistics: Statistics,
    pub animation_state: AnimationState,
    /// Opacity of the pulsing menu text, in thousandths.
    pub breathing_opacity: i64,
    pub breathing_in: bool,
}

/// Every vehicle of the fleet is well-formed.
pub open spec fn fleet_wf(cars: Seq<Car>) -> bool {
    forall|i: int| 0 <= i < cars.len() ==> (#[trigger] cars[i]).wf()
}

/// A distance from the old centre carried over to a field of another
/// half-extent: multiplied by the old half-extent over the new one and
/// rounded towards zero.
pub open spec fn rescaled_offset(offset: int, old_half: int, new_half: int) -> int {
    if offset >= 0 {
        offset * old_half / new_half
    } else {
        -((-offset) * old_half / new_half)
    }
}

/// What Space does to the state: it pauses a running simulation and starts
/// or resumes one that is not running.
pub open spec fn toggled(state: AnimationState) -> AnimationState {
    if state == AnimationState::Running {
        AnimationState::Paused
    } else {
        AnimationState::Running
    }
}

/// The heading that the keys ask a new vehicle for, if they ask for one. Of
/// several keys the last of Down, Up, Right, Left, R counts.
pub open spec fn requested_direction(keys: KeyPresses) -> Option<Direction> {
    if keys.r {
        Some(Direction::Random)
    } else if keys.left {
        Some(Direction::West)
    } else if keys.right {
        Some(Direction::East)
    } else if keys.up {
        Some(Direction::North)
    } else if keys.down {
        Some(Direction::South)
    } else {
        None
    }
}

impl Car {
    /// The vehicle carried over from one geometry to another: its distance
    /// from the centre along its line of travel is rescaled, the coordinate
    /// across it is left for the next tick to set.
    pub open spec fn rescaled(self, from: Dimensions, to: Dimensions) -> Car {
        let heading = self.current_direction;
        let place = saturate(
            to.center_along(heading) - rescaled_offset(
                from.center_along(heading) - self.travel(),
                from.extent_along(heading) as int,
                to.extent_along(heading) as int,
            ),
        );
        match heading {
            Direction::North | Direction::South => Car { y: place, ..self },
            _ => Car { x: place, ..self },
        }
    }
}

/// Carries a coordinate over from a field with centre `old_center` and
/// half-extent `old_half` to one with `new_center` and `new_half`.
pub fn rescale(
    coordinate: i64,
    old_center: i64,
    old_half: i64,
    new_center: i64,
    new_half: i64,
) -> (moved: i64)
    requires
        0 <= old_half <= WINDOW_LIMIT,
        0 < new_half,
    ensures
        moved == saturate(
            new_center - rescaled_offset(old_center - coordinate, old_half as int, new_half as int),
        ),
{
    let offset: i128 = old_center as i128 - coordinate as i128;
    let size: i128 = if offset >= 0 { offset } else { -offset };
    assert(0 <= size * old_half <= 0x1_0000_0000_0000_0000 * WINDOW_LIMIT) by (nonlinear_arith)
        requires
            0 <= size <= 0x1_0000_0000_0000_0000,
            0 <= old_half <= WINDOW_LIMIT,
    ;
    let scaled: i128 = size * (old_half as i128) / (new_half as i128);
    assert(0 <= scaled <= size * old_half) by (nonlinear_arith)
        requires
            scaled == size * old_half / (new_half as int),
            0 <= size * old_half,
            0 < new_half,
    ;
    if offset >= 0 {
        saturating(new_center as i128 - scaled)
    } else {
        saturating(new_center as i128 + scaled)
    }
}

impl GlobalState {
    /// Everything but the fleet and the statistics is as in `other`.
    pub open spec fn same_scene(&self, other: GlobalState) -> bool {
        &&& self.intersection == other.intersection
        &&& self.animation_state == other.animation_state
        &&& self.breathing_opacity == other.breathing_opacity
        &&& self.breathing_in == other.breathing_in
    }

    /// The geometry is derived from its window and every vehicle is
    /// well-formed.
    pub open spec fn wf(&self) -> bool {
        &&& self.intersection.wf()
        &&& fleet_wf(self.cars@)
    }

    /// The context as it is at the start and after a reset: the menu, no
    /// vehicle, nothing recorded, the menu text opaque and about to fade.
    pub open spec fn fresh(&self) -> bool {
        &&& self.cars@ == Seq::<Car>::empty()
        &&& self.statistics == Statistics::empty()
        &&& self.animation_state == AnimationState::Menu
        &&& self.breathing_opacity == SCALE
        &&& self.breathing_in
    }

    /// The state after the keys have had their effect: Space toggles, and
    /// Escape leads from the pause to the menu.
    pub open spec fn state_after(state: AnimationState, keys: KeyPresses) -> AnimationState {
        let toggled_state = if keys.space { toggled(state) } else { state };
        if toggled_state == AnimationState::Paused && keys.escape {
            AnimationState::Menu
        } else {
            toggled_state
        }
    }

    /// Whether the keys lead to a reset: Escape while the simulation is
    /// paused, or is being paused by Space.
    pub open spec fn resets(state: AnimationState, keys: KeyPresses) -> bool {
        keys.escape && (if keys.space { toggled(state) } else { state }) == AnimationState::Paused
    }

    /// The heading of the vehicle that the keys ask for, if the simulation
    /// runs, or is being started by Space, and they ask for one.
    pub open spec fn spawn_asked(state: AnimationState, keys: KeyPresses) -> Option<Direction> {
        if (if keys.space { toggled(state) } else { state }) == AnimationState::Running {
            requested_direction(keys)
        } else {
            None
        }
    }

    /// Whether `car` is a vehicle that a request for the heading `asked` can
    /// create in this geometry.
    pub open spec fn answers(car: Car, asked: Direction, geometry: Intersection) -> bool {
        &&& car.spawned(car.direction_from, car.lane, car.sprite, geometry)
        &&& car.direction_from != Direction::Random
        &&& asked != Direction::Random ==> car.direction_from == asked
    }

    /// Whether the fleet is that of `before` with one vehicle more at its
    /// end, which answers a request for `asked` and found its lane free.
    pub open spec fn entered(&self, before: GlobalState, asked: Direction) -> bool {
        let car = self.cars@.last();
        &&& self.cars@ == before.cars@.push(car)
        &&& Self::answers(car, asked, before.intersection)
        &&& car.same_lane_clear(before.cars@, before.intersection.dimensions)
    }

    /// Every vehicle that a request for `asked` can create finds its lane
    /// free.
    pub open spec fn admits_all(&self, asked: Direction) -> bool {
        forall|car: Car| #[trigger]
            Self::answers(car, asked, self.intersection) ==> car.same_lane_clear(
                self.cars@,
                self.intersection.dimensions,
            )
    }

    /// No vehicle that a request for `asked` can create finds its lane free.
    pub open spec fn admits_none(&self, asked: Direction) -> bool {
        forall|car: Car| #[trigger]
            Self::answers(car, asked, self.intersection) ==> !car.same_lane_clear(
                self.cars@,
                self.intersection.dimensions,
            )
    }

    /// The opacity and the direction of the pulse one frame later: the
    /// direction turns round once the opacity has left the range from 0 to 1,
    /// and the opacity then moves by 0.015.
    pub open spec fn breathed(opacity: i64, fading: bool) -> (i64, bool) {
        let fading_now = if opacity < 0 || opacity > SCALE { !fading } else { fading };
        (saturate(if fading_now { opacity - BREATH } else { opacity + BREATH }), fading_now)
    }

    /// A context for a window of the given size, showing the menu.
    pub fn new(width: i64, height: i64) -> (state: GlobalState)
        requires
            window_fits(width as int, height as int),
        ensures
            state.fresh(),
            state.wf(),
            state.intersection.window_width == width,
            state.intersection.window_height == height,
    {
        GlobalState {
            intersection: Intersection::new(width, height),
            cars: Vec::new(),
            statistics: Statistics::new(),
            animation_state: AnimationState::Menu,
            breathing_opacity: SCALE,
            breathing_in: true,
        }
    }

    /// Tells whether the geometry is derived from its window and every
    /// vehicle is well-formed.
    pub fn is_wf(&self) -> (ok: bool)
        ensures
            ok == self.wf(),
    {
        if !self.intersection.is_wf() {
            return false;
        }
        let count: usize = self.cars.len();
        let mut i: usize = 0;
        while i < count
            invariant
                i <= count,
                count == self.cars@.len(),
                forall|j: int| 0 <= j < i ==> (#[trigger] self.cars@[j]).wf(),
            decreases count - i,
        {
            if !self.cars[i].is_wf() {
                return false;
            }
            i += 1;
        }
        true
    }

    /// Derives the geometry anew for a window of the given size and carries
    /// every vehicle over to it.
    pub fn recalculate_positions(&mut self, width: i64, height: i64)
        requires
            old(self).wf(),
            window_fits(width as int, height as int),
            window_has_extent(width as int, height as int),
        ensures
            final(self).intersection.wf(),
            final(self).intersection.window_width == width,
            final(self).intersection.window_height == height,
            ({
                let before = *old(self);
                let after = *final(self);
                let from = before.intersection.dimensions;
                let to = after.intersection.dimensions;
                &&& after.cars@.len() == before.cars@.len()
                &&& forall|i: int|
                    0 <= i < before.cars@.len() ==> #[trigger] after.cars@[i]
                        == before.cars@[i].rescaled(from, to)
                &&& after.statistics == before.statistics
                &&& after.animation_state == before.animation_state
                &&& after.breathing_opacity == before.breathing_opacity
                &&& after.breathing_in == before.breathing_in
            }),
            final(self).wf(),
    {
        let from = self.intersection.dimensions;
        self.intersection = Intersection::new(width, height);
        let to = self.intersection.dimensions;
        let count: usize = self.cars.len();
        let mut i: usize = 0;
        while i < count
            invariant
                i <= count,
                count == old(self).cars@.len(),
                self.cars@.len() == count,
                from == old(self).intersection.dimensions,
                from.wf(),
                to == self.intersection.dimensions,
                to.wf(),
                to.has_extent(),
                self.intersection.wf(),
                self.intersection.window_width == width,
                self.intersection.window_height == height,
                self.statistics == old(self).statistics,
                self.animation_state == old(self).animation_state,
                self.breathing_opacity == old(self).breathing_opacity,
                self.breathing_in == old(self).breathing_in,
                fleet_wf(self.cars@),
                forall|j: int| i <= j < count ==> self.cars@[j] == old(self).cars@[j],
                forall|j: int|
                    0 <= j < i ==> #[trigger] self.cars@[j] == old(self).cars@[j].rescaled(
                        from,
                        to,
                    ),
            decreases count - i,
        {
            let mut car: Car = self.cars[i];
            match car.current_direction {
                Direction::North | Direction::South => {
                    car.y = rescale(car.y, from.center.y, from.y_max, to.center.y, to.y_max);
                },
                Direction::East | Direction::West => {
                    car.x = rescale(car.x, from.center.x, from.x_max, to.center.x, to.x_max);
                },
                Direction::Random => unreached(),
            }
            self.cars[i] = car;
            i += 1;
        }
    }

    /// Follows the window: where it has another size than the geometry was
    /// derived from, and a size with a field, the geometry is derived anew
    /// and the vehicles are carried over. Tells whether that was done;
    /// otherwise nothing has changed.
    pub fn follow_window(&mut self, width: i64, height: i64) -> (resized: bool)
        requires
            old(self).wf(),
            window_fits(width as int, height as int),
        ensures
            resized == (window_has_extent(width as int, height as int) && (old(self).intersection.window_width != width || old(self).intersection.window_height
                != height)),
            final(self).wf(),
            ({
                let before = *old(self);
                let after = *final(self);
                let from = before.intersection.dimensions;
                let to = after.intersection.dimensions;
                &&& after.statistics == before.statistics
                &&& after.animation_state == before.animation_state
                &&& after.breathing_opacity == before.breathing_opacity
                &&& after.breathing_in == before.breathing_in
                &&& !resized ==> after.intersection == before.intersection && after.cars@
                    == before.cars@
                &&& resized ==> {
                    &&& after.intersection.window_width == width
                    &&& after.intersection.window_height == height
                    &&& after.cars@.len() == before.cars@.len()
                    &&& forall|i: int|
                        0 <= i < before.cars@.len() ==> #[trigger] after.cars@[i]
                            == before.cars@[i].rescaled(from, to)
                }
            }),
    {
        if width >= 4 && height >= 2 && self.intersection.has_changed(width, height) {
            self.recalculate_positions(width, height);
            true
        } else {
            false
        }
    }

    /// Runs the simulation for one tick: every vehicle has its tick, those
    /// that have left the window are taken out, and the running time is
    /// counted on.
    pub fn step(&mut self)
        requires
            old(self).wf(),
        ensures
            final(self).wf(),
            final(self).same_scene(*old(self)),
            ({
                let before = *old(self);
                let dimensions = before.intersection.dimensions;
                let (moved, seen) = ticked_fleet(
                    before.cars@,
                    before.intersection,
                    before.statistics,
                    before.cars@.len(),
                );
                &&& final(self).cars@ == moved.filter(staying(dimensions))
                &&& final(self).statistics == after_departures(
                    seen,
                    moved,
                    dimensions,
                    moved.len(),
                ).with_tick()
            }),
    {
        let mut cars = self.get_cars();
        cars.move_cars(self);
        cars.remove_finished_cars(self);
        self.statistics.record_tick();
    }

    /// Puts a new vehicle into the fleet unless it would enter right behind
    /// another one in its lane. Tells whether it was put in.
    pub fn spawn_request(&mut self, car: Car) -> (added: bool)
        requires
            old(self).wf(),
            car.wf(),
        ensures
            added == car.same_lane_clear(old(self).cars@, old(self).intersection.dimensions),
            final(self).cars@ == if added { old(self).cars@.push(car) } else { old(self).cars@ },
            final(self).statistics == old(self).statistics,
            final(self).same_scene(*old(self)),
            final(self).wf(),
    {
        let mut candidate: Car = car;
        if candidate.same_lane_is_clear(self) {
            self.cars.add_car(candidate);
            true
        } else {
            false
        }
    }

    /// Lets the keys have their effect. Space toggles between running and
    /// not running. While the simulation runs, an arrow key or R asks for a
    /// new vehicle, which enters if its lane is free. While it is paused,
    /// Escape leads back to the menu and resets the context for a window of
    /// the given size.
    ///
    /// Lane and sprite of the new vehicle, and its heading after R, are drawn
    /// at random, so whether it enters is settled here only where every
    /// vehicle that can be drawn finds its lane free, or none does.
    pub fn handle_keypress(&mut self, keys: KeyPresses, width: i64, height: i64)
        requires
            old(self).wf(),
            window_fits(width as int, height as int),
        ensures
            final(self).wf(),
            ({
                let before = *old(self);
                let after = *final(self);
                let reset = Self::resets(before.animation_state, keys);
                let asked = Self::spawn_asked(before.animation_state, keys);
                &&& after.animation_state == Self::state_after(before.animation_state, keys)
                &&& reset ==> after.fresh() && after.intersection.window_width == width
                    && after.intersection.window_height == height
                &&& !reset ==> after.intersection == before.intersection && after.statistics
                    == before.statistics && after.breathing_opacity == before.breathing_opacity
                    && after.breathing_in == before.breathing_in
                &&& !reset && asked is None ==> after.cars@ == before.cars@
                &&& asked matches Some(heading) ==> {
                    &&& after.cars@ == before.cars@ || after.entered(before, heading)
                    &&& before.admits_all(heading) ==> after.entered(before, heading)
                    &&& before.admits_none(heading) ==> after.cars@ == before.cars@
                }
            }),
    {
        if keys.space {
            self.toggle_animation_state();
        }
        if self.animation_state == AnimationState::Running {
            let mut asked: Option<Direction> = None;
            if keys.down {
                asked = Some(Direction::South);
            }
            if keys.up {
                asked = Some(Direction::North);
            }
            if keys.right {
                asked = Some(Direction::East);
            }
            if keys.left {
                asked = Some(Direction::West);
            }
            if keys.r {
                asked = Some(Direction::Random);
            }
            if let Some(direction) = asked {
                let car = Car::new(direction, self);
                assert(Self::answers(car, direction, self.intersection));
                self.spawn_request(car);
            }
        }
        if self.animation_state == AnimationState::Paused {
            if keys.escape {
                self.reset(width, height);
            }
        }
    }

    /// Back to the menu with an empty fleet, empty statistics and a geometry
    /// for a window of the given size.
    pub fn reset(&mut self, width: i64, height: i64)
        requires
            window_fits(width as int, height as int),
        ensures
            final(self).fresh(),
            final(self).wf(),
            final(self).intersection.window_width == width,
            final(self).intersection.window_height == height,
    {
        self.intersection = Intersection::new(width, height);
        self.cars = Vec::new();
        self.statistics = Statistics::new();
        self.animation_state = AnimationState::Menu;
        self.breathing_opacity = SCALE;
        self.breathing_in = true;
    }

    /// Moves the pulse of the menu text on by one frame.
    pub fn breathe(&mut self)
        ensures
            (final(self).breathing_opacity, final(self).breathing_in) == Self::breathed(
                old(self).breathing_opacity,
                old(self).breathing_in,
            ),
            final(self).intersection == old(self).intersection,
            final(self).cars@ == old(self).cars@,
            final(self).statistics == old(self).statistics,
            final(self).animation_state == old(self).animation_state,
    {
        if self.breathing_opacity < 0 || self.breathing_opacity > SCALE {
            self.breathing_in = !self.breathing_in;
        }
        if self.breathing_in {
            self.breathing_opacity = saturating(self.breathing_opacity as i128 - BREATH as i128);
        } else {
            self.breathing_opacity = saturating(self.breathing_opacity as i128 + BREATH as i128);
        }
    }

    pub fn set_intersection(&mut self, new_value: Intersection)
        ensures
            final(self).intersection == new_value,
            final(self).cars@ == old(self).cars@,
            final(self).statistics == old(self).statistics,
            final(self).animation_state == old(self).animation_state,
            final(self).breathing_opacity == old(self).breathing_opacity,
            final(self).breathing_in == old(self).breathing_in,
    {
        self.intersection = new_value;
    }

    pub fn set_cars(&mut self, new_value: Vec<Car>)
        ensures
            final(self).cars@ == new_value@,
            final(self).statistics == old(self).statistics,
            final(self).same_scene(*old(self)),
    {
        self.cars = new_value;
    }

    pub fn set_statistics(&mut self, new_value: Statistics)
        ensures
            final(self).statistics == new_value,
            final(self).cars@ == old(self).cars@,
            final(self).same_scene(*old(self)),
    {
        self.statistics = new_value;
    }

    pub fn set_animation_state(&mut self, new_value: AnimationState)
        ensures
            final(self).animation_state == new_value,
            final(self).intersection == old(self).intersection,
            final(self).cars@ == old(self).cars@,
            final(self).statistics == old(self).statistics,
            final(self).breathing_opacity == old(self).breathing_opacity,
            final(self).breathing_in == old(self).breathing_in,
    {
        self.animation_state = new_value;
    }

    /// Pauses a running simulation and starts or resumes one that is not
    /// running.
    pub fn toggle_animation_state(&mut self)
        ensures
            final(self).animation_state == toggled(old(self).animation_state),
            final(self).intersection == old(self).intersection,
            final(self).cars@ == old(self).cars@,
            final(self).statistics == old(self).statistics,
            final(self).breathing_opacity == old(self).breathing_opacity,
            final(self).breathing_in == old(self).breathing_in,
    {
        match self.animation_state {
            AnimationState::Running => self.set_animation_state(AnimationState::Paused),
            _ => self.set_animation_state(AnimationState::Running),
        }
    }

    pub fn set_breathing_opacity(&mut self, new_value: i64)
        ensures
            final(self).breathing_opacity == new_value,
            final(self).intersection == old(self).intersection,
            final(self).cars@ == old(self).cars@,
            final(self).statistics == old(self).statistics,
            final(self).animation_state == old(self).animation_state,
            final(self).breathing_in == old(self).breathing_in,
    {
        self.breathing_opacity = new_value;
    }

    pub fn set_breathing_in(&mut self, new_value: bool)
        ensures
            final(self).breathing_in == new_value,
            final(self).intersection == old(self).intersection,
            final(self).cars@ == old(self).cars@,
            final(self).statistics == old(self).statistics,
            final(self).animation_state == old(self).animation_state,
            final(self).breathing_opacity == old(self).breathing_opacity,
    {
        self.breathing_in = new_value;
    }

    pub fn get_intersection(&self) -> (intersection: Intersection)
        ensures
            intersection == self.intersection,
    {
        self.intersection
    }

    /// A copy of the fleet.
    pub fn get_cars(&self) -> (cars: Vec<Car>)
        ensures
            cars@ == self.cars@,
    {
        self.cars.clone()
    }

    pub fn get_statistics(&self) -> (statistics: Statistics)
        ensures
            statistics == self.statistics,
    {
        self.statistics
    }

    pub fn get_animation_state(&self) -> (state: AnimationState)
        ensures
            state == self.animation_state,
    {
        self.animation_state
    }

    pub fn get_breathing_opacity(&self) -> (opacity: i64)
        ensures
            opacity == self.breathing_opacity,
    {
        self.breathing_opacity
    }

    pub fn get_breathing_in(&self) -> (fading: bool)
        ensures
            fading == self.breathing_in,
    {
        self.breathing_in
    }
}

/// A distance carried over to a field of another half-extent and back comes
/// out on the same side of the centre, no longer than it was, and shorter by
/// less than one unit and the ratio of the other half-extent to this one.
pub proof fn offset_returns(offset: int, half: int, other_half: int)
    requires
        0 < half,
        0 < other_half,
    ensures
        ({
            let back = rescaled_offset(
                rescaled_offset(offset, half, other_half),
                other_half,
                half,
            );
            &&& offset >= 0 ==> 0 <= back <= offset
            &&& offset <= 0 ==> offset <= back <= 0
            &&& (offset - back) * half < half + other_half
            &&& (back - offset) * half < half + other_half
        }),
{
    let size = if offset >= 0 { offset } else { -offset };
    let there = size * half / other_half;
    let back = there * other_half / half;
    lemma_fundamental_div_mod(size * half, other_half);
    lemma_mod_bound(size * half, other_half);
    assert(0 <= there && there * other_half <= size * half < there * other_half + other_half)
        by (nonlinear_arith)
        requires
            0 <= size * half,
            0 < other_half,
            size * half == other_half * there + (size * half) % other_half,
            0 <= (size * half) % other_half < other_half,
    ;
    lemma_fundamental_div_mod(there * other_half, half);
    lemma_mod_bound(there * other_half, half);
    assert(0 <= back <= size && (size - back) * half < half + other_half) by (nonlinear_arith)
        requires
            0 <= there * other_half <= size * half < there * other_half + other_half,
            0 < half,
            there * other_half == half * back + (there * other_half) % half,
            0 <= (there * other_half) % half < half,
    ;
    assert((back - size) * half < half + other_half) by (nonlinear_arith)
        requires
            0 <= back <= size,
            0 < half,
            0 < other_half,
    ;
    if offset < 0 {
        if there == 0 {
            assert(back == 0) by (nonlinear_arith)
                requires
                    there == 0,
                    back == there * other_half / half,
                    0 < half,
            ;
        }
        assert((offset + back) * half == -((size - back) * half)) by (nonlinear_arith)
            requires
                offset == -size,
        ;
        assert((-back - offset) * half == (size - back) * half) by (nonlinear_arith)
            requires
                offset == -size,
        ;
    }
}

/// A vehicle carried over to another geometry and back again is where it
/// was, up to rounding: heading, lane and the coordinate across its line of
/// travel are untouched, and along its line it has moved towards the centre
/// by less than one unit and the ratio of the other half-extent to this one.
/// This holds wherever the vehicle's place in the other geometry is within
/// the range of a coordinate.
pub proof fn rescaling_returns(car: Car, here: Dimensions, there: Dimensions)
    requires
        here.has_extent(),
        there.has_extent(),
        ({
            let heading = car.current_direction;
            let place = there.center_along(heading) - rescaled_offset(
                here.center_along(heading) - car.travel(),
                here.extent_along(heading) as int,
                there.extent_along(heading) as int,
            );
            i64::MIN <= place <= i64::MAX
        }),
    ensures
        ({
            let back = car.rescaled(here, there).rescaled(there, here);
            let heading = car.current_direction;
            let half = here.extent_along(heading);
            let other_half = there.extent_along(heading);
            let center = here.center_along(heading);
            &&& back == match heading {
                Direction::North | Direction::South => (Car { y: back.y, ..car }),
                _ => (Car { x: back.x, ..car }),
            }
            &&& (back.travel() - car.travel()) * half < half + other_half
            &&& (car.travel() - back.travel()) * half < half + other_half
            &&& car.travel() <= center ==> car.travel() <= back.travel() <= center
            &&& car.travel() >= center ==> car.travel() >= back.travel() >= center
        }),
{
    let heading = car.current_direction;
    let half = here.extent_along(heading) as int;
    let other_half = there.extent_along(heading) as int;
    let offset = here.center_along(heading) - car.travel();
    offset_returns(offset, half, other_half);
    let moved = car.rescaled(here, there);
    assert(there.center_along(heading) - moved.travel() == rescaled_offset(
        offset,
        half,
        other_half,
    ));
}

impl Clone for GlobalState {
    /// A context with the same geometry, statistics and display state and a
    /// copy of the fleet.
    fn clone(&self) -> (copy: GlobalState)
        ensures
            copy.cars@ == self.cars@,
            copy.statistics == self.statistics,
            copy.same_scene(*self),
    {
        GlobalState {
            intersection: self.intersection,
            cars: self.cars.clone(),
            statistics: self.statistics,
            animation_state: self.animation_state,
            breathing_opacity: self.breathing_opacity,
            breathing_in: self.breathing_in,
        }
    }
}

} // verus!
