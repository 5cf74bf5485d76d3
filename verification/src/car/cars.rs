//! The fleet: the vehicles in the order in which they were created.

use vstd::prelude::*;
use crate::car::{Car, Picture};
use crate::intersection::Intersection;
use crate::intersection::dimensions::Dimensions;
use crate::state::{fleet_wf, GlobalState};
use crate::statistics::Statistics;

verus! {

/// The fleet is a plain sequence of vehicles.
pub type Cars = Vec<Car>;

/// The fleet and the statistics after the first `n` vehicles have had their
/// tick, one after the other in fleet order. Each vehicle sees the fleet as
/// the vehicles before it have left it: those already moved, itself and the
/// rest not yet. A vehicle that turns is counted, and the speed that each
/// vehicle ends with is folded in.
pub open spec fn ticked_fleet(
    cars: Seq<Car>,
    geometry: Intersection,
    statistics: Statistics,
    n: nat,
) -> (Seq<Car>, Statistics)
    decreases n,
{
    if n == 0 {
        (cars, statistics)
    } else {
        let (fleet, seen) = ticked_fleet(cars, geometry, statistics, (n - 1) as nat);
        let car = fleet[n - 1];
        let next = car.ticked(fleet, geometry);
        let counted = if car.turn_due(geometry) { seen.with_turn() } else { seen };
        (fleet.update(n - 1, next), counted.with_speed(next.speed))
    }
}

/// The test by which a vehicle stays in the fleet: it has not left the
/// window.
pub open spec fn staying(dimensions: Dimensions) -> spec_fn(Car) -> bool {
    |car: Car| !car.finished(dimensions)
}

/// The statistics after those of the first `n` vehicles that have left the
/// window have had their driving times folded in, in fleet order.
pub open spec fn after_departures(
    statistics: Statistics,
    cars: Seq<Car>,
    dimensions: Dimensions,
    n: nat,
) -> Statistics
    decreases n,
{
    if n == 0 {
        statistics
    } else {
        let seen = after_departures(statistics, cars, dimensions, (n - 1) as nat);
        if cars[n - 1].finished(dimensions) {
            seen.with_time(cars[n - 1].driving_time)
        } else {
            seen
        }
    }
}

/// What the fleet can do. Each operation that changes the fleet also puts
/// the result into the simulation context that it is given.
pub trait CarTraits {
    /// The vehicles of the fleet, in order.
    spec fn fleet(&self) -> Seq<Car>;

    /// An empty fleet.
    fn new() -> (cars: Vec<Car>)
        ensures
            cars@ == Seq::<Car>::empty(),
    ;

    /// Puts a vehicle at the end of the fleet.
    fn add_car(&mut self, new_value: Car)
        ensures
            final(self).fleet() == old(self).fleet().push(new_value),
    ;

    /// Takes out every vehicle that has left the window, keeps the others in
    /// their order, and folds the driving times of those taken out into the
    /// statistics.
    fn remove_finished_cars(&mut self, global_state: &mut GlobalState)
        requires
            fleet_wf(old(self).fleet()),
            old(global_state).intersection.dimensions.wf(),
        ensures
            final(self).fleet() == old(self).fleet().filter(
                staying(old(global_state).intersection.dimensions),
            ),
            final(global_state).cars@ == final(self).fleet(),
            final(global_state).statistics == after_departures(
                old(global_state).statistics,
                old(self).fleet(),
                old(global_state).intersection.dimensions,
                old(self).fleet().len(),
            ),
            final(global_state).same_scene(*old(global_state)),
            fleet_wf(final(self).fleet()),
    ;

    /// Gives every vehicle its tick, in fleet order, and folds turns and
    /// speeds into the statistics.
    fn move_cars(&mut self, global_state: &mut GlobalState)
        requires
            fleet_wf(old(self).fleet()),
            old(global_state).intersection.wf(),
        ensures
            (final(self).fleet(), final(global_state).statistics) == ticked_fleet(
                old(self).fleet(),
                old(global_state).intersection,
                old(global_state).statistics,
                old(self).fleet().len(),
            ),
            final(global_state).cars@ == final(self).fleet(),
            final(global_state).same_scene(*old(global_state)),
            final(self).fleet().len() == old(self).fleet().len(),
            forall|i: int|
                0 <= i < old(self).fleet().len() ==> (#[trigger] final(self).fleet()[i]).steps_from(
                    old(self).fleet()[i],
                ),
    ;

    /// Describes how each vehicle of the fleet is drawn, in fleet order.
    fn draw_cars(&self, global_state: &GlobalState) -> (pictures: Vec<Picture>)
        requires
            fleet_wf(self.fleet()),
            global_state.intersection.dimensions.wf(),
        ensures
            pictures@.len() == self.fleet().len(),
            forall|i: int|
                0 <= i < pictures@.len() ==> #[trigger] pictures@[i] == self.fleet()[i].picture(
                    global_state.intersection.dimensions,
                ),
    ;
}

impl CarTraits for Vec<Car> {
    open spec fn fleet(&self) -> Seq<Car> {
        self@
    }

    fn new() -> (cars: Vec<Car>) {
        Vec::new()
    }

    fn add_car(&mut self, new_value: Car) {
        self.push(new_value)
    }

    fn remove_finished_cars(&mut self, global_state: &mut GlobalState) {
        let dimensions = global_state.intersection.dimensions;
        let mut kept: Vec<Car> = Vec::new();
        let count: usize = self.len();
        let mut i: usize = 0;
        while i < count
            invariant
                i <= count,
                count == self@.len(),
                *self == *old(self),
                dimensions.wf(),
                dimensions == old(global_state).intersection.dimensions,
                global_state.same_scene(*old(global_state)),
                kept@ == self@.take(i as int).filter(staying(dimensions)),
                global_state.statistics == after_departures(
                    old(global_state).statistics,
                    self@,
                    dimensions,
                    i as nat,
                ),
                fleet_wf(self@),
                fleet_wf(kept@),
            decreases count - i,
        {
            let car = self[i];
            proof {
                reveal(Seq::filter);
                assert(self@.take(i + 1).drop_last() == self@.take(i as int));
            }
            if car.is_finished(&dimensions) {
                global_state.statistics.record_time(car.driving_time);
            } else {
                kept.push(car);
            }
            i += 1;
        }
        assert(self@.take(count as int) == self@);
        global_state.cars = kept.clone();
        *self = kept;
    }

    fn move_cars(&mut self, global_state: &mut GlobalState) {
        let count: usize = self.len();
        global_state.cars = self.clone();
        let mut i: usize = 0;
        while i < count
            invariant
                i <= count,
                count == old(self)@.len(),
                global_state.intersection.wf(),
                global_state.same_scene(*old(global_state)),
                (global_state.cars@, global_state.statistics) == ticked_fleet(
                    old(self)@,
                    global_state.intersection,
                    old(global_state).statistics,
                    i as nat,
                ),
                global_state.cars@.len() == count,
                fleet_wf(global_state.cars@),
                forall|j: int| i <= j < count ==> global_state.cars@[j] == old(self)@[j],
                forall|j: int|
                    0 <= j < i ==> (#[trigger] global_state.cars@[j]).steps_from(old(self)@[j]),
            decreases count - i,
        {
            let mut car: Car = global_state.cars[i];
            if car.is_turn_due(&global_state.intersection) {
                car.take_turn();
                global_state.statistics.record_turn();
            }
            if car.driving_time < u64::MAX {
                car.driving_time = car.driving_time + 1;
            }
            car.adjust_speed(global_state);
            global_state.statistics.record_speed(car.speed);
            global_state.cars[i] = car;
            i += 1;
        }
        *self = global_state.cars.clone();
    }

    fn draw_cars(&self, global_state: &GlobalState) -> (pictures: Vec<Picture>) {
        let mut pictures: Vec<Picture> = Vec::new();
        let count: usize = self.len();
        let mut i: usize = 0;
        while i < count
            invariant
                i <= count,
                count == self@.len(),
                fleet_wf(self@),
                global_state.intersection.dimensions.wf(),
                pictures@.len() == i,
                forall|j: int|
                    0 <= j < i ==> #[trigger] pictures@[j] == self@[j].picture(
                        global_state.intersection.dimensions,
                    ),
            decreases count - i,
        {
            let picture = self[i].draw(global_state);
            pictures.push(picture);
            i += 1;
        }
        pictures
    }
}

/// A fleet in which every vehicle stays is left as it is by the eviction.
pub proof fn all_staying_are_kept(cars: Seq<Car>, dimensions: Dimensions)
    requires
        forall|i: int| 0 <= i < cars.len() ==> !(#[trigger] cars[i]).finished(dimensions),
    ensures
        cars.filter(staying(dimensions)) == cars,
    decreases cars.len(),
{
    reveal(Seq::filter);
    if cars.len() > 0 {
        all_staying_are_kept(cars.drop_last(), dimensions);
    }
}

/// Where none of the first `n` vehicles has left the window, no driving time
/// is folded in.
pub proof fn no_departure_no_record(
    statistics: Statistics,
    cars: Seq<Car>,
    dimensions: Dimensions,
    n: nat,
)
    requires
        n <= cars.len(),
        forall|i: int| 0 <= i < n ==> !(#[trigger] cars[i]).finished(dimensions),
    ensures
        after_departures(statistics, cars, dimensions, n) == statistics,
    decreases n,
{
    if n > 0 {
        no_departure_no_record(statistics, cars, dimensions, (n - 1) as nat);
    }
}

/// An eviction right after an eviction changes nothing: the vehicles that
/// the first one kept are all kept again, in their order, and the statistics
/// stay as the first one left them.
pub proof fn eviction_is_idempotent(cars: Seq<Car>, dimensions: Dimensions, statistics: Statistics)
    ensures
        ({
            let kept = cars.filter(staying(dimensions));
            let seen = after_departures(statistics, cars, dimensions, cars.len());
            &&& kept.filter(staying(dimensions)) == kept
            &&& after_departures(seen, kept, dimensions, kept.len()) == seen
            &&& forall|i: int| 0 <= i < kept.len() ==> !(#[trigger] kept[i]).finished(dimensions)
        }),
{
    let kept = cars.filter(staying(dimensions));
    let seen = after_departures(statistics, cars, dimensions, cars.len());
    assert forall|i: int| 0 <= i < kept.len() implies !(#[trigger] kept[i]).finished(
        dimensions,
    ) by {
        cars.lemma_filter_pred(staying(dimensions), i);
    }
    all_staying_are_kept(kept, dimensions);
    no_departure_no_record(seen, kept, dimensions, kept.len());
}

/// A vehicle that has left the window is not in the fleet after the
/// eviction, and a vehicle that has not is.
pub proof fn eviction_takes_the_finished(cars: Seq<Car>, dimensions: Dimensions, car: Car)
    requires
        cars.contains(car),
    ensures
        cars.filter(staying(dimensions)).contains(car) == !car.finished(dimensions),
{
    let kept = cars.filter(staying(dimensions));
    if car.finished(dimensions) {
        if kept.contains(car) {
            let i = choose|i: int| 0 <= i < kept.len() && kept[i] == car;
            cars.lemma_filter_pred(staying(dimensions), i);
        }
    } else {
        let i = choose|i: int| 0 <= i < cars.len() && cars[i] == car;
        cars.lemma_filter_contains(staying(dimensions), i);
    }
}

/// After an eviction the longest driving time is no shorter than that of
/// any vehicle among the first `n` that has left, and no shorter than
/// before. If each of those that left has driven for a tick or more, the
/// shortest driving time is recorded and no longer than any of theirs.
pub proof fn departures_are_recorded(
    statistics: Statistics,
    cars: Seq<Car>,
    dimensions: Dimensions,
    n: nat,
    i: int,
)
    requires
        0 <= i < n <= cars.len(),
        cars[i].finished(dimensions),
    ensures
        ({
            let seen = after_departures(statistics, cars, dimensions, n);
            &&& seen.max_time >= cars[i].driving_time
            &&& seen.max_time >= statistics.max_time
            &&& (forall|k: int|
                0 <= k < n && (#[trigger] cars[k]).finished(dimensions) ==> cars[k].driving_time
                    > 0) ==> 0 < seen.min_time <= cars[i].driving_time
        }),
    decreases n,
{
    times_only_grow(statistics, cars, dimensions, (n - 1) as nat);
    if i < n - 1 {
        departures_are_recorded(statistics, cars, dimensions, (n - 1) as nat, i);
    }
}

/// An eviction touches nothing but the two driving times, and the longest
/// driving time never gets shorter.
pub proof fn times_only_grow(
    statistics: Statistics,
    cars: Seq<Car>,
    dimensions: Dimensions,
    n: nat,
)
    requires
        n <= cars.len(),
    ensures
        ({
            let seen = after_departures(statistics, cars, dimensions, n);
            &&& seen == (Statistics {
                max_time: seen.max_time,
                min_time: seen.min_time,
                ..statistics
            })
            &&& seen.max_time >= statistics.max_time
        }),
    decreases n,
{
    if n > 0 {
        times_only_grow(statistics, cars, dimensions, (n - 1) as nat);
    }
}

} // verus!
