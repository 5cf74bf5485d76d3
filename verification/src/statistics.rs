//! Running extremes over the history of the fleet.

use vstd::prelude::*;
use crate::units::TICKS_PER_SECOND;

verus! {

/// The value of `min_speed` while no speed has been recorded: -0.1.
pub const NO_SPEED: i64 = -100;

/// The value of `min_time` while no driving time has been recorded.
pub const NO_TIME: u64 = 0;

/// What has been seen so far. Speeds are in thousandths, times in ticks.
#[derive(Debug, Clone, Copy, PartialEq, Eq, Structural)]
pub struct Statistics {
    /// Ticks for which the simulation has run.
    pub animation_time: u64,
    /// Number of vehicles that have taken their turn at the junction.
    pub max_vehicles: u64,
    pub max_speed: i64,
    /// Lowest speed above zero, or `NO_SPEED`.
    pub min_speed: i64,
    pub max_time: u64,
    /// Shortest driving time of a vehicle that has left, or `NO_TIME`.
    pub min_time: u64,
    /// Kept for display; nothing counts into it.
    pub close_calls: u64,
}

impl Statistics {
    /// Nothing recorded yet.
    pub open spec fn empty() -> Statistics {
        Statistics {
            animation_time: 0,
            max_vehicles: 0,
            max_speed: 0,
            min_speed: NO_SPEED,
            max_time: 0,
            min_time: NO_TIME,
            close_calls: 0,
        }
    }

    /// The lowest speed above zero that has been recorded, if any has.
    pub open spec fn lowest_speed(&self) -> Option<i64> {
        if self.min_speed == NO_SPEED { None } else { Some(self.min_speed) }
    }

    /// The shortest driving time that has been recorded, if any has.
    pub open spec fn shortest_time(&self) -> Option<u64> {
        if self.min_time == NO_TIME { None } else { Some(self.min_time) }
    }

    /// One more tick has run. The count stops at the end of `u64`.
    pub open spec fn with_tick(self) -> Statistics {
        Statistics {
            animation_time: if self.animation_time < u64::MAX {
                (self.animation_time + 1) as u64
            } else {
                self.animation_time
            },
            ..self
        }
    }

    /// One more vehicle has turned. The count stops at the end of `u64`.
    pub open spec fn with_turn(self) -> Statistics {
        Statistics {
            max_vehicles: if self.max_vehicles < u64::MAX {
                (self.max_vehicles + 1) as u64
            } else {
                self.max_vehicles
            },
            ..self
        }
    }

    /// The speed of one vehicle in one tick folded in: the highest speed is
    /// the larger of the two, and the lowest is the smaller of the two unless
    /// the sample is zero, which does not count.
    pub open spec fn with_speed(self, speed: i64) -> Statistics {
        Statistics {
            max_speed: if self.max_speed <= speed { speed } else { self.max_speed },
            min_speed: if speed != 0 && (self.min_speed == NO_SPEED || speed < self.min_speed) {
                speed
            } else {
                self.min_speed
            },
            ..self
        }
    }

    /// The driving time of a vehicle that leaves folded in. While no time is
    /// recorded the first one is taken as the shortest.
    pub open spec fn with_time(self, time: u64) -> Statistics {
        Statistics {
            max_time: if self.max_time <= time { time } else { self.max_time },
            min_time: if self.min_time == NO_TIME || self.min_time >= time {
                time
            } else {
                self.min_time
            },
            ..self
        }
    }

    pub fn new() -> (statistics: Statistics)
        ensures
            statistics == Statistics::empty(),
    {
        Statistics {
            animation_time: 0,
            max_vehicles: 0,
            max_speed: 0,
            min_speed: NO_SPEED,
            max_time: 0,
            min_time: NO_TIME,
            close_calls: 0,
        }
    }

    /// Gives the lowest recorded speed, or nothing while none is recorded.
    pub fn get_lowest_speed(&self) -> (speed: Option<i64>)
        ensures
            speed == self.lowest_speed(),
    {
        if self.min_speed == NO_SPEED { None } else { Some(self.min_speed) }
    }

    /// Gives the shortest recorded driving time, or nothing while none is
    /// recorded.
    pub fn get_shortest_time(&self) -> (time: Option<u64>)
        ensures
            time == self.shortest_time(),
    {
        if self.min_time == NO_TIME { None } else { Some(self.min_time) }
    }

    /// Counts one tick of running time.
    pub fn record_tick(&mut self)
        ensures
            *final(self) == old(self).with_tick(),
    {
        if self.animation_time < u64::MAX {
            self.animation_time = self.animation_time + 1;
        }
    }

    /// Counts one vehicle that has turned.
    pub fn record_turn(&mut self)
        ensures
            *final(self) == old(self).with_turn(),
    {
        if self.max_vehicles < u64::MAX {
            self.max_vehicles = self.max_vehicles + 1;
        }
    }

    /// Folds in the speed that a vehicle has after a tick.
    pub fn record_speed(&mut self, speed: i64)
        ensures
            *final(self) == old(self).with_speed(speed),
    {
        if self.max_speed <= speed {
            self.max_speed = speed;
        }
        if speed != 0 && (self.min_speed == NO_SPEED || speed < self.min_speed) {
            self.min_speed = speed;
        }
    }

    /// Folds in the driving time of a vehicle that leaves the fleet.
    pub fn record_time(&mut self, time: u64)
        ensures
            *final(self) == old(self).with_time(time),
    {
        if self.max_time <= time {
            self.max_time = time;
        }
        if self.min_time == NO_TIME || self.min_time >= time {
            self.min_time = time;
        }
    }
    /// The running time as hours, minutes below sixty and seconds below
    /// sixty; a started second does not count.
    pub open spec fn clock(&self) -> (u64, u64, u64) {
        let seconds = self.animation_time / TICKS_PER_SECOND;
        ((seconds / 3600) as u64, (seconds % 3600 / 60) as u64, (seconds % 60) as u64)
    }

    /// Splits the running time into hours, minutes and seconds.
    pub fn get_formatted_animation_time(&self) -> (parts: (u64, u64, u64))
        ensures
            parts == self.clock(),
            parts.1 < 60,
            parts.2 < 60,
            parts.0 * 3600 + parts.1 * 60 + parts.2 == self.animation_time / TICKS_PER_SECOND,
    {
        let seconds: u64 = self.animation_time / TICKS_PER_SECOND;
        (seconds / 3600, seconds % 3600 / 60, seconds % 60)
    }

    pub fn set_animation_time(&mut self, new_value: u64)
        ensures
            *final(self) == (Statistics { animation_time: new_value, ..*old(self) }),
    {
        self.animation_time = new_value;
    }

    pub fn set_max_vehicles(&mut self, new_value: u64)
        ensures
            *final(self) == (Statistics { max_vehicles: new_value, ..*old(self) }),
    {
        self.max_vehicles = new_value;
    }

    pub fn set_max_speed(&mut self, new_value: i64)
        ensures
            *final(self) == (Statistics { max_speed: new_value, ..*old(self) }),
    {
        self.max_speed = new_value;
    }

    pub fn set_min_speed(&mut self, new_value: i64)
        ensures
            *final(self) == (Statistics { min_speed: new_value, ..*old(self) }),
    {
        self.min_speed = new_value;
    }

    pub fn set_max_time(&mut self, new_value: u64)
        ensures
            *final(self) == (Statistics { max_time: new_value, ..*old(self) }),
    {
        self.max_time = new_value;
    }

    pub fn set_min_time(&mut self, new_value: u64)
        ensures
            *final(self) == (Statistics { min_time: new_value, ..*old(self) }),
    {
        self.min_time = new_value;
    }

    pub fn set_close_calls(&mut self, new_value: u64)
        ensures
            *final(self) == (Statistics { close_calls: new_value, ..*old(self) }),
    {
        self.close_calls = new_value;
    }

    pub fn get_animation_time(&self) -> (value: u64)
        ensures
            value == self.animation_time,
    {
        self.animation_time
    }

    pub fn get_max_vehicles(&self) -> (value: u64)
        ensures
            value == self.max_vehicles,
    {
        self.max_vehicles
    }

    pub fn get_max_speed(&self) -> (value: i64)
        ensures
            value == self.max_speed,
    {
        self.max_speed
    }

    pub fn get_min_speed(&self) -> (value: i64)
        ensures
            value == self.min_speed,
    {
        self.min_speed
    }

    pub fn get_max_time(&self) -> (value: u64)
        ensures
            value == self.max_time,
    {
        self.max_time
    }

    pub fn get_min_time(&self) -> (value: u64)
        ensures
            value == self.min_time,
    {
        self.min_time
    }

    pub fn get_close_calls(&self) -> (value: u64)
        ensures
            value == self.close_calls,
    {
        self.close_calls
    }
}

} // verus!
