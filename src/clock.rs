use vstd::prelude::*;

verus! {

/// Microseconds in one second.
pub const MICROS_PER_SECOND: i64 = 1000000;

/// Fixed-timestep clock in whole microseconds.
///
/// `internal_us` is the simulation's time and `external_us` the time it
/// must track; whenever they drift apart by more than
/// `sync_threshold_us`, the simulation snaps to the external time.
/// An update is due once `accumulator_us` reaches `update_period_us`; a
/// period of zero makes every tick an update.
#[derive(Clone, Copy, Debug, PartialEq, Eq, Structural)]
pub struct SimulationClock {
    pub internal_us: i64,
    pub external_us: i64,
    pub accumulator_us: i64,
    pub sync_threshold_us: i64,
    pub update_period_us: i64,
}

/// Absolute value.
pub open spec fn abs(x: int) -> int {
    if x < 0 { -x } else { x }
}

/// The update period for a rate of `ups` updates per second; zero means
/// uncapped.
pub open spec fn period_of(ups: u32) -> i64 {
    if ups == 0 { 0 } else { (MICROS_PER_SECOND / ups as i64) as i64 }
}

/// Whether the two clocks have drifted beyond the threshold.
pub open spec fn drifted(c: SimulationClock) -> bool {
    abs(c.external_us - c.internal_us) > c.sync_threshold_us
}

/// The clock after reconciliation: on drift, the internal time snaps to the
/// external time and the correction is carried into the accumulator.
pub open spec fn reconciled(c: SimulationClock) -> SimulationClock {
    if drifted(c) {
        SimulationClock {
            internal_us: c.external_us,
            accumulator_us: (c.accumulator_us + (c.external_us - c.internal_us)) as i64,
            ..c
        }
    } else {
        c
    }
}

/// The clock after both times and the accumulator advanced by `delta`.
pub open spec fn advanced(c: SimulationClock, delta: i64) -> SimulationClock {
    SimulationClock {
        internal_us: (c.internal_us + delta) as i64,
        external_us: (c.external_us + delta) as i64,
        accumulator_us: (c.accumulator_us + delta) as i64,
        ..c
    }
}

/// Whether an update is due.
pub open spec fn update_due(c: SimulationClock) -> bool {
    c.update_period_us == 0 || c.accumulator_us >= c.update_period_us
}

/// Whether the arithmetic of one tick of `delta` fits in 64 bits.
pub open spec fn tick_fits(c: SimulationClock, delta: i64) -> bool {
    &&& i64::MIN <= c.internal_us + delta <= i64::MAX
    &&& i64::MIN <= c.external_us + delta <= i64::MAX
    &&& i64::MIN <= c.external_us - c.internal_us <= i64::MAX
    &&& i64::MIN <= c.accumulator_us + delta <= i64::MAX
    &&& i64::MIN <= c.accumulator_us + delta + (c.external_us - c.internal_us) <= i64::MAX
    &&& i64::MIN <= c.accumulator_us + delta + (c.external_us - c.internal_us) - c.update_period_us <= i64::MAX
    &&& i64::MIN <= c.accumulator_us + delta - c.update_period_us <= i64::MAX
}

impl SimulationClock {
    /// A clock at time zero.
    pub fn new(sync_threshold_us: i64, updates_per_second: u32) -> (r: Self)
        ensures
            r == (SimulationClock {
                internal_us: 0,
                external_us: 0,
                accumulator_us: 0,
                sync_threshold_us,
                update_period_us: period_of(updates_per_second),
            }),
    {
        SimulationClock {
            internal_us: 0,
            external_us: 0,
            accumulator_us: 0,
            sync_threshold_us,
            update_period_us: period_for(updates_per_second),
        }
    }

    pub fn set_updates_per_second(&mut self, ups: u32)
        ensures
            *final(self) == (SimulationClock { update_period_us: period_of(ups), ..*old(self) }),
    {
        self.update_period_us = period_for(ups);
    }

    /// Snaps the internal time to the external time when they drifted
    /// apart; returns whether it did.
    pub fn reconcile(&mut self) -> (snapped: bool)
        requires
            i64::MIN <= old(self).external_us - old(self).internal_us <= i64::MAX,
            i64::MIN <= old(self).accumulator_us + (old(self).external_us - old(self).internal_us) <= i64::MAX,
        ensures
            snapped == drifted(*old(self)),
            *final(self) == reconciled(*old(self)),
    {
        let drift: i64 = self.external_us - self.internal_us;
        let magnitude: i64 = if drift < 0 {
            if drift == i64::MIN {
                i64::MAX
            } else {
                -drift
            }
        } else {
            drift
        };
        let snapped = if drift == i64::MIN { true } else { magnitude > self.sync_threshold_us };
        if drift == i64::MIN {
            assert(abs(drift as int) > i64::MAX);
        }
        if snapped {
            self.accumulator_us = self.accumulator_us + drift;
            self.internal_us = self.external_us;
        }
        snapped
    }

    /// Advances by `delta_us`, reconciles, and returns the simulation time
    /// of the update when one is due, consuming one period.
    pub fn tick(&mut self, delta_us: i64) -> (r: Option<i64>)
        requires
            tick_fits(*old(self), delta_us),
        ensures
            ({
                let c = reconciled(advanced(*old(self), delta_us));
                if update_due(c) {
                    &&& r == Some(c.internal_us)
                    &&& *final(self) == (SimulationClock {
                        accumulator_us: (c.accumulator_us - c.update_period_us) as i64,
                        ..c
                    })
                } else {
                    r is None && *final(self) == c
                }
            }),
    {
        self.internal_us = self.internal_us + delta_us;
        self.external_us = self.external_us + delta_us;
        self.accumulator_us = self.accumulator_us + delta_us;
        self.reconcile();
        if self.update_period_us == 0 || self.accumulator_us >= self.update_period_us {
            self.accumulator_us = self.accumulator_us - self.update_period_us;
            Some(self.internal_us)
        } else {
            None
        }
    }
}

/// The update period for `ups` updates per second.
pub fn period_for(ups: u32) -> (r: i64)
    ensures
        r == period_of(ups),
{
    if ups == 0 {
        0
    } else {
        MICROS_PER_SECOND / (ups as i64)
    }
}

} // verus!
