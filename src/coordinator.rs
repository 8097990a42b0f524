use vstd::prelude::*;

use crate::clock::{advanced, period_of, reconciled, tick_fits, update_due, SimulationClock};
use crate::layout::{fft_buffer_bytes, generator_layout, layout_of, reserve_cascades, reserved_cascades, valid_map_size, GeneratorLayout};

verus! {

/// Map side length a coordinator starts with.
pub const DEFAULT_MAP_SIZE: u32 = 1024;

/// Drift threshold a coordinator starts with: 0.2 s.
pub const DEFAULT_SYNC_THRESHOLD_US: i64 = 200000;

/// Update rate a coordinator starts with.
pub const DEFAULT_UPDATES_PER_SECOND: u32 = 60;

/// Life cycle of the coordinator's generator.
#[derive(Clone, Copy, Debug, PartialEq, Eq, Structural)]
pub enum CoordinatorState {
    /// No usable generator.
    Uninitialized,
    /// The generator matches the configuration.
    Ready,
    /// The configuration changed; the old generator is retired and a new
    /// one is being built.
    Rebuilding,
}

/// A generator the host is asked to build.
#[derive(Clone, Copy, Debug, PartialEq, Eq, Structural)]
pub struct SetupRequest {
    pub layout: GeneratorLayout,
    /// Cascades the material layer is told about, one scale vector each.
    pub published_cascades: u32,
}

/// What the host does after a tick.
#[derive(Clone, Copy, Debug, PartialEq, Eq, Structural)]
pub enum TickAction {
    Idle,
    Setup { request: SetupRequest },
    Update { time_us: i64 },
}

/// The generator needed for maps of `m` texels square and `n` configured
/// cascades; none without cascades, or when the FFT working buffer would
/// not fit a 32-bit device size.
pub open spec fn request_of(m: nat, n: nat) -> Option<SetupRequest> {
    if n == 0 || n > u32::MAX || fft_buffer_bytes(m, reserved_cascades(n)) > u32::MAX {
        None
    } else {
        Some(SetupRequest { layout: layout_of(m, reserved_cascades(n)), published_cascades: n as u32 })
    }
}

/// The state after a configuration change.
pub open spec fn after_change(s: CoordinatorState) -> CoordinatorState {
    if s == CoordinatorState::Ready { CoordinatorState::Rebuilding } else { s }
}

/// Drives the generator: fixed-timestep updates against the external clock,
/// and rebuilds on configuration changes.
pub struct OceanCoordinator {
    state: CoordinatorState,
    map_size: u32,
    cascade_count: usize,
    clock: SimulationClock,
}

impl OceanCoordinator {
    pub closed spec fn spec_state(&self) -> CoordinatorState {
        self.state
    }

    pub closed spec fn spec_map_size(&self) -> nat {
        self.map_size as nat
    }

    pub closed spec fn spec_cascade_count(&self) -> nat {
        self.cascade_count as nat
    }

    pub closed spec fn spec_clock(&self) -> SimulationClock {
        self.clock
    }

    pub closed spec fn wf(&self) -> bool {
        valid_map_size(self.map_size as nat)
    }

    pub fn new() -> (r: Self)
        ensures
            r.wf(),
            r.spec_state() == CoordinatorState::Uninitialized,
            r.spec_map_size() == DEFAULT_MAP_SIZE,
            r.spec_cascade_count() == 0,
            r.spec_clock() == (SimulationClock {
                internal_us: 0,
                external_us: 0,
                accumulator_us: 0,
                sync_threshold_us: DEFAULT_SYNC_THRESHOLD_US,
                update_period_us: period_of(DEFAULT_UPDATES_PER_SECOND),
            }),
    {
        OceanCoordinator {
            state: CoordinatorState::Uninitialized,
            map_size: DEFAULT_MAP_SIZE,
            cascade_count: 0,
            clock: SimulationClock::new(DEFAULT_SYNC_THRESHOLD_US, DEFAULT_UPDATES_PER_SECOND),
        }
    }

    pub fn state(&self) -> (r: CoordinatorState)
        ensures
            r == self.spec_state(),
    {
        self.state
    }

    pub fn get_map_size(&self) -> (r: u32)
        ensures
            r == self.spec_map_size(),
    {
        self.map_size
    }

    pub fn clock(&self) -> (r: SimulationClock)
        ensures
            r == self.spec_clock(),
    {
        self.clock
    }

    /// The generator the current configuration needs.
    pub fn setup_request(&self) -> (r: Option<SetupRequest>)
        requires
            self.wf(),
        ensures
            r == request_of(self.spec_map_size(), self.spec_cascade_count()),
    {
        let n = self.cascade_count;
        if n == 0 || n > u32::MAX as usize {
            return None;
        }
        let c = reserve_cascades(n);
        let m = self.map_size;
        let texels: u64 = (m as u64) * (m as u64);
        assert(texels <= 1048576) by (nonlinear_arith)
            requires
                texels == m * m,
                m <= 1024,
        ;
        assert(c as u64 * texels * 16 <= 0xffff_ffff * 1048576 * 16) by (nonlinear_arith)
            requires
                texels <= 1048576,
                c <= 0xffff_ffff,
        ;
        let bytes: u64 = c as u64 * texels * 2 * 2 * 4;
        if bytes > u32::MAX as u64 {
            return None;
        }
        Some(SetupRequest { layout: generator_layout(m, c), published_cascades: n as u32 })
    }

    /// Selects another map resolution; returns the generator to build.
    pub fn set_map_size(&mut self, value: u32) -> (r: Option<SetupRequest>)
        requires
            valid_map_size(value as nat),
        ensures
            final(self).wf(),
            final(self).spec_map_size() == value,
            final(self).spec_cascade_count() == old(self).spec_cascade_count(),
            final(self).spec_clock() == old(self).spec_clock(),
            final(self).spec_state() == after_change(old(self).spec_state()),
            r == request_of(value as nat, old(self).spec_cascade_count()),
    {
        self.map_size = value;
        self.state = if self.state == CoordinatorState::Ready { CoordinatorState::Rebuilding } else { self.state };
        self.setup_request()
    }

    /// Replaces the cascade configuration by `count` cascades; returns the
    /// generator to build.
    pub fn set_parameters(&mut self, count: usize) -> (r: Option<SetupRequest>)
        requires
            old(self).wf(),
        ensures
            final(self).wf(),
            final(self).spec_map_size() == old(self).spec_map_size(),
            final(self).spec_cascade_count() == count,
            final(self).spec_clock() == old(self).spec_clock(),
            final(self).spec_state() == after_change(old(self).spec_state()),
            r == request_of(old(self).spec_map_size(), count as nat),
    {
        self.cascade_count = count;
        self.state = if self.state == CoordinatorState::Ready { CoordinatorState::Rebuilding } else { self.state };
        self.setup_request()
    }

    pub fn set_updates_per_second(&mut self, ups: u32)
        ensures
            final(self).wf() == old(self).wf(),
            final(self).spec_map_size() == old(self).spec_map_size(),
            final(self).spec_cascade_count() == old(self).spec_cascade_count(),
            final(self).spec_state() == old(self).spec_state(),
            final(self).spec_clock() == (SimulationClock { update_period_us: period_of(ups), ..old(self).spec_clock() }),
    {
        self.clock.set_updates_per_second(ups);
    }

    /// Sets the time the simulation must track.
    pub fn set_external_time(&mut self, us: i64)
        ensures
            final(self).wf() == old(self).wf(),
            final(self).spec_map_size() == old(self).spec_map_size(),
            final(self).spec_cascade_count() == old(self).spec_cascade_count(),
            final(self).spec_state() == old(self).spec_state(),
            final(self).spec_clock() == (SimulationClock { external_us: us, ..old(self).spec_clock() }),
    {
        self.clock.external_us = us;
    }

    /// Records how building the requested generator went; on failure the
    /// next due tick asks again.
    pub fn setup_finished(&mut self, ok: bool)
        ensures
            final(self).wf() == old(self).wf(),
            final(self).spec_map_size() == old(self).spec_map_size(),
            final(self).spec_cascade_count() == old(self).spec_cascade_count(),
            final(self).spec_clock() == old(self).spec_clock(),
            final(self).spec_state() == if ok { CoordinatorState::Ready } else { CoordinatorState::Uninitialized },
    {
        self.state = if ok { CoordinatorState::Ready } else { CoordinatorState::Uninitialized };
    }

    /// Advances the clock by `delta_us`. When an update is due, a ready
    /// generator is updated at the reconciled time; otherwise a generator
    /// is requested, if the configuration allows one.
    pub fn tick(&mut self, delta_us: i64) -> (r: TickAction)
        requires
            old(self).wf(),
            tick_fits(old(self).spec_clock(), delta_us),
        ensures
            final(self).wf(),
            final(self).spec_map_size() == old(self).spec_map_size(),
            final(self).spec_cascade_count() == old(self).spec_cascade_count(),
            final(self).spec_state() == old(self).spec_state(),
            ({
                let c = reconciled(advanced(old(self).spec_clock(), delta_us));
                if !update_due(c) {
                    r == TickAction::Idle && final(self).spec_clock() == c
                } else {
                    &&& final(self).spec_clock() == (SimulationClock {
                        accumulator_us: (c.accumulator_us - c.update_period_us) as i64,
                        ..c
                    })
                    &&& r == if old(self).spec_state() == CoordinatorState::Ready {
                        TickAction::Update { time_us: c.internal_us }
                    } else {
                        match request_of(old(self).spec_map_size(), old(self).spec_cascade_count()) {
                            Some(request) => TickAction::Setup { request },
                            None => TickAction::Idle,
                        }
                    }
                }
            }),
    {
        match self.clock.tick(delta_us) {
            None => TickAction::Idle,
            Some(t) => {
                if self.state == CoordinatorState::Ready {
                    TickAction::Update { time_us: t }
                } else {
                    match self.setup_request() {
                        Some(request) => TickAction::Setup { request },
                        None => TickAction::Idle,
                    }
                }
            },
        }
    }
}

} // verus!
