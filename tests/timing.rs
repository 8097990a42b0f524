use gdocean::{
    period_for, CoordinatorState, OceanCoordinator, SimulationClock, TickAction, DEFAULT_MAP_SIZE,
};

fn clock(internal: i64, external: i64) -> SimulationClock {
    SimulationClock {
        internal_us: internal,
        external_us: external,
        accumulator_us: 0,
        sync_threshold_us: 200_000,
        update_period_us: period_for(60),
    }
}

#[test]
fn small_drift_does_not_snap() {
    let mut c = clock(10_000_000, 10_050_000);
    assert!(!c.reconcile());
    assert_eq!(c.internal_us, 10_000_000);
    assert_eq!(c.accumulator_us, 0);
}

#[test]
fn large_drift_snaps_to_external_time() {
    let mut c = clock(10_000_000, 10_300_000);
    assert!(c.reconcile());
    assert_eq!(c.internal_us, 10_300_000);
    assert_eq!(c.external_us, 10_300_000);
    assert_eq!(c.accumulator_us, 300_000);
    let mut c = clock(10_300_000, 10_000_000);
    assert!(c.reconcile());
    assert_eq!(c.internal_us, 10_000_000);
    assert_eq!(c.accumulator_us, -300_000);
}

#[test]
fn update_period_from_rate() {
    assert_eq!(period_for(60), 16_666);
    assert_eq!(period_for(1), 1_000_000);
    assert_eq!(period_for(0), 0);
}

#[test]
fn tick_waits_for_a_full_period() {
    let mut c = SimulationClock::new(200_000, 60);
    assert_eq!(c.tick(10_000), None);
    assert_eq!(c.tick(10_000), Some(20_000));
    assert_eq!(c.accumulator_us, 20_000 - 16_666);
    assert_eq!(c.internal_us, 20_000);
}

#[test]
fn uncapped_rate_updates_every_tick() {
    let mut c = SimulationClock::new(200_000, 0);
    assert_eq!(c.tick(1), Some(1));
    assert_eq!(c.tick(5), Some(6));
}

#[test]
fn coordinator_skips_updates_until_configured() {
    let mut o = OceanCoordinator::new();
    assert_eq!(o.get_map_size(), DEFAULT_MAP_SIZE);
    assert_eq!(o.tick(20_000), TickAction::Idle);
    assert_eq!(o.state(), CoordinatorState::Uninitialized);
}

#[test]
fn coordinator_end_to_end_256_three_cascades() {
    let mut o = OceanCoordinator::new();
    assert_eq!(o.set_map_size(256), None);
    let request = o.set_parameters(3).unwrap();
    assert_eq!(request.published_cascades, 3);
    let l = request.layout;
    assert_eq!((l.displacement.width, l.displacement.height, l.displacement.layers), (256, 256, 3));
    assert_eq!((l.normal.width, l.normal.height, l.normal.layers), (256, 256, 3));
    o.setup_finished(true);
    assert_eq!(o.state(), CoordinatorState::Ready);
    assert_eq!(o.tick(10_000), TickAction::Idle);
    assert_eq!(o.tick(10_000), TickAction::Update { time_us: 20_000 });
}

#[test]
fn coordinator_rebuilds_on_change_and_retries_failed_setup() {
    let mut o = OceanCoordinator::new();
    let first = o.set_parameters(1).unwrap();
    assert_eq!(first.layout.num_cascades, 2);
    assert_eq!(first.published_cascades, 1);
    o.setup_finished(true);
    let again = o.set_map_size(512).unwrap();
    assert_eq!(again.layout.map_size, 512);
    assert_eq!(o.state(), CoordinatorState::Rebuilding);
    o.setup_finished(false);
    assert_eq!(o.state(), CoordinatorState::Uninitialized);
    assert_eq!(o.tick(20_000), TickAction::Setup { request: again });
}

#[test]
fn coordinator_snaps_drifted_time_before_update() {
    let mut o = OceanCoordinator::new();
    o.set_parameters(2);
    o.setup_finished(true);
    o.set_external_time(1_000_000);
    assert_eq!(o.tick(0), TickAction::Update { time_us: 1_000_000 });
    assert_eq!(o.clock().internal_us, 1_000_000);
    o.set_updates_per_second(0);
    assert_eq!(o.tick(5), TickAction::Update { time_us: 1_000_005 });
}

#[test]
fn coordinator_refuses_oversized_generators() {
    let mut o = OceanCoordinator::new();
    assert!(o.set_parameters(255).is_some());
    assert!(o.set_parameters(256).is_none());
    assert!(o.set_parameters(0).is_none());
}
