use mqtt_bench::worker::{
    Action, Decision, Mode, Observation, Phase, Worker, HEARTBEAT_MILLIS, RETRY_MILLIS,
};

const MODES: [Mode; 4] = [Mode::Connect, Mode::Publish, Mode::Subscribe, Mode::Benchmark];

const PHASES: [Phase; 8] = [
    Phase::Created,
    Phase::Connecting,
    Phase::Releasing,
    Phase::Subscribing,
    Phase::SubscribeBackoff,
    Phase::Publishing,
    Phase::Pausing,
    Phase::Stopped,
];

fn seen(ok: bool, stopped: bool, connected: bool) -> Observation {
    Observation { ok, stopped, connected }
}

fn every_observation() -> Vec<Observation> {
    let mut all = Vec::new();
    for ok in [false, true] {
        for stopped in [false, true] {
            for connected in [false, true] {
                all.push(seen(ok, stopped, connected));
            }
        }
    }
    all
}

fn plain(action: Action) -> Decision {
    Decision { action, warn: false }
}

#[test]
fn new_worker_holds_its_permit() {
    let worker = Worker::new(Mode::Publish, 250);
    assert_eq!(worker.phase, Phase::Created);
    assert_eq!(worker.interval, 250);
    assert_eq!(worker.warnings, 0);
    assert!(worker.holds_permit());
    assert!(!worker.is_stopped());
}

#[test]
fn connect_is_retried_until_it_succeeds() {
    let mut worker = Worker::new(Mode::Connect, 0);
    assert_eq!(worker.step(seen(true, false, false)), plain(Action::Connect));
    for _ in 0..5 {
        assert_eq!(worker.step(seen(false, false, false)), plain(Action::Connect));
        assert_eq!(worker.phase, Phase::Connecting);
        assert!(worker.holds_permit());
    }
    assert_eq!(worker.step(seen(true, false, true)), plain(Action::ReleasePermit));
    assert_eq!(worker.phase, Phase::Releasing);
    assert!(!worker.holds_permit());
}

#[test]
fn failed_connect_ends_the_retries_once_stopped() {
    let mut worker = Worker::new(Mode::Benchmark, 10);
    worker.step(seen(true, false, false));
    assert_eq!(worker.step(seen(false, true, false)), plain(Action::ReleasePermit));
    assert_eq!(worker.step(seen(true, true, false)), plain(Action::Exit));
    assert!(worker.is_stopped());
}

#[test]
fn idle_worker_sleeps_a_heartbeat_while_connected() {
    let mut worker = Worker::new(Mode::Connect, 0);
    worker.step(seen(true, false, false));
    worker.step(seen(true, false, true));
    for _ in 0..3 {
        assert_eq!(
            worker.step(seen(true, false, true)),
            plain(Action::Sleep { millis: HEARTBEAT_MILLIS })
        );
        assert_eq!(worker.phase, Phase::Pausing);
    }
    assert_eq!(HEARTBEAT_MILLIS, 1000);
    assert_eq!(worker.step(seen(true, true, true)), plain(Action::Exit));
}

#[test]
fn publisher_publishes_then_pauses() {
    let mut worker = Worker::new(Mode::Publish, 100);
    worker.step(seen(true, false, false));
    worker.step(seen(true, false, true));
    for _ in 0..4 {
        assert_eq!(worker.step(seen(true, false, true)), plain(Action::Publish));
        assert_eq!(worker.phase, Phase::Publishing);
        assert_eq!(worker.step(seen(true, false, true)), plain(Action::Sleep { millis: 100 }));
    }
}

#[test]
fn publisher_without_interval_publishes_back_to_back() {
    let mut worker = Worker::new(Mode::Publish, 0);
    worker.step(seen(true, false, false));
    worker.step(seen(true, false, true));
    for _ in 0..4 {
        assert_eq!(worker.step(seen(true, false, true)), plain(Action::Publish));
    }
    assert_eq!(worker.step(seen(true, true, true)), plain(Action::Exit));
}

#[test]
fn failed_publish_ends_a_publisher_but_not_a_benchmark() {
    let mut publisher = Worker::new(Mode::Publish, 100);
    publisher.step(seen(true, false, false));
    publisher.step(seen(true, false, true));
    publisher.step(seen(true, false, true));
    assert_eq!(publisher.step(seen(false, false, true)), plain(Action::Exit));
    assert!(publisher.is_stopped());

    let mut benchmark = Worker::new(Mode::Benchmark, 100);
    benchmark.step(seen(true, false, false));
    benchmark.step(seen(true, false, true));
    assert_eq!(benchmark.step(seen(true, false, true)), plain(Action::Subscribe));
    assert_eq!(benchmark.step(seen(true, false, true)), plain(Action::Publish));
    assert_eq!(benchmark.step(seen(false, false, true)), plain(Action::Sleep { millis: 100 }));
    assert_eq!(benchmark.step(seen(true, false, true)), plain(Action::Publish));
}

#[test]
fn subscription_is_retried_after_a_short_delay() {
    let mut worker = Worker::new(Mode::Subscribe, 0);
    worker.step(seen(true, false, false));
    worker.step(seen(true, false, true));
    assert_eq!(worker.step(seen(true, false, true)), plain(Action::Subscribe));
    for _ in 0..3 {
        assert_eq!(
            worker.step(seen(false, false, true)),
            plain(Action::Sleep { millis: RETRY_MILLIS })
        );
        assert_eq!(worker.phase, Phase::SubscribeBackoff);
        assert_eq!(worker.step(seen(true, false, true)), plain(Action::Subscribe));
    }
    assert_eq!(RETRY_MILLIS, 10);
    assert_eq!(
        worker.step(seen(true, false, true)),
        plain(Action::Sleep { millis: HEARTBEAT_MILLIS })
    );
}

#[test]
fn lost_connection_warns_at_every_hundredth_look() {
    let mut worker = Worker::new(Mode::Connect, 0);
    worker.step(seen(true, false, false));
    worker.step(seen(true, false, true));
    for look in 0..250u64 {
        let decision = worker.step(seen(true, false, false));
        assert_eq!(decision.action, Action::Sleep { millis: RETRY_MILLIS });
        assert_eq!(decision.warn, look % 100 == 0);
        assert_eq!(worker.warnings, look + 1);
    }
    assert_eq!(
        worker.step(seen(true, false, true)),
        plain(Action::Sleep { millis: HEARTBEAT_MILLIS })
    );
}

#[test]
fn warning_count_wraps() {
    let mut worker =
        Worker { mode: Mode::Publish, phase: Phase::Pausing, interval: 1, warnings: u64::MAX };
    let decision = worker.step(seen(true, false, false));
    assert_eq!(decision.warn, u64::MAX % 100 == 0);
    assert_eq!(worker.warnings, 0);
}

#[test]
fn stopped_worker_stays_stopped() {
    for mode in MODES {
        for observation in every_observation() {
            let mut worker = Worker { mode, phase: Phase::Stopped, interval: 5, warnings: 3 };
            assert_eq!(worker.step(observation), plain(Action::Exit));
            assert_eq!(worker, Worker { mode, phase: Phase::Stopped, interval: 5, warnings: 3 });
        }
    }
}

#[test]
fn stop_flag_ends_every_worker_within_three_steps() {
    for mode in MODES {
        for phase in PHASES {
            for interval in [0u64, 100] {
                for ok in [false, true] {
                    for connected in [false, true] {
                        let mut worker = Worker { mode, phase, interval, warnings: 0 };
                        for _ in 0..3 {
                            let decision = worker.step(seen(ok, true, connected));
                            assert_ne!(decision.action, Action::Connect);
                            assert_ne!(decision.action, Action::Subscribe);
                            assert_ne!(decision.action, Action::Publish);
                        }
                        assert!(worker.is_stopped());
                        assert!(!worker.holds_permit());
                    }
                }
            }
        }
    }
}

#[test]
fn permit_is_released_exactly_once() {
    for mode in MODES {
        for stop_after in 0..12usize {
            let mut worker = Worker::new(mode, 0);
            let mut releases = 0;
            for round in 0..40usize {
                let held = worker.holds_permit();
                let decision = worker.step(seen(round % 3 != 1, round >= stop_after, round % 2 == 0));
                if decision.action == Action::ReleasePermit {
                    assert!(held);
                    releases += 1;
                }
                if !held {
                    assert!(!worker.holds_permit());
                }
            }
            assert!(worker.is_stopped());
            assert_eq!(releases, 1);
        }
    }
}
