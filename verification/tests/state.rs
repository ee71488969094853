use mqtt_bench::state::{Signal, State};

#[test]
fn new_state_counts_every_client_as_disconnected() {
    let state = State::new(16);
    assert_eq!(state.attempted(), 0);
    assert_eq!(state.connected(), 0);
    assert_eq!(state.disconnected(), 16);
    assert!(!state.stopped());
    assert!(!*state.stop_flag());
}

#[test]
fn connected_plus_disconnected_is_total() {
    let total = 5;
    let mut state = State::new(total);
    for _ in 0..total {
        state.on_connected();
        assert_eq!(state.connected() + state.disconnected(), total);
    }
    assert_eq!(state.connected(), 5);
    assert_eq!(state.disconnected(), 0);
    assert_eq!(state.attempted(), 5);
    state.on_disconnected();
    state.on_disconnected();
    assert_eq!(state.connected(), 3);
    assert_eq!(state.disconnected(), 2);
    assert_eq!(state.attempted(), 7);
    state.on_connected();
    assert_eq!(state.connected() + state.disconnected(), total);
}

#[test]
fn stop_is_idempotent_and_moves_no_counter() {
    let mut state = State::new(4);
    state.on_connected();
    state.on_publish();
    state.on_receive();
    state.stop();
    assert!(state.stopped());
    let seen = (state.attempted(), state.connected(), state.disconnected());
    state.stop();
    assert!(state.stopped());
    assert!(*state.stop_flag());
    assert_eq!(seen, (state.attempted(), state.connected(), state.disconnected()));
    assert_eq!(state.publish_success_count(), 1);
    assert_eq!(state.received(), 1);
}

#[test]
fn stop_flag_is_never_cleared() {
    let mut state = State::new(2);
    state.record(Signal::Stop);
    state.record(Signal::Connected);
    state.record(Signal::Disconnected);
    state.record(Signal::Published);
    state.record(Signal::PublishFailed);
    state.record(Signal::Received);
    assert!(state.stopped());
}

#[test]
fn interval_counters_start_again_after_each_reading() {
    let mut state = State::new(1);
    state.on_publish();
    state.on_publish();
    state.on_publish_failure();
    state.on_receive();
    state.on_receive();
    state.on_receive();
    assert_eq!(state.publish_success_count(), 2);
    assert_eq!(state.publish_success_count(), 0);
    assert_eq!(state.publish_failure_count(), 1);
    assert_eq!(state.publish_failure_count(), 0);
    assert_eq!(state.received(), 3);
    assert_eq!(state.received(), 0);
    state.on_publish();
    assert_eq!(state.publish_success_count(), 1);
}

#[test]
fn counters_wrap_around() {
    let mut state = State::new(0);
    state.on_connected();
    assert_eq!(state.connected(), 1);
    assert_eq!(state.disconnected(), usize::MAX);
    state.on_disconnected();
    assert_eq!(state.connected(), 0);
    assert_eq!(state.disconnected(), 0);
    state.on_disconnected();
    assert_eq!(state.connected(), usize::MAX);
    assert_eq!(state.disconnected(), 1);
    assert_eq!(state.attempted(), 3);
}

#[test]
fn record_does_what_the_named_methods_do() {
    let mut by_signal = State::new(3);
    let mut by_method = State::new(3);
    by_signal.record(Signal::Connected);
    by_method.on_connected();
    by_signal.record(Signal::Published);
    by_method.on_publish();
    by_signal.record(Signal::PublishFailed);
    by_method.on_publish_failure();
    by_signal.record(Signal::Received);
    by_method.on_receive();
    assert_eq!(by_signal.connected(), by_method.connected());
    assert_eq!(by_signal.disconnected(), by_method.disconnected());
    assert_eq!(by_signal.attempted(), by_method.attempted());
    assert_eq!(by_signal.publish_success_count(), by_method.publish_success_count());
    assert_eq!(by_signal.publish_failure_count(), by_method.publish_failure_count());
    assert_eq!(by_signal.received(), by_method.received());
}

#[test]
fn summary_line_is_spelled_out_and_starts_the_next_report() {
    let mut state = State::new(16);
    for _ in 0..3 {
        state.on_connected();
    }
    state.on_disconnected();
    for _ in 0..12 {
        state.on_publish();
    }
    state.on_publish_failure();
    for _ in 0..7 {
        state.on_receive();
    }
    assert_eq!(
        state.summary(),
        "Client Summary[Attempted:4, Connected: 2, Disconnected: 14] Publish: [Success: 12, Failure: 1], Subscribed: 7"
    );
    assert_eq!(
        state.summary(),
        "Client Summary[Attempted:4, Connected: 2, Disconnected: 14] Publish: [Success: 0, Failure: 0], Subscribed: 0"
    );
}
