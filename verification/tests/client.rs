use mqtt_bench::cli::Common;
use mqtt_bench::client::{delivery_latency, Client};
use mqtt_bench::clock::now_millis;
use mqtt_bench::state::State;
use mqtt_bench::statistics::{Histogram, Percentiles};
use mqtt_bench::wire::tag_with;

fn client(ssl: bool) -> Client {
    let options = Common {
        host: "broker".to_string(),
        port: None,
        username: String::new(),
        password: String::new(),
        ssl,
        verify: false,
        auth_server_certificate: false,
        qos: 1,
        total: 1,
        start_number: 0,
        concurrency: 1,
        interval: 0,
        time: 1,
        client_id: "bench-%d".to_string(),
        show_statistics: true,
        connect_timeout: 5,
        keep_alive_interval: 3,
        max_inflight: 1024,
    };
    let id = options.client_id_of(3);
    Client::new(options, id)
}

fn counts(histogram: &Histogram) -> Vec<u64> {
    histogram.snapshot().iter().map(|b| b.cumulative_count).collect()
}

#[test]
fn client_knows_its_identifier_and_broker() {
    assert_eq!(client(false).client_id(), "bench-3");
    assert_eq!(client(false).server_uri(), "tcp://broker:1883");
    assert_eq!(client(true).server_uri(), "ssl://broker:8883");
}

#[test]
fn no_connection_is_attempted_once_stopped() {
    let mut state = State::new(1);
    assert!(client(false).connect(&state));
    state.stop();
    assert!(!client(false).connect(&state));
}

#[test]
fn successful_connect_adds_a_latency_sample() {
    let mut histogram = Histogram::linear(0, 100, 10).unwrap();
    client(false).connect_finished(&mut histogram, false, 250);
    assert_eq!(histogram.count(), 0);
    client(false).connect_finished(&mut histogram, true, 250);
    assert_eq!(histogram.count(), 1);
    assert_eq!(histogram.percentiles(), Some(Percentiles { p90: 300, p95: 300, p99: 300 }));
}

#[test]
fn connection_reports_move_the_counters() {
    let mut state = State::new(2);
    let client = client(false);
    client.connection_established(&mut state);
    assert_eq!((state.attempted(), state.connected(), state.disconnected()), (1, 1, 1));
    client.connection_lost(&mut state);
    assert_eq!((state.attempted(), state.connected(), state.disconnected()), (2, 0, 2));
}

#[test]
fn publish_outcome_is_counted() {
    let mut state = State::new(1);
    let mut histogram = Histogram::linear(0, 10, 20).unwrap();
    let client = client(false);
    client.publish_finished(&mut state, &mut histogram, true, 25);
    client.publish_finished(&mut state, &mut histogram, false, 999);
    client.publish_finished(&mut state, &mut histogram, true, 5);
    assert_eq!(state.publish_success_count(), 2);
    assert_eq!(state.publish_failure_count(), 1);
    assert_eq!(histogram.count(), 2);
    let seen = counts(&histogram);
    assert_eq!(&seen[..4], &[0, 1, 1, 2]);
}

#[test]
fn delivery_latency_drops_messages_from_the_future() {
    assert_eq!(delivery_latency(1000, 1042), Some(42));
    assert_eq!(delivery_latency(1000, 1000), Some(0));
    assert_eq!(delivery_latency(1001, 1000), None);
    assert_eq!(delivery_latency(0, u128::MAX), Some(u128::MAX));
}

#[test]
fn arrived_message_is_counted_and_its_delay_recorded() {
    let mut state = State::new(1);
    let mut histogram = Histogram::linear(0, 10, 20).unwrap();
    let client = client(false);
    let mut payload = vec![0u8; 64];
    assert!(tag_with(&mut payload, 1_000_000));
    client.message_arrived_at(&mut state, &mut histogram, &payload, Some(1_000_042));
    assert_eq!(histogram.count(), 1);
    assert_eq!(histogram.percentiles(), Some(Percentiles { p90: 50, p95: 50, p99: 50 }));
    assert_eq!(state.received(), 1);
}

#[test]
fn arrived_message_without_a_usable_timestamp_is_only_counted() {
    let mut state = State::new(1);
    let mut histogram = Histogram::linear(0, 10, 20).unwrap();
    let client = client(false);
    let mut payload = vec![0u8; 64];
    assert!(tag_with(&mut payload, 1_000_000));
    client.message_arrived_at(&mut state, &mut histogram, &payload, Some(999_999));
    client.message_arrived_at(&mut state, &mut histogram, &payload, None);
    client.message_arrived_at(&mut state, &mut histogram, &payload[..15], Some(2_000_000));
    client.message_arrived_at(&mut state, &mut histogram, &[], Some(2_000_000));
    assert_eq!(histogram.count(), 0);
    assert_eq!(state.received(), 4);
}

#[test]
fn timestamp_of_exactly_sixteen_bytes_is_read() {
    let mut state = State::new(1);
    let mut histogram = Histogram::linear(0, 10, 20).unwrap();
    let mut payload = vec![0u8; 16];
    assert!(tag_with(&mut payload, 500));
    client(false).message_arrived_at(&mut state, &mut histogram, &payload, Some(500));
    assert_eq!(histogram.count(), 1);
    assert_eq!(counts(&histogram)[0], 1);
}

#[test]
fn message_arriving_now_is_measured_against_the_clock() {
    let mut state = State::new(1);
    let mut histogram = Histogram::linear(0, 10, 20).unwrap();
    let client = client(false);
    let mut payload = vec![0u8; 32];
    let sent = now_millis().unwrap() - 25;
    assert!(tag_with(&mut payload, sent));
    client.message_arrived(&mut state, &mut histogram, &payload);
    assert_eq!(histogram.count(), 1);
    let seen = counts(&histogram);
    assert_eq!(seen[0], 0);
    assert_eq!(seen[2], 0);
    assert!(tag_with(&mut payload, u128::MAX));
    client.message_arrived(&mut state, &mut histogram, &payload);
    assert_eq!(histogram.count(), 1);
    assert_eq!(state.received(), 2);
}
