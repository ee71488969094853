use mqtt_bench::cli::{Cli, Commands, Common, PubOptions, SubOptions};
use mqtt_bench::subscription::Subscription;
use mqtt_bench::text::{fill_placeholder, to_decimal};

fn common(client_id: &str) -> Common {
    Common {
        host: "localhost".to_string(),
        port: None,
        username: "user".to_string(),
        password: "secret".to_string(),
        ssl: false,
        verify: false,
        auth_server_certificate: false,
        qos: 0,
        total: 16,
        start_number: 0,
        concurrency: 4,
        interval: 100,
        time: 60,
        client_id: client_id.to_string(),
        show_statistics: false,
        connect_timeout: 5,
        keep_alive_interval: 3,
        max_inflight: 1024,
    }
}

fn publisher(topic: &str, topic_number: usize) -> PubOptions {
    PubOptions { topic: topic.to_string(), topic_number, message_size: 64, payload: None }
}

#[test]
fn client_id_takes_the_number() {
    assert_eq!(common("bench-%d").client_id_of(7), "bench-7");
    assert_eq!(common("BenchClient%d").client_id_of(0), "BenchClient0");
    assert_eq!(common("BenchClient%d").client_id_of(1234567890), "BenchClient1234567890");
    assert_eq!(common("%d").client_id_of(usize::MAX), usize::MAX.to_string());
}

#[test]
fn client_id_without_placeholder_is_unchanged() {
    for id in [0usize, 1, 7, 99, usize::MAX] {
        assert_eq!(common("bench").client_id_of(id), "bench");
        assert_eq!(common("").client_id_of(id), "");
        assert_eq!(common("50%").client_id_of(id), "50%");
        assert_eq!(common("%i-%D").client_id_of(id), "%i-%D");
    }
}

#[test]
fn client_id_replaces_every_placeholder() {
    assert_eq!(common("%d-%d").client_id_of(12), "12-12");
    assert_eq!(common("%%d").client_id_of(3), "%3");
    assert_eq!(common("%d%").client_id_of(3), "3%");
    assert_eq!(common("a%dd%d%").client_id_of(40), "a40d40%");
    assert_eq!(common("é%dü").client_id_of(5), "é5ü");
}

#[test]
fn client_id_agrees_with_replace() {
    for template in ["x%dy", "%d%d%d", "%", "%%", "d%", "%d", "no", "%%d%"] {
        for id in [0usize, 9, 10, 4096] {
            assert_eq!(common(template).client_id_of(id), template.replace("%d", &id.to_string()));
        }
    }
}

#[test]
fn topics_fan_out_by_the_number_modulo_the_fanout() {
    let options = publisher("t/%i", 3);
    let topics: Vec<String> = (0..=6).map(|id| options.topic_of(id)).collect();
    assert_eq!(topics, vec!["t/0", "t/1", "t/2", "t/0", "t/1", "t/2", "t/0"]);
    let subscriber = SubOptions { topic: "t/%i".to_string(), topic_number: 3 };
    let filters: Vec<String> = (0..=6).map(|id| subscriber.topic_of(id)).collect();
    assert_eq!(filters, topics);
}

#[test]
fn topic_without_placeholder_is_shared() {
    let options = publisher("fleet", 5);
    assert_eq!(options.topic_of(0), "fleet");
    assert_eq!(options.topic_of(4), "fleet");
    assert_eq!(publisher("t/%i", 1).topic_of(77), "t/0");
    assert_eq!(publisher("t/%i", 100).topic_of(77), "t/77");
}

#[test]
fn unset_fanout_becomes_the_fleet_size() {
    let mut options = publisher("t/%i", 0);
    assert!(options.default_topic_number(16));
    assert_eq!(options.topic_number, 16);
    assert!(!options.default_topic_number(32));
    assert_eq!(options.topic_number, 16);
    let mut subscriber = SubOptions { topic: "t/%i".to_string(), topic_number: 0 };
    assert!(subscriber.default_topic_number(8));
    assert_eq!(subscriber.topic_number, 8);
    assert_eq!(subscriber.topic_of(9), "t/1");
}

#[test]
fn connection_string_names_scheme_host_and_port() {
    let mut options = common("c");
    assert_eq!(options.connection_string(), "tcp://localhost:1883");
    options.ssl = true;
    assert_eq!(options.connection_string(), "ssl://localhost:8883");
    options.port = Some(9000);
    assert_eq!(options.connection_string(), "ssl://localhost:9000");
    options.ssl = false;
    options.host = "10.0.0.1".to_string();
    options.port = Some(0);
    assert_eq!(options.connection_string(), "tcp://10.0.0.1:0");
    options.port = Some(u16::MAX);
    assert_eq!(options.connection_string(), "tcp://10.0.0.1:65535");
}

#[test]
fn payload_is_given_or_generated() {
    let generated = publisher("t", 1).payload_bytes();
    assert_eq!(generated, vec![b'a'; 64]);
    let mut options = publisher("t", 1);
    options.message_size = 0;
    assert!(options.payload_bytes().is_empty());
    options.payload = Some("héllo".to_string());
    assert_eq!(options.payload_bytes(), "héllo".as_bytes().to_vec());
}

#[test]
fn configuration_is_valid_with_a_permit_and_numbers_that_fit() {
    let mut options = common("c");
    assert!(options.is_valid());
    options.concurrency = 0;
    assert!(!options.is_valid());
    options.concurrency = 1;
    options.start_number = usize::MAX - 15;
    assert!(!options.is_valid());
    options.start_number = usize::MAX - 16;
    assert!(options.is_valid());
}

#[test]
fn identity_joins_number_identifier_and_topic() {
    let who = common("bench-%d").identity("t/%i", 3, 7);
    assert_eq!(who.id, 7);
    assert_eq!(who.client_id, "bench-7");
    assert_eq!(who.topic, "t/1");
}

#[test]
fn decimal_numerals() {
    assert_eq!(to_decimal(0), "0");
    assert_eq!(to_decimal(9), "9");
    assert_eq!(to_decimal(10), "10");
    assert_eq!(to_decimal(1234567890), "1234567890");
    assert_eq!(to_decimal(u128::MAX), u128::MAX.to_string());
}

#[test]
fn placeholders_are_filled_from_left_to_right() {
    assert_eq!(fill_placeholder("%x%x", 'x', "%x"), "%x%x");
    assert_eq!(fill_placeholder("a%xb", 'x', ""), "ab");
    assert_eq!(fill_placeholder("%%xx", 'x', "-"), "%-x");
}

#[test]
fn commands_carry_their_options() {
    let cli = Cli {
        command: Some(Commands::Pub { common: common("c"), pub_options: publisher("t", 1) }),
    };
    match cli.command {
        Some(Commands::Pub { common, pub_options }) => {
            assert_eq!(common.total, 16);
            assert_eq!(pub_options.message_size, 64);
        }
        _ => panic!("not the command that was given"),
    }
    let subscription = Subscription::new("t/#".to_string(), 1);
    assert_eq!(subscription.topic_filter, "t/#");
    assert_eq!(subscription.qos, 1);
}
