use skywalking_agent::channel::{Channel, Link};
use skywalking_agent::module::{init, Startup};
use skywalking_agent::util::{
    current_formatted_time, decimal_text, format_timestamp, has_prefix, host_name,
    is_internal_name, join, local_ips, os_name, same_text, service_instance, Network,
    NetworkAddress, Timestamp,
};
use skywalking_agent::worker::{fork_outcome, worker_threads, ForkOutcome};

fn v4(text: &str) -> NetworkAddress {
    NetworkAddress { text: text.to_string(), is_v4: true }
}

fn v6(text: &str) -> NetworkAddress {
    NetworkAddress { text: text.to_string(), is_v4: false }
}

fn network(name: &str, addrs: Vec<NetworkAddress>) -> Network {
    Network { name: name.to_string(), addrs }
}

#[test]
fn outward_v4_addresses_are_reported_in_order() {
    let networks = vec![
        network("br-1f2e", vec![v4("172.18.0.1")]),
        network("docker0", vec![v4("172.17.0.1")]),
        network("eth0", vec![v6("fe80::1"), v4("10.0.0.7"), v4("10.0.0.8")]),
        network("lo", vec![v4("127.0.0.1"), v6("::1")]),
        network("wlan0", vec![v4("192.168.1.20")]),
    ];
    assert_eq!(local_ips(&networks), vec!["10.0.0.7", "10.0.0.8", "192.168.1.20"]);
}

#[test]
fn loopback_stands_in_where_no_address_is_left() {
    assert_eq!(local_ips(&Vec::new()), vec!["127.0.0.1"]);
    let networks = vec![
        network("lo", vec![v4("127.0.0.1")]),
        network("docker0", vec![v4("172.17.0.1")]),
        network("eth0", vec![v6("fe80::1")]),
    ];
    assert_eq!(local_ips(&networks), vec!["127.0.0.1"]);
}

#[test]
fn interface_names_are_told_apart() {
    assert!(is_internal_name("lo"));
    assert!(is_internal_name("docker0"));
    assert!(is_internal_name("docker"));
    assert!(is_internal_name("br-0a1b"));
    assert!(!is_internal_name("lo0"));
    assert!(!is_internal_name("l"));
    assert!(!is_internal_name(""));
    assert!(!is_internal_name("br0"));
    assert!(!is_internal_name("dock"));
    assert!(!is_internal_name("eth0"));
}

#[test]
fn prefixes_and_equal_texts_are_recognized() {
    assert!(has_prefix("docker0", "docker"));
    assert!(has_prefix("docker", ""));
    assert!(has_prefix("", ""));
    assert!(!has_prefix("dock", "docker"));
    assert!(!has_prefix("xdocker", "docker"));
    assert!(has_prefix("\u{e9}t\u{e9}", "\u{e9}t"));
    assert!(same_text("fpm-fcgi", "fpm-fcgi"));
    assert!(!same_text("fpm-fcgi", "fpm-fcg"));
    assert!(!same_text("fpm-fcgi", "fpm-fcgj"));
    assert!(same_text("", ""));
}

#[test]
fn parts_are_joined_with_the_separator_between() {
    assert_eq!(join(&Vec::new(), ","), "");
    assert_eq!(join(&vec!["10.0.0.7".to_string()], ","), "10.0.0.7");
    assert_eq!(
        join(&vec!["a".to_string(), "".to_string(), "c".to_string()], ", "),
        "a, , c"
    );
}

#[test]
fn unknown_stands_in_for_a_host_name_that_could_not_be_read() {
    assert_eq!(host_name(Some("web-1".to_string())), "web-1");
    assert_eq!(host_name(None), "unknown");
}

#[test]
fn operating_systems_have_their_reported_names() {
    assert_eq!(os_name("linux"), "Linux");
    assert_eq!(os_name("windows"), "Windows");
    assert_eq!(os_name("macos"), "Macos");
    assert_eq!(os_name("freebsd"), "Unknown");
    assert_eq!(os_name(""), "Unknown");
}

#[test]
fn instance_is_named_after_its_first_address() {
    let ips = vec!["10.0.0.7".to_string(), "10.0.0.8".to_string()];
    assert_eq!(service_instance("3e2f", &ips), "3e2f@10.0.0.7");
}

#[test]
fn numbers_are_written_in_decimal() {
    assert_eq!(decimal_text(0), "0");
    assert_eq!(decimal_text(7), "7");
    assert_eq!(decimal_text(10), "10");
    assert_eq!(decimal_text(4711), "4711");
    assert_eq!(decimal_text(u64::MAX), "18446744073709551615");
}

fn moment(year: i32, month: u32, day: u32, hour: u32, minute: u32, second: u32) -> Timestamp {
    Timestamp { year, month, day, hour, minute, second }
}

#[test]
fn moments_are_written_with_padded_fields() {
    assert_eq!(format_timestamp(&moment(2022, 8, 1, 9, 5, 3)), "2022-08-01 09:05:03");
    assert_eq!(format_timestamp(&moment(1999, 12, 31, 23, 59, 59)), "1999-12-31 23:59:59");
    assert_eq!(format_timestamp(&moment(2024, 2, 29, 0, 0, 0)), "2024-02-29 00:00:00");
    assert_eq!(format_timestamp(&moment(987, 1, 1, 10, 10, 10)), "0987-01-01 10:10:10");
    assert_eq!(format_timestamp(&moment(0, 1, 1, 0, 0, 0)), "0000-01-01 00:00:00");
}

#[test]
fn years_beyond_four_digits_carry_a_sign() {
    assert_eq!(format_timestamp(&moment(12345, 6, 7, 8, 9, 10)), "+12345-06-07 08:09:10");
    assert_eq!(format_timestamp(&moment(-1, 6, 7, 8, 9, 10)), "-0001-06-07 08:09:10");
    assert_eq!(format_timestamp(&moment(i32::MIN, 1, 1, 0, 0, 0)), "-2147483648-01-01 00:00:00");
}

#[test]
fn moments_are_written_as_chrono_writes_them() {
    let cases = [(2022, 8, 1, 9, 5, 3), (1, 1, 1, 0, 0, 0), (9999, 12, 31, 23, 59, 59), (
        10000,
        1,
        1,
        0,
        0,
        0,
    ), (-44, 3, 15, 12, 0, 0)];
    for (year, month, day, hour, minute, second) in cases {
        let theirs = chrono::NaiveDate::from_ymd_opt(year, month, day)
            .unwrap()
            .and_hms_opt(hour, minute, second)
            .unwrap()
            .format("%Y-%m-%d %H:%M:%S")
            .to_string();
        assert_eq!(format_timestamp(&moment(year, month, day, hour, minute, second)), theirs);
    }
}

#[test]
fn current_time_is_the_local_clock_in_the_reported_shape() {
    let pattern = "%Y-%m-%d %H:%M:%S";
    let before = chrono::Local::now().format(pattern).to_string();
    let text = current_formatted_time();
    let after = chrono::Local::now().format(pattern).to_string();
    assert_eq!(text.len(), 19);
    let bytes = text.as_bytes();
    for (i, byte) in bytes.iter().enumerate() {
        match i {
            4 | 7 => assert_eq!(*byte, b'-'),
            10 => assert_eq!(*byte, b' '),
            13 | 16 => assert_eq!(*byte, b':'),
            _ => assert!(byte.is_ascii_digit()),
        }
    }
    assert!(before <= text && text <= after);
}

#[test]
fn configured_thread_count_wins_where_it_is_positive() {
    assert_eq!(worker_threads(4, Some(16)), 4);
    assert_eq!(worker_threads(1, None), 1);
    assert_eq!(worker_threads(0, Some(16)), 16);
    assert_eq!(worker_threads(-3, Some(2)), 2);
    assert_eq!(worker_threads(0, None), 1);
    assert_eq!(worker_threads(0, Some(0)), 1);
}

#[test]
fn fork_result_tells_the_roles_apart() {
    assert_eq!(fork_outcome(-1), ForkOutcome::Failed);
    assert_eq!(fork_outcome(0), ForkOutcome::Child);
    assert_eq!(fork_outcome(1), ForkOutcome::Parent);
    assert_eq!(fork_outcome(31337), ForkOutcome::Parent);
}

#[test]
fn agent_starts_only_in_a_worker_pool_and_when_switched_on() {
    let mut channel = Channel::new(100, 10);
    assert_eq!(init("cli", true, &mut channel), Startup::Unsupported);
    assert_eq!(channel.link(), Link::NotInitialized);
    assert_eq!(init("fpm-fcgi", false, &mut channel), Startup::Disabled);
    assert_eq!(channel.link(), Link::NotInitialized);
    assert_eq!(init("fpm-fcgi", true, &mut channel), Startup::Started);
    assert_eq!(channel.link(), Link::Open);
    assert_eq!(init("fpm-fcgi", true, &mut channel), Startup::ChannelFailed);
    assert_eq!(channel.link(), Link::Open);
}
