use binarystars::device::{
    battery_percent, capped_add, find_counters, insertion_point, interface_ips, interface_names,
    interfaces_of, list_contains, parse_i32, primary_address, rates, read_capacity, total_rates,
    CapacityReading, DeviceInfo, InterfaceAddress, InterfaceInfo, IpFamily, NetworkCounters,
};
use binarystars::names::{name_order, Precedence};

fn address(interface: &str, ip: &str) -> InterfaceAddress {
    InterfaceAddress {
        interface: interface.to_string(),
        ip: ip.to_string(),
        family: if ip.contains(':') { IpFamily::V6 } else { IpFamily::V4 },
        is_loopback: ip == "127.0.0.1" || ip == "::1",
    }
}

fn counters(name: &str, received: u64, transmitted: u64) -> NetworkCounters {
    NetworkCounters { name: name.to_string(), received, transmitted }
}

fn sample_addresses() -> Vec<InterfaceAddress> {
    vec![
        address("lo", "127.0.0.1"),
        address("wlan0", "192.168.1.7"),
        address("lo", "::1"),
        address("eth0", "10.0.0.2"),
        address("wlan0", "fe80::1"),
        address("wlan0", "192.168.1.7"),
        address("eth0", "10.0.0.3"),
    ]
}

fn strings(items: &[&str]) -> Vec<String> {
    items.iter().map(|s| s.to_string()).collect()
}

#[test]
fn names_are_ordered_as_strings_are() {
    let names = ["", "a", "ab", "b", "B", "eth0", "eth1", "eth10", "wlan0", "é", "z", "\u{10000}"];
    for a in names {
        for b in names {
            let expected = if a < b {
                Precedence::Before
            } else if a == b {
                Precedence::Same
            } else {
                Precedence::After
            };
            assert_eq!(name_order(a, b), expected, "{:?} and {:?}", a, b);
        }
    }
}

#[test]
fn insertion_point_finds_the_place() {
    let names = strings(&["eth0", "lo", "wlan0"]);
    assert_eq!(insertion_point(&names, "a"), (0, false));
    assert_eq!(insertion_point(&names, "eth0"), (0, true));
    assert_eq!(insertion_point(&names, "eth1"), (1, false));
    assert_eq!(insertion_point(&names, "lo"), (1, true));
    assert_eq!(insertion_point(&names, "wlan0"), (2, true));
    assert_eq!(insertion_point(&names, "wlan1"), (3, false));
    assert_eq!(insertion_point(&Vec::new(), "x"), (0, false));
}

#[test]
fn interface_names_are_sorted_and_distinct() {
    assert_eq!(interface_names(&sample_addresses()), strings(&["eth0", "lo", "wlan0"]));
    assert_eq!(interface_names(&Vec::new()), Vec::<String>::new());
}

#[test]
fn interface_ips_keep_first_order_without_repeats() {
    let addresses = sample_addresses();
    assert_eq!(interface_ips(&addresses, "wlan0"), strings(&["192.168.1.7", "fe80::1"]));
    assert_eq!(interface_ips(&addresses, "eth0"), strings(&["10.0.0.2", "10.0.0.3"]));
    assert_eq!(interface_ips(&addresses, "lo"), strings(&["127.0.0.1", "::1"]));
    assert_eq!(interface_ips(&addresses, "tun0"), Vec::<String>::new());
}

#[test]
fn list_contains_looks_for_the_exact_text() {
    let list = strings(&["a", "b"]);
    assert!(list_contains(&list, "a"));
    assert!(list_contains(&list, "b"));
    assert!(!list_contains(&list, "A"));
    assert!(!list_contains(&Vec::new(), "a"));
}

#[test]
fn primary_address_skips_loopback() {
    let addresses = sample_addresses();
    assert_eq!(primary_address(&addresses, IpFamily::V4, "127.0.0.1"), "192.168.1.7");
    assert_eq!(primary_address(&addresses, IpFamily::V6, "::1"), "fe80::1");
}

#[test]
fn primary_address_falls_back() {
    let only_loopback = vec![address("lo", "127.0.0.1"), address("lo", "::1")];
    assert_eq!(primary_address(&only_loopback, IpFamily::V4, "127.0.0.1"), "127.0.0.1");
    assert_eq!(primary_address(&only_loopback, IpFamily::V6, "::1"), "::1");
    assert_eq!(primary_address(&Vec::new(), IpFamily::V4, "none"), "none");
}

#[test]
fn last_counters_of_a_name_count() {
    let list = vec![counters("eth0", 1, 2), counters("lo", 3, 4), counters("eth0", 5, 6)];
    assert_eq!(find_counters(&list, "eth0"), Some((5, 6)));
    assert_eq!(find_counters(&list, "lo"), Some((3, 4)));
    assert_eq!(find_counters(&list, "wlan0"), None);
}

#[test]
fn rates_are_the_growth_of_the_counters() {
    assert_eq!(rates(Some((100, 50)), Some((350, 50))), (250, 0));
    assert_eq!(rates(Some((100, 50)), Some((90, 51))), (0, 1));
    assert_eq!(rates(None, Some((90, 51))), (0, 0));
    assert_eq!(rates(Some((1, 1)), None), (0, 0));
    assert_eq!(rates(Some((0, 0)), Some((u64::MAX, u64::MAX))), (u64::MAX, u64::MAX));
}

#[test]
fn capped_add_saturates() {
    assert_eq!(capped_add(1, 2), 3);
    assert_eq!(capped_add(u64::MAX, 0), u64::MAX);
    assert_eq!(capped_add(u64::MAX - 1, 1), u64::MAX);
    assert_eq!(capped_add(u64::MAX - 1, 2), u64::MAX);
    assert_eq!(capped_add(u64::MAX, u64::MAX), u64::MAX);
}

#[test]
fn interfaces_are_put_together_by_name() {
    let before = vec![counters("eth0", 1000, 2000), counters("wlan0", 10, 10)];
    let after = vec![counters("eth0", 1500, 2125), counters("lo", 7, 7), counters("wlan0", 5, 20)];
    let list = interfaces_of(&sample_addresses(), &before, &after);
    assert_eq!(
        list,
        vec![
            InterfaceInfo {
                name: "eth0".to_string(),
                ips: strings(&["10.0.0.2", "10.0.0.3"]),
                rx_bytes_per_sec: 500,
                tx_bytes_per_sec: 125,
            },
            InterfaceInfo {
                name: "lo".to_string(),
                ips: strings(&["127.0.0.1", "::1"]),
                rx_bytes_per_sec: 0,
                tx_bytes_per_sec: 0,
            },
            InterfaceInfo {
                name: "wlan0".to_string(),
                ips: strings(&["192.168.1.7", "fe80::1"]),
                rx_bytes_per_sec: 0,
                tx_bytes_per_sec: 10,
            },
        ]
    );
    assert_eq!(total_rates(&list), (500, 135));
}

#[test]
fn totals_saturate() {
    let list = vec![
        InterfaceInfo {
            name: "a".to_string(),
            ips: Vec::new(),
            rx_bytes_per_sec: u64::MAX,
            tx_bytes_per_sec: 1,
        },
        InterfaceInfo {
            name: "b".to_string(),
            ips: Vec::new(),
            rx_bytes_per_sec: 5,
            tx_bytes_per_sec: 2,
        },
    ];
    assert_eq!(total_rates(&list), (u64::MAX, 3));
    assert_eq!(total_rates(&Vec::new()), (0, 0));
}

#[test]
fn summary_is_assembled_from_the_readings() {
    let before = vec![counters("eth0", 1000, 2000), counters("wlan0", 0, 0)];
    let after = vec![counters("eth0", 1500, 2125), counters("wlan0", 1_000_000, 250)];
    let info = DeviceInfo::assemble(
        "desk".to_string(),
        &sample_addresses(),
        &before,
        &after,
        Some(87),
        Some(12),
        None,
    );
    assert_eq!(info.hostname, "desk");
    assert_eq!(info.ip_address, "192.168.1.7");
    assert_eq!(info.ipv6_address, "fe80::1");
    assert_eq!(info.battery_level, Some(87));
    assert_eq!(info.cpu_load_percent, Some(12));
    assert_eq!(info.memory_load_percent, None);
    assert_eq!(info.wifi_download_speed, "8004 kbps");
    assert_eq!(info.wifi_upload_speed, "3 kbps");
    let names: Vec<&str> = info.interfaces.iter().map(|i| i.name.as_str()).collect();
    assert_eq!(names, vec!["eth0", "lo", "wlan0"]);
}

#[test]
fn summary_of_nothing_has_the_fallbacks() {
    let info =
        DeviceInfo::assemble(String::new(), &Vec::new(), &Vec::new(), &Vec::new(), None, None, None);
    assert_eq!(info.ip_address, "127.0.0.1");
    assert_eq!(info.ipv6_address, "::1");
    assert_eq!(info.wifi_download_speed, "0 kbps");
    assert_eq!(info.wifi_upload_speed, "0 kbps");
    assert!(info.interfaces.is_empty());
}

#[test]
fn integers_are_read_as_the_standard_library_reads_them() {
    for text in [
        "0", "7", "42", "100", "101", "007", "+5", "-5", "-0", "+0", "2147483647", "2147483648",
        "-2147483648", "-2147483649", "99999999999999999999999", "", "-", "+", "--1", "+-1", "1a",
        "a1", " 1", "1 ", "1.0", "١٢", "1_000", "+", "00000000000000000000012",
    ] {
        assert_eq!(parse_i32(text), text.parse::<i32>().ok(), "{:?}", text);
    }
}

#[test]
fn capacity_is_a_percentage() {
    let some = |s: &str| Some(s.to_string());
    assert_eq!(read_capacity(&some("87\n")), CapacityReading::Level(87));
    assert_eq!(read_capacity(&some(" 0 ")), CapacityReading::Level(0));
    assert_eq!(read_capacity(&some("100")), CapacityReading::Level(100));
    assert_eq!(read_capacity(&some("101")), CapacityReading::OutOfRange);
    assert_eq!(read_capacity(&some("-1")), CapacityReading::OutOfRange);
    assert_eq!(read_capacity(&some("2147483647")), CapacityReading::OutOfRange);
    assert_eq!(read_capacity(&some("2147483648")), CapacityReading::Unreadable);
    assert_eq!(read_capacity(&some("full")), CapacityReading::Unreadable);
    assert_eq!(read_capacity(&some("")), CapacityReading::Unreadable);
    assert_eq!(read_capacity(&None), CapacityReading::Unreadable);
}

#[test]
fn battery_level_is_the_first_percentage() {
    let some = |s: &str| Some(s.to_string());
    assert_eq!(battery_percent(&vec![some("45\n")]), Some(45));
    assert_eq!(battery_percent(&vec![some("150"), some("45")]), Some(45));
    assert_eq!(battery_percent(&vec![some("150"), some("-3"), some("9"), some("45")]), Some(9));
}

#[test]
fn battery_search_ends_at_an_unreadable_file() {
    let some = |s: &str| Some(s.to_string());
    assert_eq!(battery_percent(&Vec::new()), None);
    assert_eq!(battery_percent(&vec![None, some("45")]), None);
    assert_eq!(battery_percent(&vec![some("n/a"), some("45")]), None);
    assert_eq!(battery_percent(&vec![some("150"), None, some("45")]), None);
    assert_eq!(battery_percent(&vec![some("150"), some("200")]), None);
}
