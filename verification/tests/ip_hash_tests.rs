use protify_server::http::ip_hash::{Admission, IpHash, IpRecord, MAX_CLIENTS, TIMEOUT_SECS};

fn ip(s: &str) -> String {
    s.to_string()
}

#[test]
fn new_table_is_empty_with_limit_99() {
    let table = IpHash::new();
    assert_eq!(table.limit, 99);
    assert_eq!(table.length(), 0);
    assert_eq!(table.get_value(&ip("10.0.0.1")), 0);
}

#[test]
fn insert_counts_requests_per_address() {
    let mut table = IpHash::new();
    table.insert_at(ip("10.0.0.1"), 1000);
    table.insert_at(ip("10.0.0.1"), 1001);
    table.insert_at(ip("10.0.0.2"), 1002);
    assert_eq!(table.get_value(&ip("10.0.0.1")), 2);
    assert_eq!(table.get_value(&ip("10.0.0.2")), 1);
    assert_eq!(table.length(), 2);
    // A counted request keeps the timer of the first one.
    assert_eq!(table.record(&ip("10.0.0.1")), Some(IpRecord { count: 2, last_seen: 1000 }));
}

#[test]
fn insert_reads_the_clock() {
    let mut table = IpHash::new();
    table.insert(ip("10.0.0.9"));
    assert_eq!(table.get_value(&ip("10.0.0.9")), 1);
    let record = table.record(&ip("10.0.0.9")).unwrap();
    assert!(record.last_seen > 1_600_000_000);
}

#[test]
fn insert_at_limit_only_resets_timer() {
    let mut table = IpHash::new();
    table.limit = 2;
    table.insert_at(ip("a"), 10);
    table.insert_at(ip("a"), 11);
    assert_eq!(table.record(&ip("a")), Some(IpRecord { count: 2, last_seen: 10 }));
    table.insert_at(ip("a"), 50);
    assert_eq!(table.record(&ip("a")), Some(IpRecord { count: 2, last_seen: 50 }));
}

#[test]
fn forget_removes_address() {
    let mut table = IpHash::new();
    table.insert_at(ip("a"), 10);
    table.forget(&ip("a"));
    assert_eq!(table.record(&ip("a")), None);
    assert_eq!(table.length(), 0);
}

#[test]
fn ninety_nine_requests_a_minute_then_ignored() {
    let mut table = IpHash::new();
    let start = 5000u64;
    for i in 0..98u64 {
        let admission = table.admit_client(ip("1.2.3.4"), start + i % 30);
        match admission {
            Admission::Served { banned, .. } => assert!(!banned, "request {}", i),
            other => panic!("request {} was {:?}", i, other),
        }
    }
    // The 99th is served and is the last one.
    assert_eq!(
        table.admit_client(ip("1.2.3.4"), start + 40),
        Admission::Served { banned: true, suspicious: false }
    );
    assert_eq!(table.get_value(&ip("1.2.3.4")), 99);
    // The next ones are ignored, and each one sets the timer again.
    assert_eq!(table.admit_client(ip("1.2.3.4"), start + 59), Admission::Refused);
    assert_eq!(table.admit_client(ip("1.2.3.4"), start + 100), Admission::Refused);
    assert_eq!(table.record(&ip("1.2.3.4")), Some(IpRecord { count: 99, last_seen: start + 100 }));
    // A full minute after the last attempt, the address starts again.
    assert_eq!(
        table.admit_client(ip("1.2.3.4"), start + 100 + TIMEOUT_SECS),
        Admission::Served { banned: false, suspicious: false }
    );
    assert_eq!(table.get_value(&ip("1.2.3.4")), 1);
}

#[test]
fn suspicious_near_the_limit() {
    let mut table = IpHash::new();
    let mut last = Admission::Refused;
    for _ in 0..81 {
        last = table.admit_client(ip("5.5.5.5"), 100);
    }
    assert_eq!(last, Admission::Served { banned: false, suspicious: true });
    assert_eq!(table.get_value(&ip("5.5.5.5")), 81);
}

#[test]
fn other_addresses_are_not_affected() {
    let mut table = IpHash::new();
    table.limit = 1;
    assert_eq!(table.admit_client(ip("a"), 0), Admission::Served { banned: true, suspicious: false });
    assert_eq!(table.admit_client(ip("a"), 1), Admission::Refused);
    assert_eq!(table.admit_client(ip("b"), 1), Admission::Served { banned: true, suspicious: false });
}

#[test]
fn too_many_clients_overloads() {
    let mut table = IpHash::new();
    for i in 0..MAX_CLIENTS {
        table.insert_at(format!("10.0.{}.{}", i / 256, i % 256), 0);
    }
    assert_eq!(table.length(), MAX_CLIENTS);
    assert_eq!(table.admit_client(ip("9.9.9.9"), 1), Admission::Overloaded);
    assert_eq!(table.get_value(&ip("9.9.9.9")), 0);
}
