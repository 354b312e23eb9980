use buzkaaclicker_backend::online_users::{
    get_chart_data, Archiver, ChartSample, OnlineUsers,
};

#[test]
fn eviction_scenario() {
    // Eviction window 70s, sweep interval 10s; "A" keep-alives once at t=0.
    let mut users = OnlineUsers::new(0);
    users.keep_alive(String::from("A"), 0);

    // Counted at t = 5s, 15s, ..., 65s.
    let mut t: u64 = 5_000;
    while t <= 65_000 {
        assert_eq!(users.count(t), 1);
        t += 10_000;
    }

    // At t = 75s the first count sweeps and reports nobody.
    assert_eq!(users.count(75_000), 0);
}

#[test]
fn repeated_keep_alive_is_never_evicted() {
    let mut users = OnlineUsers::new(0);
    let mut t: u64 = 0;
    // "A" re-sends its keep-alive every 60s, inside the 70s window.
    while t <= 300_000 {
        users.keep_alive(String::from("A"), t);
        t += 60_000;
    }
    // t is 360s here; "A" was last seen at 300s, 60s ago: still counted.
    assert_eq!(users.count(t), 1);
}

#[test]
fn silent_identity_expires_while_active_one_stays() {
    let mut users = OnlineUsers::new(0);
    users.keep_alive(String::from("quiet"), 0);
    users.keep_alive(String::from("chatty"), 0);
    assert_eq!(users.count(5_000), 2);

    users.keep_alive(String::from("chatty"), 50_000);
    // At t=90s: "quiet" is 90s silent (evicted), "chatty" 40s (kept).
    assert_eq!(users.count(90_000), 1);
}

#[test]
fn keep_alive_updates_not_duplicates() {
    let mut users = OnlineUsers::new(0);
    users.keep_alive(String::from("A"), 1_000);
    users.keep_alive(String::from("A"), 2_000);
    users.keep_alive(String::from("A"), 3_000);
    users.keep_alive(String::from("B"), 3_000);
    assert_eq!(users.count(4_000), 2);
}

#[test]
fn archive_ticks() {
    let mut users = OnlineUsers::new(0);
    let mut archiver = Archiver::new(0);
    users.keep_alive(String::from("A"), 0);

    // First tick at 60s: "A" is 60s silent, still within the 70s window.
    let s1 = archiver.archive_tick(&mut users, 60_000);
    assert_eq!(s1.timestamp, 60_000);
    assert_eq!(s1.count, 1);

    // Second tick at 120s: "A" has expired; timestamps are non-decreasing.
    let s2 = archiver.archive_tick(&mut users, 120_000);
    assert_eq!(s2.timestamp, 120_000);
    assert_eq!(s2.count, 0);
    assert!(s1.timestamp <= s2.timestamp);
}

#[test]
fn chart_labels() {
    let samples = vec![
        ChartSample { month: 10, day: 4, hour: 12, minute: 5, count: 7 },
        ChartSample { month: 1, day: 31, hour: 0, minute: 59, count: 123 },
    ];
    let data = get_chart_data(&samples);
    assert_eq!(data.time_labels.len(), 2);
    assert_eq!(data.time_labels[0], "04.10 12:05");
    assert_eq!(data.time_labels[1], "31.01 00:59");
    assert_eq!(data.counts, vec![7, 123]);
}
