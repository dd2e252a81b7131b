use keystone::registry::{node_port, stale, NodeRegistry, RegistryError};

fn s(x: &str) -> String {
    x.to_string()
}

#[test]
fn register_makes_node_visible() {
    let mut r = NodeRegistry::new();
    r.register(s("n1"), s("10.0.0.1"), 9000, 1000);
    let snap = r.snapshot();
    assert_eq!(snap.len(), 1);
    assert_eq!(snap[0].id, "n1");
    assert_eq!(snap[0].info.ip, "10.0.0.1");
    assert_eq!(snap[0].info.port, 9000);
    assert_eq!(snap[0].info.last_seen, 1000);
    assert!(r.contains(&s("n1")));
}

#[test]
fn register_replaces_existing_entry() {
    let mut r = NodeRegistry::new();
    r.register(s("n1"), s("10.0.0.1"), 9000, 1000);
    r.register(s("n2"), s("10.0.0.2"), 9001, 1001);
    r.register(s("n1"), s("10.0.0.9"), 9100, 1005);
    let snap = r.snapshot();
    assert_eq!(snap.len(), 2);
    assert_eq!(snap[0].id, "n1");
    assert_eq!(snap[0].info.ip, "10.0.0.9");
    assert_eq!(snap[0].info.port, 9100);
    assert_eq!(snap[0].info.last_seen, 1005);
    assert_eq!(snap[1].id, "n2");
}

#[test]
fn heartbeat_of_unknown_node_is_not_found() {
    let mut r = NodeRegistry::new();
    r.register(s("n1"), s("10.0.0.1"), 9000, 1000);
    assert_eq!(r.heartbeat(&s("ghost"), 1010), Err(RegistryError::NotFound));
    let snap = r.snapshot();
    assert_eq!(snap.len(), 1);
    assert_eq!(snap[0].info.last_seen, 1000);
}

#[test]
fn heartbeat_refreshes_last_seen() {
    let mut r = NodeRegistry::new();
    r.register(s("n1"), s("10.0.0.1"), 9000, 1000);
    assert_eq!(r.heartbeat(&s("n1"), 1020), Ok(()));
    assert_eq!(r.snapshot()[0].info.last_seen, 1020);
}

#[test]
fn heartbeat_never_moves_the_clock_back() {
    let mut r = NodeRegistry::new();
    r.register(s("n1"), s("10.0.0.1"), 9000, 1000);
    assert_eq!(r.heartbeat(&s("n1"), 990), Ok(()));
    assert_eq!(r.snapshot()[0].info.last_seen, 1000);
}

#[test]
fn evict_reports_whether_removed() {
    let mut r = NodeRegistry::new();
    r.register(s("n1"), s("10.0.0.1"), 9000, 1000);
    r.register(s("n2"), s("10.0.0.2"), 9000, 1000);
    assert!(r.evict(&s("n1")));
    assert!(!r.evict(&s("n1")));
    let snap = r.snapshot();
    assert_eq!(snap.len(), 1);
    assert_eq!(snap[0].id, "n2");
}

#[test]
fn sweep_on_empty_registry_evicts_nothing() {
    let mut r = NodeRegistry::new();
    assert!(r.sweep(5000, 30).is_empty());
    assert!(r.snapshot().is_empty());
}

#[test]
fn sweep_evicts_silent_node_after_threshold() {
    let mut r = NodeRegistry::new();
    r.register(s("n1"), s("10.0.0.1"), 9000, 900);
    r.register(s("n2"), s("10.0.0.2"), 9000, 900);
    assert_eq!(r.heartbeat(&s("n1"), 1000), Ok(()));
    assert_eq!(r.heartbeat(&s("n2"), 1040), Ok(()));
    let evicted = r.sweep(1000 + 30 + 1, 30);
    assert_eq!(evicted, vec![s("n1")]);
    let snap = r.snapshot();
    assert_eq!(snap.len(), 1);
    assert_eq!(snap[0].id, "n2");
}

#[test]
fn sweep_keeps_node_exactly_at_threshold() {
    let mut r = NodeRegistry::new();
    r.register(s("n1"), s("10.0.0.1"), 9000, 1000);
    assert!(r.sweep(1030, 30).is_empty());
    assert_eq!(r.sweep(1031, 30), vec![s("n1")]);
}

#[test]
fn heartbeat_extends_liveness() {
    let threshold: u64 = 30;
    let t0: i64 = 1000;
    let mut r = NodeRegistry::new();
    r.register(s("n1"), s("10.0.0.1"), 9000, t0);
    assert_eq!(r.heartbeat(&s("n1"), t0 + threshold as i64 - 1), Ok(()));
    assert!(r.sweep(t0 + threshold as i64 + 1, threshold).is_empty());
    assert!(r.contains(&s("n1")));
}

#[test]
fn stale_is_age_above_threshold() {
    assert!(!stale(100, 130, 30));
    assert!(stale(100, 131, 30));
    assert!(!stale(100, 50, 0));
    assert!(!stale(i64::MIN, i64::MAX, u64::MAX));
    assert!(stale(i64::MIN, i64::MAX, u64::MAX - 1));
}

#[test]
fn register_now_uses_the_current_time() {
    let mut r = NodeRegistry::new();
    let now = r.register_now(s("n1"), s("10.0.0.1"), 9000);
    assert!(now > 1_600_000_000);
    assert_eq!(r.snapshot()[0].info.last_seen, now);
    let later = r.heartbeat_now(&s("n1")).unwrap();
    assert!(later >= now);
    assert_eq!(r.heartbeat_now(&s("nobody")), Err(RegistryError::NotFound));
    let (at, evicted) = r.sweep_now(3600);
    assert!(at >= later);
    assert!(evicted.is_empty());
}

#[test]
fn node_port_checks_range() {
    assert_eq!(node_port(9000), Some(9000));
    assert_eq!(node_port(0), Some(0));
    assert_eq!(node_port(65535), Some(65535));
    assert_eq!(node_port(65536), None);
    assert_eq!(node_port(-1), None);
}

#[test]
fn live_nodes_hides_stale_entries_before_any_sweep() {
    let mut r = NodeRegistry::new();
    r.register(s("old"), s("10.0.0.1"), 9000, 900);
    r.register(s("fresh"), s("10.0.0.2"), 9000, 995);
    let live = r.live_nodes(1000, 30);
    assert_eq!(live.len(), 1);
    assert_eq!(live[0].id, "fresh");
    assert_eq!(r.snapshot().len(), 2);
    let (_, now_live) = r.live_nodes_now(u64::MAX);
    assert_eq!(now_live.len(), 2);
}
