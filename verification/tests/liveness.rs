use wg_client::config::{Config, LogLevel};
use wg_client::orchestrator::Orchestrator;
use wg_client::outcome::Outcome;

fn config_with_timeout(reconnect_timeout: Option<u16>) -> Config {
    Config {
        log_level: LogLevel::Info,
        local_private_key: String::from("local-key"),
        remote_public_key: String::from("peer-key"),
        remote_addr: String::from("192.0.2.1:51820"),
        ifname: String::from("tun0"),
        mtu: 1420,
        keepalive: None,
        reconnect_timeout,
        fwmark: None,
    }
}

#[test]
fn new_orchestrator_scales_timeout_to_millis() {
    let o = Orchestrator::new(&config_with_timeout(Some(5)));
    assert_eq!(o.reconnect_timeout_ms, Some(5000));
    assert_eq!(o.last_connect_ms, None);
    let o = Orchestrator::new(&config_with_timeout(None));
    assert_eq!(o.reconnect_timeout_ms, None);
}

#[test]
fn startup_connect_records_stamp() {
    let mut o = Orchestrator::new(&config_with_timeout(Some(5)));
    o.on_startup_connected(250);
    assert_eq!(o.last_connect_ms, Some(250));
    assert_eq!(o.reconnect_timeout_ms, Some(5000));
}

#[test]
fn reconnect_guard_respects_timeout() {
    let mut o = Orchestrator::new(&config_with_timeout(Some(5)));
    o.on_startup_connected(0);
    assert!(!o.try_reconnect(4000));
    assert_eq!(o.last_connect_ms, Some(0));
    assert!(!o.try_reconnect(5000));
    assert!(o.try_reconnect(5001));
    assert_eq!(o.last_connect_ms, Some(5001));
}

#[test]
fn reconnect_without_recorded_connect_fires_at_once() {
    let mut o = Orchestrator::new(&config_with_timeout(Some(5)));
    assert!(o.try_reconnect(1));
    assert_eq!(o.last_connect_ms, Some(1));
}

#[test]
fn reconnect_with_unset_timeout_is_a_no_op() {
    let mut o = Orchestrator::new(&config_with_timeout(None));
    assert!(!o.try_reconnect(1_000_000));
    assert_eq!(o.last_connect_ms, None);
}

#[test]
fn tick_scenario_five_second_timeout() {
    // Timeout of 5 s, last connect at T=0, handshake never succeeded, so
    // the watchdog demands a reconnect at every tick and only the guard on
    // the last-connect age decides.
    let mut o = Orchestrator::new(&config_with_timeout(Some(5)));
    o.on_startup_connected(0);

    let plan = o.on_tick(Outcome::Done, None, 4000, 4000);
    assert!(!plan.connect);
    assert_eq!(o.last_connect_ms, Some(0));

    let plan = o.on_tick(Outcome::Done, None, 6000, 6000);
    assert!(plan.connect);
    assert_eq!(o.last_connect_ms, Some(6000));

    let plan = o.on_tick(Outcome::Done, None, 6100, 6100);
    assert!(!plan.connect);
    assert_eq!(o.last_connect_ms, Some(6000));

    let plan = o.on_tick(Outcome::Done, None, 11000, 11000);
    assert!(!plan.connect);

    let plan = o.on_tick(Outcome::Done, None, 11100, 11100);
    assert!(plan.connect);
    assert_eq!(o.last_connect_ms, Some(11100));
}

#[test]
fn unset_timeout_never_connects() {
    let mut o = Orchestrator::new(&config_with_timeout(None));
    o.on_startup_connected(0);
    let plan = o.on_tick(Outcome::Expired, None, 1_000_000_000, 1_000_000_000);
    assert!(!plan.connect);
    assert!(!o.watchdog(None, 2_000_000_000, 2_000_000_000));
    assert_eq!(o.last_connect_ms, Some(0));
}

#[test]
fn never_handshaked_triggers_watchdog_immediately() {
    let mut o = Orchestrator::new(&config_with_timeout(Some(5)));
    // First tick ever: no handshake, no recorded connect, tiny clocks.
    let plan = o.on_tick(Outcome::Done, None, 1, 1);
    assert!(plan.connect);
    assert_eq!(o.last_connect_ms, Some(1));
}

#[test]
fn expired_outcome_triggers_reconnect_through_guard() {
    let mut o = Orchestrator::new(&config_with_timeout(Some(5)));
    o.on_startup_connected(0);
    // Fresh handshake: the watchdog is quiet (10000 - 6000 <= 5000), so
    // only the engine's expiry demands the reconnect.
    let plan = o.on_tick(Outcome::Expired, Some(6000), 10000, 7000);
    assert!(plan.connect);
    assert_eq!(o.last_connect_ms, Some(7000));
    // Within the timeout the same expiry is held off.
    let plan = o.on_tick(Outcome::Expired, Some(6000), 10500, 8000);
    assert!(!plan.connect);
    assert_eq!(o.last_connect_ms, Some(7000));
}

#[test]
fn quiet_tick_past_timeout_does_not_connect() {
    let mut o = Orchestrator::new(&config_with_timeout(Some(5)));
    o.on_startup_connected(0);
    // Guard open (6000 > 5000) but neither trigger fires: the handshake is
    // fresh (9000 - 8000 <= 5000) and the engine reports nothing.
    let plan = o.on_tick(Outcome::Done, Some(8000), 9000, 6000);
    assert!(!plan.connect);
    assert_eq!(o.last_connect_ms, Some(0));
}

#[test]
fn watchdog_staleness_threshold_is_strict() {
    // Staleness compares the wall clock minus the handshake age against
    // the timeout, strictly.
    // 11000 - 6000 == 5000: not stale yet.
    let mut o = Orchestrator::new(&config_with_timeout(Some(5)));
    assert!(!o.watchdog(Some(6000), 11000, 100));
    assert_eq!(o.last_connect_ms, None);
    // 11001 - 6000 > 5000: stale, and with no recorded connect the guard
    // is open, so the connect is issued.
    let mut o = Orchestrator::new(&config_with_timeout(Some(5)));
    assert!(o.watchdog(Some(6000), 11001, 100));
    assert_eq!(o.last_connect_ms, Some(100));
}

#[test]
fn tick_forwards_timer_outcome_bytes() {
    let mut o = Orchestrator::new(&config_with_timeout(None));
    let plan = o.on_tick(Outcome::EmitNetwork(vec![1, 2, 3]), None, 0, 0);
    assert_eq!(plan.send, Some(vec![1, 2, 3]));
    assert_eq!(plan.deliver, None);
    assert!(!plan.warn);
    assert!(!plan.connect);

    let plan = o.on_tick(Outcome::Deliver4(vec![7]), None, 0, 0);
    assert_eq!(plan.deliver, Some(vec![7]));
    assert_eq!(plan.send, None);

    let plan = o.on_tick(Outcome::Other, None, 0, 0);
    assert!(plan.warn);
    assert_eq!(plan.send, None);
    assert_eq!(plan.deliver, None);
}
