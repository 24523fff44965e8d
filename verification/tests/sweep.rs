use std::io;

use ring::interface::RangeError;
use ring::sweep::{plan_sweep_scope, sweep_decision, sweep_failure_report, sweep_send_failure_message, SweepDecision, SweepEngine, SweepScope};
use ring::types::{PingResult, SweepProbe, SweepRange};

fn ip(text: &str) -> u32 {
    let octets: Vec<u32> = text.split('.').map(|p| p.parse::<u32>().unwrap()).collect();
    assert_eq!(octets.len(), 4);
    (octets[0] << 24) | (octets[1] << 16) | (octets[2] << 8) | octets[3]
}

fn range(a: &str, b: &str) -> SweepRange {
    SweepRange { first: ip(a), last: ip(b), network: None, prefix_length: None, interface_name: None }
}

#[test]
fn small_private_ranges_proceed() {
    assert_eq!(sweep_decision(&range("192.168.1.1", "192.168.1.254"), false, false), SweepDecision::Proceed);
}

#[test]
fn public_ranges_need_force() {
    let public = range("8.8.8.0", "8.8.8.10");
    assert_eq!(sweep_decision(&public, true, false), SweepDecision::NotPrivate);
    assert_eq!(sweep_decision(&public, false, true), SweepDecision::Proceed);
}

#[test]
fn larger_private_ranges_need_confirmation() {
    let big = range("10.0.0.1", "10.0.255.254");
    assert_eq!(sweep_decision(&big, false, false), SweepDecision::NeedsConfirmation { count: 65534 });
    assert_eq!(sweep_decision(&big, true, false), SweepDecision::Proceed);
    let just_over = range("192.168.1.0", "192.168.1.254");
    assert_eq!(sweep_decision(&just_over, false, false), SweepDecision::NeedsConfirmation { count: 255 });
}

#[test]
fn huge_private_ranges_are_refused() {
    let huge = range("10.0.0.1", "10.255.255.254");
    assert_eq!(sweep_decision(&huge, true, false), SweepDecision::TooLarge { count: 16_777_214 });
    assert_eq!(sweep_decision(&huge, false, true), SweepDecision::Proceed);
}

#[test]
fn scope_from_low_and_high() {
    assert_eq!(
        plan_sweep_scope(None, Some(ip("192.168.1.20")), Some(ip("192.168.1.80")), None, None),
        Ok(SweepScope::Manual(range("192.168.1.20", "192.168.1.80")))
    );
    assert_eq!(
        plan_sweep_scope(None, Some(ip("192.168.1.80")), Some(ip("192.168.1.20")), None, None),
        Err(RangeError::LowAboveHigh)
    );
}

#[test]
fn scope_refuses_interface_with_manual_range() {
    assert_eq!(
        plan_sweep_scope(Some("eth0".to_string()), None, None, Some("10.0.0.0/24".to_string()), None),
        Err(RangeError::InterfaceWithManualRange)
    );
    assert_eq!(
        plan_sweep_scope(Some("eth0".to_string()), None, None, None, Some(0)),
        Err(RangeError::InterfaceWithManualRange)
    );
}

#[test]
fn scope_from_network() {
    let expected = SweepRange {
        first: ip("192.168.1.1"),
        last: ip("192.168.1.254"),
        network: Some(ip("192.168.1.0")),
        prefix_length: Some(24),
        interface_name: None,
    };
    assert_eq!(
        plan_sweep_scope(None, None, None, Some("192.168.1.0/24".to_string()), None),
        Ok(SweepScope::Manual(expected.clone()))
    );
    assert_eq!(
        plan_sweep_scope(None, None, None, Some("192.168.1.0".to_string()), Some(ip("255.255.255.0"))),
        Ok(SweepScope::Manual(expected))
    );
}

#[test]
fn scope_network_errors() {
    assert_eq!(
        plan_sweep_scope(None, None, None, Some("192.168.1.0/24".to_string()), Some(ip("255.255.255.0"))),
        Err(RangeError::MaskWithCidr)
    );
    assert_eq!(
        plan_sweep_scope(None, None, None, Some("192.168.1.0".to_string()), None),
        Err(RangeError::MaskRequired)
    );
    assert_eq!(
        plan_sweep_scope(None, None, None, Some("lan".to_string()), Some(0)),
        Err(RangeError::InvalidNetworkAddress { text: "lan".to_string() })
    );
    assert_eq!(
        plan_sweep_scope(None, None, None, Some("192.168.1.0".to_string()), Some(ip("255.0.255.0"))),
        Err(RangeError::InvalidMask { mask: ip("255.0.255.0") })
    );
}

#[test]
fn scope_from_interfaces() {
    assert_eq!(
        plan_sweep_scope(Some("eth0".to_string()), None, None, None, None),
        Ok(SweepScope::Interfaces { requested: Some("eth0".to_string()) })
    );
    assert_eq!(plan_sweep_scope(None, None, None, None, None), Ok(SweepScope::Interfaces { requested: None }));
    // A lone bound falls through to the interfaces, as the option parser never allows it.
    assert_eq!(
        plan_sweep_scope(None, Some(1), None, None, None),
        Ok(SweepScope::Interfaces { requested: None })
    );
}

#[test]
fn engine_probes_addresses_in_order() {
    let r = range("10.0.0.1", "10.0.0.3");
    let mut engine = SweepEngine::new(&r, 2, 10, 1000, 0);
    assert!(engine.is_running());
    assert!(engine.may_send(0));
    assert_eq!(engine.next_probe(), (ip("10.0.0.1"), 1));
    engine.record_send(true, 1, 1);
    assert!(!engine.may_send(5));
    assert!(engine.may_send(11));
    assert_eq!(engine.next_probe(), (ip("10.0.0.2"), 2));
    engine.record_send(true, 12, 12);
    assert!(!engine.may_send(100), "concurrency limit");
    assert!(engine.take_reply(ip("10.0.0.1"), 1));
    assert!(!engine.take_reply(ip("10.0.0.1"), 1), "a reply is taken once");
    assert!(!engine.take_reply(ip("10.0.0.2"), 9), "sequence must match");
    assert_eq!(engine.outstanding, vec![SweepProbe { target: ip("10.0.0.2"), sequence: 2, sent_at: 12 }]);
    assert_eq!(engine.next_probe(), (ip("10.0.0.3"), 3));
    engine.record_send(false, 30, 30);
    assert_eq!(engine.outstanding.len(), 1);
    assert!(engine.is_running());
    engine.expire(1011);
    assert_eq!(engine.outstanding.len(), 1);
    engine.expire(1012);
    assert!(engine.outstanding.is_empty());
    assert!(!engine.is_running());
}

#[test]
fn engine_keeps_waiting_probes_in_order() {
    let r = range("10.0.0.1", "10.0.0.9");
    let mut engine = SweepEngine::new(&r, 5, 0, 100, 0);
    for t in [0u64, 50, 60, 200] {
        engine.record_send(true, t, t);
    }
    engine.expire(155);
    let kept: Vec<u64> = engine.outstanding.iter().map(|p| p.sent_at).collect();
    assert_eq!(kept, vec![60, 200]);
}

#[test]
fn engine_sequence_wraps() {
    let r = range("0.0.0.0", "0.1.0.10");
    let mut engine = SweepEngine::new(&r, 1, 0, 1, 0);
    for _ in 0..65535 {
        engine.record_send(false, 0, 0);
    }
    assert_eq!(engine.next_probe(), (65535, 0));
    engine.record_send(false, 0, 0);
    assert_eq!(engine.next_probe(), (65536, 1));
}

#[test]
fn sweep_send_failures() {
    assert_eq!(sweep_send_failure_message(1, true, io::Error::new(io::ErrorKind::Other, "x")), None);
    assert_eq!(
        sweep_send_failure_message(ip("10.0.0.7"), false, io::Error::new(io::ErrorKind::Other, "No buffer space")),
        Some("ring: 10.0.0.7: No buffer space".to_string())
    );
    assert_eq!(
        sweep_send_failure_message(ip("10.0.0.7"), false, io::Error::from_raw_os_error(libc::EPERM)),
        None
    );
}

#[test]
fn sweep_failure_reports() {
    assert_eq!(
        sweep_failure_report(ip("192.168.0.9"), false, PingResult::LocalError("Invalid argument".to_string())),
        Some("ring: 192.168.0.9: Invalid argument".to_string())
    );
    assert_eq!(sweep_failure_report(ip("192.168.0.9"), true, PingResult::LocalError("x".to_string())), None);
    assert_eq!(sweep_failure_report(ip("192.168.0.9"), false, PingResult::PermissionDenied), None);
    assert_eq!(sweep_failure_report(ip("192.168.0.9"), false, PingResult::NetworkDown), None);
}
