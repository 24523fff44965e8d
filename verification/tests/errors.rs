use std::io;
use std::time::Duration;

use ring::errors::{
    classify_icmp_error, classify_network_error, classify_os_error, is_expected_reply, queued_error,
    queued_error_outcome, received_ttl, receive_failure_result, sweep_reply_event, ErrnoCodes,
};
use ring::packet::build_echo_request;
use ring::types::{PingResult, QueuedIcmpError, SweepEvent};

const FROM: Option<u32> = Some(0x0a00_0001);

#[test]
fn icmp_destination_unreachable_codes() {
    assert_eq!(classify_icmp_error(3, 0, FROM, 0), PingResult::NetworkUnreachable { from: FROM });
    assert_eq!(classify_icmp_error(3, 1, FROM, 0), PingResult::HostUnreachable { from: FROM });
    assert_eq!(classify_icmp_error(3, 2, FROM, 0), PingResult::ProtocolUnreachable { from: FROM });
    assert_eq!(classify_icmp_error(3, 3, FROM, 0), PingResult::PortUnreachable { from: FROM });
    assert_eq!(classify_icmp_error(3, 5, None, 0), PingResult::SourceRouteFailed { from: None });
    for code in [9u8, 10, 13] {
        assert_eq!(classify_icmp_error(3, code, FROM, 0), PingResult::AdministrativelyProhibited { from: FROM });
    }
    assert_eq!(
        classify_icmp_error(3, 6, FROM, 0),
        PingResult::IcmpError { from: FROM, icmp_type: 3, icmp_code: 6 }
    );
}

#[test]
fn icmp_fragmentation_needed_carries_mtu() {
    assert_eq!(
        classify_icmp_error(3, 4, FROM, 1400),
        PingResult::FragmentationNeeded { from: FROM, mtu: Some(1400) }
    );
    assert_eq!(classify_icmp_error(3, 4, FROM, 0), PingResult::FragmentationNeeded { from: FROM, mtu: None });
}

#[test]
fn icmp_time_exceeded_and_parameter_problem() {
    assert_eq!(classify_icmp_error(11, 0, FROM, 0), PingResult::TimeExceeded { from: FROM, rtt: None });
    assert_eq!(classify_icmp_error(11, 1, FROM, 0), PingResult::TimeExceeded { from: FROM, rtt: None });
    assert_eq!(
        classify_icmp_error(11, 2, FROM, 0),
        PingResult::IcmpError { from: FROM, icmp_type: 11, icmp_code: 2 }
    );
    assert_eq!(classify_icmp_error(12, 7, FROM, 0), PingResult::ParameterProblem { from: FROM });
    assert_eq!(
        classify_icmp_error(5, 1, None, 9),
        PingResult::IcmpError { from: None, icmp_type: 5, icmp_code: 1 }
    );
}

#[test]
fn os_errors_are_classified_by_number() {
    let codes = ErrnoCodes {
        network_unreachable: libc::ENETUNREACH,
        host_unreachable: libc::EHOSTUNREACH,
        host_down: libc::EHOSTDOWN,
        network_down: libc::ENETDOWN,
        access_denied: libc::EACCES,
        not_permitted: libc::EPERM,
    };
    assert_eq!(
        classify_os_error(&codes, Some(libc::ENETUNREACH), "x".to_string()),
        PingResult::NetworkUnreachable { from: None }
    );
    assert_eq!(
        classify_os_error(&codes, Some(libc::EHOSTUNREACH), "x".to_string()),
        PingResult::HostUnreachable { from: None }
    );
    assert_eq!(
        classify_os_error(&codes, Some(libc::EHOSTDOWN), "x".to_string()),
        PingResult::HostUnreachable { from: None }
    );
    assert_eq!(classify_os_error(&codes, Some(libc::ENETDOWN), "x".to_string()), PingResult::NetworkDown);
    assert_eq!(classify_os_error(&codes, Some(libc::EACCES), "x".to_string()), PingResult::PermissionDenied);
    assert_eq!(classify_os_error(&codes, Some(libc::EPERM), "x".to_string()), PingResult::PermissionDenied);
    assert_eq!(
        classify_os_error(&codes, Some(libc::EINVAL), "bad".to_string()),
        PingResult::LocalError("bad".to_string())
    );
    assert_eq!(classify_os_error(&codes, None, "m".to_string()), PingResult::LocalError("m".to_string()));
}

#[test]
fn io_errors_are_classified() {
    assert_eq!(
        classify_network_error(io::Error::from_raw_os_error(libc::ENETUNREACH)),
        PingResult::NetworkUnreachable { from: None }
    );
    assert_eq!(
        classify_network_error(io::Error::from_raw_os_error(libc::EPERM)),
        PingResult::PermissionDenied
    );
    assert_eq!(
        classify_network_error(io::Error::new(io::ErrorKind::Other, "boom")),
        PingResult::LocalError("boom".to_string())
    );
}

#[test]
fn expected_reply_matching() {
    let target = 0x0808_0808;
    let mut reply = build_echo_request(42, 8);
    reply[0] = 0;
    assert!(is_expected_reply(&reply, target, target, 42));
    assert!(!is_expected_reply(&reply, target, target, 43));
    assert!(!is_expected_reply(&reply, target + 1, target, 42));
    assert!(!is_expected_reply(&reply[..7], target, target, 42));
    let request = build_echo_request(42, 8);
    assert!(!is_expected_reply(&request, target, target, 42));
    let mut coded = reply.clone();
    coded[1] = 1;
    assert!(!is_expected_reply(&coded, target, target, 42));
}

#[test]
fn queued_errors_belong_to_their_probe() {
    let header = build_echo_request(9, 0);
    let queued = queued_error(&header, 11, 0, FROM, 0);
    assert_eq!(queued, QueuedIcmpError { sequence: 9, result: PingResult::TimeExceeded { from: FROM, rtt: None } });
    let elapsed = Duration::from_millis(12);
    assert_eq!(
        queued_error_outcome(queued, 9, elapsed),
        Some(PingResult::TimeExceeded { from: FROM, rtt: Some(elapsed) })
    );
    let other = queued_error(&header, 3, 1, FROM, 0);
    assert_eq!(queued_error_outcome(other, 10, elapsed), None);
    let unreachable = queued_error(&header, 3, 1, FROM, 0);
    assert_eq!(
        queued_error_outcome(unreachable, 9, elapsed),
        Some(PingResult::HostUnreachable { from: FROM })
    );
}

#[test]
fn receive_failures() {
    assert_eq!(
        receive_failure_result(true, io::Error::new(io::ErrorKind::WouldBlock, "again")),
        PingResult::NoResponse
    );
    assert_eq!(
        receive_failure_result(false, io::Error::new(io::ErrorKind::Other, "broken")),
        PingResult::LocalError("broken".to_string())
    );
}

#[test]
fn sweep_reply_events() {
    let mut reply = build_echo_request(300, 4);
    reply[0] = 0;
    assert_eq!(sweep_reply_event(&reply, 77), Some(SweepEvent::Reply { source: 77, sequence: 300 }));
    assert_eq!(sweep_reply_event(&reply[..6], 77), None);
    let request = build_echo_request(300, 4);
    assert_eq!(sweep_reply_event(&request, 77), None);
}

#[test]
fn ttl_from_control_message() {
    assert_eq!(received_ttl(64), Some(64));
    assert_eq!(received_ttl(0), Some(0));
    assert_eq!(received_ttl(255), Some(255));
    assert_eq!(received_ttl(256), None);
    assert_eq!(received_ttl(-1), None);
}
