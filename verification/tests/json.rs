use std::time::Duration;

use ring::json::{ping_json_output, ping_result_to_json, JsonPingProbe, JsonStatus};
use ring::types::{PingResult, PingStats};

fn bare(sequence: u16, status: JsonStatus, from: Option<u32>) -> JsonPingProbe {
    JsonPingProbe {
        sequence,
        status,
        rtt: None,
        ttl: None,
        from,
        mtu: None,
        icmp_type: None,
        icmp_code: None,
        error: None,
    }
}

#[test]
fn alive_probe_entry() {
    let rtt = Duration::from_micros(42839);
    let entry = ping_result_to_json(1, &PingResult::Alive { rtt, ttl: Some(251) });
    assert_eq!(entry.status, JsonStatus::Alive);
    assert_eq!(entry.rtt, Some(rtt));
    assert_eq!(entry.ttl, Some(251));
    assert_eq!(entry.from, None);
}

#[test]
fn error_probe_entries() {
    let from = Some(7);
    assert_eq!(ping_result_to_json(2, &PingResult::NoResponse), bare(2, JsonStatus::NoResponse, None));
    assert_eq!(
        ping_result_to_json(3, &PingResult::NetworkUnreachable { from }),
        bare(3, JsonStatus::NetworkUnreachable, from)
    );
    assert_eq!(
        ping_result_to_json(3, &PingResult::HostUnreachable { from }),
        bare(3, JsonStatus::HostUnreachable, from)
    );
    assert_eq!(
        ping_result_to_json(3, &PingResult::ProtocolUnreachable { from }),
        bare(3, JsonStatus::ProtocolUnreachable, from)
    );
    assert_eq!(
        ping_result_to_json(3, &PingResult::PortUnreachable { from }),
        bare(3, JsonStatus::PortUnreachable, from)
    );
    assert_eq!(
        ping_result_to_json(3, &PingResult::SourceRouteFailed { from }),
        bare(3, JsonStatus::SourceRouteFailed, from)
    );
    assert_eq!(
        ping_result_to_json(3, &PingResult::AdministrativelyProhibited { from }),
        bare(3, JsonStatus::AdministrativelyProhibited, from)
    );
    assert_eq!(
        ping_result_to_json(3, &PingResult::ParameterProblem { from }),
        bare(3, JsonStatus::ParameterProblem, from)
    );
    assert_eq!(ping_result_to_json(4, &PingResult::NetworkDown), bare(4, JsonStatus::NetworkDown, None));
    assert_eq!(ping_result_to_json(4, &PingResult::PermissionDenied), bare(4, JsonStatus::PermissionDenied, None));
}

#[test]
fn detailed_probe_entries() {
    let rtt = Duration::from_millis(9);
    let entry = ping_result_to_json(5, &PingResult::TimeExceeded { from: Some(1), rtt: Some(rtt) });
    assert_eq!(entry.status, JsonStatus::TimeExceeded);
    assert_eq!(entry.rtt, Some(rtt));
    assert_eq!(entry.from, Some(1));
    let entry = ping_result_to_json(6, &PingResult::FragmentationNeeded { from: None, mtu: Some(1280) });
    assert_eq!(entry.status, JsonStatus::FragmentationNeeded);
    assert_eq!(entry.mtu, Some(1280));
    let entry = ping_result_to_json(7, &PingResult::IcmpError { from: Some(2), icmp_type: 5, icmp_code: 1 });
    assert_eq!(entry.icmp_type, Some(5));
    assert_eq!(entry.icmp_code, Some(1));
    assert_eq!(entry.from, Some(2));
    let entry = ping_result_to_json(8, &PingResult::LocalError("no buffer".to_string()));
    assert_eq!(entry.status, JsonStatus::LocalError);
    assert_eq!(entry.error, Some("no buffer".to_string()));
}

#[test]
fn session_output() {
    let mut stats = PingStats::new();
    stats.record_probe(true, &PingResult::NoResponse);
    let probes = vec![ping_result_to_json(1, &PingResult::NoResponse)];
    let output = ping_json_output("google.com".to_string(), 0x8efa_8d66, &stats, probes);
    assert_eq!(output.schema_version, 1);
    assert_eq!(output.mode, "ping");
    assert_eq!(output.target, "google.com");
    assert_eq!(output.address, 0x8efa_8d66);
    assert_eq!(output.transmitted, 1);
    assert_eq!(output.received, 0);
    assert_eq!(output.probes.len(), 1);
}
