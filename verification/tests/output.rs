use std::time::Duration;

use ring::output::{
    describe_result, display_target, format_error_source, hop_address_text, hop_label, Piece, PieceText, Tint,
};
use ring::types::{PingResult, RouteHop};

fn text(piece: &Piece) -> String {
    match &piece.text {
        PieceText::Text(t) => t.clone(),
        PieceText::RoundTripTime(_) => "<rtt>".to_string(),
        PieceText::Timeout => "<timeout>".to_string(),
    }
}

fn line(pieces: &[Piece]) -> String {
    pieces.iter().map(text).collect::<Vec<_>>().join(" ")
}

#[test]
fn targets_written_as_addresses_show_the_address() {
    assert_eq!(display_target("192.168.1.1", 0xc0a8_0101), "192.168.1.1");
    assert_eq!(display_target("google.com", 0x8efa_8d66), "google.com (142.250.141.102)");
    assert_eq!(display_target("010.1.1.1", 0x0a01_0101), "010.1.1.1 (10.1.1.1)");
}

#[test]
fn error_sources() {
    assert_eq!(format_error_source(&Some(0x0a00_0001)), "from=10.0.0.1");
    assert_eq!(format_error_source(&None), "");
}

#[test]
fn alive_line_with_ttl() {
    let rtt = Duration::from_micros(842);
    let pieces = describe_result("192.168.1.1", 1, &PingResult::Alive { rtt, ttl: Some(64) });
    assert_eq!(line(&pieces), "192.168.1.1 ALIVE seq=1 ttl=64 hops≈0 <rtt>");
    assert_eq!(pieces[0].tint, Tint::Cyan);
    assert_eq!(pieces[1].tint, Tint::Green);
    assert_eq!(pieces[4].tint, Tint::Magenta);
    assert_eq!(pieces[5].text, PieceText::RoundTripTime(rtt));
    assert!(pieces.iter().all(|p| p.bold));
}

#[test]
fn alive_line_without_ttl() {
    let pieces = describe_result("h", 2, &PingResult::Alive { rtt: Duration::from_millis(1), ttl: None });
    assert_eq!(line(&pieces), "h ALIVE seq=2 <rtt>");
}

#[test]
fn no_response_line() {
    let pieces = describe_result("h", 65535, &PingResult::NoResponse);
    assert_eq!(line(&pieces), "h NO RESPONSE seq=65535 <timeout>");
    assert_eq!(pieces[3].tint, Tint::Yellow);
}

#[test]
fn unreachable_lines() {
    let from = Some(0xc0a8_0001);
    assert_eq!(
        line(&describe_result("h", 3, &PingResult::HostUnreachable { from })),
        "h HOST UNREACHABLE seq=3 from=192.168.0.1"
    );
    let pieces = describe_result("h", 3, &PingResult::NetworkUnreachable { from: None });
    assert_eq!(line(&pieces), "h NETWORK UNREACHABLE seq=3 ");
    assert_eq!(pieces[3].tint, Tint::Red);
    assert!(!pieces[3].bold);
    assert_eq!(
        line(&describe_result("h", 3, &PingResult::ProtocolUnreachable { from })),
        "h PROTOCOL UNREACHABLE seq=3 from=192.168.0.1"
    );
    assert_eq!(
        line(&describe_result("h", 3, &PingResult::PortUnreachable { from })),
        "h PORT UNREACHABLE seq=3 from=192.168.0.1"
    );
    assert_eq!(
        line(&describe_result("h", 3, &PingResult::SourceRouteFailed { from })),
        "h SOURCE ROUTE FAILED seq=3 from=192.168.0.1"
    );
}

#[test]
fn other_error_lines() {
    assert_eq!(
        line(&describe_result("h", 4, &PingResult::FragmentationNeeded { from: None, mtu: Some(1400) })),
        "h FRAGMENTATION NEEDED seq=4  mtu=1400"
    );
    assert_eq!(
        line(&describe_result("h", 4, &PingResult::FragmentationNeeded { from: None, mtu: None })),
        "h FRAGMENTATION NEEDED seq=4  mtu=unknown"
    );
    let pieces = describe_result("h", 5, &PingResult::AdministrativelyProhibited { from: Some(1) });
    assert_eq!(line(&pieces), "h ADMINISTRATIVELY PROHIBITED seq=5 from=0.0.0.1");
    assert!(pieces[3].bold);
    assert_eq!(
        line(&describe_result("h", 6, &PingResult::TimeExceeded { from: Some(2), rtt: None })),
        "h TTL EXCEEDED seq=6 from=0.0.0.2"
    );
    assert_eq!(
        line(&describe_result("h", 7, &PingResult::ParameterProblem { from: None })),
        "h PARAMETER PROBLEM seq=7 "
    );
    assert_eq!(line(&describe_result("h", 8, &PingResult::NetworkDown)), "h NETWORK DOWN seq=8");
    assert_eq!(line(&describe_result("h", 9, &PingResult::PermissionDenied)), "h PERMISSION DENIED seq=9");
    assert_eq!(
        line(&describe_result("h", 10, &PingResult::IcmpError { from: Some(3), icmp_type: 5, icmp_code: 1 })),
        "h ICMP ERROR seq=10 type=5 code=1 from=0.0.0.3"
    );
    assert_eq!(
        line(&describe_result("h", 11, &PingResult::LocalError("Message too long".to_string()))),
        "h LOCAL ERROR seq=11 (Message too long)"
    );
}

#[test]
fn hop_texts() {
    let mut hop = RouteHop::new(1);
    assert_eq!(hop_address_text(&hop), "*");
    hop.address = Some(0xc0a8_0101);
    assert_eq!(hop_address_text(&hop), "192.168.1.1");
    assert_eq!(hop_label(&hop), "192.168.1.1");
    hop.hostname = Some("router.lan".to_string());
    assert_eq!(hop_address_text(&hop), "router.lan (192.168.1.1)");
    hop.multiple_responders = true;
    assert_eq!(hop_label(&hop), "router.lan (192.168.1.1) +");
}
