use std::time::Duration;

use vstd::prelude::*;

use crate::constants::{ICMP_ECHO_REPLY, ICMP_HEADER_SIZE};
use crate::packet::{be16, echo_request, echo_sequence, lemma_echo_request_sequence};
use crate::types::{PingResult, QueuedIcmpError, SweepEvent};

verus! {

/// The operating system's error numbers that a probe failure is told apart by.
#[derive(Debug, Clone, Copy, PartialEq)]
pub struct ErrnoCodes {
    pub network_unreachable: i32,
    pub host_unreachable: i32,
    pub host_down: i32,
    pub network_down: i32,
    pub access_denied: i32,
    pub not_permitted: i32,
}

impl ErrnoCodes {
    /// The six error numbers are positive and pairwise different.
    pub open spec fn distinct(&self) -> bool {
        let v = seq![
            self.network_unreachable,
            self.host_unreachable,
            self.host_down,
            self.network_down,
            self.access_denied,
            self.not_permitted,
        ];
        &&& forall|i: int| 0 <= i < 6 ==> v[i] > 0
        &&& forall|i: int, j: int| 0 <= i < j < 6 ==> v[i] != v[j]
    }

    /// The error numbers of the platform the program runs on, read from
    /// `libc`'s `ENETUNREACH`, `EHOSTUNREACH`, `EHOSTDOWN`, `ENETDOWN`,
    /// `EACCES` and `EPERM`. Their values differ between platforms and are
    /// not stated; on every platform they are positive and pairwise
    /// different, as any error numbers are.
    #[verifier::external_body]
    pub(crate) fn platform() -> (codes: ErrnoCodes)
        ensures
            codes.distinct(),
    {
        ErrnoCodes {
            network_unreachable: libc::ENETUNREACH,
            host_unreachable: libc::EHOSTUNREACH,
            host_down: libc::EHOSTDOWN,
            network_down: libc::ENETDOWN,
            access_denied: libc::EACCES,
            not_permitted: libc::EPERM,
        }
    }
}

/// What an ICMP error of the given type and code reported by `from` means;
/// `info` is the next-hop MTU of a "fragmentation needed" error.
pub open spec fn reported_error_result(icmp_type: u8, icmp_code: u8, from: Option<u32>, info: u32) -> PingResult {
    if icmp_type == 3 && icmp_code == 0 {
        PingResult::NetworkUnreachable { from }
    } else if icmp_type == 3 && icmp_code == 1 {
        PingResult::HostUnreachable { from }
    } else if icmp_type == 3 && icmp_code == 2 {
        PingResult::ProtocolUnreachable { from }
    } else if icmp_type == 3 && icmp_code == 3 {
        PingResult::PortUnreachable { from }
    } else if icmp_type == 3 && icmp_code == 4 {
        PingResult::FragmentationNeeded {
            from,
            mtu: if info > 0 {
                Some(info)
            } else {
                None
            },
        }
    } else if icmp_type == 3 && icmp_code == 5 {
        PingResult::SourceRouteFailed { from }
    } else if icmp_type == 3 && (icmp_code == 9 || icmp_code == 10 || icmp_code == 13) {
        PingResult::AdministrativelyProhibited { from }
    } else if icmp_type == 11 && (icmp_code == 0 || icmp_code == 1) {
        PingResult::TimeExceeded { from, rtt: None }
    } else if icmp_type == 12 {
        PingResult::ParameterProblem { from }
    } else {
        PingResult::IcmpError { from, icmp_type, icmp_code }
    }
}

/// What a local socket error with OS error number `code` and text
/// `message` means.
pub open spec fn os_error_result(codes: ErrnoCodes, code: Option<i32>, message: String) -> PingResult {
    match code {
        Some(c) => if c == codes.network_unreachable {
            PingResult::NetworkUnreachable { from: None }
        } else if c == codes.host_unreachable || c == codes.host_down {
            PingResult::HostUnreachable { from: None }
        } else if c == codes.network_down {
            PingResult::NetworkDown
        } else if c == codes.access_denied || c == codes.not_permitted {
            PingResult::PermissionDenied
        } else {
            PingResult::LocalError(message)
        },
        None => PingResult::LocalError(message),
    }
}

/// Classifies an ICMP error by its type and code (RFC 792).
pub fn classify_icmp_error(icmp_type: u8, icmp_code: u8, from: Option<u32>, info: u32) -> (result:
    PingResult)
    ensures
        result == reported_error_result(icmp_type, icmp_code, from, info),
{
    if icmp_type == 3 {
        if icmp_code == 0 {
            return PingResult::NetworkUnreachable { from };
        }
        if icmp_code == 1 {
            return PingResult::HostUnreachable { from };
        }
        if icmp_code == 2 {
            return PingResult::ProtocolUnreachable { from };
        }
        if icmp_code == 3 {
            return PingResult::PortUnreachable { from };
        }
        if icmp_code == 4 {
            return PingResult::FragmentationNeeded {
                from,
                mtu: if info > 0 {
                    Some(info)
                } else {
                    None
                },
            };
        }
        if icmp_code == 5 {
            return PingResult::SourceRouteFailed { from };
        }
        if icmp_code == 9 || icmp_code == 10 || icmp_code == 13 {
            return PingResult::AdministrativelyProhibited { from };
        }
    }
    if icmp_type == 11 && (icmp_code == 0 || icmp_code == 1) {
        return PingResult::TimeExceeded { from, rtt: None };
    }
    if icmp_type == 12 {
        return PingResult::ParameterProblem { from };
    }
    PingResult::IcmpError { from, icmp_type, icmp_code }
}

/// Law: with the platform's distinct error numbers, an unreachable network
/// classifies as such; an unreachable or down host as an unreachable host
/// (with no reporting router); a down network as such; a refused
/// permission (`EACCES` or `EPERM`) as denied; and any other error, or one
/// without an OS error number, as a local error carrying its message.
pub proof fn lemma_os_error_classes(codes: ErrnoCodes, code: Option<i32>, message: String)
    requires
        codes.distinct(),
    ensures
        code == Some(codes.network_unreachable) ==> os_error_result(codes, code, message)
            == (PingResult::NetworkUnreachable { from: None }),
        code == Some(codes.host_unreachable) ==> os_error_result(codes, code, message)
            == (PingResult::HostUnreachable { from: None }),
        code == Some(codes.host_down) ==> os_error_result(codes, code, message)
            == (PingResult::HostUnreachable { from: None }),
        code == Some(codes.network_down) ==> os_error_result(codes, code, message) == PingResult::NetworkDown,
        code == Some(codes.access_denied) ==> os_error_result(codes, code, message)
            == PingResult::PermissionDenied,
        code == Some(codes.not_permitted) ==> os_error_result(codes, code, message)
            == PingResult::PermissionDenied,
        (match code {
            Some(c) => c != codes.network_unreachable && c != codes.host_unreachable && c != codes.host_down
                && c != codes.network_down && c != codes.access_denied && c != codes.not_permitted,
            None => true,
        }) ==> os_error_result(codes, code, message) == PingResult::LocalError(message),
{
    let v = seq![
        codes.network_unreachable,
        codes.host_unreachable,
        codes.host_down,
        codes.network_down,
        codes.access_denied,
        codes.not_permitted,
    ];
    assert(v[0] != v[1] && v[0] != v[2] && v[0] != v[3] && v[0] != v[4] && v[0] != v[5]);
    assert(v[1] != v[3] && v[1] != v[4] && v[1] != v[5] && v[2] != v[3] && v[2] != v[4] && v[2] != v[5]);
    assert(v[3] != v[4] && v[3] != v[5]);
}

/// Classifies a local socket error by its OS error number.
pub fn classify_os_error(codes: &ErrnoCodes, code: Option<i32>, message: String) -> (result: PingResult)
    ensures
        result == os_error_result(*codes, code, message),
{
    match code {
        Some(c) => {
            if c == codes.network_unreachable {
                PingResult::NetworkUnreachable { from: None }
            } else if c == codes.host_unreachable || c == codes.host_down {
                PingResult::HostUnreachable { from: None }
            } else if c == codes.network_down {
                PingResult::NetworkDown
            } else if c == codes.access_denied || c == codes.not_permitted {
                PingResult::PermissionDenied
            } else {
                PingResult::LocalError(message)
            }
        },
        None => PingResult::LocalError(message),
    }
}

/// Reads the OS error number of an I/O error with `std::io::Error::raw_os_error`.
#[verifier::external_body]
fn raw_os_error(error: &std::io::Error) -> (code: Option<i32>) {
    error.raw_os_error()
}

/// Writes an I/O error's message with its `Display` implementation.
#[verifier::external_body]
fn io_error_message(error: &std::io::Error) -> (message: String) {
    error.to_string()
}

/// Classifies the I/O error of a failed send or receive: unreachable
/// network or host, network down and permission errors are told apart by
/// their OS error number; any other error is a local error carrying the
/// error's message.
pub fn classify_network_error(error: std::io::Error) -> (result: PingResult)
    ensures
        exists|codes: ErrnoCodes, code: Option<i32>, message: String|
            codes.distinct() && result == #[trigger] os_error_result(codes, code, message),
{
    let codes = ErrnoCodes::platform();
    let code = raw_os_error(&error);
    let message = io_error_message(&error);
    classify_os_error(&codes, code, message)
}

/// A received datagram answers the probe with `sequence` sent to `target`:
/// it holds a full ICMP header, comes from `target`, is an Echo Reply of
/// code 0, and carries the same sequence number.
pub open spec fn is_matching_reply(packet: Seq<u8>, source: u32, target: u32, sequence: u16) -> bool {
    &&& packet.len() >= 8
    &&& source == target
    &&& packet[0] == ICMP_ECHO_REPLY
    &&& packet[1] == 0
    &&& (packet[6] as nat) * 256 + (packet[7] as nat) == sequence as nat
}

/// Decides whether a datagram received while waiting for a reply is that reply.
pub fn is_expected_reply(packet: &[u8], source: u32, target: u32, sequence: u16) -> (matches: bool)
    ensures
        matches == is_matching_reply(packet@, source, target, sequence),
{
    if packet.len() < ICMP_HEADER_SIZE {
        return false;
    }
    if source != target {
        return false;
    }
    if packet[0] != ICMP_ECHO_REPLY || packet[1] != 0 {
        return false;
    }
    echo_sequence(packet) == sequence
}

/// The ICMP error read from the error queue, for the request whose header
/// (at least 8 bytes) was returned with it; `error_type` and `error_code`
/// are the ICMP type and code of the error.
pub fn queued_error(packet: &[u8], error_type: u8, error_code: u8, from: Option<u32>, info: u32) -> (queued:
    QueuedIcmpError)
    requires
        packet@.len() >= ICMP_HEADER_SIZE,
    ensures
        queued.sequence == be16(packet@[6], packet@[7]),
        queued.result == reported_error_result(error_type, error_code, from, info),
{
    let sequence = echo_sequence(packet);
    let result = classify_icmp_error(error_type, error_code, from, info);
    QueuedIcmpError { sequence, result }
}

/// What a queued ICMP error means for the probe with `sequence`: nothing
/// when it belongs to another probe, otherwise its result, a "time
/// exceeded" error taking the time `elapsed` since the probe was sent.
pub fn queued_error_outcome(queued: QueuedIcmpError, sequence: u16, elapsed: Duration) -> (outcome:
    Option<PingResult>)
    ensures
        queued.sequence != sequence ==> outcome is None,
        queued.sequence == sequence ==> outcome == Some(
            match queued.result {
                PingResult::TimeExceeded { from, rtt } => PingResult::TimeExceeded {
                    from,
                    rtt: Some(elapsed),
                },
                other => other,
            },
        ),
{
    if queued.sequence != sequence {
        return None;
    }
    match queued.result {
        PingResult::TimeExceeded { from, rtt: _ } => Some(PingResult::TimeExceeded { from, rtt: Some(elapsed) }),
        other => Some(other),
    }
}

/// What a failed receive means when no queued ICMP error explains it: no
/// response when the receive timed out or would block, otherwise the
/// classified socket error.
pub fn receive_failure_result(timed_out: bool, error: std::io::Error) -> (result: PingResult)
    ensures
        timed_out ==> result == PingResult::NoResponse,
        !timed_out ==> exists|codes: ErrnoCodes, code: Option<i32>, message: String|
            codes.distinct() && result == #[trigger] os_error_result(codes, code, message),
{
    if timed_out {
        PingResult::NoResponse
    } else {
        classify_network_error(error)
    }
}

/// The sweep event a datagram received during a sweep stands for: an Echo
/// Reply of code 0 with a full header gives its source and sequence number.
pub fn sweep_reply_event(packet: &[u8], source: u32) -> (event: Option<SweepEvent>)
    ensures
        event == if packet@.len() >= 8 && packet@[0] == ICMP_ECHO_REPLY && packet@[1] == 0 {
            Some(
                SweepEvent::Reply {
                    source,
                    sequence: ((packet@[6] as nat) * 256 + (packet@[7] as nat)) as u16,
                },
            )
        } else {
            None::<SweepEvent>
        },
{
    if packet.len() < ICMP_HEADER_SIZE {
        return None;
    }
    if packet[0] != ICMP_ECHO_REPLY || packet[1] != 0 {
        return None;
    }
    let sequence = echo_sequence(packet);
    Some(SweepEvent::Reply { source, sequence })
}

/// The TTL carried by a reply's control message, when it fits a `u8`.
pub fn received_ttl(raw: i32) -> (ttl: Option<u8>)
    ensures
        ttl == if 0 <= raw <= 255 {
            Some(raw as u8)
        } else {
            None::<u8>
        },
{
    if 0 <= raw && raw <= 255 {
        Some(raw as u8)
    } else {
        None
    }
}

/// Law: a reply built by the peer with the sequence number of a probe, from
/// the probed address, is recognised as that probe's reply, and only that
/// probe's.
pub proof fn lemma_reply_matches_only_its_probe(packet: Seq<u8>, source: u32, target: u32, s1: u16, s2: u16)
    requires
        is_matching_reply(packet, source, target, s1),
        is_matching_reply(packet, source, target, s2),
    ensures
        s1 == s2,
{
}

/// Law: the Echo Reply a host returns for a request built with `sequence`
/// (the request with its type set to Echo Reply and its checksum
/// recomputed), received from the probed address, is recognised as the
/// reply to that probe.
pub proof fn lemma_reply_to_request_matches(sequence: u16, payload_size: nat, target: u32, hi: u8, lo: u8)
    ensures
        is_matching_reply(
            echo_request(sequence, payload_size).update(0, ICMP_ECHO_REPLY).update(2, hi).update(3, lo),
            target,
            target,
            sequence,
        ),
{
    lemma_echo_request_sequence(sequence, payload_size);
}

} // verus!
