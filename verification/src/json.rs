use std::time::Duration;

use vstd::prelude::*;

use crate::types::{PingResult, PingStats};

verus! {

/// Status of one probe in the JSON report.
#[derive(Debug, Clone, Copy, PartialEq, Eq)]
pub enum JsonStatus {
    Alive,
    NoResponse,
    NetworkUnreachable,
    HostUnreachable,
    ProtocolUnreachable,
    PortUnreachable,
    FragmentationNeeded,
    SourceRouteFailed,
    AdministrativelyProhibited,
    TimeExceeded,
    ParameterProblem,
    NetworkDown,
    PermissionDenied,
    IcmpError,
    LocalError,
}

/// One probe of the JSON report. The round-trip time is kept as a
/// `Duration`; the report writes it in milliseconds.
#[derive(Debug, PartialEq)]
pub struct JsonPingProbe {
    pub sequence: u16,
    pub status: JsonStatus,
    pub rtt: Option<Duration>,
    pub ttl: Option<u8>,
    pub from: Option<u32>,
    pub mtu: Option<u32>,
    pub icmp_type: Option<u8>,
    pub icmp_code: Option<u8>,
    pub error: Option<String>,
}

/// The JSON report of a ping session.
#[derive(Debug, PartialEq)]
pub struct JsonPingOutput {
    pub schema_version: u32,
    pub mode: &'static str,
    pub target: String,
    pub address: u32,
    pub transmitted: u32,
    pub received: u32,
    pub probes: Vec<JsonPingProbe>,
}

/// A probe entry with only a status and, possibly, the reporting address.
pub open spec fn error_probe(sequence: u16, status: JsonStatus, from: Option<u32>) -> JsonPingProbe {
    JsonPingProbe {
        sequence,
        status,
        rtt: None,
        ttl: None,
        from,
        mtu: None,
        icmp_type: None,
        icmp_code: None,
        error: None,
    }
}

/// The JSON entry of a probe's outcome.
pub open spec fn probe_entry(sequence: u16, result: PingResult) -> JsonPingProbe {
    match result {
        PingResult::Alive { rtt, ttl } => JsonPingProbe {
            sequence,
            status: JsonStatus::Alive,
            rtt: Some(rtt),
            ttl,
            from: None,
            mtu: None,
            icmp_type: None,
            icmp_code: None,
            error: None,
        },
        PingResult::NoResponse => error_probe(sequence, JsonStatus::NoResponse, None),
        PingResult::NetworkUnreachable { from } => error_probe(sequence, JsonStatus::NetworkUnreachable, from),
        PingResult::HostUnreachable { from } => error_probe(sequence, JsonStatus::HostUnreachable, from),
        PingResult::ProtocolUnreachable { from } => error_probe(
            sequence,
            JsonStatus::ProtocolUnreachable,
            from,
        ),
        PingResult::PortUnreachable { from } => error_probe(sequence, JsonStatus::PortUnreachable, from),
        PingResult::SourceRouteFailed { from } => error_probe(sequence, JsonStatus::SourceRouteFailed, from),
        PingResult::AdministrativelyProhibited { from } => error_probe(
            sequence,
            JsonStatus::AdministrativelyProhibited,
            from,
        ),
        PingResult::ParameterProblem { from } => error_probe(sequence, JsonStatus::ParameterProblem, from),
        PingResult::TimeExceeded { from, rtt } => JsonPingProbe {
            sequence,
            status: JsonStatus::TimeExceeded,
            rtt,
            ttl: None,
            from,
            mtu: None,
            icmp_type: None,
            icmp_code: None,
            error: None,
        },
        PingResult::FragmentationNeeded { from, mtu } => JsonPingProbe {
            sequence,
            status: JsonStatus::FragmentationNeeded,
            rtt: None,
            ttl: None,
            from,
            mtu,
            icmp_type: None,
            icmp_code: None,
            error: None,
        },
        PingResult::NetworkDown => error_probe(sequence, JsonStatus::NetworkDown, None),
        PingResult::PermissionDenied => error_probe(sequence, JsonStatus::PermissionDenied, None),
        PingResult::IcmpError { from, icmp_type, icmp_code } => JsonPingProbe {
            sequence,
            status: JsonStatus::IcmpError,
            rtt: None,
            ttl: None,
            from,
            mtu: None,
            icmp_type: Some(icmp_type),
            icmp_code: Some(icmp_code),
            error: None,
        },
        PingResult::LocalError(message) => JsonPingProbe {
            sequence,
            status: JsonStatus::LocalError,
            rtt: None,
            ttl: None,
            from: None,
            mtu: None,
            icmp_type: None,
            icmp_code: None,
            error: Some(message),
        },
    }
}

/// Law: a probe's JSON entry carries the probe's sequence number and the
/// status of its outcome; the address that reported the outcome, whenever
/// the outcome names one; the round-trip time of a reply or of a timed
/// "time exceeded" error; the TTL of a reply; the MTU of a "fragmentation
/// needed" error; the ICMP type and code of an unclassified ICMP error; and
/// the message of a local error. Every other field is empty.
pub proof fn lemma_probe_entry_carries_outcome(sequence: u16, result: PingResult)
    ensures
        probe_entry(sequence, result).sequence == sequence,
        probe_entry(sequence, result).status == match result {
            PingResult::Alive { .. } => JsonStatus::Alive,
            PingResult::NoResponse => JsonStatus::NoResponse,
            PingResult::NetworkUnreachable { .. } => JsonStatus::NetworkUnreachable,
            PingResult::HostUnreachable { .. } => JsonStatus::HostUnreachable,
            PingResult::ProtocolUnreachable { .. } => JsonStatus::ProtocolUnreachable,
            PingResult::PortUnreachable { .. } => JsonStatus::PortUnreachable,
            PingResult::FragmentationNeeded { .. } => JsonStatus::FragmentationNeeded,
            PingResult::SourceRouteFailed { .. } => JsonStatus::SourceRouteFailed,
            PingResult::AdministrativelyProhibited { .. } => JsonStatus::AdministrativelyProhibited,
            PingResult::TimeExceeded { .. } => JsonStatus::TimeExceeded,
            PingResult::ParameterProblem { .. } => JsonStatus::ParameterProblem,
            PingResult::NetworkDown => JsonStatus::NetworkDown,
            PingResult::PermissionDenied => JsonStatus::PermissionDenied,
            PingResult::IcmpError { .. } => JsonStatus::IcmpError,
            PingResult::LocalError(_) => JsonStatus::LocalError,
        },
        probe_entry(sequence, result).from == match result {
            PingResult::NetworkUnreachable { from } => from,
            PingResult::HostUnreachable { from } => from,
            PingResult::ProtocolUnreachable { from } => from,
            PingResult::PortUnreachable { from } => from,
            PingResult::FragmentationNeeded { from, .. } => from,
            PingResult::SourceRouteFailed { from } => from,
            PingResult::AdministrativelyProhibited { from } => from,
            PingResult::TimeExceeded { from, .. } => from,
            PingResult::ParameterProblem { from } => from,
            PingResult::IcmpError { from, .. } => from,
            _ => None,
        },
        probe_entry(sequence, result).rtt == match result {
            PingResult::Alive { rtt, .. } => Some(rtt),
            PingResult::TimeExceeded { rtt, .. } => rtt,
            _ => None,
        },
        probe_entry(sequence, result).ttl == match result {
            PingResult::Alive { ttl, .. } => ttl,
            _ => None,
        },
        probe_entry(sequence, result).mtu == match result {
            PingResult::FragmentationNeeded { mtu, .. } => mtu,
            _ => None,
        },
        probe_entry(sequence, result).icmp_type == match result {
            PingResult::IcmpError { icmp_type, .. } => Some(icmp_type),
            _ => None,
        },
        probe_entry(sequence, result).icmp_code == match result {
            PingResult::IcmpError { icmp_code, .. } => Some(icmp_code),
            _ => None,
        },
        probe_entry(sequence, result).error == match result {
            PingResult::LocalError(message) => Some(message),
            _ => None,
        },
{
}

fn json_error_probe(sequence: u16, status: JsonStatus, from: Option<u32>) -> (probe: JsonPingProbe)
    ensures
        probe == error_probe(sequence, status, from),
{
    JsonPingProbe {
        sequence,
        status,
        rtt: None,
        ttl: None,
        from,
        mtu: None,
        icmp_type: None,
        icmp_code: None,
        error: None,
    }
}

/// The JSON entry of the outcome of the probe with `sequence`.
pub fn ping_result_to_json(sequence: u16, result: &PingResult) -> (probe: JsonPingProbe)
    ensures
        probe == probe_entry(sequence, *result),
{
    match result {
        PingResult::Alive { rtt, ttl } => JsonPingProbe {
            sequence,
            status: JsonStatus::Alive,
            rtt: Some(*rtt),
            ttl: *ttl,
            from: None,
            mtu: None,
            icmp_type: None,
            icmp_code: None,
            error: None,
        },
        PingResult::NoResponse => json_error_probe(sequence, JsonStatus::NoResponse, None),
        PingResult::NetworkUnreachable { from } => json_error_probe(
            sequence,
            JsonStatus::NetworkUnreachable,
            *from,
        ),
        PingResult::HostUnreachable { from } => json_error_probe(sequence, JsonStatus::HostUnreachable, *from),
        PingResult::ProtocolUnreachable { from } => json_error_probe(
            sequence,
            JsonStatus::ProtocolUnreachable,
            *from,
        ),
        PingResult::PortUnreachable { from } => json_error_probe(sequence, JsonStatus::PortUnreachable, *from),
        PingResult::SourceRouteFailed { from } => json_error_probe(
            sequence,
            JsonStatus::SourceRouteFailed,
            *from,
        ),
        PingResult::AdministrativelyProhibited { from } => json_error_probe(
            sequence,
            JsonStatus::AdministrativelyProhibited,
            *from,
        ),
        PingResult::ParameterProblem { from } => json_error_probe(
            sequence,
            JsonStatus::ParameterProblem,
            *from,
        ),
        PingResult::TimeExceeded { from, rtt } => JsonPingProbe {
            sequence,
            status: JsonStatus::TimeExceeded,
            rtt: *rtt,
            ttl: None,
            from: *from,
            mtu: None,
            icmp_type: None,
            icmp_code: None,
            error: None,
        },
        PingResult::FragmentationNeeded { from, mtu } => JsonPingProbe {
            sequence,
            status: JsonStatus::FragmentationNeeded,
            rtt: None,
            ttl: None,
            from: *from,
            mtu: *mtu,
            icmp_type: None,
            icmp_code: None,
            error: None,
        },
        PingResult::NetworkDown => json_error_probe(sequence, JsonStatus::NetworkDown, None),
        PingResult::PermissionDenied => json_error_probe(sequence, JsonStatus::PermissionDenied, None),
        PingResult::IcmpError { from, icmp_type, icmp_code } => JsonPingProbe {
            sequence,
            status: JsonStatus::IcmpError,
            rtt: None,
            ttl: None,
            from: *from,
            mtu: None,
            icmp_type: Some(*icmp_type),
            icmp_code: Some(*icmp_code),
            error: None,
        },
        PingResult::LocalError(message) => JsonPingProbe {
            sequence,
            status: JsonStatus::LocalError,
            rtt: None,
            ttl: None,
            from: None,
            mtu: None,
            icmp_type: None,
            icmp_code: None,
            error: Some(message.clone()),
        },
    }
}

/// The JSON report of a ping session against `target` (resolved to
/// `address`), at schema version 1, in mode "ping".
pub fn ping_json_output(target: String, address: u32, stats: &PingStats, probes: Vec<JsonPingProbe>) -> (output:
    JsonPingOutput)
    ensures
        output.schema_version == 1,
        output.mode@ == seq!['p', 'i', 'n', 'g'],
        output.target == target,
        output.address == address,
        output.transmitted == stats.transmitted,
        output.received == stats.received,
        output.probes == probes,
{
    let mode = "ping";
    proof {
        reveal_strlit("ping");
    }
    JsonPingOutput {
        schema_version: 1,
        mode,
        target,
        address,
        transmitted: stats.transmitted,
        received: stats.received,
        probes,
    }
}

/// Law: the status of a probe's JSON entry names the kind of its outcome,
/// and an entry carries a round-trip time only for a reply or a "time
/// exceeded" error that was timed.
pub proof fn lemma_probe_entry_status(sequence: u16, result: PingResult)
    ensures
        ({
            let e = probe_entry(sequence, result);
            &&& e.sequence == sequence
            &&& (e.status == JsonStatus::Alive <==> result is Alive)
            &&& (e.status == JsonStatus::NoResponse <==> result is NoResponse)
            &&& (e.status == JsonStatus::TimeExceeded <==> result is TimeExceeded)
            &&& (e.status == JsonStatus::LocalError <==> result is LocalError)
            &&& (e.rtt is Some <==> (result is Alive || (result matches PingResult::TimeExceeded {
                rtt,
                ..
            } && rtt is Some)))
        }),
{
}

} // verus!
