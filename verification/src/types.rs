use std::time::{Duration, Instant};

use vstd::prelude::*;

verus! {

/// The standard library's monotonic clock reading, carried through unread.
#[verifier::external_type_specification]
#[verifier::external_body]
pub struct ExInstant(std::time::Instant);

/// The standard library's I/O error, inspected only through its accessors.
#[verifier::external_type_specification]
#[verifier::external_body]
pub struct ExIoError(std::io::Error);

/// Outcome of one ICMP Echo probe. IPv4 addresses are held as their 32-bit
/// big-endian value (`a.b.c.d` is `a * 2^24 + b * 2^16 + c * 2^8 + d`).
#[derive(Debug, PartialEq)]
pub enum PingResult {
    Alive { rtt: Duration, ttl: Option<u8> },
    NoResponse,
    NetworkUnreachable { from: Option<u32> },
    HostUnreachable { from: Option<u32> },
    ProtocolUnreachable { from: Option<u32> },
    PortUnreachable { from: Option<u32> },
    FragmentationNeeded { from: Option<u32>, mtu: Option<u32> },
    SourceRouteFailed { from: Option<u32> },
    AdministrativelyProhibited { from: Option<u32> },
    TimeExceeded { from: Option<u32>, rtt: Option<Duration> },
    ParameterProblem { from: Option<u32> },
    NetworkDown,
    PermissionDenied,
    IcmpError { from: Option<u32>, icmp_type: u8, icmp_code: u8 },
    LocalError(String),
}

/// Counters and samples of a ping session.
#[derive(Debug)]
pub struct PingStats {
    pub transmitted: u32,
    pub received: u32,
    pub errors: u32,
    pub rtts: Vec<Duration>,
    pub ttls: Vec<u8>,
    pub started: Instant,
}

/// An ICMP error read from the socket's error queue, with the sequence
/// number of the request that caused it.
#[derive(Debug, PartialEq)]
pub struct QueuedIcmpError {
    pub sequence: u16,
    pub result: PingResult,
}

/// What was observed at one TTL while tracing a route.
#[derive(Debug, PartialEq)]
pub struct RouteHop {
    pub hop: u8,
    pub address: Option<u32>,
    pub hostname: Option<String>,
    pub rtts: Vec<Duration>,
    pub probes_sent: u32,
    pub reached_destination: bool,
    pub multiple_responders: bool,
}

/// A local IPv4 interface able to broadcast.
#[derive(Debug, Clone, PartialEq)]
pub struct Ipv4Interface {
    pub name: String,
    pub address: u32,
    pub network: u32,
    pub broadcast: u32,
    pub prefix_length: u8,
}

/// An inclusive range of IPv4 addresses to sweep, with the network it was
/// derived from when there is one.
#[derive(Debug, Clone, PartialEq)]
pub struct SweepRange {
    pub first: u32,
    pub last: u32,
    pub network: Option<u32>,
    pub prefix_length: Option<u8>,
    pub interface_name: Option<String>,
}

/// A sweep probe awaiting its reply; `sent_at` is a monotonic clock reading
/// in nanoseconds.
#[derive(Debug, Clone, Copy, PartialEq)]
pub struct SweepProbe {
    pub target: u32,
    pub sequence: u16,
    pub sent_at: u64,
}

/// An Echo Reply received during a sweep.
#[derive(Debug, Clone, Copy, PartialEq)]
pub enum SweepEvent {
    Reply { source: u32, sequence: u16 },
}

} // verus!
