use vstd::prelude::*;

verus! {

/// ICMP message type of an Echo Reply.
pub const ICMP_ECHO_REPLY: u8 = 0;

/// ICMP message type of an Echo Request.
pub const ICMP_ECHO_REQUEST: u8 = 8;

/// Size of the ICMP Echo header: type, code, checksum, identifier, sequence.
pub const ICMP_HEADER_SIZE: usize = 8;

/// Payload size used when none is requested.
pub const DEFAULT_PAYLOAD_SIZE: usize = 56;

/// Largest payload that fits in one IPv4 datagram with an ICMP header.
pub const MAX_PAYLOAD_SIZE: usize = 65507;

/// Reply timeout of the ping and route modes.
pub const DEFAULT_TIMEOUT_MILLISECONDS: u64 = 2000;

/// Delay between two requests of the ping mode.
pub const DEFAULT_INTERVAL_MILLISECONDS: u64 = 1000;

/// Reply timeout of the sweep mode.
pub const DEFAULT_SWEEP_TIMEOUT_MILLISECONDS: u64 = 1000;

/// Delay between two requests of the sweep mode.
pub const DEFAULT_SWEEP_INTERVAL_MILLISECONDS: u64 = 10;

/// Largest number of sweep probes awaiting a reply at once.
pub const DEFAULT_SWEEP_CONCURRENCY: usize = 64;

} // verus!
