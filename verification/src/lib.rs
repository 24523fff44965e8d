//! Verified core of the `ring` ICMP diagnostic utility: ICMP Echo packet
//! construction and checking, IPv4 subnet and sweep-range arithmetic,
//! probe-result classification, statistics and the decision logic of the
//! ping, route and sweep modes.
pub mod constants;
pub mod types;
pub mod packet;
pub mod subnet;
pub mod text;
pub mod interface;
pub mod errors;
pub mod stats;
pub mod json;
pub mod output;
pub mod sweep;
pub mod session;
