use std::time::{Duration, Instant};

use vstd::prelude::*;

use crate::types::{PingResult, PingStats, RouteHop};

verus! {

/// Reads the monotonic clock with `std::time::Instant::now`; nothing is
/// known of the reading.
#[verifier::external_body]
fn instant_now() -> (now: Instant) {
    Instant::now()
}

/// Hops a reply travelled, assuming the sender started from the nearest
/// common initial TTL at or above `ttl`: 64, 128 or 255.
pub open spec fn hops_estimate(ttl: u8) -> u8 {
    if ttl <= 64 {
        (64 - ttl) as u8
    } else if ttl <= 128 {
        (128 - ttl) as u8
    } else {
        (255 - ttl) as u8
    }
}

/// Smallest value of a non-empty sequence.
pub open spec fn seq_min(s: Seq<u8>) -> u8
    decreases s.len(),
{
    if s.len() <= 1 {
        s[0]
    } else {
        let m = seq_min(s.drop_last());
        if s.last() < m {
            s.last()
        } else {
            m
        }
    }
}

/// Largest value of a non-empty sequence.
pub open spec fn seq_max(s: Seq<u8>) -> u8
    decreases s.len(),
{
    if s.len() <= 1 {
        s[0]
    } else {
        let m = seq_max(s.drop_last());
        if s.last() > m {
            s.last()
        } else {
            m
        }
    }
}

/// Sum of a sequence.
pub open spec fn seq_sum(s: Seq<u8>) -> nat
    decreases s.len(),
{
    if s.len() == 0 {
        0
    } else {
        seq_sum(s.drop_last()) + s.last() as nat
    }
}

/// The mean of a non-empty sequence rounded to the nearest integer, halves
/// rounded up.
pub open spec fn rounded_mean(s: Seq<u8>) -> nat {
    (2 * seq_sum(s) + s.len()) / (2 * s.len())
}

/// Summary of the TTLs received in a ping session.
#[derive(Debug, Clone, Copy, PartialEq)]
pub struct TtlSummary {
    pub min: u8,
    pub max: u8,
    /// The mean TTL rounded to the nearest integer.
    pub representative: u8,
    /// The hop estimate of the representative TTL.
    pub hops: u8,
}

/// Estimates the number of hops a reply travelled from its received TTL.
pub fn estimate_hops(ttl: u8) -> (hops: u8)
    ensures
        hops == hops_estimate(ttl),
{
    let assumed_initial_ttl: u8 = if ttl <= 64 {
        64
    } else if ttl <= 128 {
        128
    } else {
        255
    };
    assumed_initial_ttl - ttl
}

/// Law: the estimate and the TTL add up to one of the common initial TTLs,
/// and no smaller common initial TTL could have produced the TTL.
pub proof fn lemma_estimate_hops_initial_ttl(ttl: u8)
    ensures
        ({
            let total = ttl + hops_estimate(ttl);
            &&& total == 64 || total == 128 || total == 255
            &&& total == 128 ==> ttl > 64
            &&& total == 255 ==> ttl > 128
        }),
{
}

impl PingStats {
    /// Fresh statistics of a session starting now, at a reading of the
    /// monotonic clock taken during the call.
    pub fn new() -> (stats: Self)
        ensures
            stats.transmitted == 0,
            stats.received == 0,
            stats.errors == 0,
            stats.rtts@ == Seq::<Duration>::empty(),
            stats.ttls@ == Seq::<u8>::empty(),
    {
        PingStats::with_start(instant_now())
    }

    /// Fresh statistics of a session that started at the clock reading
    /// `started`.
    pub fn with_start(started: Instant) -> (stats: Self)
        ensures
            stats.transmitted == 0,
            stats.received == 0,
            stats.errors == 0,
            stats.rtts@ == Seq::<Duration>::empty(),
            stats.ttls@ == Seq::<u8>::empty(),
            stats.started == started,
    {
        PingStats { transmitted: 0, received: 0, errors: 0, rtts: Vec::new(), ttls: Vec::new(), started }
    }

    /// Records an Echo Reply with its round-trip time and, when known, its TTL.
    pub fn record_reply(&mut self, rtt: Duration, ttl: Option<u8>)
        requires
            old(self).received < u32::MAX,
        ensures
            final(self).received == old(self).received + 1,
            final(self).rtts@ == old(self).rtts@.push(rtt),
            final(self).ttls@ == match ttl {
                Some(t) => old(self).ttls@.push(t),
                None => old(self).ttls@,
            },
            final(self).transmitted == old(self).transmitted,
            final(self).errors == old(self).errors,
            final(self).started == old(self).started,
    {
        self.received = self.received + 1;
        self.rtts.push(rtt);
        if let Some(ttl) = ttl {
            self.ttls.push(ttl);
        }
    }

    /// Records one probe: whether its request was transmitted, then its
    /// outcome. A reply is recorded with its round-trip time and TTL, no
    /// response counts for nothing, and any other outcome counts as an error.
    pub fn record_probe(&mut self, transmitted: bool, result: &PingResult)
        requires
            old(self).transmitted < u32::MAX,
            old(self).received < u32::MAX,
            old(self).errors < u32::MAX,
        ensures
            final(self).transmitted == old(self).transmitted + if transmitted { 1int } else { 0 },
            final(self).started == old(self).started,
            match *result {
                PingResult::Alive { rtt, ttl } => {
                    &&& final(self).received == old(self).received + 1
                    &&& final(self).errors == old(self).errors
                    &&& final(self).rtts@ == old(self).rtts@.push(rtt)
                    &&& final(self).ttls@ == match ttl {
                        Some(t) => old(self).ttls@.push(t),
                        None => old(self).ttls@,
                    }
                },
                PingResult::NoResponse => {
                    &&& final(self).received == old(self).received
                    &&& final(self).errors == old(self).errors
                    &&& final(self).rtts@ == old(self).rtts@
                    &&& final(self).ttls@ == old(self).ttls@
                },
                _ => {
                    &&& final(self).received == old(self).received
                    &&& final(self).errors == old(self).errors + 1
                    &&& final(self).rtts@ == old(self).rtts@
                    &&& final(self).ttls@ == old(self).ttls@
                },
            },
    {
        if transmitted {
            self.transmitted = self.transmitted + 1;
        }
        match result {
            PingResult::Alive { rtt, ttl } => {
                self.record_reply(*rtt, *ttl);
            },
            PingResult::NoResponse => {},
            _ => {
                self.errors = self.errors + 1;
            },
        }
    }

    /// Requests that received no reply; zero when more replies than
    /// requests were counted.
    pub fn lost(&self) -> (lost: u32)
        ensures
            lost == if self.transmitted >= self.received {
                self.transmitted - self.received
            } else {
                0
            },
    {
        self.transmitted.saturating_sub(self.received)
    }

    /// Smallest, largest and rounded mean TTL of the replies, with the hop
    /// estimate of that mean; `None` when no reply carried a TTL.
    pub fn ttl_summary(&self) -> (summary: Option<TtlSummary>)
        ensures
            self.ttls@.len() == 0 ==> summary is None,
            self.ttls@.len() > 0 ==> summary == Some(
                TtlSummary {
                    min: seq_min(self.ttls@),
                    max: seq_max(self.ttls@),
                    representative: rounded_mean(self.ttls@) as u8,
                    hops: hops_estimate(rounded_mean(self.ttls@) as u8),
                },
            ),
            summary matches Some(s) ==> s.min <= s.representative <= s.max,
    {
        let n = self.ttls.len();
        if n == 0 {
            return None;
        }
        let mut min: u8 = self.ttls[0];
        let mut max: u8 = self.ttls[0];
        let mut sum: u128 = self.ttls[0] as u128;
        let mut i: usize = 1;
        assert(self.ttls@.take(1).drop_last() =~= Seq::<u8>::empty());
        assert(self.ttls@.take(1).last() == self.ttls@[0]);
        assert(seq_sum(self.ttls@.take(1).drop_last()) == 0);
        assert(seq_sum(self.ttls@.take(1)) == self.ttls@[0] as nat);
        while i < n
            invariant
                n == self.ttls@.len(),
                1 <= i <= n,
                min == seq_min(self.ttls@.take(i as int)),
                max == seq_max(self.ttls@.take(i as int)),
                sum == seq_sum(self.ttls@.take(i as int)),
                sum <= 255 * i,
                min as nat * i <= sum <= max as nat * i,
            decreases n - i,
        {
            let t = self.ttls[i];
            let ghost old_min = min as nat;
            let ghost old_max = max as nat;
            let ghost old_sum = sum as nat;
            assert(self.ttls@.take(i + 1).drop_last() =~= self.ttls@.take(i as int));
            if t < min {
                min = t;
            }
            if t > max {
                max = t;
            }
            sum = sum + t as u128;
            i = i + 1;
            assert(min as nat * i <= sum <= max as nat * i) by (nonlinear_arith)
                requires
                    old_min * (i - 1) <= old_sum <= old_max * (i - 1),
                    sum == old_sum + t,
                    min <= old_min,
                    old_max <= max,
                    min <= t <= max,
                    i >= 1,
            {
            }
        }
        assert(self.ttls@.take(n as int) =~= self.ttls@);
        let len = n as u128;
        let mean = (2 * sum + len) / (2 * len);
        assert(min as nat <= mean <= max as nat) by (nonlinear_arith)
            requires
                mean == (2 * sum + len) / (2 * len),
                min as nat * len <= sum <= max as nat * len,
                len > 0,
        {
        }
        let representative = mean as u8;
        Some(TtlSummary { min, max, representative, hops: estimate_hops(representative) })
    }
}

/// Whether a probe outcome carries a round-trip time: a "time exceeded"
/// error with its time, or an Echo Reply.
pub open spec fn probe_responded(result: PingResult) -> bool {
    match result {
        PingResult::TimeExceeded { rtt, .. } => rtt is Some,
        PingResult::Alive { .. } => true,
        _ => false,
    }
}

/// How a hop record changes when it records the outcome of one probe sent
/// towards `target`. The hop number, hostname and probe count are kept. A
/// "time exceeded" error from a router names the hop's responder if none is
/// known yet, marks several responders if another one was known, and adds
/// its time when it has one. An Echo Reply does the same with `target` as
/// the responder, always adds its time and marks the destination reached.
/// Any other outcome changes nothing.
pub open spec fn probe_recorded(before: RouteHop, after: RouteHop, result: PingResult, target: u32) -> bool {
    &&& after.hop == before.hop
    &&& after.hostname == before.hostname
    &&& after.probes_sent == before.probes_sent
    &&& match result {
        PingResult::TimeExceeded { from, rtt } => {
            &&& after.address == match (from, before.address) {
                (Some(a), None) => Some(a),
                _ => before.address,
            }
            &&& after.multiple_responders == (before.multiple_responders || match (from, before.address) {
                (Some(a), Some(e)) => a != e,
                _ => false,
            })
            &&& after.rtts@ == match rtt {
                Some(t) => before.rtts@.push(t),
                None => before.rtts@,
            }
            &&& after.reached_destination == before.reached_destination
        },
        PingResult::Alive { rtt, .. } => {
            &&& after.address == match before.address {
                Some(e) => Some(e),
                None => Some(target),
            }
            &&& after.multiple_responders == (before.multiple_responders || match before.address {
                Some(e) => e != target,
                None => false,
            })
            &&& after.rtts@ == before.rtts@.push(rtt)
            &&& after.reached_destination
        },
        _ => {
            &&& after.address == before.address
            &&& after.multiple_responders == before.multiple_responders
            &&& after.rtts@ == before.rtts@
            &&& after.reached_destination == before.reached_destination
        },
    }
}

/// Law: a hop's responder is the first address that answered it, a router
/// naming itself in a "time exceeded" error or `target` sending a reply.
/// The hop is marked as having several responders exactly when it already
/// was, or when an answer comes from an address other than the responder
/// already recorded; an answer from that same address changes nothing of
/// either.
pub proof fn lemma_probe_recorded_responders(before: RouteHop, after: RouteHop, result: PingResult, target: u32)
    requires
        probe_recorded(before, after, result, target),
    ensures
        ({
            let answered_by: Option<u32> = match result {
                PingResult::TimeExceeded { from, .. } => from,
                PingResult::Alive { .. } => Some(target),
                _ => None,
            };
            &&& answered_by is None ==> after.address == before.address && after.multiple_responders
                == before.multiple_responders
            &&& answered_by matches Some(a) ==> match before.address {
                None => after.address == Some(a) && after.multiple_responders == before.multiple_responders,
                Some(e) => after.address == Some(e) && after.multiple_responders == (before.multiple_responders
                    || a != e),
            }
        }),
{
}

/// Recording a probe outcome keeps the hop's number, and the hop counts as
/// reaching the destination exactly when it already did or the outcome is an
/// Echo Reply.
pub proof fn lemma_probe_recorded_destination(before: RouteHop, after: RouteHop, result: PingResult, target: u32)
    requires
        probe_recorded(before, after, result, target),
    ensures
        after.hop == before.hop,
        after.reached_destination == (before.reached_destination || result is Alive),
{
}

impl RouteHop {
    /// A hop with nothing observed yet.
    pub fn new(hop: u8) -> (route_hop: Self)
        ensures
            route_hop.hop == hop,
            route_hop.address is None,
            route_hop.hostname is None,
            route_hop.rtts@ == Seq::<Duration>::empty(),
            route_hop.probes_sent == 0,
            !route_hop.reached_destination,
            !route_hop.multiple_responders,
    {
        RouteHop {
            hop,
            address: None,
            hostname: None,
            rtts: Vec::new(),
            probes_sent: 0,
            reached_destination: false,
            multiple_responders: false,
        }
    }

    /// Number of probes at this hop that were answered with a time.
    pub fn responses(&self) -> (count: usize)
        ensures
            count == self.rtts@.len(),
    {
        self.rtts.len()
    }

    /// Number of probes at this hop that were not answered with a time.
    pub fn lost_responses(&self) -> (lost: u32)
        requires
            self.rtts@.len() <= self.probes_sent,
        ensures
            lost == self.probes_sent - self.rtts@.len(),
    {
        self.probes_sent - self.rtts.len() as u32
    }

    /// Records the outcome of a probe sent with this hop's TTL towards
    /// `target`: a "time exceeded" error names a router of this hop, a reply
    /// means `target` itself was reached. Returns whether the outcome
    /// carried a round-trip time.
    pub fn record_probe_result(&mut self, result: PingResult, target: u32) -> (responded: bool)
        ensures
            probe_recorded(*old(self), *final(self), result, target),
            responded == probe_responded(result),
    {
        match result {
            PingResult::TimeExceeded { from, rtt } => {
                if let Some(address) = from {
                    match self.address {
                        Some(existing) => {
                            if existing != address {
                                self.multiple_responders = true;
                            }
                        },
                        None => {
                            self.address = Some(address);
                        },
                    }
                }
                if let Some(rtt) = rtt {
                    self.rtts.push(rtt);
                    true
                } else {
                    false
                }
            },
            PingResult::Alive { rtt, ttl: _ } => {
                if let Some(existing) = self.address {
                    if existing != target {
                        self.multiple_responders = true;
                    }
                } else {
                    self.address = Some(target);
                }
                self.rtts.push(rtt);
                self.reached_destination = true;
                true
            },
            _ => false,
        }
    }
}

} // verus!
