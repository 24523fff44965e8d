use vstd::prelude::*;

use crate::constants::{
    DEFAULT_INTERVAL_MILLISECONDS, DEFAULT_SWEEP_INTERVAL_MILLISECONDS, DEFAULT_SWEEP_TIMEOUT_MILLISECONDS,
    DEFAULT_TIMEOUT_MILLISECONDS, MAX_PAYLOAD_SIZE,
};
use crate::types::{PingResult, PingStats, RouteHop};
use crate::stats::{probe_recorded, probe_responded};

verus! {

/// A command-line value outside its accepted range.
#[derive(Debug, Clone, Copy, PartialEq, Eq)]
pub enum OptionError {
    CountZero,
    TimeoutZero,
    IntervalZero,
    ConcurrencyZero,
    SizeTooLarge,
}

/// What `validate_options` reports: the first of the checks, in this order,
/// that fails.
pub open spec fn option_check(
    count: Option<u32>,
    timeout: Option<u64>,
    interval: Option<u64>,
    concurrency: usize,
    size: usize,
) -> Result<(), OptionError> {
    if count == Some(0u32) {
        Err(OptionError::CountZero)
    } else if timeout == Some(0u64) {
        Err(OptionError::TimeoutZero)
    } else if interval == Some(0u64) {
        Err(OptionError::IntervalZero)
    } else if concurrency == 0 {
        Err(OptionError::ConcurrencyZero)
    } else if size > MAX_PAYLOAD_SIZE {
        Err(OptionError::SizeTooLarge)
    } else {
        Ok(())
    }
}

/// Checks the general command-line values: a count, timeout and interval,
/// when given, must not be zero, the sweep concurrency must not be zero, and
/// the payload size must not exceed the largest ICMP payload.
pub fn validate_options(
    count: Option<u32>,
    timeout: Option<u64>,
    interval: Option<u64>,
    concurrency: usize,
    size: usize,
) -> (checked: Result<(), OptionError>)
    ensures
        checked == option_check(count, timeout, interval, concurrency, size),
{
    if count == Some(0u32) {
        return Err(OptionError::CountZero);
    }
    if timeout == Some(0u64) {
        return Err(OptionError::TimeoutZero);
    }
    if interval == Some(0u64) {
        return Err(OptionError::IntervalZero);
    }
    if concurrency == 0 {
        return Err(OptionError::ConcurrencyZero);
    }
    if size > MAX_PAYLOAD_SIZE {
        return Err(OptionError::SizeTooLarge);
    }
    Ok(())
}

/// The reply timeout in milliseconds: the requested one, else the default
/// of the mode.
pub fn effective_timeout(timeout: Option<u64>, sweep: bool) -> (milliseconds: u64)
    ensures
        milliseconds == match timeout {
            Some(t) => t,
            None => if sweep {
                DEFAULT_SWEEP_TIMEOUT_MILLISECONDS
            } else {
                DEFAULT_TIMEOUT_MILLISECONDS
            },
        },
{
    match timeout {
        Some(t) => t,
        None => if sweep {
            DEFAULT_SWEEP_TIMEOUT_MILLISECONDS
        } else {
            DEFAULT_TIMEOUT_MILLISECONDS
        },
    }
}

/// The delay between requests in milliseconds: the requested one, else the
/// default of the mode.
pub fn effective_interval(interval: Option<u64>, sweep: bool) -> (milliseconds: u64)
    ensures
        milliseconds == match interval {
            Some(i) => i,
            None => if sweep {
                DEFAULT_SWEEP_INTERVAL_MILLISECONDS
            } else {
                DEFAULT_INTERVAL_MILLISECONDS
            },
        },
{
    match interval {
        Some(i) => i,
        None => if sweep {
            DEFAULT_SWEEP_INTERVAL_MILLISECONDS
        } else {
            DEFAULT_INTERVAL_MILLISECONDS
        },
    }
}

/// What the program does.
#[derive(Debug, Clone, Copy, PartialEq, Eq)]
pub enum RunMode {
    Broadcast,
    Sweep,
    /// Route and ping need a target and none was given.
    MissingTarget,
    Route,
    Ping,
}

/// Picks the mode: broadcast, then sweep, which need no target; route and
/// ping need one.
pub fn select_mode(broadcast: bool, sweep: bool, route: bool, has_target: bool) -> (mode: RunMode)
    ensures
        mode == if broadcast {
            RunMode::Broadcast
        } else if sweep {
            RunMode::Sweep
        } else if !has_target {
            RunMode::MissingTarget
        } else if route {
            RunMode::Route
        } else {
            RunMode::Ping
        },
{
    if broadcast {
        RunMode::Broadcast
    } else if sweep {
        RunMode::Sweep
    } else if !has_target {
        RunMode::MissingTarget
    } else if route {
        RunMode::Route
    } else {
        RunMode::Ping
    }
}

/// Whether a ping session ends with statistics: in continuous mode or when
/// a count was given.
pub fn shows_statistics(continuous: bool, count_given: bool) -> (shown: bool)
    ensures
        shown == (continuous || count_given),
{
    continuous || count_given
}

/// Whether a ping session failed: no reply was received.
pub fn session_failed(stats: &PingStats) -> (failed: bool)
    ensures
        failed == (stats.received == 0),
{
    stats.received == 0
}

/// The progress of a ping session: how many probes were started and the
/// sequence number of the next one.
#[derive(Debug, Clone, Copy, PartialEq, Eq)]
pub struct PingLoop {
    pub requested_count: u32,
    pub continuous: bool,
    pub attempts: u32,
    pub sequence: u16,
}

impl PingLoop {
    /// The k-th probe (counting from one) carries sequence number k, modulo 2^16.
    pub open spec fn wf(&self) -> bool {
        self.sequence as int == (1 + self.attempts) % 65536
    }

    /// A session of `count` probes (one when no count is given), or an
    /// endless one when `continuous`.
    pub fn new(count: Option<u32>, continuous: bool) -> (session: Self)
        ensures
            session.wf(),
            session.requested_count == match count {
                Some(c) => c,
                None => 1,
            },
            session.continuous == continuous,
            session.attempts == 0,
            session.sequence == 1,
    {
        let requested_count = match count {
            Some(c) => c,
            None => 1,
        };
        PingLoop { requested_count, continuous, attempts: 0, sequence: 1 }
    }

    /// Whether another probe is due.
    pub fn wants_probe(&self) -> (due: bool)
        ensures
            due == (self.continuous || self.attempts < self.requested_count),
    {
        self.continuous || self.attempts < self.requested_count
    }

    /// Starts the next probe, which must be due, giving its sequence number.
    /// A session that is not continuous never starts more probes than it
    /// requested.
    pub fn begin_probe(&mut self) -> (sequence: u16)
        requires
            old(self).wf(),
            old(self).attempts < u32::MAX,
            old(self).continuous || old(self).attempts < old(self).requested_count,
        ensures
            !final(self).continuous ==> final(self).attempts <= final(self).requested_count,
            sequence == old(self).sequence,
            sequence as int == final(self).attempts % 65536,
            final(self).attempts == old(self).attempts + 1,
            final(self).sequence == old(self).sequence,
            final(self).requested_count == old(self).requested_count,
            final(self).continuous == old(self).continuous,
    {
        self.attempts = self.attempts + 1;
        self.sequence
    }

    /// Ends the current probe, moving to the next sequence number; tells
    /// whether another probe is due.
    pub fn end_probe(&mut self) -> (more: bool)
        requires
            old(self).sequence as int == old(self).attempts % 65536,
        ensures
            final(self).wf(),
            final(self).attempts == old(self).attempts,
            final(self).requested_count == old(self).requested_count,
            final(self).continuous == old(self).continuous,
            more == (final(self).continuous || final(self).attempts < final(self).requested_count),
    {
        self.sequence = self.sequence.wrapping_add(1);
        self.continuous || self.attempts < self.requested_count
    }
}

/// Probes per hop when tracing a route: the requested count, else three in
/// verbose mode and one otherwise.
pub fn route_probe_count(count: Option<u32>, verbose: bool) -> (probes: u32)
    ensures
        probes == match count {
            Some(c) => c,
            None => if verbose {
                3
            } else {
                1
            },
        },
{
    match count {
        Some(c) => c,
        None => if verbose {
            3
        } else {
            1
        },
    }
}

/// The progress of a route trace: the current hop number (zero before the
/// first), the next sequence number, and the totals of probes and timed
/// responses.
#[derive(Debug, Clone, Copy, PartialEq, Eq)]
pub struct RouteTrace {
    pub max_hops: u8,
    pub probes_per_hop: u32,
    pub hop: u8,
    pub sequence: u16,
    pub total_probes: u32,
    pub total_responses: u32,
}

/// What a route trace does after a hop's probes: go on to the next hop,
/// report the destination reached at `hops` hops, or give up at the hop
/// limit.
#[derive(Debug, Clone, Copy, PartialEq, Eq)]
pub enum RouteProgress {
    NextHop,
    Reached { hops: u8 },
    GaveUp,
}

impl RouteTrace {
    /// Counters are consistent: no more timed responses than probes, and the
    /// current hop within the limit.
    pub open spec fn wf(&self) -> bool {
        &&& self.total_responses <= self.total_probes
        &&& self.hop <= self.max_hops
    }

    /// A trace of at most `max_hops` hops with `probes_per_hop` probes each.
    pub fn new(max_hops: u8, probes_per_hop: u32) -> (trace: Self)
        ensures
            trace.wf(),
            trace.max_hops == max_hops,
            trace.probes_per_hop == probes_per_hop,
            trace.hop == 0,
            trace.sequence == 1,
            trace.total_probes == 0,
            trace.total_responses == 0,
    {
        RouteTrace { max_hops, probes_per_hop, hop: 0, sequence: 1, total_probes: 0, total_responses: 0 }
    }

    /// Moves to the next hop, numbered one more than the last, while the
    /// limit is not reached; the hop starts with nothing observed.
    pub fn next_hop(&mut self) -> (route_hop: Option<RouteHop>)
        requires
            old(self).wf(),
        ensures
            final(self).wf(),
            old(self).hop < old(self).max_hops ==> final(self).hop == old(self).hop + 1 && (route_hop matches Some(
                h,
            ) && h.hop == final(self).hop && h.address is None && h.hostname is None && h.rtts@.len() == 0
                && h.probes_sent == 0 && !h.reached_destination && !h.multiple_responders),
            old(self).hop >= old(self).max_hops ==> final(self).hop == old(self).hop && route_hop is None,
            final(self).max_hops == old(self).max_hops,
            final(self).probes_per_hop == old(self).probes_per_hop,
            final(self).sequence == old(self).sequence,
            final(self).total_probes == old(self).total_probes,
            final(self).total_responses == old(self).total_responses,
    {
        if self.hop < self.max_hops {
            self.hop = self.hop + 1;
            Some(RouteHop::new(self.hop))
        } else {
            None
        }
    }

    /// Starts a probe at `route_hop`, counting it, and gives its sequence
    /// number.
    pub fn begin_probe(&mut self, route_hop: &mut RouteHop) -> (sequence: u16)
        requires
            old(self).wf(),
            old(self).total_probes < u32::MAX,
            old(route_hop).probes_sent < u32::MAX,
            old(route_hop).rtts@.len() <= old(route_hop).probes_sent,
        ensures
            final(self).wf(),
            sequence == old(self).sequence,
            final(self).total_probes == old(self).total_probes + 1,
            final(self).total_responses < final(self).total_probes,
            final(route_hop).probes_sent == old(route_hop).probes_sent + 1,
            final(route_hop).rtts@.len() < final(route_hop).probes_sent,
            final(route_hop).rtts@ == old(route_hop).rtts@,
            final(route_hop).hop == old(route_hop).hop,
            final(route_hop).address == old(route_hop).address,
            final(route_hop).hostname == old(route_hop).hostname,
            final(route_hop).reached_destination == old(route_hop).reached_destination,
            final(route_hop).multiple_responders == old(route_hop).multiple_responders,
            final(self).hop == old(self).hop,
            final(self).max_hops == old(self).max_hops,
            final(self).probes_per_hop == old(self).probes_per_hop,
            final(self).sequence == old(self).sequence,
            final(self).total_responses == old(self).total_responses,
    {
        route_hop.probes_sent = route_hop.probes_sent + 1;
        self.total_probes = self.total_probes + 1;
        self.sequence
    }

    /// Ends the probe started at `route_hop` with its outcome towards
    /// `target`: the hop records it, a timed response is counted, and the
    /// next probe takes the next sequence number.
    pub fn end_probe(&mut self, route_hop: &mut RouteHop, result: PingResult, target: u32)
        requires
            old(self).wf(),
            old(self).total_responses < old(self).total_probes,
            old(route_hop).rtts@.len() < old(route_hop).probes_sent,
        ensures
            final(self).wf(),
            probe_recorded(*old(route_hop), *final(route_hop), result, target),
            final(route_hop).rtts@.len() <= final(route_hop).probes_sent,
            final(self).total_responses == old(self).total_responses + if probe_responded(result) {
                1int
            } else {
                0
            },
            final(self).sequence == (if old(self).sequence == u16::MAX {
                0
            } else {
                old(self).sequence + 1
            }),
            final(self).hop == old(self).hop,
            final(self).max_hops == old(self).max_hops,
            final(self).probes_per_hop == old(self).probes_per_hop,
            final(self).total_probes == old(self).total_probes,
    {
        let responded = route_hop.record_probe_result(result, target);
        if responded {
            self.total_responses = self.total_responses + 1;
        }
        self.sequence = self.sequence.wrapping_add(1);
    }

    /// Decides what follows the hop just probed: the trace stops with the
    /// hop's number once a probe reached the destination, gives up once the
    /// hop limit is reached, and goes on otherwise.
    pub fn after_hop(&self, route_hop: &RouteHop) -> (progress: RouteProgress)
        ensures
            route_hop.reached_destination ==> progress == (RouteProgress::Reached { hops: route_hop.hop }),
            !route_hop.reached_destination && self.hop < self.max_hops ==> progress == RouteProgress::NextHop,
            !route_hop.reached_destination && self.hop >= self.max_hops ==> progress == RouteProgress::GaveUp,
    {
        if route_hop.reached_destination {
            RouteProgress::Reached { hops: route_hop.hop }
        } else if self.hop < self.max_hops {
            RouteProgress::NextHop
        } else {
            RouteProgress::GaveUp
        }
    }
}

} // verus!
