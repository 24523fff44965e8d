use vstd::prelude::*;

use crate::errors::{classify_network_error, os_error_result, ErrnoCodes};
use crate::interface::{
    cidr_range_relation, first_slash, in_private_block, network_mask_range, range_from_cidr,
    range_from_low_high, range_from_network_mask, range_is_rfc1918, sweep_range_size, RangeError,
};
use crate::text::{chars_of, ipv4_dotted, ipv4_text, parse_ipv4, spec_parse_ipv4};
use crate::types::{PingResult, SweepProbe, SweepRange};

verus! {

/// Whether a sweep of a range may go ahead.
#[derive(Debug, Clone, Copy, PartialEq, Eq)]
pub enum SweepDecision {
    /// Sweep the range.
    Proceed,
    /// Refused: the range is not entirely private and `--force` was not given.
    NotPrivate,
    /// A private range of `count` addresses that the user must confirm.
    NeedsConfirmation { count: u64 },
    /// Refused: a private range of more than 65534 addresses without `--force`.
    TooLarge { count: u64 },
}

/// What `sweep_decision` decides for a range of `count` addresses.
pub open spec fn sweep_policy(private: bool, count: u64, yes: bool, force: bool) -> SweepDecision {
    if force {
        SweepDecision::Proceed
    } else if !private {
        SweepDecision::NotPrivate
    } else if count <= 254 {
        SweepDecision::Proceed
    } else if count <= 65_534 {
        if yes {
            SweepDecision::Proceed
        } else {
            SweepDecision::NeedsConfirmation { count }
        }
    } else {
        SweepDecision::TooLarge { count }
    }
}

/// Applies the sweep safety rules: `--force` allows anything; otherwise the
/// range must be private (RFC 1918), small private ranges (up to 254
/// addresses) go ahead, larger ones up to 65534 addresses need `--yes` or a
/// confirmation, and larger ones are refused.
pub fn sweep_decision(range: &SweepRange, yes: bool, force: bool) -> (decision: SweepDecision)
    requires
        range.first <= range.last,
    ensures
        decision == sweep_policy(
            in_private_block(range.first, range.last),
            (range.last - range.first + 1) as u64,
            yes,
            force,
        ),
{
    let count = sweep_range_size(range);
    let private = range_is_rfc1918(range);
    if force {
        return SweepDecision::Proceed;
    }
    if !private {
        return SweepDecision::NotPrivate;
    }
    if count <= 254 {
        return SweepDecision::Proceed;
    }
    if count <= 65_534 {
        if yes {
            return SweepDecision::Proceed;
        }
        return SweepDecision::NeedsConfirmation { count };
    }
    SweepDecision::TooLarge { count }
}

/// Law: without `--force`, a range that is not entirely private is never
/// swept, and nothing above 65534 addresses is swept without `--force`.
pub proof fn lemma_sweep_safety(private: bool, count: u64, yes: bool, force: bool)
    ensures
        !force && !private ==> sweep_policy(private, count, yes, force) == SweepDecision::NotPrivate,
        !force && count > 65_534 ==> sweep_policy(private, count, yes, force) != SweepDecision::Proceed,
        sweep_policy(private, count, yes, force) == SweepDecision::Proceed ==> force || (private && (
        count <= 254 || yes)),
{
}

/// Where the addresses of a sweep come from.
#[derive(Debug, Clone, PartialEq)]
pub enum SweepScope {
    /// A range given on the command line.
    Manual(SweepRange),
    /// The networks of the local interfaces (of the named one, if any).
    Interfaces { requested: Option<String> },
}

/// Whether any option of a manual range was given.
pub open spec fn manual_scope(low: Option<u32>, high: Option<u32>, network: Option<String>, mask: Option<u32>) -> bool {
    low is Some || high is Some || network is Some || mask is Some
}

/// The range inside a planned scope, or its error.
pub open spec fn scope_range(scope: Result<SweepScope, RangeError>) -> Result<SweepRange, RangeError> {
    match scope {
        Ok(SweepScope::Manual(r)) => Ok(r),
        Ok(SweepScope::Interfaces { .. }) => Err(RangeError::NoInterfaces { requested: None }),
        Err(e) => Err(e),
    }
}

/// Decides where the addresses of a sweep come from, from the interface
/// name (`target`) and the manual range options: `--low` with `--high`, or
/// `--network` in CIDR notation, or `--network` with `--mask`; otherwise the
/// local interfaces.
pub fn plan_sweep_scope(
    target: Option<String>,
    low: Option<u32>,
    high: Option<u32>,
    network: Option<String>,
    mask: Option<u32>,
) -> (scope: Result<SweepScope, RangeError>)
    ensures
        manual_scope(low, high, network, mask) && target is Some ==> scope == Err::<SweepScope, RangeError>(
            RangeError::InterfaceWithManualRange,
        ),
        !(manual_scope(low, high, network, mask) && target is Some) ==> match (low, high) {
            (Some(l), Some(h)) => !(scope matches Ok(SweepScope::Interfaces { .. })) && scope_range(scope)
                == if l > h {
                Err::<SweepRange, RangeError>(RangeError::LowAboveHigh)
            } else {
                Ok::<SweepRange, RangeError>(
                    SweepRange { first: l, last: h, network: None, prefix_length: None, interface_name: None },
                )
            },
            _ => match network {
                Some(n) => if first_slash(n@) is Some {
                    if mask is Some {
                        scope == Err::<SweepScope, RangeError>(RangeError::MaskWithCidr)
                    } else {
                        !(scope matches Ok(SweepScope::Interfaces { .. })) && cidr_range_relation(
                            n@,
                            scope_range(scope),
                        )
                    }
                } else {
                    match spec_parse_ipv4(n@) {
                        None => scope matches Err(RangeError::InvalidNetworkAddress { text }) && text@ == n@,
                        Some(address) => match mask {
                            None => scope == Err::<SweepScope, RangeError>(RangeError::MaskRequired),
                            Some(m) => !(scope matches Ok(SweepScope::Interfaces { .. })) && scope_range(
                                scope,
                            ) == network_mask_range(address, m),
                        },
                    }
                },
                None => scope == Ok::<SweepScope, RangeError>(SweepScope::Interfaces { requested: target }),
            },
        },
{
    let manual = low.is_some() || high.is_some() || network.is_some() || mask.is_some();
    if manual && target.is_some() {
        return Err(RangeError::InterfaceWithManualRange);
    }
    if let (Some(l), Some(h)) = (low, high) {
        return match range_from_low_high(l, h) {
            Ok(r) => Ok(SweepScope::Manual(r)),
            Err(e) => Err(e),
        };
    }
    match network {
        Some(n) => {
            let chars = chars_of(n.as_str());
            let mut i: usize = 0;
            let mut has_slash = false;
            while i < chars.len()
                invariant
                    chars@ == n@,
                    i <= chars@.len(),
                    has_slash <==> exists|j: int| 0 <= j < i && chars@[j] == '/',
                decreases chars@.len() - i,
            {
                if chars[i] == '/' {
                    has_slash = true;
                }
                i = i + 1;
            }
            proof {
                lemma_first_slash_exists(n@);
            }
            if has_slash {
                if mask.is_some() {
                    return Err(RangeError::MaskWithCidr);
                }
                return match range_from_cidr(n.as_str()) {
                    Ok(r) => Ok(SweepScope::Manual(r)),
                    Err(e) => Err(e),
                };
            }
            let address = match parse_ipv4(n.as_str()) {
                Some(a) => a,
                None => return Err(RangeError::InvalidNetworkAddress { text: n }),
            };
            let m = match mask {
                Some(m) => m,
                None => return Err(RangeError::MaskRequired),
            };
            match range_from_network_mask(address, m) {
                Ok(r) => Ok(SweepScope::Manual(r)),
                Err(e) => Err(e),
            }
        },
        None => Ok(SweepScope::Interfaces { requested: target }),
    }
}

proof fn lemma_first_slash_exists(s: Seq<char>)
    ensures
        first_slash(s) is Some <==> exists|j: int| 0 <= j < s.len() && s[j] == '/',
    decreases s.len(),
{
    if s.len() > 0 {
        lemma_first_slash_exists(s.drop_first());
        if s[0] != '/' {
            if exists|j: int| 0 <= j < s.len() && s[j] == '/' {
                let j = choose|j: int| 0 <= j < s.len() && s[j] == '/';
                assert(s.drop_first()[j - 1] == '/');
            }
            if exists|j: int| 0 <= j < s.len() - 1 && s.drop_first()[j] == '/' {
                let j = choose|j: int| 0 <= j < s.len() - 1 && s.drop_first()[j] == '/';
                assert(s[j + 1] == '/');
            }
        }
    }
}

/// The text of the message printed when sending a sweep probe to `target`
/// failed with the classified outcome `result`: none for an unreachable
/// network or host, none unless the outcome is a local error, else
/// "ring: ADDRESS: MESSAGE".
pub open spec fn failure_report(target: u32, unreachable: bool, result: PingResult) -> Option<Seq<char>> {
    if unreachable {
        None
    } else {
        match result {
            PingResult::LocalError(text) => Some("ring: "@ + ipv4_dotted(target) + ": "@ + text@),
            _ => None,
        }
    }
}

/// The text of an optional message.
pub open spec fn message_text(message: Option<String>) -> Option<Seq<char>> {
    match message {
        Some(m) => Some(m@),
        None => None,
    }
}

/// The message printed when sending a sweep probe to `target` failed with
/// the classified outcome `result`.
pub fn sweep_failure_report(target: u32, unreachable: bool, result: PingResult) -> (message: Option<String>)
    ensures
        message_text(message) == failure_report(target, unreachable, result),
{
    if unreachable {
        return None;
    }
    match result {
        PingResult::LocalError(text) => {
            let mut m = String::from_str("ring: ");
            let address = ipv4_text(target);
            m.append(address.as_str());
            m.append(": ");
            m.append(text.as_str());
            Some(m)
        },
        _ => None,
    }
}

/// The message printed when sending a sweep probe to `target` failed with
/// `error`: none for an unreachable network or host (such errors may stem
/// from an earlier probe); otherwise the report of the error's
/// classification, which depends on the OS error number and message read
/// from `error`.
pub fn sweep_send_failure_message(target: u32, unreachable: bool, error: std::io::Error) -> (message:
    Option<String>)
    ensures
        unreachable ==> message is None,
        exists|codes: ErrnoCodes, code: Option<i32>, text: String|
            codes.distinct() && message_text(message) == failure_report(
                target,
                unreachable,
                #[trigger] os_error_result(codes, code, text),
            ),
{
    if unreachable {
        let message: Option<String> = None;
        proof {
            let codes = ErrnoCodes {
                network_unreachable: 1,
                host_unreachable: 2,
                host_down: 3,
                network_down: 4,
                access_denied: 5,
                not_permitted: 6,
            };
            assert(codes.distinct());
            let text: String = arbitrary();
            assert(message_text(message) == failure_report(target, unreachable, os_error_result(codes, None, text)));
        }
        return message;
    }
    let result = classify_network_error(error);
    let message = sweep_failure_report(target, unreachable, result);
    message
}

/// `probe` has waited less than `timeout` nanoseconds at time `now` (a
/// reading earlier than the probe counts as no wait).
pub open spec fn is_waiting(probe: SweepProbe, now: u64, timeout: u64) -> bool {
    (if now >= probe.sent_at {
        now - probe.sent_at
    } else {
        0
    }) < timeout
}

/// The probes of `s` that still wait for a reply at `now`, in order.
pub open spec fn waiting_probes(s: Seq<SweepProbe>, now: u64, timeout: u64) -> Seq<SweepProbe>
    decreases s.len(),
{
    if s.len() == 0 {
        s
    } else {
        let rest = waiting_probes(s.drop_last(), now, timeout);
        if is_waiting(s.last(), now, timeout) {
            rest.push(s.last())
        } else {
            rest
        }
    }
}

/// Index of the first probe of `s` sent to `source` with `sequence`.
pub open spec fn probe_index(s: Seq<SweepProbe>, source: u32, sequence: u16) -> Option<int> {
    if exists|i: int| 0 <= i < s.len() && s[i].target == source && s[i].sequence == sequence {
        Some(
            choose|i: int|
                0 <= i < s.len() && s[i].target == source && s[i].sequence == sequence && forall|j: int|
                    0 <= j < i ==> !(s[j].target == source && s[j].sequence == sequence),
        )
    } else {
        None
    }
}

/// The state of a sweep over one range: the next address to probe, the
/// probes awaiting a reply, and when the next probe may be sent. Times are
/// monotonic clock readings in nanoseconds.
#[derive(Debug, Clone, PartialEq)]
pub struct SweepEngine {
    pub first_address: u32,
    pub next_address: u32,
    pub last_address: u32,
    pub sequence: u16,
    pub outstanding: Vec<SweepProbe>,
    pub next_send: u64,
    pub concurrency: usize,
    pub interval: u64,
    pub timeout: u64,
}

impl SweepEngine {
    /// The engine is consistent: no more probes wait than the concurrency
    /// allows, and every waiting probe targets an address of the range that
    /// was already reached.
    pub open spec fn wf(&self) -> bool {
        &&& self.outstanding@.len() <= self.concurrency
        &&& self.first_address <= self.next_address
        &&& self.last_address < u32::MAX
        &&& self.sequence as int == (1 + (self.next_address - self.first_address)) % 65536
        &&& forall|i: int|
            0 <= i < self.outstanding@.len() ==> self.first_address <= (#[trigger] self.outstanding@[i]).target
                < self.next_address
    }

    /// A sweep of `range` starting at time `now`, sending at most one probe
    /// every `interval` nanoseconds, at most `concurrency` awaiting a reply,
    /// each given `timeout` nanoseconds to be answered.
    pub fn new(range: &SweepRange, concurrency: usize, interval: u64, timeout: u64, now: u64) -> (engine: Self)
        requires
            range.last < u32::MAX,
        ensures
            engine.wf(),
            engine.first_address == range.first,
            engine.next_address == range.first,
            engine.last_address == range.last,
            engine.sequence == 1,
            engine.outstanding@.len() == 0,
            engine.next_send == now,
            engine.concurrency == concurrency,
            engine.interval == interval,
            engine.timeout == timeout,
    {
        SweepEngine {
            first_address: range.first,
            next_address: range.first,
            last_address: range.last,
            sequence: 1,
            outstanding: Vec::new(),
            next_send: now,
            concurrency,
            interval,
            timeout,
        }
    }

    /// Whether the sweep still has addresses to probe or probes to wait for.
    pub fn is_running(&self) -> (running: bool)
        ensures
            running == (self.next_address <= self.last_address || self.outstanding@.len() > 0),
    {
        self.next_address <= self.last_address || self.outstanding.len() > 0
    }

    /// Whether the next probe may be sent at time `now`: an address is left,
    /// fewer probes than the concurrency wait, and the interval has passed.
    pub fn may_send(&self, now: u64) -> (allowed: bool)
        ensures
            allowed == (self.next_address <= self.last_address && self.outstanding@.len() < self.concurrency
                && now >= self.next_send),
    {
        self.next_address <= self.last_address && self.outstanding.len() < self.concurrency && now
            >= self.next_send
    }

    /// The address and sequence number of the next probe: the k-th probe of
    /// the sweep (counting from zero) goes to the k-th address of the range
    /// with sequence number k + 1, modulo 2^16.
    pub fn next_probe(&self) -> (probe: (u32, u16))
        requires
            self.wf(),
        ensures
            probe == (self.next_address, self.sequence),
            probe.1 as int == (1 + (probe.0 - self.first_address)) % 65536,
    {
        (self.next_address, self.sequence)
    }

    /// Records that the next probe was sent (and, when `delivered`, that it
    /// now awaits a reply since `sent_at`), moving on to the next address
    /// and sequence number; the following probe may be sent `interval`
    /// nanoseconds after `now`.
    pub fn record_send(&mut self, delivered: bool, sent_at: u64, now: u64)
        requires
            old(self).wf(),
            old(self).next_address <= old(self).last_address,
            old(self).outstanding@.len() < old(self).concurrency,
            now + old(self).interval <= u64::MAX,
        ensures
            final(self).wf(),
            final(self).next_address == old(self).next_address + 1,
            final(self).sequence == (if old(self).sequence == u16::MAX {
                0
            } else {
                old(self).sequence + 1
            }),
            final(self).outstanding@ == if delivered {
                old(self).outstanding@.push(
                    SweepProbe { target: old(self).next_address, sequence: old(self).sequence, sent_at },
                )
            } else {
                old(self).outstanding@
            },
            final(self).next_send == now + old(self).interval,
            final(self).first_address == old(self).first_address,
            final(self).last_address == old(self).last_address,
            final(self).concurrency == old(self).concurrency,
            final(self).interval == old(self).interval,
            final(self).timeout == old(self).timeout,
    {
        if delivered {
            self.outstanding.push(SweepProbe { target: self.next_address, sequence: self.sequence, sent_at });
        }
        self.next_address = self.next_address + 1;
        self.sequence = self.sequence.wrapping_add(1);
        self.next_send = now + self.interval;
    }

    /// Matches a reply from `source` carrying `sequence` against the waiting
    /// probes: the first probe sent to `source` with that sequence number
    /// stops waiting (the last waiting probe takes its place). Returns
    /// whether such a probe was waiting.
    pub fn take_reply(&mut self, source: u32, sequence: u16) -> (answered: bool)
        requires
            old(self).wf(),
        ensures
            final(self).wf(),
            answered == probe_index(old(self).outstanding@, source, sequence) is Some,
            match probe_index(old(self).outstanding@, source, sequence) {
                Some(i) => final(self).outstanding@ == old(self).outstanding@.update(
                    i,
                    old(self).outstanding@.last(),
                ).drop_last(),
                None => final(self).outstanding@ == old(self).outstanding@,
            },
            final(self).first_address == old(self).first_address,
            final(self).next_address == old(self).next_address,
            final(self).last_address == old(self).last_address,
            final(self).sequence == old(self).sequence,
            final(self).next_send == old(self).next_send,
            final(self).concurrency == old(self).concurrency,
            final(self).interval == old(self).interval,
            final(self).timeout == old(self).timeout,
    {
        let mut i: usize = 0;
        while i < self.outstanding.len()
            invariant
                *self == *old(self),
                self.wf(),
                i <= self.outstanding@.len(),
                forall|j: int|
                    0 <= j < i ==> !(self.outstanding@[j].target == source && self.outstanding@[j].sequence
                        == sequence),
            decreases self.outstanding@.len() - i,
        {
            if self.outstanding[i].target == source && self.outstanding[i].sequence == sequence {
                let ghost before = self.outstanding@;
                proof {
                    let k = choose|k: int|
                        0 <= k < before.len() && before[k].target == source && before[k].sequence == sequence
                            && forall|j: int|
                            0 <= j < k ==> !(before[j].target == source && before[j].sequence == sequence);
                    if k < i {
                    } else if k > i {
                        assert(!(before[i as int].target == source && before[i as int].sequence == sequence));
                    }
                    assert(k == i);
                }
                self.outstanding.swap_remove(i);
                proof {
                    assert forall|j: int| 0 <= j < self.outstanding@.len() implies self.first_address
                        <= (#[trigger] self.outstanding@[j]).target < self.next_address by {
                        if j == i {
                            assert(self.outstanding@[j] == before[before.len() - 1]);
                        } else {
                            assert(self.outstanding@[j] == before[j]);
                        }
                    }
                }
                return true;
            }
            i = i + 1;
        }
        false
    }

    /// Stops waiting for the probes that have waited `timeout` or longer at
    /// time `now`, keeping the others in order.
    pub fn expire(&mut self, now: u64)
        requires
            old(self).wf(),
        ensures
            final(self).wf(),
            final(self).outstanding@ == waiting_probes(old(self).outstanding@, now, old(self).timeout),
            final(self).first_address == old(self).first_address,
            final(self).next_address == old(self).next_address,
            final(self).last_address == old(self).last_address,
            final(self).sequence == old(self).sequence,
            final(self).next_send == old(self).next_send,
            final(self).concurrency == old(self).concurrency,
            final(self).interval == old(self).interval,
            final(self).timeout == old(self).timeout,
    {
        let mut kept: Vec<SweepProbe> = Vec::new();
        let mut i: usize = 0;
        let ghost all = self.outstanding@;
        while i < self.outstanding.len()
            invariant
                self.outstanding@ == all,
                self.wf(),
                i <= all.len(),
                kept@ == waiting_probes(all.take(i as int), now, self.timeout),
                kept@.len() <= i,
                forall|j: int|
                    0 <= j < kept@.len() ==> self.first_address <= (#[trigger] kept@[j]).target
                        < self.next_address,
            decreases all.len() - i,
        {
            let probe = self.outstanding[i];
            assert(all.take(i + 1).drop_last() =~= all.take(i as int));
            let waited = if now >= probe.sent_at {
                now - probe.sent_at
            } else {
                0
            };
            if waited < self.timeout {
                kept.push(probe);
            }
            i = i + 1;
        }
        assert(all.take(i as int) =~= all);
        self.outstanding = kept;
    }
}

} // verus!
