use vstd::prelude::*;

use crate::constants::{ICMP_ECHO_REQUEST, ICMP_HEADER_SIZE};

verus! {

/// The 16-bit value of the big-endian byte pair `hi`, `lo`.
pub open spec fn be16(hi: u8, lo: u8) -> nat {
    (hi as nat) * 256 + (lo as nat)
}

/// The 16-bit big-endian word at word index `i` of `s`.
pub open spec fn word_at(s: Seq<u8>, i: int) -> nat {
    (s[2 * i] as nat) * 256 + (s[2 * i + 1] as nat)
}

/// Sum of the first `n` big-endian 16-bit words of `s`.
pub open spec fn words_sum(s: Seq<u8>, n: nat) -> nat
    decreases n,
{
    if n == 0 {
        0
    } else {
        words_sum(s, (n - 1) as nat) + word_at(s, n - 1)
    }
}

/// The word contributed by a final odd byte: that byte padded with a zero byte.
pub open spec fn trailing_word(s: Seq<u8>) -> nat {
    if s.len() % 2 == 1 {
        (s[s.len() - 1] as nat) * 256
    } else {
        0
    }
}

/// Plain sum of all 16-bit words of `s` (RFC 1071), before carries are folded.
pub open spec fn ones_sum(s: Seq<u8>) -> nat {
    words_sum(s, s.len() / 2) + trailing_word(s)
}

/// Folds the carries above bit 15 back into the low 16 bits until none remain.
pub open spec fn fold_carries(n: nat) -> nat
    decreases n,
{
    if n < 65536 {
        n
    } else {
        proof {
            lemma_fold_step_decreases(n);
        }
        fold_carries(n % 65536 + n / 65536)
    }
}

/// The Internet checksum of `s`: the one's complement of its one's-complement sum.
pub open spec fn internet_checksum(s: Seq<u8>) -> u16 {
    (65535 - fold_carries(ones_sum(s))) as u16
}

/// An ICMP Echo Request with a zero checksum field: type 8, code 0,
/// identifier 0, the sequence number big-endian, then a payload whose
/// byte `i` is `i mod 256`.
pub open spec fn echo_template(sequence: u16, payload_size: nat) -> Seq<u8> {
    seq![
        ICMP_ECHO_REQUEST,
        0u8,
        0u8,
        0u8,
        0u8,
        0u8,
        (sequence / 256) as u8,
        (sequence % 256) as u8,
    ] + Seq::new(payload_size, |i: int| (i % 256) as u8)
}

/// The complete Echo Request: the template with its checksum stored
/// big-endian in bytes 2 and 3.
pub open spec fn echo_request(sequence: u16, payload_size: nat) -> Seq<u8> {
    let t = echo_template(sequence, payload_size);
    let c = internet_checksum(t);
    t.update(2, (c / 256) as u8).update(3, (c % 256) as u8)
}

/// One folding step strictly decreases a value of at least 65536.
pub proof fn lemma_fold_step_decreases(n: nat)
    requires
        n >= 65536,
    ensures
        n % 65536 + n / 65536 < n,
{
    assert(n == 65536 * (n / 65536) + n % 65536);
}

proof fn lemma_words_sum_monotone(s: Seq<u8>, a: nat, b: nat)
    requires
        a <= b,
    ensures
        words_sum(s, a) <= words_sum(s, b),
    decreases b,
{
    if a < b {
        lemma_words_sum_monotone(s, a, (b - 1) as nat);
    }
}

proof fn lemma_words_sum_bound(s: Seq<u8>, n: nat)
    ensures
        words_sum(s, n) <= 65535 * n,
    decreases n,
{
    if n > 0 {
        lemma_words_sum_bound(s, (n - 1) as nat);
    }
}

/// The one's-complement sum of `s` is at most 65535 per (possibly padded) word.
pub proof fn lemma_ones_sum_bound(s: Seq<u8>)
    ensures
        ones_sum(s) <= 65535 * ((s.len() + 1) / 2),
{
    lemma_words_sum_bound(s, s.len() / 2);
}

/// Folding the carries keeps the value modulo 65535, never grows it, leaves
/// a 16-bit value, and maps a positive sum to a positive result.
pub proof fn lemma_fold_carries(n: nat)
    ensures
        fold_carries(n) < 65536,
        fold_carries(n) <= n,
        fold_carries(n) % 65535 == n % 65535,
        n > 0 ==> fold_carries(n) > 0,
    decreases n,
{
    if n >= 65536 {
        lemma_fold_step_decreases(n);
        let q = n / 65536;
        let r = n % 65536;
        lemma_fold_carries((r + q) as nat);
        assert(n == 65535 * q + (q + r));
        vstd::arithmetic::div_mod::lemma_mod_multiples_vanish(q as int, (q + r) as int, 65535);
    }
}

proof fn lemma_words_sum_update(t: Seq<u8>, p: Seq<u8>, c: u16, w: int, n: nat)
    requires
        0 <= w,
        2 * w + 2 <= t.len(),
        p.len() == t.len(),
        t[2 * w] == 0,
        t[2 * w + 1] == 0,
        p[2 * w] == (c / 256) as u8,
        p[2 * w + 1] == (c % 256) as u8,
        forall|k: int| 0 <= k < t.len() && k != 2 * w && k != 2 * w + 1 ==> p[k] == t[k],
        2 * n <= t.len(),
    ensures
        words_sum(p, n) == words_sum(t, n) + (if n > w { c as nat } else { 0 }),
    decreases n,
{
    if n > 0 {
        lemma_words_sum_update(t, p, c, w, (n - 1) as nat);
        let k = n - 1;
        if k == w {
            assert(word_at(p, w) == c as nat);
            assert(word_at(t, w) == 0);
        } else {
            assert(word_at(p, k) == word_at(t, k));
        }
    }
}

/// Storing a 16-bit value big-endian in a zero word at the even byte offset
/// `offset` adds exactly that value to the one's-complement sum.
pub proof fn lemma_ones_sum_store_word(t: Seq<u8>, c: u16, offset: int)
    requires
        0 <= offset,
        offset % 2 == 0,
        offset + 2 <= t.len(),
        t[offset] == 0,
        t[offset + 1] == 0,
    ensures
        ones_sum(t.update(offset, (c / 256) as u8).update(offset + 1, (c % 256) as u8)) == ones_sum(t)
            + c,
{
    let p = t.update(offset, (c / 256) as u8).update(offset + 1, (c % 256) as u8);
    let w = offset / 2;
    lemma_words_sum_update(t, p, c, w, t.len() / 2);
    assert(trailing_word(p) == trailing_word(t));
}

/// Law: a message whose checksum field, a 16-bit word at any even byte
/// offset, holds the checksum computed over the message with that field
/// zeroed verifies, i.e. checksums to zero.
pub proof fn lemma_stored_checksum_verifies_at(t: Seq<u8>, offset: int)
    requires
        0 <= offset,
        offset % 2 == 0,
        offset + 2 <= t.len(),
        t[offset] == 0,
        t[offset + 1] == 0,
    ensures
        ({
            let c = internet_checksum(t);
            internet_checksum(t.update(offset, (c / 256) as u8).update(offset + 1, (c % 256) as u8)) == 0
        }),
{
    let s = ones_sum(t);
    lemma_fold_carries(s);
    let f = fold_carries(s);
    let c = internet_checksum(t);
    assert(c as nat == 65535 - f);
    lemma_ones_sum_store_word(t, c, offset);
    let total = (s + 65535 - f) as nat;
    lemma_fold_carries(total);
    let g = fold_carries(total);
    assert(total % 65535 == 0) by {
        vstd::arithmetic::div_mod::lemma_fundamental_div_mod(s as int, 65535);
        vstd::arithmetic::div_mod::lemma_fundamental_div_mod(f as int, 65535);
        let a = s as int / 65535;
        let b = f as int / 65535;
        assert(total == 65535 * (a - b + 1));
        vstd::arithmetic::div_mod::lemma_mod_multiples_vanish(a - b + 1, 0, 65535);
    }
    assert(g == 65535);
}

/// Law: a message whose checksum field, bytes 2 and 3 as in an ICMP header,
/// holds the checksum computed over the message with that field zeroed
/// verifies, i.e. checksums to zero.
pub proof fn lemma_stored_checksum_verifies(t: Seq<u8>)
    requires
        t.len() >= 4,
        t[2] == 0,
        t[3] == 0,
    ensures
        ({
            let c = internet_checksum(t);
            internet_checksum(t.update(2, (c / 256) as u8).update(3, (c % 256) as u8)) == 0
        }),
{
    lemma_stored_checksum_verifies_at(t, 2);
}

/// Law: every Echo Request that `build_echo_request` produces carries a
/// valid Internet checksum.
pub proof fn lemma_echo_request_verifies(sequence: u16, payload_size: nat)
    ensures
        internet_checksum(echo_request(sequence, payload_size)) == 0,
{
    lemma_stored_checksum_verifies(echo_template(sequence, payload_size));
}

/// Every Echo Request with a payload of at most 131066 bytes can be
/// summed in 32 bits, so `build_echo_request` accepts it.
pub proof fn lemma_echo_template_sum_fits(sequence: u16, payload_size: nat)
    requires
        payload_size <= 131066,
    ensures
        ones_sum(echo_template(sequence, payload_size)) <= u32::MAX,
{
    let t = echo_template(sequence, payload_size);
    lemma_ones_sum_bound(t);
    assert(t.len() == 8 + payload_size);
}

/// Computes the Internet checksum (RFC 1071) of `data`: the one's complement
/// of the one's-complement sum of its big-endian 16-bit words, a final odd
/// byte being padded with a zero byte.
pub fn checksum(data: &[u8]) -> (c: u16)
    requires
        ones_sum(data@) <= u32::MAX,
    ensures
        c == internet_checksum(data@),
{
    let mut sum: u32 = 0;
    let words = data.len() / 2;
    let mut i: usize = 0;
    while i < words
        invariant
            words == data@.len() / 2,
            i <= words,
            sum == words_sum(data@, i as nat),
            ones_sum(data@) <= u32::MAX,
        decreases words - i,
    {
        proof {
            lemma_words_sum_monotone(data@, (i + 1) as nat, words as nat);
        }
        assert(2 * i + 1 < data.len());
        let word: u32 = (data[2 * i] as u32) * 256 + (data[2 * i + 1] as u32);
        sum = sum + word;
        i = i + 1;
    }
    if data.len() % 2 == 1 {
        sum = sum + (data[data.len() - 1] as u32) * 256;
    }
    assert(sum == ones_sum(data@));
    while (sum >> 16) != 0
        invariant
            fold_carries(sum as nat) == fold_carries(ones_sum(data@)),
        decreases sum,
    {
        let high = sum >> 16;
        let low = sum & 0xffff;
        assert(high == sum / 65536 && low == sum % 65536 && sum >= 65536) by (bit_vector)
            requires
                high == sum >> 16,
                low == sum & 0xffff,
                (sum >> 16) != 0,
        ;
        proof {
            lemma_fold_step_decreases(sum as nat);
        }
        sum = low + high;
    }
    assert(sum < 65536) by (bit_vector)
        requires
            (sum >> 16) == 0,
    ;
    let folded = sum as u16;
    let c = !folded;
    assert(c == 65535 - folded) by (bit_vector)
        requires
            c == !folded,
    ;
    c
}

/// Builds an ICMP Echo Request carrying `sequence` and a payload of
/// `payload_size` bytes whose byte `i` is `i mod 256`, with its checksum set.
pub fn build_echo_request(sequence: u16, payload_size: usize) -> (packet: Vec<u8>)
    requires
        ones_sum(echo_template(sequence, payload_size as nat)) <= u32::MAX,
    ensures
        packet@ == echo_request(sequence, payload_size as nat),
        packet@.len() == ICMP_HEADER_SIZE + payload_size,
{
    let mut packet: Vec<u8> = Vec::new();
    let high = (sequence >> 8) as u8;
    let low = (sequence & 0xff) as u8;
    assert(high == sequence / 256 && low == sequence % 256) by (bit_vector)
        requires
            high == (sequence >> 8) as u8,
            low == (sequence & 0xff) as u8,
    ;
    packet.push(ICMP_ECHO_REQUEST);
    packet.push(0);
    packet.push(0);
    packet.push(0);
    packet.push(0);
    packet.push(0);
    packet.push(high);
    packet.push(low);
    let ghost header = packet@;
    let mut i: usize = 0;
    while i < payload_size
        invariant
            i <= payload_size,
            packet@.len() == ICMP_HEADER_SIZE + i,
            packet@.subrange(0, 8) == header,
            forall|k: int| 0 <= k < i ==> #[trigger] packet@[8 + k] == (k % 256) as u8,
        decreases payload_size - i,
    {
        let byte = (i & 0xff) as u8;
        assert(byte == i % 256) by (bit_vector)
            requires
                byte == (i & 0xff) as u8,
        ;
        packet.push(byte);
        i = i + 1;
        assert(packet@.subrange(0, 8) =~= header);
    }
    let ghost template = echo_template(sequence, payload_size as nat);
    assert(packet@ =~= template) by {
        assert forall|k: int| 0 <= k < packet@.len() implies packet@[k] == template[k] by {
            if k < 8 {
                assert(packet@[k] == packet@.subrange(0, 8)[k]);
            } else {
                assert(packet@[8 + (k - 8)] == ((k - 8) % 256) as u8);
            }
        }
    }
    let csum = checksum(packet.as_slice());
    let csum_high = (csum >> 8) as u8;
    let csum_low = (csum & 0xff) as u8;
    assert(csum_high == csum / 256 && csum_low == csum % 256) by (bit_vector)
        requires
            csum_high == (csum >> 8) as u8,
            csum_low == (csum & 0xff) as u8,
    ;
    packet.set(2, csum_high);
    packet.set(3, csum_low);
    packet
}

/// Reads the big-endian sequence number stored in bytes 6 and 7 of an
/// ICMP Echo message.
pub fn echo_sequence(packet: &[u8]) -> (sequence: u16)
    requires
        packet@.len() >= ICMP_HEADER_SIZE,
    ensures
        sequence as nat == (packet@[6] as nat) * 256 + (packet@[7] as nat),
{
    (packet[6] as u16) * 256 + (packet[7] as u16)
}

/// Law: the sequence number read back from a built Echo Request is the one
/// it was built with.
pub proof fn lemma_echo_request_sequence(sequence: u16, payload_size: nat)
    ensures
        ({
            let p = echo_request(sequence, payload_size);
            &&& p.len() == 8 + payload_size
            &&& p[0] == ICMP_ECHO_REQUEST
            &&& p[1] == 0
            &&& (p[6] as nat) * 256 + (p[7] as nat) == sequence as nat
        }),
{
}

} // verus!
