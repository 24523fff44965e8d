use vstd::prelude::*;

use crate::subnet::{
    bit_count, count_ones, is_subnet_mask, lemma_bit_count_prefix_mask, lemma_complement_low_ones,
    lemma_prefix_mask_roundtrip, low_ones, mask_from_prefix, prefix_from_netmask, prefix_mask,
};
use crate::text::{chars_of, parse_ipv4, parse_u8, spec_parse_ipv4, spec_parse_u8};
use crate::types::{Ipv4Interface, SweepRange};

verus! {

/// Why a sweep range could not be formed.
#[derive(Debug, Clone, PartialEq)]
pub enum RangeError {
    /// An interface network of prefix length 31 or 32 has no host range.
    InterfaceNetworkTooSmall { network: u32, prefix_length: u8 },
    /// The first address of a range lies above its last address.
    LowAboveHigh,
    /// The mask is not a contiguous subnet mask.
    InvalidMask { mask: u32 },
    /// A /31 or /32 network was given.
    NetworkTooSmall,
    /// CIDR text without a '/'.
    MissingPrefix,
    /// The address part of CIDR text is not an IPv4 address.
    InvalidAddress { text: String },
    /// The prefix part of CIDR text is not a number from 0 to 255.
    InvalidPrefix { text: String },
    /// A prefix length above 32.
    PrefixOutOfRange,
    /// An interface name was given together with a manual range.
    InterfaceWithManualRange,
    /// A mask was given together with CIDR text.
    MaskWithCidr,
    /// A network given without '/' is not an IPv4 address.
    InvalidNetworkAddress { text: String },
    /// A network given without '/' needs a mask.
    MaskRequired,
    /// No usable interface was found (with the requested name, if any).
    NoInterfaces { requested: Option<String> },
}

/// The host range of the network of `address` under the mask of prefix
/// length `p` (below 31): every address of the network but the network and
/// broadcast addresses.
pub open spec fn network_range(address: u32, mask: u32, p: u8) -> SweepRange {
    let network = address & mask;
    SweepRange {
        first: (network + 1) as u32,
        last: ((network | !mask) - 1) as u32,
        network: Some(network),
        prefix_length: Some(p),
        interface_name: None,
    }
}

/// What `range_from_interface` gives for `interface`.
pub open spec fn interface_range(interface: Ipv4Interface) -> Result<SweepRange, RangeError> {
    if interface.prefix_length >= 31 {
        Err(
            RangeError::InterfaceNetworkTooSmall {
                network: interface.network,
                prefix_length: interface.prefix_length,
            },
        )
    } else {
        Ok(
            SweepRange {
                first: (interface.network + 1) as u32,
                last: (interface.broadcast - 1) as u32,
                network: Some(interface.network),
                prefix_length: Some(interface.prefix_length),
                interface_name: Some(interface.name),
            },
        )
    }
}

/// `range_from_interface` does not overflow on `interface`.
pub open spec fn interface_range_defined(interface: Ipv4Interface) -> bool {
    interface.prefix_length < 31 ==> interface.network < u32::MAX && interface.broadcast > 0
}

/// What `range_from_address_prefix` gives.
pub open spec fn address_prefix_range(address: u32, prefix: u8) -> Result<SweepRange, RangeError> {
    if prefix > 32 {
        Err(RangeError::PrefixOutOfRange)
    } else if prefix >= 31 {
        Err(RangeError::NetworkTooSmall)
    } else {
        Ok(network_range(address, prefix_mask(prefix as u32), prefix))
    }
}

/// What `range_from_network_mask` gives: an invalid-mask error, a too-small
/// network error for prefix lengths 31 and 32, else the network's host range.
pub open spec fn network_mask_range(address: u32, mask: u32) -> Result<SweepRange, RangeError> {
    if is_subnet_mask(mask) {
        let p = choose|p: u32| p <= 32 && mask == prefix_mask(p);
        if p >= 31 {
            Err(RangeError::NetworkTooSmall)
        } else {
            Ok(network_range(address, mask, p as u8))
        }
    } else {
        Err(RangeError::InvalidMask { mask })
    }
}

/// How the result of `range_from_cidr` relates to its text: no '/' gives a
/// missing-prefix error; otherwise the text before the first '/' must be an
/// IPv4 address and the text after it a number from 0 to 255 (each error
/// carrying the offending text), and the address and prefix length then
/// decide as `range_from_address_prefix` does.
pub open spec fn cidr_range_relation(cidr: Seq<char>, range: Result<SweepRange, RangeError>) -> bool {
    match first_slash(cidr) {
        None => range == Err::<SweepRange, RangeError>(RangeError::MissingPrefix),
        Some(k) => {
            let address_text = cidr.take(k as int);
            let prefix_text = cidr.skip(k as int + 1);
            match spec_parse_ipv4(address_text) {
                None => range matches Err(RangeError::InvalidAddress { text }) && text@ == address_text,
                Some(address) => match spec_parse_u8(prefix_text) {
                    None => range matches Err(RangeError::InvalidPrefix { text }) && text@ == prefix_text,
                    Some(prefix) => range == address_prefix_range(address, prefix),
                },
            }
        },
    }
}

/// Index of the first '/' of `s`.
pub open spec fn first_slash(s: Seq<char>) -> Option<nat>
    decreases s.len(),
{
    if s.len() == 0 {
        None
    } else if s[0] == '/' {
        Some(0)
    } else {
        match first_slash(s.drop_first()) {
            Some(k) => Some(k + 1),
            None => None,
        }
    }
}

/// The address ranges reserved for private networks by RFC 1918.
pub open spec fn in_private_block(first: u32, last: u32) -> bool {
    ||| (first >= 0x0A00_0000 && last <= 0x0AFF_FFFF)
    ||| (first >= 0xAC10_0000 && last <= 0xAC1F_FFFF)
    ||| (first >= 0xC0A8_0000 && last <= 0xC0A8_FFFF)
}

proof fn lemma_first_slash(s: Seq<char>, i: int)
    requires
        0 <= i <= s.len(),
        forall|j: int| 0 <= j < i ==> s[j] != '/',
    ensures
        i < s.len() && s[i] == '/' ==> first_slash(s) == Some(i as nat),
        i == s.len() ==> first_slash(s) is None,
    decreases i,
{
    if i > 0 && s.len() > 0 {
        let t = s.drop_first();
        assert forall|j: int| 0 <= j < i - 1 implies t[j] != '/' by {
            assert(t[j] == s[j + 1]);
        }
        lemma_first_slash(t, i - 1);
    }
}

proof fn lemma_network_range_bounds(address: u32, mask: u32, p: u32)
    requires
        p <= 30,
        mask == prefix_mask(p),
    ensures
        (address & mask) < 0xffff_ffff,
        ((address & mask) | !mask) >= 3,
        (address & mask) + 2 <= ((address & mask) | !mask),
{
    let network = address & mask;
    assert(network <= 0xffff_fffc && (network | !mask) >= 3 && network + 2 <= (network | !mask))
        by (bit_vector)
        requires
            p <= 30,
            mask == (if p == 0 { 0u32 } else { 0xffff_ffffu32 << ((32 - p) as u32) }),
            network == address & mask,
    ;
}

/// Law: every range derived from a network of prefix length `p` at most 30
/// is non-empty, lies strictly inside that network, and holds all of its
/// 2^(32-p) addresses but the network and broadcast addresses.
pub proof fn lemma_network_range_ordered(address: u32, p: u8)
    requires
        p <= 30,
    ensures
        ({
            let m = prefix_mask(p as u32);
            let r = network_range(address, m, p);
            &&& r.first <= r.last
            &&& r.first > address & m
            &&& r.last < (address & m) | !m
            &&& r.last - r.first + 1 == low_ones((32 - p) as u32) - 1
        }),
{
    let m = prefix_mask(p as u32);
    lemma_network_range_bounds(address, m, p as u32);
    lemma_complement_low_ones((32 - p) as u32);
    let n = address & m;
    let h = low_ones((32 - p) as u32);
    assert(!h == m ==> (n | !m) == n + h && !m == h) by (bit_vector)
        requires
            n == address & m,
    ;
}

/// Law: an interface network of prefix length 31 or 32 has no host range
/// to sweep. Any shorter prefix gives the interface's range: from the
/// address after its network address to the one before its broadcast
/// address, named after the interface. When the interface's network and
/// broadcast addresses are those of `address` under its prefix, that range
/// is the network's host range, holding all of its 2^(32-p) addresses but
/// the network and broadcast addresses.
pub proof fn lemma_interface_range_hosts(interface: Ipv4Interface, address: u32)
    requires
        interface_range_defined(interface),
    ensures
        interface.prefix_length >= 31 ==> interface_range(interface) == Err::<SweepRange, RangeError>(
            RangeError::InterfaceNetworkTooSmall {
                network: interface.network,
                prefix_length: interface.prefix_length,
            },
        ),
        interface.prefix_length <= 30 ==> (interface_range(interface) matches Ok(r) && r.first
            == interface.network + 1 && r.last == interface.broadcast - 1 && r.network == Some(
            interface.network,
        ) && r.prefix_length == Some(interface.prefix_length) && r.interface_name == Some(interface.name)),
        ({
            let p = interface.prefix_length;
            let m = prefix_mask(p as u32);
            (p <= 30 && interface.network == address & m && interface.broadcast == address | !m) ==> (
            interface_range(interface) matches Ok(r) && r.first == network_range(address, m, p).first
                && r.last == network_range(address, m, p).last && r.first <= r.last && r.first
                > interface.network && r.last < interface.broadcast && r.last - r.first + 1 == low_ones(
                (32 - p) as u32,
            ) - 1)
        }),
{
    let p = interface.prefix_length;
    if p <= 30 {
        let m = prefix_mask(p as u32);
        lemma_network_range_ordered(address, p);
        let n = address & m;
        assert((address & m) | !m == address | !m) by (bit_vector);
    }
}

/// Law: CIDR text and the equivalent subnet mask describe the same range,
/// and the same errors for prefix lengths 31 and 32.
pub proof fn lemma_prefix_agrees_with_mask(address: u32, p: u8)
    requires
        p <= 32,
    ensures
        address_prefix_range(address, p) == network_mask_range(address, prefix_mask(p as u32)),
{
    lemma_prefix_mask_roundtrip(p as u32);
    let mask = prefix_mask(p as u32);
    let q = choose|q: u32| q <= 32 && mask == prefix_mask(q);
    assert(q == p as u32);
}

/// Law: an interface whose fields were computed from an address and a mask
/// with fewer than 31 one bits has a host range.
pub proof fn lemma_interface_range_defined(name: String, address: u32, mask: u32)
    ensures
        interface_range_defined(
            Ipv4Interface {
                name,
                address,
                network: address & mask,
                broadcast: address | !mask,
                prefix_length: bit_count(mask) as u8,
            },
        ),
{
    lemma_bit_count_prefix_mask(32);
    assert(prefix_mask(32) == 0xffff_ffffu32) by (bit_vector);
    let network = address & mask;
    let broadcast = address | !mask;
    assert((network == 0xffff_ffff || broadcast == 0) ==> mask == 0xffff_ffff) by (bit_vector)
        requires
            network == address & mask,
            broadcast == address | !mask,
    ;
    crate::subnet::lemma_bit_count_at_most_32(mask);
}

/// The sweep range of an interface's network, without its network and
/// broadcast addresses.
pub fn range_from_interface(interface: &Ipv4Interface) -> (range: Result<SweepRange, RangeError>)
    requires
        interface_range_defined(*interface),
    ensures
        range == interface_range(*interface),
{
    if interface.prefix_length >= 31 {
        return Err(
            RangeError::InterfaceNetworkTooSmall {
                network: interface.network,
                prefix_length: interface.prefix_length,
            },
        );
    }
    Ok(
        SweepRange {
            first: interface.network + 1,
            last: interface.broadcast - 1,
            network: Some(interface.network),
            prefix_length: Some(interface.prefix_length),
            interface_name: Some(interface.name.clone()),
        },
    )
}

/// The inclusive range from `low` to `high`.
pub fn range_from_low_high(low: u32, high: u32) -> (range: Result<SweepRange, RangeError>)
    ensures
        low > high ==> range == Err::<SweepRange, RangeError>(RangeError::LowAboveHigh),
        low <= high ==> range == Ok::<SweepRange, RangeError>(
            SweepRange { first: low, last: high, network: None, prefix_length: None, interface_name: None },
        ),
{
    if low > high {
        return Err(RangeError::LowAboveHigh);
    }
    Ok(SweepRange { first: low, last: high, network: None, prefix_length: None, interface_name: None })
}

/// The host range of the network of `address` under `mask`.
pub fn range_from_network_mask(address: u32, mask: u32) -> (range: Result<SweepRange, RangeError>)
    ensures
        range == network_mask_range(address, mask),
{
    let prefix_length = match prefix_from_netmask(mask) {
        Some(p) => p,
        None => return Err(RangeError::InvalidMask { mask }),
    };
    proof {
        lemma_prefix_mask_roundtrip(prefix_length as u32);
        let p = choose|p: u32| p <= 32 && mask == prefix_mask(p);
        assert(p == prefix_length as u32);
    }
    if prefix_length >= 31 {
        return Err(RangeError::NetworkTooSmall);
    }
    proof {
        lemma_network_range_bounds(address, mask, prefix_length as u32);
    }
    let network = address & mask;
    let broadcast = network | !mask;
    Ok(
        SweepRange {
            first: network + 1,
            last: broadcast - 1,
            network: Some(network),
            prefix_length: Some(prefix_length),
            interface_name: None,
        },
    )
}

/// The host range of the network of `address` with prefix length `prefix`.
pub fn range_from_address_prefix(address: u32, prefix: u8) -> (range: Result<SweepRange, RangeError>)
    ensures
        range == address_prefix_range(address, prefix),
{
    if prefix > 32 {
        return Err(RangeError::PrefixOutOfRange);
    }
    if prefix >= 31 {
        return Err(RangeError::NetworkTooSmall);
    }
    let mask = mask_from_prefix(prefix);
    proof {
        lemma_prefix_mask_roundtrip(prefix as u32);
    }
    range_from_network_mask(address, mask)
}

/// The host range of a network written in CIDR notation, `ADDRESS/PREFIX`.
pub fn range_from_cidr(cidr: &str) -> (range: Result<SweepRange, RangeError>)
    ensures
        cidr_range_relation(cidr@, range),
{
    let chars = chars_of(cidr);
    let n = chars.len();
    let mut i: usize = 0;
    while i < n && chars[i] != '/'
        invariant
            n == cidr@.len(),
            chars@ == cidr@,
            i <= n,
            forall|j: int| 0 <= j < i ==> cidr@[j] != '/',
        decreases n - i,
    {
        i = i + 1;
    }
    proof {
        lemma_first_slash(cidr@, i as int);
    }
    if i == n {
        return Err(RangeError::MissingPrefix);
    }
    let address_text = cidr.substring_char(0, i);
    let prefix_text = cidr.substring_char(i + 1, n);
    assert(address_text@ =~= cidr@.take(i as int));
    assert(prefix_text@ =~= cidr@.skip(i + 1));
    let address = match parse_ipv4(address_text) {
        Some(a) => a,
        None => return Err(RangeError::InvalidAddress { text: String::from_str(address_text) }),
    };
    let prefix = match parse_u8(prefix_text) {
        Some(p) => p,
        None => return Err(RangeError::InvalidPrefix { text: String::from_str(prefix_text) }),
    };
    range_from_address_prefix(address, prefix)
}

/// Whether the whole range lies within one of the RFC 1918 private blocks
/// 10.0.0.0/8, 172.16.0.0/12 and 192.168.0.0/16.
pub fn range_is_rfc1918(range: &SweepRange) -> (private: bool)
    ensures
        private == in_private_block(range.first, range.last),
{
    let first = range.first;
    let last = range.last;
    let blocks: [(u32, u32); 3] = [
        (
            crate::text::ipv4_from_octets(10, 0, 0, 0),
            crate::text::ipv4_from_octets(10, 255, 255, 255),
        ),
        (
            crate::text::ipv4_from_octets(172, 16, 0, 0),
            crate::text::ipv4_from_octets(172, 31, 255, 255),
        ),
        (
            crate::text::ipv4_from_octets(192, 168, 0, 0),
            crate::text::ipv4_from_octets(192, 168, 255, 255),
        ),
    ];
    let mut i: usize = 0;
    while i < 3
        invariant
            i <= 3,
            first == range.first,
            last == range.last,
            blocks@ == seq![
                (0x0A00_0000u32, 0x0AFF_FFFFu32),
                (0xAC10_0000u32, 0xAC1F_FFFFu32),
                (0xC0A8_0000u32, 0xC0A8_FFFFu32),
            ],
            forall|j: int| 0 <= j < i ==> !(first >= blocks@[j].0 && last <= blocks@[j].1),
        decreases 3 - i,
    {
        let (start, end) = blocks[i];
        if first >= start && last <= end {
            assert(start == blocks@[i as int].0 && end == blocks@[i as int].1);
            proof {
                if i == 0 {
                    assert(blocks@[0] == (0x0A00_0000u32, 0x0AFF_FFFFu32));
                } else if i == 1 {
                    assert(blocks@[1] == (0xAC10_0000u32, 0xAC1F_FFFFu32));
                } else {
                    assert(blocks@[2] == (0xC0A8_0000u32, 0xC0A8_FFFFu32));
                }
            }
            return true;
        }
        i = i + 1;
    }
    false
}

/// Number of addresses in the range.
pub fn sweep_range_size(range: &SweepRange) -> (count: u64)
    requires
        range.first <= range.last,
    ensures
        count == range.last - range.first + 1,
{
    let first = range.first as u64;
    let last = range.last as u64;
    last - first + 1
}

/// The interface described by one IPv4 entry of the system's interface
/// list, when it is up, can broadcast, is not a loopback interface, and has
/// the requested name (if a name is requested).
pub fn interface_from_entry(
    name: String,
    is_up: bool,
    supports_broadcast: bool,
    is_loopback: bool,
    address: u32,
    mask: u32,
    requested: Option<&str>,
) -> (interface: Option<Ipv4Interface>)
    ensures
        interface == if is_up && supports_broadcast && !is_loopback && (match requested {
            Some(r) => r@ == name@,
            None => true,
        }) {
            Some(
                Ipv4Interface {
                    name,
                    address,
                    network: address & mask,
                    broadcast: address | !mask,
                    prefix_length: bit_count(mask) as u8,
                },
            )
        } else {
            None::<Ipv4Interface>
        },
        interface matches Some(i) ==> interface_range_defined(i),
{
    if !(is_up && supports_broadcast && !is_loopback) {
        return None;
    }
    if let Some(r) = requested {
        let wanted = String::from_str(r);
        if !(wanted == name) {
            return None;
        }
    }
    proof {
        lemma_interface_range_defined(name, address, mask);
    }
    let network = address & mask;
    let broadcast = address | !mask;
    let prefix_length = count_ones(mask) as u8;
    Some(Ipv4Interface { name, address, network, broadcast, prefix_length })
}

/// The sweep ranges of all given interfaces, or the error of the first one
/// without a host range; an error naming the request when there is none.
pub fn ranges_from_interfaces(requested: Option<String>, interfaces: &Vec<Ipv4Interface>) -> (ranges:
    Result<Vec<SweepRange>, RangeError>)
    requires
        forall|i: int| 0 <= i < interfaces@.len() ==> interface_range_defined(#[trigger] interfaces@[i]),
    ensures
        interfaces@.len() == 0 ==> ranges == Err::<Vec<SweepRange>, RangeError>(
            RangeError::NoInterfaces { requested },
        ),
        interfaces@.len() > 0 && (forall|i: int|
            0 <= i < interfaces@.len() ==> (#[trigger] interface_range(interfaces@[i])) is Ok) ==> (
        ranges matches Ok(v) && v@.len() == interfaces@.len() && forall|i: int|
            0 <= i < interfaces@.len() ==> Ok::<SweepRange, RangeError>(#[trigger] v@[i])
                == interface_range(interfaces@[i])),
        interfaces@.len() > 0 ==> (ranges matches Err(e) ==> exists|k: int|
            0 <= k < interfaces@.len() && (forall|j: int|
                0 <= j < k ==> (#[trigger] interface_range(interfaces@[j])) is Ok) && interface_range(
                interfaces@[k],
            ) == Err::<SweepRange, RangeError>(e)),
{
    if interfaces.len() == 0 {
        return Err(RangeError::NoInterfaces { requested });
    }
    let mut ranges: Vec<SweepRange> = Vec::new();
    let mut i: usize = 0;
    while i < interfaces.len()
        invariant
            i <= interfaces@.len(),
            interfaces@.len() > 0,
            forall|j: int| 0 <= j < interfaces@.len() ==> interface_range_defined(#[trigger] interfaces@[j]),
            ranges@.len() == i,
            forall|j: int|
                0 <= j < i ==> Ok::<SweepRange, RangeError>(#[trigger] ranges@[j]) == interface_range(
                    interfaces@[j],
                ),
        decreases interfaces@.len() - i,
    {
        match range_from_interface(&interfaces[i]) {
            Ok(range) => ranges.push(range),
            Err(e) => {
                assert forall|j: int| 0 <= j < i implies (#[trigger] interface_range(
                    interfaces@[j],
                )) is Ok by {
                    assert(Ok::<SweepRange, RangeError>(ranges@[j]) == interface_range(interfaces@[j]));
                }
                return Err(e);
            },
        }
        i = i + 1;
    }
    Ok(ranges)
}

} // verus!
