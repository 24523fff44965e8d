use vstd::prelude::*;

verus! {

/// The decimal digit character of `d` (0 to 9).
pub open spec fn digit_char(d: nat) -> char {
    (48 + d) as char
}

/// Decimal notation of `n`, without sign or leading zeros.
pub open spec fn decimal(n: nat) -> Seq<char>
    decreases n,
{
    if n < 10 {
        seq![digit_char(n)]
    } else {
        decimal(n / 10).push(digit_char(n % 10))
    }
}

/// Dotted-quad notation of an IPv4 address held as its 32-bit value.
pub open spec fn ipv4_dotted(address: u32) -> Seq<char> {
    decimal((address / 0x100_0000) as nat) + seq!['.'] + decimal(((address / 0x1_0000) % 256) as nat)
        + seq!['.'] + decimal(((address / 0x100) % 256) as nat) + seq!['.'] + decimal(
        (address % 256) as nat,
    )
}

/// `c` is an ASCII decimal digit.
pub open spec fn is_digit(c: char) -> bool {
    '0' <= c && c <= '9'
}

/// Every character of `s` is an ASCII decimal digit.
pub open spec fn all_digits(s: Seq<char>) -> bool {
    forall|i: int| 0 <= i < s.len() ==> is_digit(#[trigger] s[i])
}

/// Value of a string of decimal digits (0 for the empty string).
pub open spec fn digits_value(s: Seq<char>) -> nat
    decreases s.len(),
{
    if s.len() == 0 {
        0
    } else {
        digits_value(s.drop_last()) * 10 + ((s.last() as nat) - 48) as nat
    }
}

/// The pieces of `s` between '.' separators (one piece when there is none).
pub open spec fn split_on_dot(s: Seq<char>) -> Seq<Seq<char>>
    decreases s.len(),
{
    if s.len() == 0 {
        seq![Seq::<char>::empty()]
    } else {
        let rest = split_on_dot(s.drop_last());
        if s.last() == '.' {
            rest.push(Seq::<char>::empty())
        } else {
            rest.update(rest.len() - 1, rest.last().push(s.last()))
        }
    }
}

/// A decimal octet as IPv4 dotted-quad text writes it: one to three digits,
/// no leading zero unless the octet is "0", value at most 255.
pub open spec fn is_octet_text(s: Seq<char>) -> bool {
    &&& 1 <= s.len() <= 3
    &&& all_digits(s)
    &&& (s.len() == 1 || s[0] != '0')
    &&& digits_value(s) <= 255
}

/// IPv4 address text: exactly four octets separated by '.', nothing else;
/// the result is the address's 32-bit value.
pub open spec fn spec_parse_ipv4(s: Seq<char>) -> Option<u32> {
    let parts = split_on_dot(s);
    if parts.len() == 4 && is_octet_text(parts[0]) && is_octet_text(parts[1]) && is_octet_text(
        parts[2],
    ) && is_octet_text(parts[3]) {
        Some(
            (digits_value(parts[0]) * 0x100_0000 + digits_value(parts[1]) * 0x1_0000
                + digits_value(parts[2]) * 0x100 + digits_value(parts[3])) as u32,
        )
    } else {
        None
    }
}

/// The digits of an unsigned decimal number text: an optional leading '+'
/// is dropped.
pub open spec fn unsigned_digits(s: Seq<char>) -> Seq<char> {
    if s.len() > 0 && s[0] == '+' {
        s.drop_first()
    } else {
        s
    }
}

/// Decimal text of a `u8`: an optional '+', then at least one digit (leading
/// zeros allowed), value at most 255.
pub open spec fn spec_parse_u8(s: Seq<char>) -> Option<u8> {
    let d = unsigned_digits(s);
    if d.len() > 0 && all_digits(d) && digits_value(d) <= 255 {
        Some(digits_value(d) as u8)
    } else {
        None
    }
}

/// `c` has the Unicode White_Space property: U+0009 to U+000D, U+0020,
/// U+0085, U+00A0, U+1680, U+2000 to U+200A, U+2028, U+2029, U+202F, U+205F
/// and U+3000.
pub open spec fn is_white_space(c: char) -> bool {
    ||| '\u{9}' <= c && c <= '\u{d}'
    ||| c == ' '
    ||| c == '\u{85}'
    ||| c == '\u{a0}'
    ||| c == '\u{1680}'
    ||| '\u{2000}' <= c && c <= '\u{200a}'
    ||| c == '\u{2028}'
    ||| c == '\u{2029}'
    ||| c == '\u{202f}'
    ||| c == '\u{205f}'
    ||| c == '\u{3000}'
}

/// `s` without its leading white space.
pub open spec fn trim_start(s: Seq<char>) -> Seq<char>
    decreases s.len(),
{
    if s.len() > 0 && is_white_space(s[0]) {
        trim_start(s.drop_first())
    } else {
        s
    }
}

/// `s` without its trailing white space.
pub open spec fn trim_end(s: Seq<char>) -> Seq<char>
    decreases s.len(),
{
    if s.len() > 0 && is_white_space(s.last()) {
        trim_end(s.drop_last())
    } else {
        s
    }
}

/// `s` without leading and trailing white space, as `str::trim` gives it.
pub open spec fn trimmed(s: Seq<char>) -> Seq<char> {
    trim_end(trim_start(s))
}

/// `c` with an ASCII upper-case letter replaced by its lower-case letter.
pub open spec fn ascii_lower_char(c: char) -> char {
    if 'A' <= c && c <= 'Z' {
        ((c as u32) + 32) as char
    } else {
        c
    }
}

/// The one-character text of the decimal digit `d`.
fn digit_text(d: u64) -> (text: &'static str)
    requires
        d < 10,
    ensures
        text@ == seq![digit_char(d as nat)],
{
    let digits = "0123456789";
    proof {
        reveal_strlit("0123456789");
    }
    let text = digits.substring_char(d as usize, (d + 1) as usize);
    assert(text@ =~= seq![digit_char(d as nat)]);
    text
}

/// Appends the decimal notation of `n` to `text`.
fn append_decimal(n: u64, text: &mut String)
    ensures
        final(text)@ == old(text)@ + decimal(n as nat),
    decreases n,
{
    if n >= 10 {
        append_decimal(n / 10, text);
    }
    text.append(digit_text(n % 10));
    assert(decimal(n as nat) == if n < 10 {
        seq![digit_char(n as nat)]
    } else {
        decimal((n / 10) as nat).push(digit_char((n % 10) as nat))
    });
    assert(final(text)@ =~= old(text)@ + decimal(n as nat));
}

/// Decimal text of `n`, without sign, padding or leading zeros.
pub(crate) fn decimal_text(n: u64) -> (text: String)
    ensures
        text@ == decimal(n as nat),
{
    let mut text = String::new();
    append_decimal(n, &mut text);
    assert(text@ =~= decimal(n as nat));
    text
}

/// Decimal notation of a `u8`.
pub open spec fn decimal_u8(n: u8) -> Seq<char> {
    decimal(n as nat)
}

/// Decimal notation of a `u16`.
pub open spec fn decimal_u16(n: u16) -> Seq<char> {
    decimal(n as nat)
}

/// Decimal notation of a `u32`.
pub open spec fn decimal_u32(n: u32) -> Seq<char> {
    decimal(n as nat)
}

/// Decimal text of a `u8`.
pub fn u8_text(n: u8) -> (text: String)
    ensures
        text@ == decimal_u8(n),
{
    decimal_text(n as u64)
}

/// Decimal text of a `u16`.
pub fn u16_text(n: u16) -> (text: String)
    ensures
        text@ == decimal_u16(n),
{
    decimal_text(n as u64)
}

/// Decimal text of a `u32`.
pub fn u32_text(n: u32) -> (text: String)
    ensures
        text@ == decimal_u32(n),
{
    decimal_text(n as u64)
}

/// Writes an IPv4 address in dotted-quad notation, as `std::net::Ipv4Addr`
/// displays it.
pub fn ipv4_text(address: u32) -> (text: String)
    ensures
        text@ == ipv4_dotted(address),
{
    let dot = ".";
    proof {
        reveal_strlit(".");
    }
    let mut text = decimal_text((address / 0x100_0000) as u64);
    text.append(dot);
    let second = decimal_text(((address / 0x1_0000) % 256) as u64);
    text.append(second.as_str());
    text.append(dot);
    let third = decimal_text(((address / 0x100) % 256) as u64);
    text.append(third.as_str());
    text.append(dot);
    let fourth = decimal_text((address % 256) as u64);
    text.append(fourth.as_str());
    text
}

/// Builds an IPv4 address from its four octets, first octet most significant.
pub fn ipv4_from_octets(a: u8, b: u8, c: u8, d: u8) -> (address: u32)
    ensures
        address == (a as nat) * 0x100_0000 + (b as nat) * 0x1_0000 + (c as nat) * 0x100 + (d as nat),
{
    (a as u32) * 0x100_0000 + (b as u32) * 0x1_0000 + (c as u32) * 0x100 + (d as u32)
}

proof fn lemma_digit_char(d: nat)
    requires
        d < 10,
    ensures
        digit_char(d) as nat == 48 + d,
        is_digit(digit_char(d)),
        digit_char(d) != '.',
        d >= 1 ==> digit_char(d) != '0',
{
}

proof fn lemma_decimal_digits(n: nat)
    ensures
        decimal(n).len() >= 1,
        all_digits(decimal(n)),
        digits_value(decimal(n)) == n,
        n < 10 ==> decimal(n).len() == 1,
        n < 100 ==> decimal(n).len() <= 2,
        n < 1000 ==> decimal(n).len() <= 3,
        n >= 1 ==> decimal(n)[0] != '0',
        !decimal(n).contains('.'),
    decreases n,
{
    if n >= 10 {
        lemma_decimal_digits(n / 10);
        lemma_digit_char(n % 10);
        let s = decimal(n / 10);
        let t = decimal(n);
        assert(t == s.push(digit_char(n % 10)));
        assert(t.drop_last() =~= s);
        assert(t.last() == digit_char(n % 10));
        assert(digits_value(t) == digits_value(s) * 10 + (n % 10));
        assert(n == (n / 10) * 10 + n % 10);
        assert forall|i: int| 0 <= i < t.len() implies is_digit(#[trigger] t[i]) by {
            if i < s.len() {
                assert(t[i] == s[i]);
            }
        }
        assert(t[0] == s[0]);
        if t.contains('.') {
            let k = choose|k: int| 0 <= k < t.len() && t[k] == '.';
            if k < s.len() {
                assert(s[k] == '.');
                assert(s.contains('.'));
            }
        }
    } else {
        lemma_digit_char(n);
        assert(decimal(n) =~= seq![digit_char(n)]);
        assert(decimal(n).drop_last() =~= Seq::<char>::empty());
        assert(digits_value(Seq::<char>::empty()) == 0);
        assert(decimal(n).last() == digit_char(n));
    }
}

proof fn lemma_split_nonempty(s: Seq<char>)
    ensures
        split_on_dot(s).len() >= 1,
    decreases s.len(),
{
    if s.len() > 0 {
        lemma_split_nonempty(s.drop_last());
    }
}

proof fn lemma_split_without_dot(s: Seq<char>)
    requires
        !s.contains('.'),
    ensures
        split_on_dot(s) == seq![s],
    decreases s.len(),
{
    if s.len() > 0 {
        let r = s.drop_last();
        assert(!r.contains('.')) by {
            if r.contains('.') {
                let k = choose|k: int| 0 <= k < r.len() && r[k] == '.';
                assert(s[k] == '.');
            }
        }
        lemma_split_without_dot(r);
        assert(s.last() != '.') by {
            assert(s[s.len() - 1] == s.last());
        }
        assert(r.push(s.last()) =~= s);
    } else {
        assert(s =~= Seq::<char>::empty());
    }
}

proof fn lemma_split_concat(s: Seq<char>, t: Seq<char>)
    ensures
        split_on_dot(s + seq!['.'] + t) == split_on_dot(s) + split_on_dot(t),
    decreases t.len(),
{
    lemma_split_nonempty(s);
    if t.len() == 0 {
        assert(s + seq!['.'] + t =~= s + seq!['.']);
        assert((s + seq!['.']).drop_last() =~= s);
        assert(split_on_dot(s) + split_on_dot(t) =~= split_on_dot(s).push(Seq::<char>::empty()));
    } else {
        let t0 = t.drop_last();
        let c = t.last();
        lemma_split_concat(s, t0);
        lemma_split_nonempty(t0);
        let whole = s + seq!['.'] + t;
        assert(whole.drop_last() =~= s + seq!['.'] + t0);
        assert(whole.last() == c);
        let a = split_on_dot(s);
        let b = split_on_dot(t0);
        if c == '.' {
            assert((a + b).push(Seq::<char>::empty()) =~= a + b.push(Seq::<char>::empty()));
        } else {
            let ab = a + b;
            assert(ab.last() == b.last());
            assert(ab.update(ab.len() - 1, ab.last().push(c)) =~= a + b.update(
                b.len() - 1,
                b.last().push(c),
            ));
        }
    }
}

proof fn lemma_octet_text(n: nat)
    requires
        n <= 255,
    ensures
        is_octet_text(decimal(n)),
        digits_value(decimal(n)) == n,
        !decimal(n).contains('.'),
{
    lemma_decimal_digits(n);
    if decimal(n).len() > 1 {
        assert(n >= 10);
    }
}

proof fn lemma_dotted_parts(d1: Seq<char>, d2: Seq<char>, d3: Seq<char>, d4: Seq<char>)
    requires
        !d1.contains('.'),
        !d2.contains('.'),
        !d3.contains('.'),
        !d4.contains('.'),
    ensures
        split_on_dot(d1 + seq!['.'] + d2 + seq!['.'] + d3 + seq!['.'] + d4) == seq![d1, d2, d3, d4],
{
    lemma_split_without_dot(d1);
    lemma_split_without_dot(d2);
    lemma_split_without_dot(d3);
    lemma_split_without_dot(d4);
    lemma_split_concat(d1, d2);
    lemma_split_concat(d1 + seq!['.'] + d2, d3);
    lemma_split_concat(d1 + seq!['.'] + d2 + seq!['.'] + d3, d4);
    assert(seq![d1] + seq![d2] + seq![d3] + seq![d4] =~= seq![d1, d2, d3, d4]);
}

proof fn lemma_octets_compose(address: u32)
    ensures
        address as nat == (address / 0x100_0000) as nat * 0x100_0000 + ((address / 0x1_0000) % 256) as nat
            * 0x1_0000 + ((address / 0x100) % 256) as nat * 0x100 + (address % 256) as nat,
        address / 0x100_0000 <= 255,
{
    let a = address as int;
    assert(a == (a / 0x100_0000) * 0x100_0000 + ((a / 0x1_0000) % 256) * 0x1_0000 + ((a / 0x100) % 256) * 0x100
        + a % 256) by (nonlinear_arith)
        requires
            0 <= a,
    {
        assert(a / 0x1_0000 == (a / 0x100_0000) * 256 + (a / 0x1_0000) % 256);
        assert(a / 0x100 == (a / 0x1_0000) * 256 + (a / 0x100) % 256);
        assert(a == (a / 0x100) * 256 + a % 256);
    }
}

/// Law: the dotted-quad text written for an address parses back to that
/// address.
pub proof fn lemma_ipv4_text_roundtrip(address: u32)
    ensures
        spec_parse_ipv4(ipv4_dotted(address)) == Some(address),
{
    let n1 = (address / 0x100_0000) as nat;
    let n2 = ((address / 0x1_0000) % 256) as nat;
    let n3 = ((address / 0x100) % 256) as nat;
    let n4 = (address % 256) as nat;
    lemma_octets_compose(address);
    lemma_octet_text(n1);
    lemma_octet_text(n2);
    lemma_octet_text(n3);
    lemma_octet_text(n4);
    lemma_dotted_parts(decimal(n1), decimal(n2), decimal(n3), decimal(n4));
}

/// The characters of `text`.
pub fn chars_of(text: &str) -> (chars: Vec<char>)
    ensures
        chars@ == text@,
{
    let n = text.unicode_len();
    let mut chars: Vec<char> = Vec::new();
    let mut i: usize = 0;
    while i < n
        invariant
            n == text@.len(),
            i <= n,
            chars@ == text@.take(i as int),
        decreases n - i,
    {
        let c = text.get_char(i);
        chars.push(c);
        i = i + 1;
        assert(chars@ =~= text@.take(i as int));
    }
    assert(text@.take(n as int) =~= text@);
    chars
}

proof fn lemma_digits_value_step(s: Seq<char>, i: int)
    requires
        0 <= i < s.len(),
    ensures
        digits_value(s.take(i + 1)) == digits_value(s.take(i)) * 10 + ((s[i] as nat) - 48) as nat,
{
    assert(s.take(i + 1).drop_last() =~= s.take(i));
}

proof fn lemma_digits_value_grows(s: Seq<char>, i: int)
    requires
        0 <= i <= s.len(),
        all_digits(s),
    ensures
        digits_value(s.take(i)) <= digits_value(s),
    decreases s.len() - i,
{
    if i < s.len() {
        lemma_digits_value_step(s, i);
        lemma_digits_value_grows(s, i + 1);
    } else {
        assert(s.take(i) =~= s);
    }
}

/// Value of the decimal digit string `s` when it is one and its value is at
/// most `limit`; `None` otherwise.
fn bounded_digits_value(s: &Vec<char>, start: usize, limit: u32) -> (value: Option<u32>)
    requires
        start <= s@.len(),
        limit <= 1000,
    ensures
        ({
            let d = s@.skip(start as int);
            value == if all_digits(d) && digits_value(d) <= limit {
                Some(digits_value(d) as u32)
            } else {
                None::<u32>
            }
        }),
{
    let ghost d = s@.skip(start as int);
    let mut value: u32 = 0;
    let mut i: usize = start;
    while i < s.len()
        invariant
            start <= i <= s@.len(),
            d == s@.skip(start as int),
            limit <= 1000,
            all_digits(d.take(i - start)),
            value == digits_value(d.take(i - start)),
            value <= limit,
        decreases s@.len() - i,
    {
        let c = s[i];
        if !('0' <= c && c <= '9') {
            assert(!is_digit(d[i - start]));
            return None;
        }
        proof {
            lemma_digits_value_step(d, i - start);
            assert(all_digits(d.take(i - start + 1))) by {
                assert forall|k: int| 0 <= k < i - start + 1 implies is_digit(
                    #[trigger] d.take(i - start + 1)[k],
                ) by {
                    if k < i - start {
                        assert(d.take(i - start + 1)[k] == d.take(i - start)[k]);
                    }
                }
            }
        }
        value = value * 10 + ((c as u32) - 48);
        i = i + 1;
        if value > limit {
            proof {
                if all_digits(d) {
                    lemma_digits_value_grows(d, i - start);
                }
            }
            return None;
        }
    }
    assert(d.take(i - start) =~= d);
    Some(value)
}

/// Parses the text of a `u8` as `str::parse::<u8>` accepts it: an optional
/// '+', then decimal digits whose value is at most 255.
pub fn parse_u8(text: &str) -> (value: Option<u8>)
    ensures
        value == spec_parse_u8(text@),
{
    let chars = chars_of(text);
    let start: usize = if chars.len() > 0 && chars[0] == '+' {
        1
    } else {
        0
    };
    assert(chars@.skip(start as int) =~= unsigned_digits(text@));
    if start >= chars.len() {
        return None;
    }
    match bounded_digits_value(&chars, start, 255) {
        Some(v) => Some(v as u8),
        None => None,
    }
}

/// Parses one octet of dotted-quad text.
fn parse_octet(piece: &Vec<char>) -> (octet: Option<u8>)
    ensures
        octet == if is_octet_text(piece@) {
            Some(digits_value(piece@) as u8)
        } else {
            None::<u8>
        },
{
    if piece.len() < 1 || piece.len() > 3 {
        return None;
    }
    if piece.len() > 1 && piece[0] == '0' {
        return None;
    }
    assert(piece@.skip(0) =~= piece@);
    match bounded_digits_value(piece, 0, 255) {
        Some(v) => Some(v as u8),
        None => None,
    }
}

/// Splits `s` at every '.'.
fn split_dots(s: &Vec<char>) -> (parts: Vec<Vec<char>>)
    ensures
        parts@.len() == split_on_dot(s@).len(),
        forall|j: int| 0 <= j < parts@.len() ==> #[trigger] parts@[j]@ == split_on_dot(s@)[j],
{
    let mut done: Vec<Vec<char>> = Vec::new();
    let mut current: Vec<char> = Vec::new();
    let mut i: usize = 0;
    assert(s@.take(0) =~= Seq::<char>::empty());
    while i < s.len()
        invariant
            i <= s@.len(),
            split_on_dot(s@.take(i as int)).len() == done@.len() + 1,
            forall|j: int|
                0 <= j < done@.len() ==> #[trigger] done@[j]@ == split_on_dot(s@.take(i as int))[j],
            split_on_dot(s@.take(i as int))[done@.len() as int] == current@,
        decreases s@.len() - i,
    {
        let c = s[i];
        assert(s@.take(i + 1).drop_last() =~= s@.take(i as int));
        if c == '.' {
            done.push(current);
            current = Vec::new();
        } else {
            current.push(c);
        }
        i = i + 1;
    }
    assert(s@.take(i as int) =~= s@);
    done.push(current);
    done
}

/// Parses IPv4 dotted-quad text as `str::parse::<std::net::Ipv4Addr>`
/// accepts it: four decimal octets of one to three digits separated by '.',
/// without leading zeros, each at most 255.
pub fn parse_ipv4(text: &str) -> (address: Option<u32>)
    ensures
        address == spec_parse_ipv4(text@),
{
    let chars = chars_of(text);
    let parts = split_dots(&chars);
    if parts.len() != 4 {
        return None;
    }
    let a = match parse_octet(&parts[0]) {
        Some(v) => v,
        None => return None,
    };
    let b = match parse_octet(&parts[1]) {
        Some(v) => v,
        None => return None,
    };
    let c = match parse_octet(&parts[2]) {
        Some(v) => v,
        None => return None,
    };
    let d = match parse_octet(&parts[3]) {
        Some(v) => v,
        None => return None,
    };
    Some(ipv4_from_octets(a, b, c, d))
}

/// Whether `c` has the Unicode White_Space property.
fn white_space(c: char) -> (b: bool)
    ensures
        b == is_white_space(c),
{
    ('\u{9}' <= c && c <= '\u{d}') || c == ' ' || c == '\u{85}' || c == '\u{a0}' || c == '\u{1680}'
        || ('\u{2000}' <= c && c <= '\u{200a}') || c == '\u{2028}' || c == '\u{2029}' || c == '\u{202f}'
        || c == '\u{205f}' || c == '\u{3000}'
}

/// The bounds of `chars` with leading and trailing white space left out.
fn trim_bounds(chars: &Vec<char>) -> (bounds: (usize, usize))
    ensures
        bounds.0 <= bounds.1 <= chars@.len(),
        chars@.subrange(bounds.0 as int, bounds.1 as int) == trimmed(chars@),
{
    let ghost s = chars@;
    let len = chars.len();
    let mut start: usize = 0;
    assert(s.subrange(0, len as int) =~= s);
    while start < len && white_space(chars[start])
        invariant
            s == chars@,
            len == s.len(),
            start <= len,
            trim_start(s) == trim_start(s.subrange(start as int, len as int)),
        decreases len - start,
    {
        assert(s.subrange(start as int, len as int).drop_first() =~= s.subrange(start + 1, len as int));
        start = start + 1;
    }
    assert(trim_start(s) == s.subrange(start as int, len as int));
    let mut end: usize = len;
    while end > start && white_space(chars[end - 1])
        invariant
            s == chars@,
            len == s.len(),
            start <= end <= len,
            trimmed(s) == trim_end(s.subrange(start as int, end as int)),
        decreases end - start,
    {
        assert(s.subrange(start as int, end as int).drop_last() =~= s.subrange(start as int, end - 1));
        end = end - 1;
    }
    (start, end)
}

/// Whether an answer to a yes/no question accepts: after trimming white
/// space and lower-casing ASCII letters, it is "y" or "yes".
pub fn is_affirmative(answer: &str) -> (accepted: bool)
    ensures
        accepted == ({
            let t = trimmed(answer@).map_values(|c: char| ascii_lower_char(c));
            t == seq!['y'] || t == seq!['y', 'e', 's']
        }),
{
    let chars = chars_of(answer);
    let (start, end) = trim_bounds(&chars);
    let ghost trimmed_chars = chars@.subrange(start as int, end as int);
    let ghost t = trimmed_chars.map_values(|c: char| ascii_lower_char(c));
    let mut lowered: Vec<char> = Vec::new();
    let mut i: usize = start;
    while i < end
        invariant
            start <= i <= end <= chars@.len(),
            trimmed_chars == chars@.subrange(start as int, end as int),
            lowered@ == trimmed_chars.take(i - start).map_values(|c: char| ascii_lower_char(c)),
        decreases end - i,
    {
        let c = chars[i];
        let l = if 'A' <= c && c <= 'Z' {
            ((c as u8) + 32) as char
        } else {
            c
        };
        assert(l == ascii_lower_char(c));
        lowered.push(l);
        i = i + 1;
        assert(lowered@ =~= trimmed_chars.take(i - start).map_values(|c: char| ascii_lower_char(c)));
    }
    assert(trimmed_chars.take(i - start) =~= trimmed_chars);
    assert(lowered@ == t);
    if lowered.len() == 1 {
        let yes = lowered[0] == 'y';
        assert(yes == (t =~= seq!['y']));
        assert(t.len() != 3);
        yes
    } else if lowered.len() == 3 {
        let yes = lowered[0] == 'y' && lowered[1] == 'e' && lowered[2] == 's';
        assert(yes == (t =~= seq!['y', 'e', 's']));
        yes
    } else {
        false
    }
}

} // verus!
