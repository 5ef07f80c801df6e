//! Recognisers for the address tokens that appear in reservation lines:
//! hardware (MAC) addresses and IPv4 / IPv6 literals.
//!
//! Each shape is small enough to be stated in full. As regular
//! expressions they read
//!
//! - MAC address: `([0-9a-fA-F]{2}:){5}[0-9a-fA-F]{2}`, searched for
//!   anywhere in a text, leftmost first;
//! - IPv4 literal: `^(?:(?:25[0-5]|2[0-4][0-9]|[01]?[0-9][0-9]?)\.){3}(?:25[0-5]|2[0-4][0-9]|[01]?[0-9][0-9]?)$`;
//! - IPv6 literal: `^([0-9a-fA-F]{1,4}:){7}[0-9a-fA-F]{1,4}$`.

use crate::text::{chars_of, contains_text, occurs_at, split, split_on, substring};
use vstd::prelude::*;

verus! {

/// Number of characters of a MAC address written as six colon-separated
/// pairs of hex digits.
pub const MAC_LEN: usize = 17;

/// `c` is an ASCII decimal digit.
pub open spec fn is_digit(c: char) -> bool {
    '0' <= c <= '9'
}

/// `c` is an ASCII hex digit, in either case.
pub open spec fn is_hex_digit(c: char) -> bool {
    is_digit(c) || 'a' <= c <= 'f' || 'A' <= c <= 'F'
}

/// What position `k` of a MAC address must hold: a colon after every pair,
/// a hex digit elsewhere.
pub open spec fn mac_char_ok(c: char, k: int) -> bool {
    if k % 3 == 2 {
        c == ':'
    } else {
        is_hex_digit(c)
    }
}

/// `t` is a MAC address: six pairs of hex digits with a colon between
/// neighbouring pairs, such as `AA:BB:CC:DD:EE:FF`.
pub open spec fn is_mac(t: Seq<char>) -> bool {
    &&& t.len() == MAC_LEN
    &&& forall|k: int| 0 <= k < MAC_LEN ==> mac_char_ok(#[trigger] t[k], k)
}

/// A MAC address stands in `s` at position `i`.
pub open spec fn is_mac_at(s: Seq<char>, i: int) -> bool {
    &&& 0 <= i
    &&& i + MAC_LEN <= s.len()
    &&& is_mac(s.subrange(i, i + MAC_LEN))
}

/// The first position at or after `from` where a MAC address stands in `s`.
pub open spec fn first_mac(s: Seq<char>, from: int) -> Option<int>
    decreases s.len() - from,
{
    if from < 0 || from + MAC_LEN > s.len() {
        None
    } else if is_mac_at(s, from) {
        Some(from)
    } else {
        first_mac(s, from + 1)
    }
}

/// The leftmost MAC address in `s`, if `s` holds one.
pub open spec fn mac_token(s: Seq<char>) -> Option<Seq<char>> {
    match first_mac(s, 0) {
        Some(i) => Some(s.subrange(i, i + MAC_LEN)),
        None => None,
    }
}

/// The number that the decimal digit `c` stands for.
pub open spec fn digit_value(c: char) -> int {
    c as int - '0' as int
}

/// One part of a dotted IPv4 literal: one to three decimal digits that
/// denote at most 255. Leading zeros are accepted, so `007` is an octet and
/// `256` is none.
pub open spec fn is_ipv4_octet(s: Seq<char>) -> bool {
    &&& 1 <= s.len() <= 3
    &&& forall|k: int| 0 <= k < s.len() ==> is_digit(#[trigger] s[k])
    &&& s.len() == 3 ==> digit_value(s[0]) * 100 + digit_value(s[1]) * 10 + digit_value(s[2])
        <= 255
}

/// `s` is four IPv4 octets joined by dots, and nothing else.
pub open spec fn is_ipv4_literal(s: Seq<char>) -> bool {
    let parts = split_on(s, '.');
    &&& parts.len() == 4
    &&& forall|k: int| 0 <= k < 4 ==> is_ipv4_octet(#[trigger] parts[k])
}

/// One group of a full IPv6 literal: one to four hex digits.
pub open spec fn is_ipv6_group(s: Seq<char>) -> bool {
    &&& 1 <= s.len() <= 4
    &&& forall|k: int| 0 <= k < s.len() ==> is_hex_digit(#[trigger] s[k])
}

/// `s` is eight IPv6 groups joined by colons, and nothing else. The
/// abbreviated forms (`::`) are not literals in this sense.
pub open spec fn is_ipv6_literal(s: Seq<char>) -> bool {
    let parts = split_on(s, ':');
    &&& parts.len() == 8
    &&& forall|k: int| 0 <= k < 8 ==> is_ipv6_group(#[trigger] parts[k])
}

/// `s` is an IPv4 or an IPv6 literal.
pub open spec fn is_ip_literal(s: Seq<char>) -> bool {
    is_ipv4_literal(s) || is_ipv6_literal(s)
}

/// No MAC address stands in `s` from `from` on exactly when `first_mac`
/// finds none; what it finds is the least such position.
pub proof fn lemma_first_mac(s: Seq<char>, from: int)
    requires
        0 <= from,
    ensures
        match first_mac(s, from) {
            Some(i) => from <= i && is_mac_at(s, i) && forall|j: int|
                from <= j < i ==> !is_mac_at(s, j),
            None => forall|j: int| from <= j ==> !is_mac_at(s, j),
        },
    decreases s.len() - from,
{
    if from + MAC_LEN <= s.len() && !is_mac_at(s, from) {
        lemma_first_mac(s, from + 1);
    }
}

/// A token that `mac_token` returns is a MAC address, and it stands in
/// `s`; where it returns none, no MAC address stands anywhere in `s`.
pub proof fn law_mac_token_is_mac(s: Seq<char>)
    ensures
        match mac_token(s) {
            Some(m) => is_mac(m) && contains_text(s, m),
            None => forall|j: int| !is_mac_at(s, j),
        },
{
    lemma_first_mac(s, 0);
    if let Some(i) = first_mac(s, 0) {
        assert(occurs_at(s, s.subrange(i, i + MAC_LEN), i));
    }
}

/// Whether `c` is an ASCII decimal digit.
pub fn is_digit_char(c: char) -> (ok: bool)
    ensures
        ok == is_digit(c),
{
    '0' <= c && c <= '9'
}

/// Whether `c` is an ASCII hex digit.
pub fn is_hex_digit_char(c: char) -> (ok: bool)
    ensures
        ok == is_hex_digit(c),
{
    ('0' <= c && c <= '9') || ('a' <= c && c <= 'f') || ('A' <= c && c <= 'F')
}

/// Whether a MAC address stands in `chars` at position `i`.
fn mac_starts_at(chars: &Vec<char>, i: usize) -> (found: bool)
    requires
        i + MAC_LEN <= chars.len(),
    ensures
        found == is_mac_at(chars@, i as int),
{
    let ghost t = chars@.subrange(i as int, i + MAC_LEN);
    let mut k: usize = 0;
    while k < MAC_LEN
        invariant
            k <= MAC_LEN,
            i + MAC_LEN <= chars.len(),
            t == chars@.subrange(i as int, i + MAC_LEN),
            forall|j: int| 0 <= j < k ==> mac_char_ok(#[trigger] t[j], j),
        decreases MAC_LEN - k,
    {
        let c = chars[i + k];
        assert(t[k as int] == c);
        let ok = if k % 3 == 2 {
            c == ':'
        } else {
            is_hex_digit_char(c)
        };
        if !ok {
            assert(!mac_char_ok(t[k as int], k as int));
            return false;
        }
        k += 1;
    }
    true
}

/// Extracts the leftmost MAC address from `s`.
pub fn get_mac_addr(s: &str) -> (token: Option<String>)
    ensures
        token.deep_view() == mac_token(s@),
{
    let chars = chars_of(s);
    if chars.len() < MAC_LEN {
        return None;
    }
    let last: usize = chars.len() - MAC_LEN;
    let mut i: usize = 0;
    while i < last
        invariant
            chars@ == s@,
            last == chars.len() - MAC_LEN,
            i <= last,
            first_mac(s@, 0) == first_mac(s@, i as int),
        decreases last - i,
    {
        if mac_starts_at(&chars, i) {
            return Some(substring(&chars, i, i + MAC_LEN));
        }
        i += 1;
    }
    if mac_starts_at(&chars, last) {
        Some(substring(&chars, last, last + MAC_LEN))
    } else {
        assert(first_mac(s@, last + 1) is None);
        None
    }
}

/// Whether `part` is an IPv4 octet.
fn is_octet(part: &str) -> (ok: bool)
    ensures
        ok == is_ipv4_octet(part@),
{
    let chars = chars_of(part);
    let n: usize = chars.len();
    if n < 1 || n > 3 {
        return false;
    }
    let mut k: usize = 0;
    while k < n
        invariant
            k <= n,
            n == chars.len(),
            chars@ == part@,
            forall|j: int| 0 <= j < k ==> is_digit(#[trigger] chars@[j]),
        decreases n - k,
    {
        if !is_digit_char(chars[k]) {
            return false;
        }
        k += 1;
    }
    if n < 3 {
        return true;
    }
    let a = chars[0];
    let b = chars[1];
    let c = chars[2];
    // Three digits denote at most 255 exactly in these three shapes.
    a == '0' || a == '1' || (a == '2' && (b <= '4' || (b == '5' && c <= '5')))
}

/// Whether `part` is an IPv6 group.
fn is_group(part: &str) -> (ok: bool)
    ensures
        ok == is_ipv6_group(part@),
{
    let chars = chars_of(part);
    let n: usize = chars.len();
    if n < 1 || n > 4 {
        return false;
    }
    let mut k: usize = 0;
    while k < n
        invariant
            k <= n,
            n == chars.len(),
            chars@ == part@,
            forall|j: int| 0 <= j < k ==> is_hex_digit(#[trigger] chars@[j]),
        decreases n - k,
    {
        if !is_hex_digit_char(chars[k]) {
            return false;
        }
        k += 1;
    }
    true
}

/// Whether `s` is an IPv4 literal.
pub fn is_valid_ipv4_addr(s: &str) -> (ok: bool)
    ensures
        ok == is_ipv4_literal(s@),
{
    let parts = split(s, '.');
    if parts.len() != 4 {
        return false;
    }
    let mut k: usize = 0;
    while k < 4
        invariant
            k <= 4,
            parts.len() == 4,
            parts.deep_view() == split_on(s@, '.'),
            forall|j: int| 0 <= j < k ==> is_ipv4_octet(#[trigger] split_on(s@, '.')[j]),
        decreases 4 - k,
    {
        assert(parts.deep_view()[k as int] == parts@[k as int]@);
        if !is_octet(parts[k].as_str()) {
            return false;
        }
        k += 1;
    }
    true
}

/// Whether `s` is a full IPv6 literal.
pub fn is_valid_ipv6_addr(s: &str) -> (ok: bool)
    ensures
        ok == is_ipv6_literal(s@),
{
    let parts = split(s, ':');
    if parts.len() != 8 {
        return false;
    }
    let mut k: usize = 0;
    while k < 8
        invariant
            k <= 8,
            parts.len() == 8,
            parts.deep_view() == split_on(s@, ':'),
            forall|j: int| 0 <= j < k ==> is_ipv6_group(#[trigger] split_on(s@, ':')[j]),
        decreases 8 - k,
    {
        assert(parts.deep_view()[k as int] == parts@[k as int]@);
        if !is_group(parts[k].as_str()) {
            return false;
        }
        k += 1;
    }
    true
}

/// Whether `s` is an IPv4 or an IPv6 literal.
pub fn is_valid_ip_addr(s: &str) -> (ok: bool)
    ensures
        ok == is_ip_literal(s@),
{
    is_valid_ipv4_addr(s) || is_valid_ipv6_addr(s)
}

} // verus!
