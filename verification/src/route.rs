//! The request paths the service answers, and how an identifier is read from
//! a path segment.
//!
//! Two paths lead somewhere: `/api/position/current`, and `/api/position/`
//! followed by an unsigned decimal identifier. Every other path leads
//! nowhere.

use vstd::prelude::*;
use vstd::string::StrSliceExecFns;

verus! {

/// Where a request path leads.
#[derive(Clone, Copy, Debug, PartialEq, Eq, Structural)]
pub enum Route {
    /// The query for the current position.
    CurrentPosition,
    /// The query for the position that the identifier names.
    PositionById(u32),
}

/// Whether `c` is one of the ten decimal digits `0` to `9`.
pub open spec fn is_digit(c: char) -> bool {
    '0' <= c && c <= '9'
}

/// The number a decimal digit stands for.
pub open spec fn digit_value(c: char) -> nat {
    if is_digit(c) {
        (c as nat - '0' as nat) as nat
    } else {
        0
    }
}

/// Whether `s` holds decimal digits and nothing else.
pub open spec fn all_digits(s: Seq<char>) -> bool {
    forall|i: int| 0 <= i < s.len() ==> is_digit(#[trigger] s[i])
}

/// The number that a sequence of decimal digits denotes, most significant
/// digit first.
pub open spec fn decimal_value(digits: Seq<char>) -> nat
    decreases digits.len(),
{
    if digits.len() == 0 {
        0
    } else {
        10 * decimal_value(digits.drop_last()) + digit_value(digits.last())
    }
}

/// A segment without the plus sign that may lead it.
pub open spec fn without_sign(segment: Seq<char>) -> Seq<char> {
    if segment.len() > 0 && segment[0] == '+' {
        segment.drop_first()
    } else {
        segment
    }
}

/// The identifier a path segment spells: the segment is an optional plus
/// sign and then one or more decimal digits, nothing else, and the number
/// they denote fits in 32 bits. Leading zeros are allowed.
pub open spec fn spec_parse_id(segment: Seq<char>) -> Option<u32> {
    let digits = without_sign(segment);
    if digits.len() > 0 && all_digits(digits) && decimal_value(digits) <= u32::MAX {
        Some(decimal_value(digits) as u32)
    } else {
        None
    }
}

/// The path of the current-position query.
pub open spec fn current_path() -> Seq<char> {
    "/api/position/current"@
}

/// What every path of a query by identifier starts with.
pub open spec fn position_prefix() -> Seq<char> {
    "/api/position/"@
}

/// Where `path` leads, if anywhere.
pub open spec fn spec_route(path: Seq<char>) -> Option<Route> {
    if path == current_path() {
        Some(Route::CurrentPosition)
    } else if position_prefix().is_prefix_of(path) {
        match spec_parse_id(path.skip(position_prefix().len() as int)) {
            Some(id) => Some(Route::PositionById(id)),
            None => None,
        }
    } else {
        None
    }
}

/// A sequence of digits denotes at least what any of its prefixes denotes.
proof fn lemma_decimal_value_grows(digits: Seq<char>, k: int)
    requires
        0 <= k <= digits.len(),
    ensures
        decimal_value(digits.take(k)) <= decimal_value(digits),
    decreases digits.len(),
{
    if k == digits.len() {
        assert(digits.take(k) =~= digits);
    } else {
        lemma_decimal_value_grows(digits.drop_last(), k);
        assert(digits.drop_last().take(k) =~= digits.take(k));
    }
}

/// A segment that spells an identifier is made of ASCII characters.
proof fn lemma_id_is_ascii(segment: Seq<char>)
    requires
        spec_parse_id(segment) is Some,
    ensures
        vstd::utf8::is_ascii_chars(segment),
{
    let digits = without_sign(segment);
    assert forall|i: int| 0 <= i < segment.len() implies '\0' <= #[trigger] segment[i]
        <= '\u{7f}' by {
        if segment[0] == '+' {
            if i > 0 {
                assert(is_digit(digits[i - 1]));
            }
        } else {
            assert(is_digit(digits[i]));
        }
    }
}

/// A path that leads somewhere is made of ASCII characters.
proof fn lemma_route_is_ascii(path: Seq<char>)
    requires
        spec_route(path) is Some,
    ensures
        vstd::utf8::is_ascii_chars(path),
{
    reveal_strlit("/api/position/current");
    reveal_strlit("/api/position/");
    if path != current_path() {
        let k = position_prefix().len() as int;
        lemma_id_is_ascii(path.skip(k));
        assert forall|i: int| 0 <= i < path.len() implies '\0' <= #[trigger] path[i]
            <= '\u{7f}' by {
            if i < k {
                assert(path[i] == path.subrange(0, k)[i]);
            } else {
                assert(path[i] == path.skip(k)[i - k]);
            }
        }
    }
}

/// Whether two ASCII strings hold the same characters.
fn ascii_eq(a: &str, b: &str) -> (r: bool)
    requires
        a.is_ascii(),
        b.is_ascii(),
    ensures
        r == (a@ == b@),
{
    let n = a.unicode_len();
    if n != b.unicode_len() {
        return false;
    }
    let mut i: usize = 0;
    while i < n
        invariant
            a.is_ascii(),
            b.is_ascii(),
            n == a@.len(),
            n == b@.len(),
            i <= n,
            forall|j: int| 0 <= j < i ==> a@[j] == b@[j],
        decreases n - i,
    {
        if a.get_ascii(i) != b.get_ascii(i) {
            return false;
        }
        i = i + 1;
    }
    assert(a@ =~= b@);
    true
}

/// Reads the identifier that a path segment spells.
///
/// Returns the identifier where the segment is an optional plus sign
/// followed by one or more decimal digits whose value fits in 32 bits, and
/// `None` for every other segment.
pub fn parse_id(segment: &str) -> (r: Option<u32>)
    ensures
        r == spec_parse_id(segment@),
{
    if !segment.is_ascii() {
        proof {
            if spec_parse_id(segment@) is Some {
                lemma_id_is_ascii(segment@);
            }
        }
        return None;
    }
    let n = segment.unicode_len();
    let start: usize = if n > 0 && segment.get_ascii(0) == '+' as u8 {
        1
    } else {
        0
    };
    let ghost digits = without_sign(segment@);
    assert(digits =~= segment@.skip(start as int));
    if start == n {
        return None;
    }
    let mut value: u64 = 0;
    let mut i: usize = start;
    while i < n
        invariant
            segment.is_ascii(),
            n == segment@.len(),
            start <= i <= n,
            digits == without_sign(segment@),
            digits == segment@.skip(start as int),
            all_digits(digits.take(i - start)),
            value == decimal_value(digits.take(i - start)),
            value <= u32::MAX,
        decreases n - i,
    {
        let b = segment.get_ascii(i);
        let ghost k = i - start;
        assert(digits.take(k + 1).drop_last() =~= digits.take(k));
        assert(digits.take(k + 1).last() == segment@[i as int]);
        if b < '0' as u8 || b > '9' as u8 {
            assert(!is_digit(digits[k]));
            return None;
        }
        let next: u64 = value * 10 + (b - '0' as u8) as u64;
        if next > u32::MAX as u64 {
            proof {
                lemma_decimal_value_grows(digits, k + 1);
            }
            return None;
        }
        value = next;
        i = i + 1;
    }
    assert(digits.take(n - start) =~= digits);
    Some(value as u32)
}

/// Decides where a request path leads.
///
/// `/api/position/current` leads to the current-position query, and
/// `/api/position/` followed by a segment that [`parse_id`] accepts leads to
/// the query by that identifier. Every other path returns `None`.
pub fn route(path: &str) -> (r: Option<Route>)
    ensures
        r == spec_route(path@),
{
    if !path.is_ascii() {
        proof {
            if spec_route(path@) is Some {
                lemma_route_is_ascii(path@);
            }
        }
        return None;
    }
    let current = "/api/position/current";
    let prefix = "/api/position/";
    proof {
        reveal_strlit("/api/position/current");
        reveal_strlit("/api/position/");
    }
    if ascii_eq(path, current) {
        return Some(Route::CurrentPosition);
    }
    let n = path.unicode_len();
    let k = prefix.unicode_len();
    if n < k || !ascii_eq(path.substring_ascii(0, k), prefix) {
        return None;
    }
    match parse_id(path.substring_ascii(k, n)) {
        Some(id) => Some(Route::PositionById(id)),
        None => None,
    }
}

} // verus!
