//! What the user asked to capture, and the parsing of explicit window
//! identifiers.
//!
//! An explicit identifier is a hexadecimal string, optionally prefixed with
//! `0x`, standing for a raw 32-bit window id. It is taken as an opaque bit
//! pattern: nothing validates it against the server at construction time —
//! a bad id surfaces later, as an ordinary protocol failure on the first
//! request that uses it.

use crate::errors::Error;
use vstd::prelude::*;

verus! {

/// What the user asked to capture. Exactly one specifier is active per
/// invocation; mutual exclusivity is enforced before the core is invoked.
#[derive(Debug, Clone)]
pub enum TargetSpecifier {
    /// A substring of a window's display name, matched case-insensitively.
    ByName(String),
    /// A substring of a window's class, matched case-insensitively.
    ByClass(String),
    /// An explicit window id, written in hexadecimal.
    ByIdentifier(String),
    /// The root surface of the screen: no search at all.
    WholeScreen,
}

/// The character is a hexadecimal digit.
pub open spec fn is_hex_digit(c: char) -> bool {
    let u = c as u32;
    ('0' as u32) <= u <= ('9' as u32) || ('a' as u32) <= u <= ('f' as u32) || ('A' as u32) <= u
        <= ('F' as u32)
}

/// The numeric value of a hexadecimal digit.
pub open spec fn hex_digit_value(c: char) -> int
    recommends
        is_hex_digit(c),
{
    let u = c as u32;
    if ('0' as u32) <= u <= ('9' as u32) {
        u - ('0' as u32)
    } else if ('a' as u32) <= u <= ('f' as u32) {
        u - ('a' as u32) + 10
    } else {
        u - ('A' as u32) + 10
    }
}

/// The identifier with every leading `0x` marker removed.
pub open spec fn strip_hex_prefix(s: Seq<char>) -> Seq<char>
    decreases s.len(),
{
    if s.len() >= 2 && s[0] == '0' && s[1] == 'x' {
        strip_hex_prefix(s.subrange(2, s.len() as int))
    } else {
        s
    }
}

/// Every character is a hexadecimal digit.
pub open spec fn all_hex_digits(s: Seq<char>) -> bool {
    forall|i: int| 0 <= i < s.len() ==> is_hex_digit(s[i])
}

/// The number a sequence of hexadecimal digits denotes, most significant
/// digit first.
pub open spec fn hex_value(s: Seq<char>) -> int
    decreases s.len(),
{
    if s.len() == 0 {
        0
    } else {
        hex_value(s.drop_last()) * 16 + hex_digit_value(s.last())
    }
}

/// The identifier parses: after stripping the `0x` markers a non-empty,
/// all-hexadecimal string remains whose value fits the 32-bit id space.
pub open spec fn is_valid_window_id(s: Seq<char>) -> bool {
    let t = strip_hex_prefix(s);
    t.len() > 0 && all_hex_digits(t) && hex_value(t) <= u32::MAX
}

/// The id a valid identifier denotes.
pub open spec fn window_id_value(s: Seq<char>) -> int {
    hex_value(strip_hex_prefix(s))
}

/// A string of hexadecimal digits denotes a non-negative number.
proof fn lemma_hex_value_nonneg(s: Seq<char>)
    requires
        all_hex_digits(s),
    ensures
        hex_value(s) >= 0,
    decreases s.len(),
{
    if s.len() > 0 {
        assert(all_hex_digits(s.drop_last()));
        lemma_hex_value_nonneg(s.drop_last());
    }
}

/// The numeric value of one character, if it is a hexadecimal digit.
fn hex_digit(c: char) -> (r: Option<u32>)
    ensures
        r is Some <==> is_hex_digit(c),
        r matches Some(v) ==> v == hex_digit_value(c),
{
    let u = c as u32;
    if 0x30 <= u && u <= 0x39 {
        Some(u - 0x30)
    } else if 0x61 <= u && u <= 0x66 {
        Some(u - 0x61 + 10)
    } else if 0x41 <= u && u <= 0x46 {
        Some(u - 0x41 + 10)
    } else {
        None
    }
}

/// Parse an explicit window identifier into a raw 32-bit id.
///
/// Succeeds exactly when, after removing every leading `0x` marker, a
/// non-empty string of hexadecimal digits remains whose value fits 32 bits;
/// everything else is rejected before any request is issued.
pub fn parse_window_id(s: &str) -> (r: Result<u32, Error>)
    ensures
        r is Ok <==> is_valid_window_id(s@),
        r matches Ok(v) ==> v == window_id_value(s@),
        r is Err ==> r == Err::<u32, Error>(Error::InvalidIdentifier),
{
    let chars = crate::text::chars_of(s);
    let n = chars.len();
    assert(chars@.subrange(0, n as int) =~= chars@);
    let mut start: usize = 0;
    while start < n && start + 1 < n && chars[start] == '0' && chars[start + 1] == 'x'
        invariant
            start <= n,
            n == chars@.len(),
            chars@ == s@,
            strip_hex_prefix(s@) == strip_hex_prefix(chars@.subrange(start as int, n as int)),
        decreases n - start,
    {
        proof {
            let tail = chars@.subrange(start as int, n as int);
            assert(tail.subrange(2, tail.len() as int) =~= chars@.subrange(
                start + 2,
                n as int,
            ));
        }
        start = start + 2;
    }
    proof {
        let tail = chars@.subrange(start as int, n as int);
        assert(strip_hex_prefix(tail) == tail);
    }
    let ghost tail = strip_hex_prefix(s@);
    assert(tail =~= chars@.subrange(start as int, n as int));
    if start == n {
        return Err(Error::InvalidIdentifier);
    }
    let mut acc: u64 = 0;
    let mut too_big = false;
    let mut i: usize = start;
    while i < n
        invariant
            start <= i <= n,
            start < n,
            n == chars@.len(),
            tail == strip_hex_prefix(s@),
            tail == chars@.subrange(start as int, n as int),
            all_hex_digits(tail.take(i - start)),
            !too_big ==> acc == hex_value(tail.take(i - start)) && acc <= u32::MAX,
            too_big ==> hex_value(tail.take(i - start)) > u32::MAX,
        decreases n - i,
    {
        let c = chars[i];
        assert(tail[i - start] == c);
        let d = match hex_digit(c) {
            None => {
                assert(!all_hex_digits(tail));
                return Err(Error::InvalidIdentifier);
            },
            Some(d) => d,
        };
        proof {
            let j = i - start;
            assert(tail.take(j + 1).drop_last() =~= tail.take(j));
            assert(tail.take(j + 1).last() == c);
            assert(hex_value(tail.take(j + 1)) == hex_value(tail.take(j)) * 16
                + hex_digit_value(c));
            assert(all_hex_digits(tail.take(j + 1)));
            if too_big {
                lemma_hex_value_nonneg(tail.take(j));
            }
        }
        if too_big {
        } else {
            let next: u64 = acc * 16 + (d as u64);
            if next > 0xffff_ffff {
                too_big = true;
            } else {
                acc = next;
            }
        }
        i = i + 1;
    }
    assert(tail.take(n - start) =~= tail);
    if too_big {
        return Err(Error::InvalidIdentifier);
    }
    Ok(acc as u32)
}

} // verus!
