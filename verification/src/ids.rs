//! Identifiers taken from request paths.

use vstd::prelude::*;

verus! {

/// The value of a hexadecimal digit, either case.
pub open spec fn hex_digit(c: char) -> Option<nat> {
    if '0' <= c <= '9' {
        Some((c as nat - '0' as nat) as nat)
    } else if 'a' <= c <= 'f' {
        Some((c as nat - 'a' as nat + 10) as nat)
    } else if 'A' <= c <= 'F' {
        Some((c as nat - 'A' as nat + 10) as nat)
    } else {
        None
    }
}

/// The number that the hexadecimal digits of `s` write, most significant
/// first; `None` when a character is no hexadecimal digit.
pub open spec fn hex_number(s: Seq<char>) -> Option<nat>
    decreases s.len(),
{
    if s.len() == 0 {
        Some(0)
    } else {
        match (hex_number(s.drop_last()), hex_digit(s.last())) {
            (Some(n), Some(d)) => Some(n * 16 + d),
            _ => None,
        }
    }
}

/// The 32 digits of a hyphenated UUID (`8-4-4-4-12`), hyphens removed.
pub open spec fn hyphenated_digits(s: Seq<char>) -> Option<Seq<char>> {
    if s.len() == 36 && s[8] == '-' && s[13] == '-' && s[18] == '-' && s[23] == '-' {
        Some(s.subrange(0, 8) + s.subrange(9, 13) + s.subrange(14, 18) + s.subrange(19, 23) + s.subrange(24, 36))
    } else {
        None
    }
}

/// ASCII letters in lower case, other characters as they are.
pub open spec fn ascii_lower(c: char) -> char {
    if 'A' <= c <= 'Z' {
        ((c as u32) + 32) as char
    } else {
        c
    }
}

/// The 32 hexadecimal digits of a UUID text in one of the forms that
/// `uuid::Uuid::parse_str` reads: simple (32 digits), hyphenated, braced
/// (`{hyphenated}`) or a URN (`urn:uuid:` in any case, then hyphenated).
pub open spec fn uuid_digits(s: Seq<char>) -> Option<Seq<char>> {
    if s.len() == 32 {
        Some(s)
    } else if s.len() == 36 {
        hyphenated_digits(s)
    } else if s.len() == 38 && s[0] == '{' && s[37] == '}' {
        hyphenated_digits(s.subrange(1, 37))
    } else if s.len() == 45 && s.take(9).map_values(|c: char| ascii_lower(c)) == "urn:uuid:"@ {
        hyphenated_digits(s.skip(9))
    } else {
        None
    }
}

/// The 128-bit value of the UUID written in `s` (the big-endian reading of
/// its digits), `None` when `s` writes none.
pub open spec fn uuid_parse(s: Seq<char>) -> Option<u128> {
    match uuid_digits(s) {
        Some(d) => match hex_number(d) {
            Some(n) => Some(n as u128),
            None => None,
        },
        None => None,
    }
}

/// Reads a UUID with `uuid::Uuid::parse_str` and gives its 128-bit value
/// (`Uuid::as_u128`, big-endian). The crate accepts the simple, hyphenated,
/// braced and URN forms with digits of either case, and nothing else.
#[verifier::external_body]
pub(crate) fn parse_uuid(s: &str) -> (r: Option<u128>)
    ensures
        r == uuid_parse(s@),
{
    match uuid::Uuid::parse_str(s) {
        Ok(u) => Some(u.as_u128()),
        Err(_) => None,
    }
}

} // verus!
