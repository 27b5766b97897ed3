//! Decimal integers in text: reading them as `str::parse` does for the
//! unsigned types, and writing them as `Display` does.

use vstd::prelude::*;
use crate::text::{chars_of, push_char};

verus! {

broadcast use vstd::string::group_string_axioms;

/// Why a decimal number could not be read.
#[derive(Debug, Clone, Copy, PartialEq, Eq, Structural)]
pub enum IntErrorKind {
    /// The text was empty.
    Empty,
    /// A character that is not a digit (or a lone sign).
    InvalidDigit,
    /// The number exceeds the type's maximum.
    PosOverflow,
}

/// The value of a decimal digit character, or -1.
pub open spec fn digit_val(c: char) -> int {
    if '0' <= c <= '9' {
        c as int - '0' as int
    } else {
        -1
    }
}

/// Reads the digits of `s` from position `i` on, onto `acc`, failing at the
/// first non-digit or at the first digit that takes the value past `max`.
pub open spec fn read_digits(s: Seq<char>, i: int, acc: nat, max: nat) -> Result<nat, IntErrorKind>
    decreases s.len() - i,
{
    if i < 0 || i >= s.len() {
        Ok(acc)
    } else if digit_val(s[i]) < 0 {
        Err(IntErrorKind::InvalidDigit)
    } else if acc * 10 + digit_val(s[i]) > max {
        Err(IntErrorKind::PosOverflow)
    } else {
        read_digits(s, i + 1, (acc * 10 + digit_val(s[i])) as nat, max)
    }
}

/// What `str::parse` gives for an unsigned type whose maximum is `max`: an
/// optional `+`, then one or more decimal digits, and no other character.
pub open spec fn parse_unsigned(s: Seq<char>, max: nat) -> Result<nat, IntErrorKind> {
    if s.len() == 0 {
        Err(IntErrorKind::Empty)
    } else if s[0] == '+' {
        if s.len() == 1 {
            Err(IntErrorKind::InvalidDigit)
        } else {
            read_digits(s, 1, 0, max)
        }
    } else {
        read_digits(s, 0, 0, max)
    }
}

/// The message that a parse error displays.
pub open spec fn int_error_message(k: IntErrorKind) -> Seq<char> {
    match k {
        IntErrorKind::Empty => "cannot parse integer from empty string"@,
        IntErrorKind::InvalidDigit => "invalid digit found in string"@,
        IntErrorKind::PosOverflow => "number too large to fit in target type"@,
    }
}

/// The message that a parse error displays.
pub fn int_error_text(k: IntErrorKind) -> (r: String)
    ensures
        r@ == int_error_message(k),
{
    match k {
        IntErrorKind::Empty => "cannot parse integer from empty string".to_string(),
        IntErrorKind::InvalidDigit => "invalid digit found in string".to_string(),
        IntErrorKind::PosOverflow => "number too large to fit in target type".to_string(),
    }
}

/// Reads `s` as an unsigned decimal number no larger than `max`.
pub fn parse_unsigned_exec(s: &str, max: u64) -> (r: Result<u64, IntErrorKind>)
    ensures
        r is Ok <==> parse_unsigned(s@, max as nat) is Ok,
        r matches Ok(n) ==> parse_unsigned(s@, max as nat) == Ok::<nat, IntErrorKind>(n as nat) && n <= max,
        r matches Err(k) ==> parse_unsigned(s@, max as nat) == Err::<nat, IntErrorKind>(k),
{
    let v = chars_of(s);
    if v.len() == 0 {
        return Err(IntErrorKind::Empty);
    }
    let mut i: usize = 0;
    if v[0] == '+' {
        if v.len() == 1 {
            return Err(IntErrorKind::InvalidDigit);
        }
        i = 1;
    }
    let ghost start = i;
    let mut acc: u64 = 0;
    while i < v.len()
        invariant
            v@ == s@,
            1 <= v.len(),
            start <= i <= v.len(),
            acc <= max,
            parse_unsigned(s@, max as nat) == read_digits(s@, i as int, acc as nat, max as nat),
        decreases v.len() - i,
    {
        let c = v[i];
        if !('0' <= c && c <= '9') {
            return Err(IntErrorKind::InvalidDigit);
        }
        let d = (c as u32 - '0' as u32) as u64;
        let next: u128 = acc as u128 * 10 + d as u128;
        if next > max as u128 {
            return Err(IntErrorKind::PosOverflow);
        }
        acc = next as u64;
        i = i + 1;
    }
    Ok(acc)
}

/// The character of the decimal digit `d`.
pub open spec fn dec_digit(d: nat) -> char {
    if d == 0 {
        '0'
    } else if d == 1 {
        '1'
    } else if d == 2 {
        '2'
    } else if d == 3 {
        '3'
    } else if d == 4 {
        '4'
    } else if d == 5 {
        '5'
    } else if d == 6 {
        '6'
    } else if d == 7 {
        '7'
    } else if d == 8 {
        '8'
    } else {
        '9'
    }
}

/// The decimal digits of `n`, without leading zeros (`"0"` for zero).
pub open spec fn dec_of(n: nat) -> Seq<char>
    decreases n,
{
    if n < 10 {
        seq![dec_digit(n)]
    } else {
        dec_of(n / 10).push(dec_digit(n % 10))
    }
}

fn digit_char(d: u64) -> (c: char)
    requires
        d < 10,
    ensures
        c == dec_digit(d as nat),
{
    match d {
        0 => '0',
        1 => '1',
        2 => '2',
        3 => '3',
        4 => '4',
        5 => '5',
        6 => '6',
        7 => '7',
        8 => '8',
        _ => '9',
    }
}

/// `n` written in decimal.
pub fn dec_string(n: u64) -> (r: String)
    ensures
        r@ == dec_of(n as nat),
{
    let mut rev: Vec<char> = Vec::new();
    let mut cur = n;
    rev.push(digit_char(cur % 10));
    cur = cur / 10;
    proof {
        assert(rev@.reverse() =~= seq![dec_digit((n % 10) as nat)]);
        assert(dec_of(n as nat) =~= if n < 10 { rev@.reverse() } else { dec_of(cur as nat) + rev@.reverse() });
    }
    while cur > 0
        invariant
            cur > 0 ==> dec_of(n as nat) == dec_of(cur as nat) + rev@.reverse(),
            cur == 0 ==> dec_of(n as nat) == rev@.reverse(),
        decreases cur,
    {
        let ghost old_rev = rev@;
        let ghost old_cur = cur;
        rev.push(digit_char(cur % 10));
        cur = cur / 10;
        proof {
            assert(rev@.reverse() =~= seq![dec_digit((old_cur % 10) as nat)] + old_rev.reverse());
            if old_cur >= 10 {
                assert(dec_of(n as nat) =~= dec_of(cur as nat) + rev@.reverse());
            } else {
                assert(dec_of(n as nat) =~= rev@.reverse());
            }
        }
    }
    let mut out = String::new();
    let mut k = rev.len();
    while k > 0
        invariant
            k <= rev.len(),
            out@ == rev@.reverse().subrange(0, (rev.len() - k) as int),
        decreases k,
    {
        k = k - 1;
        push_char(&mut out, rev[k]);
        proof {
            assert(rev@.reverse()[(rev.len() - k - 1) as int] == rev@[k as int]);
            assert(out@ =~= rev@.reverse().subrange(0, (rev.len() - k) as int));
        }
    }
    assert(rev@.reverse().subrange(0, rev.len() as int) =~= rev@.reverse());
    out
}

/// Reading back what `dec_string` wrote gives the number again.
pub proof fn lemma_dec_roundtrip(n: nat, max: nat)
    requires
        n <= max,
    ensures
        parse_unsigned(dec_of(n), max) == Ok::<nat, IntErrorKind>(n),
{
    lemma_dec_digits(n);
    lemma_read_dec(n, max);
}

proof fn lemma_dec_digits(n: nat)
    ensures
        dec_of(n).len() >= 1,
        dec_of(n)[0] != '+',
        forall|i: int| 0 <= i < dec_of(n).len() ==> 0 <= #[trigger] digit_val(dec_of(n)[i]) <= 9,
    decreases n,
{
    lemma_digit(n % 10);
    assert('+' as int == 43);
    if n >= 10 {
        lemma_dec_digits(n / 10);
        let p = dec_of(n / 10);
        assert forall|i: int| 0 <= i < dec_of(n).len() implies 0 <= #[trigger] digit_val(dec_of(n)[i]) <= 9 by {
            if i < p.len() {
                assert(dec_of(n)[i] == p[i]);
            }
        }
    }
}

/// The number that the digits `s` spell.
pub open spec fn dec_value(s: Seq<char>) -> nat
    decreases s.len(),
{
    if s.len() == 0 {
        0
    } else {
        (dec_value(s.drop_last()) * 10 + digit_val(s.last())) as nat
    }
}

proof fn lemma_digit(d: nat)
    requires
        d < 10,
    ensures
        digit_val(dec_digit(d)) == d,
{
    assert('0' as int == 48 && '9' as int == 57);
    assert('1' as int == 49 && '2' as int == 50 && '3' as int == 51 && '4' as int == 52);
    assert('5' as int == 53 && '6' as int == 54 && '7' as int == 55 && '8' as int == 56);
}

proof fn lemma_dec_value(n: nat)
    ensures
        dec_value(dec_of(n)) == n,
    decreases n,
{
    lemma_digit(n % 10);
    if n < 10 {
        let d = dec_of(n);
        assert(d.drop_last() =~= Seq::<char>::empty());
        assert(dec_value(d.drop_last()) == 0);
        assert(dec_value(d) == (dec_value(d.drop_last()) * 10 + digit_val(d.last())) as nat);
    }
    if n >= 10 {
        lemma_dec_value(n / 10);
        assert(dec_of(n).drop_last() =~= dec_of(n / 10));
        assert(dec_of(n).last() == dec_digit(n % 10));
        assert(n == (n / 10) * 10 + n % 10);
        let d = dec_of(n);
        assert(d.len() > 0);
        assert(dec_value(d) == (dec_value(d.drop_last()) * 10 + digit_val(d.last())) as nat);
        assert(dec_value(d.drop_last()) == n / 10);
        assert(digit_val(d.last()) == n % 10);
    }
}

proof fn lemma_read_prefix(s: Seq<char>, i: int, max: nat)
    requires
        0 <= i <= s.len(),
        forall|k: int| 0 <= k < s.len() ==> 0 <= #[trigger] digit_val(s[k]) <= 9,
        dec_value(s) <= max,
    ensures
        read_digits(s, i, dec_value(s.take(i)), max) == Ok::<nat, IntErrorKind>(dec_value(s)),
    decreases s.len() - i,
{
    if i < s.len() {
        assert(s.take(i + 1).drop_last() =~= s.take(i));
        lemma_dec_value_mono(s, i + 1);
        lemma_read_prefix(s, i + 1, max);
    } else {
        assert(s.take(i) =~= s);
    }
}

proof fn lemma_dec_value_mono(s: Seq<char>, i: int)
    requires
        0 <= i <= s.len(),
        forall|k: int| 0 <= k < s.len() ==> 0 <= #[trigger] digit_val(s[k]) <= 9,
    ensures
        dec_value(s.take(i)) <= dec_value(s),
    decreases s.len() - i,
{
    if i < s.len() {
        lemma_dec_value_mono(s.drop_last(), i);
        assert(s.drop_last().take(i) =~= s.take(i));
        assert(forall|k: int| 0 <= k < s.drop_last().len() ==> s.drop_last()[k] == s[k]);
    } else {
        assert(s.take(i) =~= s);
    }
}

proof fn lemma_read_dec(n: nat, max: nat)
    requires
        n <= max,
        dec_of(n).len() >= 1,
        dec_of(n)[0] != '+',
        forall|i: int| 0 <= i < dec_of(n).len() ==> 0 <= #[trigger] digit_val(dec_of(n)[i]) <= 9,
    ensures
        parse_unsigned(dec_of(n), max) == Ok::<nat, IntErrorKind>(n),
{
    lemma_dec_value(n);
    let s = dec_of(n);
    assert(s.take(0) =~= Seq::<char>::empty());
    lemma_read_prefix(s, 0, max);
}

} // verus!
