//! Whole numbers as decimal text.

use crate::text::chars_of;
use vstd::prelude::*;

verus! {

/// Whether `c` is one of the ten decimal digits.
pub open spec fn is_digit(c: char) -> bool {
    '0' <= c <= '9'
}

/// The number that a sequence of decimal digits writes.
pub open spec fn digits_value(s: Seq<char>) -> nat
    decreases s.len(),
{
    if s.len() == 0 {
        0
    } else {
        digits_value(s.drop_last()) * 10 + (s.last() as nat - '0' as nat) as nat
    }
}

/// The digits that a number is read from: what stands behind one leading plus sign.
pub open spec fn unsigned_digits(s: Seq<char>) -> Seq<char> {
    if s.len() > 0 && s[0] == '+' {
        s.drop_first()
    } else {
        s
    }
}

/// The number up to `max` that `s` writes: at least one digit and nothing else, but for
/// one plus sign before them.
pub open spec fn parsed(s: Seq<char>, max: nat) -> Option<nat> {
    let d = unsigned_digits(s);
    if d.len() > 0 && (forall|i: int| 0 <= i < d.len() ==> is_digit(#[trigger] d[i]))
        && digits_value(d) <= max {
        Some(digits_value(d))
    } else {
        None
    }
}

/// A prefix of digits writes no larger number than all of them.
proof fn lemma_prefix_value(s: Seq<char>, i: int)
    requires
        0 <= i <= s.len(),
        forall|k: int| 0 <= k < i ==> is_digit(#[trigger] s[k]),
    ensures
        digits_value(s.take(i)) <= digits_value(s),
    decreases s.len(),
{
    if i == s.len() {
        assert(s.take(i) =~= s);
    } else {
        lemma_prefix_value(s.drop_last(), i);
        assert(s.drop_last().take(i) =~= s.take(i));
    }
}

/// The number that a text writes in decimal, where it fits in 64 bits.
pub fn parse_u64(s: &str) -> (r: Option<u64>)
    ensures
        match r {
            Some(n) => parsed(s@, u64::MAX as nat) == Some(n as nat),
            None => parsed(s@, u64::MAX as nat) is None,
        },
{
    let v = chars_of(s);
    let from: usize = if v.len() > 0 && v[0] == '+' { 1 } else { 0 };
    let ghost d = unsigned_digits(s@);
    assert(d =~= v@.skip(from as int));
    if from == v.len() {
        return None;
    }
    let mut n: u64 = 0;
    assert(d.take(0) =~= Seq::<char>::empty());
    for i in from..v.len()
        invariant
            from <= i <= v.len(),
            v@ == s@,
            d == unsigned_digits(s@),
            d == v@.skip(from as int),
            d.len() > 0,
            forall|k: int| 0 <= k < i - from ==> is_digit(#[trigger] d[k]),
            n == digits_value(d.take(i - from)),
    {
        let c = v[i];
        proof {
            let k = i - from;
            assert(d[k] == c);
            assert(d.take(k + 1).drop_last() =~= d.take(k));
            assert(d.take(k + 1).last() == c);
        }
        if !('0' <= c && c <= '9') {
            assert(!is_digit(d[i - from]));
            return None;
        }
        let digit: u64 = c as u64 - '0' as u64;
        if n > (u64::MAX - digit) / 10 {
            proof {
                lemma_prefix_value(d, i + 1 - from);
                assert(n as int * 10 + digit > u64::MAX);
            }
            return None;
        }
        n = n * 10 + digit;
    }
    assert(d.take(v.len() - from) =~= d);
    Some(n)
}

/// The number that a text writes in decimal, where it fits in 16 bits.
pub fn parse_u16(s: &str) -> (r: Option<u16>)
    ensures
        match r {
            Some(n) => parsed(s@, u16::MAX as nat) == Some(n as nat),
            None => parsed(s@, u16::MAX as nat) is None,
        },
{
    match parse_u64(s) {
        Some(n) => if n <= 65535 {
            Some(n as u16)
        } else {
            None
        },
        None => None,
    }
}

/// The decimal digits of a number, without leading zeros.
pub open spec fn decimal(n: nat) -> Seq<char>
    decreases n,
{
    let last = (('0' as nat + n % 10) as u8) as char;
    if n < 10 {
        seq![last]
    } else {
        decimal(n / 10).push(last)
    }
}

/// The decimal text of an integer: a minus sign stands before the digits of a negative one.
pub open spec fn signed_decimal(n: int) -> Seq<char> {
    if n < 0 {
        seq!['-'] + decimal((-n) as nat)
    } else {
        decimal(n as nat)
    }
}

/// The decimal text of a number.
pub fn decimal_text(n: u64) -> (r: String)
    ensures
        r@ == decimal(n as nat),
    decreases n,
{
    let d: u8 = (n % 10) as u8;
    let last = (48u8 + d) as char;
    if n < 10 {
        let mut r = String::new();
        r.push(last);
        assert(r@ =~= seq![last]);
        r
    } else {
        let mut r = decimal_text(n / 10);
        r.push(last);
        r
    }
}

/// The decimal text of an integer.
pub fn signed_decimal_text(n: i64) -> (r: String)
    ensures
        r@ == signed_decimal(n as int),
{
    if n < 0 {
        let magnitude: u64 = if n == i64::MIN { 9223372036854775808u64 } else { (-n) as u64 };
        let mut r = String::new();
        r.push('-');
        r.append(decimal_text(magnitude).as_str());
        assert(r@ =~= seq!['-'] + decimal(magnitude as nat));
        r
    } else {
        decimal_text(n as u64)
    }
}

proof fn lemma_decimal(n: nat)
    ensures
        decimal(n).len() > 0,
        digits_value(decimal(n)) == n,
        forall|i: int| 0 <= i < decimal(n).len() ==> is_digit(#[trigger] decimal(n)[i]),
        n > 0 ==> decimal(n)[0] != '0',
    decreases n,
{
    let last = (('0' as nat + n % 10) as u8) as char;
    assert(last as nat == '0' as nat + n % 10);
    assert(is_digit(last));
    if n < 10 {
        assert(seq![last].drop_last() =~= Seq::empty());
        assert(digits_value(Seq::empty()) == 0);
    } else {
        lemma_decimal(n / 10);
        let before = decimal(n / 10);
        assert(decimal(n).drop_last() =~= before);
        assert forall|i: int| 0 <= i < decimal(n).len() implies is_digit(
            #[trigger] decimal(n)[i],
        ) by {
            if i < before.len() {
                assert(is_digit(before[i]));
            }
        }
        assert(decimal(n)[0] == before[0]);
    }
}

/// A number that is written in decimal reads back as itself, with or without a plus sign, as far
/// as it is not beyond the greatest number; it is written without needless zeros.
pub proof fn law_number_reads_back(n: nat, max: nat)
    ensures
        n <= max ==> parsed(decimal(n), max) == Some(n),
        n <= max ==> parsed(seq!['+'] + decimal(n), max) == Some(n),
        n > max ==> parsed(decimal(n), max) is None,
        n > 0 ==> decimal(n)[0] != '0',
        decimal(0) == seq!['0'],
        signed_decimal(n as int) == decimal(n),
        n > 0 ==> signed_decimal(-(n as int)) == seq!['-'] + decimal(n),
{
    lemma_decimal(n);
    assert(is_digit(decimal(n)[0]));
    assert(unsigned_digits(decimal(n)) == decimal(n));
    assert((seq!['+'] + decimal(n)).drop_first() =~= decimal(n));
    assert(decimal(0) =~= seq!['0']);
}

/// A text is read as a number only where it is digits, at least one, behind at most one plus
/// sign, and the number is not beyond the greatest.
pub proof fn law_only_digits_are_read(s: Seq<char>, max: nat, i: int)
    requires
        parsed(s, max) is Some,
        0 <= i < s.len(),
    ensures
        parsed(s, max)->0 <= max,
        is_digit(s[i]) || (i == 0 && s[0] == '+' && s.len() > 1),
{
    let d = unsigned_digits(s);
    if s[0] == '+' {
        if i > 0 {
            assert(d[i - 1] == s[i]);
        }
    } else {
        assert(d[i] == s[i]);
    }
}

/// A further digit makes a number ten times as great, and adds its own value.
pub proof fn law_digit_by_digit(s: Seq<char>, c: char, max: nat)
    requires
        is_digit(c),
        parsed(s, max) is Some,
        parsed(s, max)->0 * 10 + (c as nat - '0' as nat) <= max,
    ensures
        parsed(s.push(c), max) == Some((parsed(s, max)->0 * 10 + (c as nat - '0' as nat)) as nat),
{
    let d = unsigned_digits(s);
    assert(unsigned_digits(s.push(c)) =~= d.push(c));
    assert(d.push(c).drop_last() =~= d);
    assert forall|i: int| 0 <= i < d.push(c).len() implies is_digit(#[trigger] d.push(c)[i]) by {
        if i < d.len() {
            assert(is_digit(d[i]));
        }
    }
}

} // verus!
