//! Numbers in decimal notation: reading them and writing them.

use vstd::prelude::*;
use crate::text::chars_of;

verus! {

/// Whether `c` is one of the decimal digits `0` to `9`.
pub open spec fn is_digit(c: char) -> bool {
    '0' as u32 <= c as u32 <= '9' as u32
}

/// The value of the decimal digit `c`.
pub open spec fn digit_value(c: char) -> nat {
    (c as u32 - '0' as u32) as nat
}

/// Whether `s` is made of decimal digits only, and of at least one.
pub open spec fn is_digits(s: Seq<char>) -> bool {
    s.len() > 0 && forall|i: int| 0 <= i < s.len() ==> is_digit(#[trigger] s[i])
}

/// The number that the decimal digits `s` denote.
pub open spec fn decimal_value(s: Seq<char>) -> nat
    decreases s.len(),
{
    if s.len() == 0 {
        0
    } else {
        decimal_value(s.drop_last()) * 10 + digit_value(s.last())
    }
}

/// The number that `s` denotes as a `u64`: an optional `+`, then decimal
/// digits whose value fits; `None` for any other text.
pub open spec fn parsed_u64(s: Seq<char>) -> Option<u64> {
    let digits = if s.len() > 0 && s[0] == '+' {
        s.skip(1)
    } else {
        s
    };
    if is_digits(digits) && decimal_value(digits) <= u64::MAX {
        Some(decimal_value(digits) as u64)
    } else {
        None
    }
}

/// The digits of a text with more digits denote no smaller a number.
proof fn lemma_decimal_value_grows(s: Seq<char>, k: int)
    requires
        0 <= k <= s.len(),
    ensures
        decimal_value(s.take(k)) <= decimal_value(s),
    decreases s.len() - k,
{
    if k == s.len() {
        assert(s.take(k) =~= s);
    } else {
        lemma_decimal_value_grows(s.drop_last(), k);
        assert(s.drop_last().take(k) =~= s.take(k));
    }
}

/// Reads `text` as a `u64` in decimal notation: an optional `+`, then
/// digits only, and at least one; `None` where the text is anything else
/// or the number does not fit.
pub fn parse_u64(text: &str) -> (r: Option<u64>)
    ensures
        r == parsed_u64(text@),
{
    let v = chars_of(text);
    let start: usize = if v.len() > 0 && v[0] == '+' {
        1
    } else {
        0
    };
    let ghost digits = v@.skip(start as int);
    assert(v@.skip(0) =~= v@);
    let mut acc: u64 = 0;
    let mut i: usize = start;
    assert(v@.subrange(start as int, start as int) =~= Seq::<char>::empty());
    while i < v.len()
        invariant
            start <= i <= v.len(),
            digits == v@.skip(start as int),
            parsed_u64(text@) == if is_digits(digits) && decimal_value(digits) <= u64::MAX {
                Some(decimal_value(digits) as u64)
            } else {
                None
            },
            forall|k: int| start <= k < i ==> is_digit(#[trigger] v@[k]),
            acc == decimal_value(v@.subrange(start as int, i as int)),
        decreases v.len() - i,
    {
        let c = v[i];
        let n: u32 = c as u32;
        assert('0' as u32 == 48 && '9' as u32 == 57);
        if n < 48 || n > 57 {
            assert(!is_digit(c));
            assert(digits[i - start] == c);
            return None;
        }
        let d: u64 = (n - 48) as u64;
        proof {
            let prefix = v@.subrange(start as int, i + 1);
            assert(prefix.drop_last() =~= v@.subrange(start as int, i as int));
            assert(prefix.last() == c);
            assert(digit_value(c) == d);
            assert(decimal_value(prefix) == acc * 10 + d);
            assert(digits.take(i + 1 - start) =~= prefix);
            lemma_decimal_value_grows(digits, i + 1 - start);
        }
        if acc > (u64::MAX - d) / 10 {
            return None;
        }
        acc = acc * 10 + d;
        i += 1;
    }
    assert(v@.subrange(start as int, v.len() as int) =~= digits);
    if i == start {
        None
    } else {
        assert forall|k: int| 0 <= k < digits.len() implies is_digit(#[trigger] digits[k]) by {
            assert(digits[k] == v@[k + start]);
        }
        Some(acc)
    }
}

/// The character of the decimal digit `d`.
pub open spec fn digit_char(d: nat) -> char {
    if d == 0 {
        '0'
    } else if d == 1 {
        '1'
    } else if d == 2 {
        '2'
    } else if d == 3 {
        '3'
    } else if d == 4 {
        '4'
    } else if d == 5 {
        '5'
    } else if d == 6 {
        '6'
    } else if d == 7 {
        '7'
    } else if d == 8 {
        '8'
    } else {
        '9'
    }
}

/// The decimal notation of `n`, without leading zeros.
pub open spec fn decimal(n: nat) -> Seq<char>
    decreases n,
{
    if n < 10 {
        seq![digit_char(n)]
    } else {
        decimal(n / 10).push(digit_char(n % 10))
    }
}

fn digit_of(d: u128) -> (c: char)
    requires
        d < 10,
    ensures
        c == digit_char(d as nat),
{
    if d == 0 {
        '0'
    } else if d == 1 {
        '1'
    } else if d == 2 {
        '2'
    } else if d == 3 {
        '3'
    } else if d == 4 {
        '4'
    } else if d == 5 {
        '5'
    } else if d == 6 {
        '6'
    } else if d == 7 {
        '7'
    } else if d == 8 {
        '8'
    } else {
        '9'
    }
}

/// Writes `n` in decimal notation.
pub fn format_decimal(n: u128) -> (s: String)
    ensures
        s@ == decimal(n as nat),
{
    let mut low: Vec<char> = Vec::new();
    let ghost mut tail: Seq<char> = Seq::empty();
    let mut m: u128 = n;
    while m >= 10
        invariant
            decimal(n as nat) == decimal(m as nat) + tail,
            tail.len() == low.len(),
            forall|k: int| 0 <= k < tail.len() ==> tail[k] == low[low.len() - 1 - k],
        decreases m,
    {
        let c = digit_of(m % 10);
        proof {
            assert(decimal(m as nat) == decimal((m / 10) as nat).push(c));
            assert(decimal((m / 10) as nat).push(c) + tail =~= decimal((m / 10) as nat) + (seq![
                c,
            ] + tail));
            tail = seq![c] + tail;
        }
        low.push(c);
        m = m / 10;
    }
    let c = digit_of(m);
    proof {
        assert(decimal(m as nat) + tail =~= seq![c] + tail);
        tail = seq![c] + tail;
    }
    low.push(c);
    let mut s = String::new();
    let mut i: usize = low.len();
    while i > 0
        invariant
            i <= low.len(),
            tail.len() == low.len(),
            forall|k: int| 0 <= k < tail.len() ==> tail[k] == low[low.len() - 1 - k],
            s@ == tail.take(low.len() - i),
        decreases i,
    {
        i -= 1;
        s.push(low[i]);
        assert(tail.take(low.len() - i) =~= tail.take(low.len() - i - 1).push(low[i as int]));
    }
    assert(tail.take(tail.len() as int) =~= tail);
    s
}

/// The decimal notation of a number is made of digits only, and read back
/// as a number it gives the number again.
pub proof fn law_decimal_reads_back(n: nat)
    ensures
        is_digits(decimal(n)),
        decimal_value(decimal(n)) == n,
    decreases n,
{
    let c = digit_char(n % 10);
    assert(is_digit(c) && digit_value(c) == n % 10);
    if n < 10 {
        assert(seq![c].drop_last() =~= Seq::<char>::empty());
        assert(decimal_value(Seq::<char>::empty()) == 0);
    } else {
        law_decimal_reads_back(n / 10);
        let head = decimal(n / 10);
        assert(head.push(c).drop_last() =~= head);
    }
}

/// A number that fits in 64 bits, written in decimal notation, parses as
/// itself.
pub proof fn law_written_number_parses(n: u64)
    ensures
        parsed_u64(decimal(n as nat)) == Some(n),
{
    law_decimal_reads_back(n as nat);
    let s = decimal(n as nat);
    assert(is_digit(s[0]));
}

} // verus!
