//! Unsigned decimal numbers as text.

use vstd::prelude::*;
use vstd::string::StringExecFns;

verus! {

/// Whether `b` is an ASCII digit.
pub open spec fn is_digit(b: u8) -> bool {
    48 <= b <= 57
}

/// Whether every byte of `s` is an ASCII digit.
pub open spec fn all_digits(s: Seq<u8>) -> bool {
    forall|i: int| 0 <= i < s.len() ==> is_digit(#[trigger] s[i])
}

/// The number that the digits of `s` spell, most significant digit first.
pub open spec fn decimal_value(s: Seq<u8>) -> nat
    decreases s.len(),
{
    if s.len() == 0 {
        0
    } else {
        decimal_value(s.drop_last()) * 10 + (s.last() - 48) as nat
    }
}

/// The shortest decimal spelling of `n`.
pub open spec fn decimal_text(n: nat) -> Seq<u8>
    decreases n,
{
    if n < 10 {
        seq![(48 + n) as u8]
    } else {
        decimal_text(n / 10).push((48 + n % 10) as u8)
    }
}

/// What a text means as an unsigned decimal number of at most `max`: it must
/// be one or more digits that spell a value within that bound.
pub open spec fn parse_within(s: Seq<u8>, max: nat) -> Option<nat> {
    if s.len() > 0 && all_digits(s) && decimal_value(s) <= max {
        Some(decimal_value(s))
    } else {
        None
    }
}

/// What a text means as an unsigned 32-bit decimal number.
pub open spec fn parse_decimal(s: Seq<u8>) -> Option<u32> {
    match parse_within(s, 0xffff_ffff) {
        Some(v) => Some(v as u32),
        None => None,
    }
}

/// Whether a digit string has no superfluous leading zero.
pub open spec fn is_canonical(s: Seq<u8>) -> bool {
    s.len() == 1 || (s.len() > 1 && s[0] != 48)
}

/// A longer run of digits never spells a smaller number than its prefix.
pub proof fn lemma_prefix_value(s: Seq<u8>, k: int)
    requires
        0 <= k <= s.len(),
        all_digits(s),
    ensures
        decimal_value(s.take(k)) <= decimal_value(s),
    decreases s.len(),
{
    if k == s.len() {
        assert(s.take(k) =~= s);
    } else {
        let front = s.drop_last();
        assert(front.take(k) =~= s.take(k));
        assert(all_digits(front)) by {
            assert forall|i: int| 0 <= i < front.len() implies is_digit(#[trigger] front[i]) by {
                assert(front[i] == s[i]);
            }
        }
        lemma_prefix_value(front, k);
        assert(is_digit(s[s.len() - 1]));
    }
}

/// The spelling of a number is made of digits, has no superfluous zero and
/// spells that number.
pub proof fn lemma_decimal_text(n: nat)
    ensures
        decimal_text(n).len() > 0,
        all_digits(decimal_text(n)),
        is_canonical(decimal_text(n)),
        decimal_value(decimal_text(n)) == n,
        n > 0 ==> decimal_text(n)[0] != 48,
    decreases n,
{
    if n < 10 {
        let t = decimal_text(n);
        assert(t =~= seq![(48 + n) as u8]);
        assert(t.drop_last() =~= Seq::<u8>::empty());
        assert(decimal_value(t) == decimal_value(t.drop_last()) * 10 + (t.last() - 48) as nat);
    } else {
        let front = decimal_text(n / 10);
        let t = decimal_text(n);
        lemma_decimal_text(n / 10);
        assert(t =~= front.push((48 + n % 10) as u8));
        assert(t.drop_last() =~= front);
        assert(t[0] == front[0]);
        assert forall|i: int| 0 <= i < t.len() implies is_digit(#[trigger] t[i]) by {
            if i < front.len() {
                assert(t[i] == front[i]);
            }
        }
        assert(decimal_value(t) == decimal_value(t.drop_last()) * 10 + (t.last() - 48) as nat);
    }
}

/// Reading back the spelling of a 32-bit number gives that number.
pub proof fn lemma_parse_of_text(n: u32)
    ensures
        parse_decimal(decimal_text(n as nat)) == Some(n),
        is_canonical(decimal_text(n as nat)),
{
    lemma_decimal_text(n as nat);
}

/// Reads an unsigned decimal number of at most `max`.
pub fn parse_bounded(s: &[u8], max: u64) -> (r: Option<u64>)
    ensures
        match parse_within(s@, max as nat) {
            Some(v) => r == Some(v as u64),
            None => r is None,
        },
{
    if s.len() == 0 {
        return None;
    }
    let mut acc: u128 = 0;
    let mut i: usize = 0;
    while i < s.len()
        invariant
            0 <= i <= s.len(),
            all_digits(s@.take(i as int)),
            acc == decimal_value(s@.take(i as int)),
            acc <= max,
        decreases s.len() - i,
    {
        let b: u8 = s[i];
        if b < 48 || b > 57 {
            assert(!is_digit(s@[i as int]));
            return None;
        }
        acc = acc * 10 + (b - 48) as u128;
        proof {
            let next = s@.take(i + 1);
            assert(next.drop_last() =~= s@.take(i as int));
            assert(next.last() == b);
            assert forall|j: int| 0 <= j < next.len() implies is_digit(#[trigger] next[j]) by {
                if j < i {
                    assert(next[j] == s@.take(i as int)[j]);
                }
            }
        }
        if acc > max as u128 {
            proof {
                if all_digits(s@) {
                    lemma_prefix_value(s@, i + 1);
                }
            }
            return None;
        }
        i += 1;
    }
    assert(s@.take(s.len() as int) =~= s@);
    Some(acc as u64)
}

/// Reads an unsigned 32-bit decimal number.
pub fn parse_u32(s: &[u8]) -> (r: Option<u32>)
    ensures
        r == parse_decimal(s@),
{
    match parse_bounded(s, 0xffff_ffff) {
        Some(v) => Some(v as u32),
        None => None,
    }
}

/// Appends the shortest decimal spelling of `n` to `out`.
pub fn push_decimal(n: u32, out: &mut Vec<u8>)
    ensures
        final(out)@ == old(out)@ + decimal_text(n as nat),
    decreases n,
{
    if n >= 10 {
        push_decimal(n / 10, out);
    }
    let digit: u8 = (n % 10) as u8;
    out.push(48 + digit);
    assert(out@ =~= old(out)@ + decimal_text(n as nat));
}

/// The shortest decimal spelling of `n`.
pub fn format_u32(n: u32) -> (r: Vec<u8>)
    ensures
        r@ == decimal_text(n as nat),
{
    let mut out: Vec<u8> = Vec::new();
    push_decimal(n, &mut out);
    assert(out@ =~= decimal_text(n as nat));
    out
}

/// The character of a digit.
pub open spec fn digit_char(d: nat) -> char {
    if d == 0 {
        '0'
    } else if d == 1 {
        '1'
    } else if d == 2 {
        '2'
    } else if d == 3 {
        '3'
    } else if d == 4 {
        '4'
    } else if d == 5 {
        '5'
    } else if d == 6 {
        '6'
    } else if d == 7 {
        '7'
    } else if d == 8 {
        '8'
    } else {
        '9'
    }
}

/// The shortest decimal spelling of `n`, as characters.
pub open spec fn decimal_chars(n: nat) -> Seq<char>
    decreases n,
{
    if n < 10 {
        seq![digit_char(n)]
    } else {
        decimal_chars(n / 10).push(digit_char(n % 10))
    }
}

/// The decimal spelling of a number that may be negative: a minus sign
/// before the spelling of its size.
pub open spec fn signed_chars(n: int) -> Seq<char> {
    if n < 0 {
        seq!['-'] + decimal_chars((-n) as nat)
    } else {
        decimal_chars(n as nat)
    }
}

fn digit_str(d: u64) -> (r: &'static str)
    requires
        d < 10,
    ensures
        r@ == seq![digit_char(d as nat)],
{
    proof {
        reveal_strlit("0");
        reveal_strlit("1");
        reveal_strlit("2");
        reveal_strlit("3");
        reveal_strlit("4");
        reveal_strlit("5");
        reveal_strlit("6");
        reveal_strlit("7");
        reveal_strlit("8");
        reveal_strlit("9");
    }
    let r: &'static str = if d == 0 {
        "0"
    } else if d == 1 {
        "1"
    } else if d == 2 {
        "2"
    } else if d == 3 {
        "3"
    } else if d == 4 {
        "4"
    } else if d == 5 {
        "5"
    } else if d == 6 {
        "6"
    } else if d == 7 {
        "7"
    } else if d == 8 {
        "8"
    } else {
        "9"
    };
    assert(r@ =~= seq![digit_char(d as nat)]);
    r
}

/// Appends the shortest decimal spelling of `n` to `out`.
pub fn append_decimal(n: u64, out: &mut String)
    ensures
        final(out)@ == old(out)@ + decimal_chars(n as nat),
    decreases n,
{
    if n >= 10 {
        append_decimal(n / 10, out);
    }
    out.append(digit_str(n % 10));
    assert(out@ =~= old(out)@ + decimal_chars(n as nat));
}

/// Appends the decimal spelling of `n` to `out`.
pub fn append_signed(n: i64, out: &mut String)
    ensures
        final(out)@ == old(out)@ + signed_chars(n as int),
{
    if n < 0 {
        out.append("-");
        proof {
            reveal_strlit("-");
        }
        let size: u64 = if n == i64::MIN {
            9223372036854775808
        } else {
            (-n) as u64
        };
        append_decimal(size, out);
        assert(out@ =~= old(out)@ + signed_chars(n as int));
    } else {
        append_decimal(n as u64, out);
    }
}

} // verus!
