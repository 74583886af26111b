//! The decimal text that a tempo is stored as in a tag.

use vstd::prelude::*;

verus! {

pub open spec fn is_digit(c: char) -> bool {
    '0' <= c <= '9'
}

pub open spec fn all_digits(s: Seq<char>) -> bool {
    forall|i: int| 0 <= i < s.len() ==> is_digit(#[trigger] s[i])
}

/// The value of a sequence of decimal digits.
pub open spec fn digits_value(s: Seq<char>) -> nat
    decreases s.len(),
{
    if s.len() == 0 {
        0
    } else {
        digits_value(s.drop_last()) * 10 + (s.last() as nat - '0' as nat) as nat
    }
}

/// The digits of a tag value once an optional leading `+` is taken off.
pub open spec fn unsigned_digits(s: Seq<char>) -> Seq<char> {
    if s.len() > 0 && s[0] == '+' {
        s.subrange(1, s.len() as int)
    } else {
        s
    }
}

/// What a tag value says of the tempo: an optional `+` and one or more
/// decimal digits whose value fits in a `u32`; anything else says nothing.
pub open spec fn bpm_of_text(s: Seq<char>) -> Option<u32> {
    let d = unsigned_digits(s);
    if d.len() > 0 && all_digits(d) && digits_value(d) <= u32::MAX {
        Some(digits_value(d) as u32)
    } else {
        None
    }
}

pub open spec fn digit_char(d: nat) -> char {
    (d + '0' as nat) as char
}

/// The decimal digits of `n`, most significant first, without leading zeros.
pub open spec fn decimal(n: nat) -> Seq<char>
    decreases n,
{
    if n < 10 {
        seq![digit_char(n)]
    } else {
        decimal(n / 10).push(digit_char(n % 10))
    }
}

/// Reads a tempo out of a tag value.
pub fn parse_bpm(text: &str) -> (r: Option<u32>)
    ensures
        r == bpm_of_text(text@),
{
    let n = text.unicode_len();
    let mut start: usize = 0;
    if n > 0 && text.get_char(0) == '+' {
        start = 1;
    }
    let ghost d = unsigned_digits(text@);
    assert(d =~= text@.subrange(start as int, n as int));
    if start == n {
        return None;
    }
    let cap: u64 = 0x1_0000_0000;
    let mut acc: u64 = 0;
    let mut i: usize = start;
    while i < n
        invariant
            start <= i <= n,
            n == text@.len(),
            d == text@.subrange(start as int, n as int),
            cap == 0x1_0000_0000u64,
            d == unsigned_digits(text@),
            all_digits(text@.subrange(start as int, i as int)),
            acc == if digits_value(text@.subrange(start as int, i as int)) < cap {
                digits_value(text@.subrange(start as int, i as int))
            } else {
                cap as nat
            },
        decreases n - i,
    {
        let c = text.get_char(i);
        if !('0' <= c && c <= '9') {
            assert(d[i - start] == c);
            assert(!is_digit(d[i - start]));
            assert(!all_digits(d));
            return None;
        }
        let ghost prefix = text@.subrange(start as int, i as int);
        let ghost next = text@.subrange(start as int, i + 1);
        assert(next.drop_last() =~= prefix);
        assert(next.last() == c);
        let digit: u64 = (c as u32 - '0' as u32) as u64;
        let grown: u64 = acc * 10 + digit;
        proof {
            let v = digits_value(prefix);
            assert(digits_value(next) == v * 10 + digit);
            if v >= cap {
                assert(v * 10 + digit >= cap) by (nonlinear_arith)
                    requires v >= cap, digit >= 0;
            }
        }
        acc = if grown < cap { grown } else { cap };
        i = i + 1;
        assert(all_digits(text@.subrange(start as int, i as int))) by {
            assert forall|k: int| 0 <= k < next.len() implies is_digit(#[trigger] next[k]) by {
                if k < prefix.len() {
                    assert(next[k] == prefix[k]);
                }
            }
        }
    }
    assert(text@.subrange(start as int, n as int) == d);
    if acc < cap {
        Some(acc as u32)
    } else {
        None
    }
}

fn digit_text(d: u32) -> (r: &'static str)
    requires
        d < 10,
    ensures
        r@ == seq![digit_char(d as nat)],
{
    proof {
        reveal_strlit("0");
        reveal_strlit("1");
        reveal_strlit("2");
        reveal_strlit("3");
        reveal_strlit("4");
        reveal_strlit("5");
        reveal_strlit("6");
        reveal_strlit("7");
        reveal_strlit("8");
        reveal_strlit("9");
    }
    match d {
        0 => "0",
        1 => "1",
        2 => "2",
        3 => "3",
        4 => "4",
        5 => "5",
        6 => "6",
        7 => "7",
        8 => "8",
        _ => "9",
    }
}

/// The decimal text that a tempo is written as.
pub fn bpm_text(bpm: u32) -> (r: String)
    ensures
        r@ == decimal(bpm as nat),
{
    // Digits, least significant first.
    let mut digits: Vec<u32> = Vec::new();
    let mut rest: u32 = bpm;
    let ghost mut parts: Seq<nat> = seq![bpm as nat];
    while rest >= 10
        invariant
            digits@.len() + 1 == parts.len(),
            parts[0] == bpm as nat,
            parts.last() == rest as nat,
            forall|k: int|
                0 <= k < digits@.len() ==> #[trigger] digits@[k] < 10 && digits@[k] == parts[k] % 10
                    && parts[k] >= 10 && parts[k + 1] == parts[k] / 10,
        decreases rest,
    {
        let ghost before = parts;
        let ghost dbefore = digits@;
        digits.push(rest % 10);
        rest = rest / 10;
        proof {
            parts = parts.push(rest as nat);
            assert forall|k: int| 0 <= k < digits@.len() implies #[trigger] digits@[k] < 10
                && digits@[k] == parts[k] % 10 && parts[k] >= 10 && parts[k + 1] == parts[k] / 10 by {
                if k < dbefore.len() {
                    assert(digits@[k] == dbefore[k]);
                    assert(parts[k] == before[k]);
                    assert(parts[k + 1] == before[k + 1]);
                }
            }
        }
    }
    let mut r = String::from_str(digit_text(rest));
    assert(parts[digits@.len() as int] == rest);
    let mut j: usize = digits.len();
    while j > 0
        invariant
            j <= digits@.len(),
            digits@.len() + 1 == parts.len(),
            parts[0] == bpm as nat,
            forall|k: int|
                0 <= k < digits@.len() ==> #[trigger] digits@[k] < 10 && digits@[k] == parts[k] % 10
                    && parts[k] >= 10 && parts[k + 1] == parts[k] / 10,
            r@ == decimal(parts[j as int]),
        decreases j,
    {
        j = j - 1;
        let t = digit_text(digits[j]);
        r.append(t);
        proof {
            assert(digits@[j as int] < 10);
        }
    }
    r
}

/// The text written for a tempo reads back as that tempo.
pub proof fn law_text_round_trip(bpm: u32)
    ensures
        bpm_of_text(decimal(bpm as nat)) == Some(bpm),
{
    lemma_decimal_reads_back(bpm as nat);
}

proof fn lemma_decimal_reads_back(n: nat)
    ensures
        decimal(n).len() > 0,
        all_digits(decimal(n)),
        decimal(n)[0] != '+',
        digits_value(decimal(n)) == n,
    decreases n,
{
    assert(digit_char(n % 10) as nat == n % 10 + '0' as nat);
    let d = decimal(n);
    if n < 10 {
        assert(d.drop_last() =~= Seq::<char>::empty());
        assert(d.last() == digit_char(n));
        assert(digits_value(d) == digits_value(d.drop_last()) * 10 + (d.last() as nat - '0' as nat) as nat);
        assert(digits_value(Seq::<char>::empty()) == 0);
    } else {
        lemma_decimal_reads_back(n / 10);
        assert(d.drop_last() =~= decimal(n / 10));
        assert(d.last() == digit_char(n % 10));
        assert forall|i: int| 0 <= i < d.len() implies is_digit(#[trigger] d[i]) by {
            if i < d.len() - 1 {
                assert(d[i] == decimal(n / 10)[i]);
            }
        }
    }
}

} // verus!
