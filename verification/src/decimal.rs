//! Decimal notation of 64-bit integers, as identifiers are written in addresses.

use vstd::prelude::*;
use vstd::slice::slice_subrange;

use crate::text;

verus! {

/// The digit for a value below 10.
pub open spec fn digit(n: int) -> char {
    ((0x30 + n) as u32) as char
}

/// The decimal notation of a number that is not negative.
pub open spec fn nat_text(n: nat) -> Seq<char>
    decreases n,
{
    if n < 10 {
        seq![digit(n as int)]
    } else {
        nat_text(n / 10).push(digit((n % 10) as int))
    }
}

/// The decimal notation of a number.
pub open spec fn int_text(n: int) -> Seq<char> {
    if n < 0 {
        seq!['-'] + nat_text((-n) as nat)
    } else {
        nat_text(n as nat)
    }
}

/// The value that a run of digits denotes.
pub open spec fn digits_value(s: Seq<char>) -> nat
    decreases s.len(),
{
    if s.len() == 0 {
        0
    } else {
        digits_value(s.drop_last()) * 10 + (s.last() as u32 - 0x30) as nat
    }
}

/// A run of digits that is not empty.
pub open spec fn is_digits(s: Seq<char>) -> bool {
    s.len() > 0 && forall|i: int| 0 <= i < s.len() ==> text::ascii_digit(#[trigger] s[i])
}

/// The number that a text denotes: digits, behind a sign or not.
pub open spec fn denoted(s: Seq<char>) -> Option<int> {
    let signed = s.len() > 0 && (s[0] == '-' || s[0] == '+');
    let d = if signed {
        s.subrange(1, s.len() as int)
    } else {
        s
    };
    if !is_digits(d) {
        None
    } else if signed && s[0] == '-' {
        Some(-digits_value(d))
    } else {
        Some(digits_value(d) as int)
    }
}

/// The 64-bit number that a text denotes.
pub open spec fn denoted_i64(s: Seq<char>) -> Option<i64> {
    match denoted(s) {
        Some(n) => if i64::MIN <= n <= i64::MAX {
            Some(n as i64)
        } else {
            None
        },
        None => None,
    }
}

proof fn lemma_prefix_value(s: Seq<char>, k: int)
    requires
        0 <= k <= s.len(),
        is_digits(s),
    ensures
        digits_value(s.take(k)) <= digits_value(s),
    decreases s.len() - k,
{
    if k < s.len() {
        lemma_prefix_value(s, k + 1);
        assert(s.take(k + 1).drop_last() =~= s.take(k));
    } else {
        assert(s.take(k) =~= s);
    }
}

/// The value that a run of digits denotes, where it is at most 2^63.
pub(crate) fn read_digits(s: &[char]) -> (r: Option<u64>)
    ensures
        r is Some <==> is_digits(s@) && digits_value(s@) <= 0x8000_0000_0000_0000,
        r matches Some(v) ==> v == digits_value(s@),
{
    if s.len() == 0 {
        return None;
    }
    let mut k: usize = 0;
    while k < s.len()
        invariant
            k <= s@.len(),
            forall|i: int| 0 <= i < k ==> text::ascii_digit(#[trigger] s@[i]),
        decreases s@.len() - k,
    {
        if s[k] < '0' || s[k] > '9' {
            return None;
        }
        k += 1;
    }
    let mut v: u64 = 0;
    let mut i: usize = 0;
    while i < s.len()
        invariant
            i <= s@.len(),
            is_digits(s@),
            v == digits_value(s@.take(i as int)),
            v <= 0x8000_0000_0000_0000,
        decreases s@.len() - i,
    {
        proof {
            assert(s@.take(i + 1).drop_last() =~= s@.take(i as int));
            assert(s@.take(i + 1).last() == s@[i as int]);
            lemma_prefix_value(s@, i + 1);
        }
        assert(text::ascii_digit(s@[i as int]));
        let d: u64 = (s[i] as u32 - 48) as u64;
        if v > 922_337_203_685_477_580 {
            return None;
        }
        let next: u64 = v * 10 + d;
        if next > 0x8000_0000_0000_0000 {
            return None;
        }
        v = next;
        i += 1;
    }
    assert(s@.take(i as int) =~= s@);
    Some(v)
}

/// The 64-bit number that a text denotes.
pub fn parse_i64(s: &[char]) -> (r: Option<i64>)
    ensures
        r == denoted_i64(s@),
{
    if s.len() == 0 {
        return None;
    }
    let negative: bool = s[0] == '-';
    let d: &[char] = if negative || s[0] == '+' {
        slice_subrange(s, 1, s.len())
    } else {
        s
    };
    match read_digits(d) {
        None => None,
        Some(v) => {
            if negative {
                Some((0i128 - v as i128) as i64)
            } else if v <= 0x7fff_ffff_ffff_ffff {
                Some(v as i64)
            } else {
                None
            }
        },
    }
}

fn push_nat(out: &mut String, n: u64)
    ensures
        final(out)@ == old(out)@ + nat_text(n as nat),
    decreases n,
{
    if n >= 10 {
        push_nat(out, n / 10);
    }
    let d: u64 = n % 10;
    out.push((48 + d as u8) as char);
    proof {
        let shown = nat_text(n as nat);
        assert(out@ =~= old(out)@ + shown);
    }
}

/// The decimal notation of a number.
pub fn format_i64(n: i64) -> (r: String)
    ensures
        r@ == int_text(n as int),
{
    let mut out: String = String::new();
    if n < 0 {
        out.push('-');
        let m: u64 = (0i128 - n as i128) as u64;
        push_nat(&mut out, m);
    } else {
        push_nat(&mut out, n as u64);
    }
    assert(out@ =~= int_text(n as int));
    out
}

// ---------------------------------------------------------------------------
// Laws.
// ---------------------------------------------------------------------------
proof fn lemma_nat_text(n: nat)
    ensures
        is_digits(nat_text(n)),
        digits_value(nat_text(n)) == n,
    decreases n,
{
    let s = nat_text(n);
    if n < 10 {
        assert(s.drop_last() =~= seq![]);
        assert(digits_value(seq![]) == 0);
    } else {
        lemma_nat_text(n / 10);
        assert(s.drop_last() =~= nat_text(n / 10));
        assert forall|i: int| 0 <= i < s.len() implies text::ascii_digit(#[trigger] s[i]) by {
            if i < s.len() - 1 {
                assert(s[i] == nat_text(n / 10)[i]);
            }
        }
    }
}

/// The decimal notation of a number denotes that number.
pub proof fn law_notation_denotes(n: int)
    ensures
        denoted(int_text(n)) == Some(n),
        i64::MIN <= n <= i64::MAX ==> denoted_i64(int_text(n)) == Some(n as i64),
{
    if n < 0 {
        let d = nat_text((-n) as nat);
        lemma_nat_text((-n) as nat);
        assert(int_text(n).subrange(1, int_text(n).len() as int) =~= d);
    } else {
        lemma_nat_text(n as nat);
        assert(text::ascii_digit(int_text(n)[0]));
    }
}

/// Digits denote their number with or without a sign in front; a text that holds
/// anything else denotes none.
pub proof fn law_sign_is_read(d: Seq<char>)
    ensures
        is_digits(d) ==> denoted(d) == Some(digits_value(d) as int),
        is_digits(d) ==> denoted(seq!['+'] + d) == Some(digits_value(d) as int),
        is_digits(d) ==> denoted(seq!['-'] + d) == Some(-(digits_value(d) as int)),
        !is_digits(d) ==> denoted(seq!['+'] + d) is None && denoted(seq!['-'] + d) is None,
        !is_digits(d) && d.len() > 0 && d[0] != '+' && d[0] != '-' ==> denoted(d) is None,
        denoted(Seq::<char>::empty()) is None,
{
    let p = seq!['+'] + d;
    let m = seq!['-'] + d;
    assert(p.subrange(1, p.len() as int) =~= d);
    assert(m.subrange(1, m.len() as int) =~= d);
    if is_digits(d) {
        assert(text::ascii_digit(d[0]));
    }
}

} // verus!
