//! Internet addresses written as text: four decimal octets, or groups of
//! hexadecimal digits with colons between them.

use crate::decimal;
use crate::text;
use vstd::prelude::*;
use vstd::slice::slice_subrange;

verus! {

/// A hexadecimal digit.
pub open spec fn hex_digit(c: char) -> bool {
    text::ascii_digit(c) || 'a' <= c <= 'f' || 'A' <= c <= 'F'
}

/// An octet in decimal, without leading zeros.
pub open spec fn octet(s: Seq<char>) -> bool {
    &&& 1 <= s.len() <= 3
    &&& decimal::is_digits(s)
    &&& decimal::digits_value(s) <= 255
    &&& s.len() == 1 || s[0] != '0'
}

/// Four octets with dots between them.
pub open spec fn ipv4_text(s: Seq<char>) -> bool {
    let parts = text::split(s, '.');
    parts.len() == 4 && forall|i: int| 0 <= i < 4 ==> octet(#[trigger] parts[i])
}

/// A group of one to four hexadecimal digits.
pub open spec fn hex_group(s: Seq<char>) -> bool {
    1 <= s.len() <= 4 && forall|i: int| 0 <= i < s.len() ==> hex_digit(#[trigger] s[i])
}

/// All of the parts from index `i` on are groups.
pub open spec fn all_groups(parts: Seq<Seq<char>>) -> bool {
    forall|i: int| 0 <= i < parts.len() ==> hex_group(#[trigger] parts[i])
}

/// How many groups a text with colons between them gives. Where `mixed`, the
/// last of them may be four octets, which stand for two groups.
pub open spec fn groups_width(s: Seq<char>, mixed: bool) -> Option<int> {
    let parts = text::split(s, ':');
    if s.len() == 0 {
        Some(0)
    } else if all_groups(parts) {
        Some(parts.len() as int)
    } else if mixed && all_groups(parts.drop_last()) && ipv4_text(parts.last()) {
        Some(parts.len() as int + 1)
    } else {
        None
    }
}

/// Eight groups, or fewer where a double colon stands for those that are left
/// out, at least one.
pub open spec fn ipv6_text(s: Seq<char>) -> bool {
    match text::after_text(s, "::"@) {
        None => groups_width(s, true) == Some(8int),
        Some(tail) => match (groups_width(text::before_text(s, "::"@), false), groups_width(tail, true)) {
            (Some(a), Some(b)) => a + b <= 7,
            _ => false,
        },
    }
}

/// An address of either form.
pub open spec fn ip_text(s: Seq<char>) -> bool {
    ipv4_text(s) || ipv6_text(s)
}

/// Whether the text is an octet in decimal.
fn is_octet(s: &[char]) -> (r: bool)
    ensures
        r == octet(s@),
{
    if s.len() < 1 || s.len() > 3 || (s.len() > 1 && s[0] == '0') {
        return false;
    }
    match decimal::read_digits(s) {
        Some(n) => n <= 255,
        None => {
            proof {
                if decimal::is_digits(s@) {
                    lemma_short_digits(s@);
                }
            }
            false
        },
    }
}

/// At most three digits denote at most 999.
proof fn lemma_short_digits(s: Seq<char>)
    requires
        s.len() <= 3,
        decimal::is_digits(s),
    ensures
        decimal::digits_value(s) <= 999,
{
    reveal_with_fuel(decimal::digits_value, 4);
}

/// Whether the text is four octets with dots between them.
pub fn is_ipv4_text(s: &[char]) -> (r: bool)
    ensures
        r == ipv4_text(s@),
{
    let parts: Vec<Vec<char>> = text::split_at_char(s, '.');
    if parts.len() != 4 {
        return false;
    }
    let mut i: usize = 0;
    while i < 4
        invariant
            i <= 4,
            parts@.len() == 4,
            text::contents(parts@) == text::split(s@, '.'),
            forall|j: int| 0 <= j < i ==> octet(#[trigger] text::contents(parts@)[j]),
        decreases 4 - i,
    {
        assert(text::contents(parts@)[i as int] == parts@[i as int]@);
        if !is_octet(parts[i].as_slice()) {
            return false;
        }
        i += 1;
    }
    true
}

/// Whether the character is a hexadecimal digit.
pub(crate) fn is_hex_digit(c: char) -> (r: bool)
    ensures
        r == hex_digit(c),
{
    ('0' <= c && c <= '9') || ('a' <= c && c <= 'f') || ('A' <= c && c <= 'F')
}

/// Whether the text is a group of one to four hexadecimal digits.
fn is_hex_group(s: &[char]) -> (r: bool)
    ensures
        r == hex_group(s@),
{
    if s.len() < 1 || s.len() > 4 {
        return false;
    }
    let mut i: usize = 0;
    while i < s.len()
        invariant
            i <= s@.len(),
            1 <= s@.len() <= 4,
            forall|j: int| 0 <= j < i ==> hex_digit(#[trigger] s@[j]),
        decreases s@.len() - i,
    {
        if !is_hex_digit(s[i]) {
            return false;
        }
        i += 1;
    }
    true
}

/// How many of the parts are groups, before the first one that is not.
fn leading_groups(parts: &Vec<Vec<char>>) -> (n: usize)
    ensures
        n <= parts@.len(),
        forall|i: int| 0 <= i < n ==> hex_group(#[trigger] text::contents(parts@)[i]),
        n < parts@.len() ==> !hex_group(text::contents(parts@)[n as int]),
{
    let mut i: usize = 0;
    while i < parts.len()
        invariant
            i <= parts@.len(),
            forall|j: int| 0 <= j < i ==> hex_group(#[trigger] text::contents(parts@)[j]),
        decreases parts@.len() - i,
    {
        assert(text::contents(parts@)[i as int] == parts@[i as int]@);
        if !is_hex_group(parts[i].as_slice()) {
            return i;
        }
        i += 1;
    }
    i
}

/// How many groups a text gives; nothing where that is more than an address can
/// have.
fn count_groups(s: &[char], mixed: bool) -> (r: Option<usize>)
    ensures
        match groups_width(s@, mixed) {
            Some(n) => if n <= 8 {
                r matches Some(k) && k == n
            } else {
                r is None
            },
            None => r is None,
        },
{
    if s.len() == 0 {
        return Some(0);
    }
    let parts: Vec<Vec<char>> = text::split_at_char(s, ':');
    let ghost all = text::contents(parts@);
    if parts.len() > 8 {
        return None;
    }
    let n: usize = leading_groups(&parts);
    if n == parts.len() {
        assert(all_groups(all));
        return Some(n);
    }
    assert(!all_groups(all));
    if mixed && n + 1 == parts.len() {
        assert(all.last() == parts@[n as int]@);
        assert forall|i: int| 0 <= i < all.drop_last().len() implies hex_group(
            #[trigger] all.drop_last()[i],
        ) by {
            assert(all.drop_last()[i] == all[i]);
        }
        if is_ipv4_text(parts[n].as_slice()) {
            return if n + 2 <= 8 {
                Some(n + 2)
            } else {
                None
            };
        }
    }
    proof {
        if n + 1 < parts@.len() {
            assert(all.drop_last()[n as int] == all[n as int]);
            assert(!all_groups(all.drop_last()));
        }
    }
    None
}

/// Whether the text is an address of groups.
pub fn is_ipv6_text(s: &[char]) -> (r: bool)
    ensures
        r == ipv6_text(s@),
{
    let double: Vec<char> = text::chars_of("::");
    match text::find(s, double.as_slice(), 0) {
        None => match count_groups(s, true) {
            Some(n) => n == 8,
            None => false,
        },
        Some(k) => {
            let head: Option<usize> = count_groups(slice_subrange(s, 0, k), false);
            let tail: Option<usize> = count_groups(
                slice_subrange(s, k + double.len(), s.len()),
                true,
            );
            match (head, tail) {
                (Some(a), Some(b)) => a <= 7 && b <= 7 - a,
                _ => false,
            }
        },
    }
}

/// Whether the text is an address of either form.
pub fn is_ip_text(s: &[char]) -> (r: bool)
    ensures
        r == ip_text(s@),
{
    is_ipv4_text(s) || is_ipv6_text(s)
}

// ---------------------------------------------------------------------------
// Laws.
// ---------------------------------------------------------------------------

/// The decimal notation of a number up to 255 is an octet, that of a larger one is not.
pub proof fn law_octets_end_at_255(n: nat)
    ensures
        octet(decimal::nat_text(n)) <==> n <= 255,
{
    let s = decimal::nat_text(n);
    decimal::law_notation_denotes(n as int);
    assert(decimal::int_text(n as int) == s);
    lemma_octet_text(n);
}

proof fn lemma_octet_text(n: nat)
    ensures
        decimal::is_digits(decimal::nat_text(n)),
        decimal::digits_value(decimal::nat_text(n)) == n,
        !decimal::nat_text(n).contains('.'),
        n <= 255 ==> decimal::nat_text(n).len() <= 3 && (decimal::nat_text(n).len() == 1
            || decimal::nat_text(n)[0] != '0'),
{
    let s = decimal::nat_text(n);
    decimal::law_notation_denotes(n as int);
    reveal_with_fuel(decimal::nat_text, 4);
    lemma_unsigned(n);
    if s.contains('.') {
        let k = choose|k: int| 0 <= k < s.len() && s[k] == '.';
        assert(text::ascii_digit(s[k]));
    }
}

proof fn lemma_unsigned(n: nat)
    ensures
        decimal::is_digits(decimal::nat_text(n)),
        decimal::digits_value(decimal::nat_text(n)) == n,
{
    let s = decimal::nat_text(n);
    decimal::law_notation_denotes(n as int);
    lemma_no_sign(n);
    assert(s.len() > 0 && s[0] != '-' && s[0] != '+');
}

proof fn lemma_no_sign(n: nat)
    ensures
        decimal::nat_text(n).len() > 0,
        text::ascii_digit(decimal::nat_text(n)[0]),
    decreases n,
{
    if n >= 10 {
        lemma_no_sign(n / 10);
        assert(decimal::nat_text(n)[0] == decimal::nat_text(n / 10)[0]);
    }
}

/// Four numbers with dots between them are an address exactly where each of them is
/// at most 255.
pub proof fn law_dotted_numbers_are_an_address(a: nat, b: nat, c: nat, d: nat)
    ensures
        ({
            let s = decimal::nat_text(a) + seq!['.'] + (decimal::nat_text(b) + seq!['.'] + (
            decimal::nat_text(c) + seq!['.'] + decimal::nat_text(d)));
            &&& ipv4_text(s) <==> a <= 255 && b <= 255 && c <= 255 && d <= 255
            &&& ipv4_text(s) ==> ip_text(s)
        }),
{
    let x = decimal::nat_text(a);
    let y = decimal::nat_text(b);
    let z = decimal::nat_text(c);
    let w = decimal::nat_text(d);
    law_octets_end_at_255(a);
    law_octets_end_at_255(b);
    law_octets_end_at_255(c);
    law_octets_end_at_255(d);
    lemma_octet_text(a);
    lemma_octet_text(b);
    lemma_octet_text(c);
    lemma_octet_text(d);
    text::lemma_split_none(w, '.');
    text::lemma_split_cons(z, '.', w);
    text::lemma_split_cons(y, '.', z + seq!['.'] + w);
    text::lemma_split_cons(x, '.', y + seq!['.'] + (z + seq!['.'] + w));
    let s = x + seq!['.'] + (y + seq!['.'] + (z + seq!['.'] + w));
    let parts = text::split(s, '.');
    assert(parts =~= seq![x, y, z, w]);
    assert(parts[0] == x && parts[1] == y && parts[2] == z && parts[3] == w);
    if a <= 255 && b <= 255 && c <= 255 && d <= 255 {
        assert forall|i: int| 0 <= i < 4 implies octet(#[trigger] parts[i]) by {
            assert(i == 0 || i == 1 || i == 2 || i == 3);
        }
    }
}

/// A text without dots is no address of the old form, and one without colons none of
/// the new.
pub proof fn law_forms_have_their_marks(s: Seq<char>)
    ensures
        !s.contains('.') ==> !ipv4_text(s),
        !s.contains(':') ==> !ipv6_text(s),
{
    reveal_strlit("::");
    assert("::"@.len() == 2);
    if !s.contains('.') {
        text::lemma_split_none(s, '.');
    }
    if !s.contains(':') {
        text::lemma_split_none(s, ':');
        text::lemma_find_from(s, "::"@, 0);
        if text::find_from(s, "::"@, 0) is Some {
            let k = text::find_from(s, "::"@, 0)->0;
            assert(s.subrange(k, k + 2)[0] == ':');
            assert(s.contains(s[k]));
        }
    }
}

/// Eight groups of up to four hexadecimal digits are an address: as long as no group
/// is left out, a text that is split into eight groups is one.
pub proof fn law_eight_groups_are_an_address(s: Seq<char>)
    requires
        text::find_from(s, "::"@, 0) is None,
        forall|i: int|
            0 <= i < text::split(s, ':').len() ==> hex_group(#[trigger] text::split(s, ':')[i]),
        s.len() > 0,
    ensures
        ipv6_text(s) <==> text::split(s, ':').len() == 8,
{
}

/// A group of an address is one to four digits in base sixteen, in either case.
pub proof fn law_groups_are_short(s: Seq<char>, i: int)
    ensures
        hex_group(s) ==> 1 <= s.len() <= 4,
        hex_group(s) && 0 <= i < s.len() ==> text::ascii_digit(s[i]) || 'a' <= text::ascii_lower(
            s,
        )[i] <= 'f',
        1 <= s.len() <= 4 && (forall|k: int|
            0 <= k < s.len() ==> text::ascii_digit(#[trigger] s[k]) || 'a'
                <= text::ascii_lower_char(s[k]) <= 'f') ==> hex_group(s),
{
}

/// Two colons stand for the groups that are left out: behind them there are at most
/// seven groups.
pub proof fn law_groups_may_be_left_out(t: Seq<char>)
    requires
        t.len() > 0,
        forall|i: int|
            0 <= i < text::split(t, ':').len() ==> hex_group(#[trigger] text::split(t, ':')[i]),
    ensures
        ipv6_text("::"@ + t) <==> text::split(t, ':').len() <= 7,
        ipv6_text("::"@),
{
    reveal_strlit("::");
    assert("::"@.len() == 2);
    let s = "::"@ + t;
    let e = Seq::<char>::empty();
    text::law_text_is_cut_at_the_mark(e, "::"@, t);
    assert(e + "::"@ + t =~= s);
    text::law_text_is_cut_at_the_mark(e, "::"@, e);
    assert(e + "::"@ + e =~= "::"@);
}

/// A number is written without zeros in front.
pub proof fn law_octets_have_no_zeros_in_front(d: Seq<char>)
    ensures
        octet(seq!['0'] + d) <==> d.len() == 0,
{
    let s = seq!['0'] + d;
    assert(s[0] == '0');
    if d.len() == 0 {
        assert(s =~= seq!['0']);
        assert(s.drop_last() =~= seq![]);
        assert(decimal::digits_value(s.drop_last()) == 0);
        assert(decimal::digits_value(s) == 0);
    }
}

/// The last two groups of an address may be written as an address of the old form.
pub proof fn law_last_groups_may_be_dotted(s: Seq<char>)
    requires
        text::find_from(s, "::"@, 0) is None,
        s.len() > 0,
        text::split(s, ':').len() > 0,
        ipv4_text(text::split(s, ':').last()),
        forall|i: int|
            0 <= i < text::split(s, ':').len() - 1 ==> hex_group(#[trigger] text::split(s, ':')[i]),
    ensures
        ipv6_text(s) <==> text::split(s, ':').len() == 7,
{
    let parts = text::split(s, ':');
    let last = parts.last();
    law_forms_have_their_marks(last);
    assert(last.contains('.'));
    let k = choose|k: int| 0 <= k < last.len() && last[k] == '.';
    assert(!hex_digit(last[k]));
    assert(!hex_group(last));
    assert(parts[parts.len() - 1] == last);
    assert(!all_groups(parts));
    assert(all_groups(parts.drop_last()));
}

} // verus!
