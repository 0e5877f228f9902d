//! Characters and character sequences: the vocabulary that every other module
//! of the library states its contracts in, and the verified operations on it.
//!
//! A text is modelled as `Seq<char>`. Executable code works on `&[char]` and
//! `Vec<char>`, and turns `&str` into them, and back into `String`, at the edge.

use vstd::prelude::*;
use vstd::slice::slice_subrange;

verus! {

broadcast use vstd::string::group_string_axioms;

// ---------------------------------------------------------------------------
// Trusted items: parts of std that carry no specification of their own.
// ---------------------------------------------------------------------------
/// `char::is_whitespace`: true exactly for the characters that have the Unicode
/// property White_Space, which [`is_white_space`] lists.
pub assume_specification[ char::is_whitespace ](c: char) -> (b: bool)
    ensures
        b == is_white_space(c),
;

/// `char::is_alphanumeric`: on ASCII, true exactly for letters and digits; on
/// every other character, what the Unicode tables say, under the name
/// [`unicode_alphanumeric`].
pub assume_specification[ char::is_alphanumeric ](c: char) -> (b: bool)
    ensures
        b == (if is_ascii_char(c) {
            ascii_alphanumeric(c)
        } else {
            unicode_alphanumeric(c)
        }),
;

/// `char::is_alphabetic`: on ASCII, true exactly for letters; on every other
/// character, what the Unicode tables say, under the name
/// [`unicode_alphabetic`].
pub assume_specification[ char::is_alphabetic ](c: char) -> (b: bool)
    ensures
        b == (if is_ascii_char(c) {
            ascii_alphabetic(c)
        } else {
            unicode_alphabetic(c)
        }),
;

/// `String::push`: appends the character.
pub assume_specification[ String::push ](s: &mut String, c: char)
    ensures
        final(s)@ == old(s)@.push(c),
;

/// `String::push_str`: appends the text.
pub assume_specification[ String::push_str ](s: &mut String, t: &str)
    ensures
        final(s)@ == old(s)@ + t@,
;

/// `String::len`: the number of bytes of the text's UTF-8 encoding.
pub assume_specification[ String::len ](s: &String) -> (n: usize)
    ensures
        n == utf8_len(s@),
;

/// `str::to_lowercase`: on an ASCII text, its letters mapped to lower case; on
/// every other text, what the Unicode tables say, under the name
/// [`unicode_lowercase`].
#[verifier::external_body]
pub(crate) fn to_lowercase(s: &str) -> (r: String)
    ensures
        r@ == (if is_ascii_text(s@) {
            ascii_lower(s@)
        } else {
            unicode_lowercase(s@)
        }),
{
    s.to_lowercase()
}

/// Whether a character outside ASCII is alphanumeric, as `char::is_alphanumeric`
/// answers.
pub uninterp spec fn unicode_alphanumeric(c: char) -> bool;

/// Whether a character outside ASCII is alphabetic, as `char::is_alphabetic`
/// answers.
pub uninterp spec fn unicode_alphabetic(c: char) -> bool;

/// The lower-case form of a text that is not pure ASCII, as `str::to_lowercase`
/// gives it.
pub uninterp spec fn unicode_lowercase(s: Seq<char>) -> Seq<char>;

// ---------------------------------------------------------------------------
// Character classes.
// ---------------------------------------------------------------------------
/// The characters with the Unicode property White_Space.
pub open spec fn is_white_space(c: char) -> bool {
    ||| '\u{9}' <= c <= '\u{d}'
    ||| c == ' '
    ||| c == '\u{85}'
    ||| c == '\u{a0}'
    ||| c == '\u{1680}'
    ||| '\u{2000}' <= c <= '\u{200a}'
    ||| c == '\u{2028}'
    ||| c == '\u{2029}'
    ||| c == '\u{202f}'
    ||| c == '\u{205f}'
    ||| c == '\u{3000}'
}

pub open spec fn is_ascii_char(c: char) -> bool {
    c <= '\u{7f}'
}

pub open spec fn is_ascii_text(s: Seq<char>) -> bool {
    forall|i: int| 0 <= i < s.len() ==> is_ascii_char(#[trigger] s[i])
}

pub open spec fn ascii_digit(c: char) -> bool {
    '0' <= c <= '9'
}

pub open spec fn ascii_alphabetic(c: char) -> bool {
    'a' <= c <= 'z' || 'A' <= c <= 'Z'
}

pub open spec fn ascii_alphanumeric(c: char) -> bool {
    ascii_alphabetic(c) || ascii_digit(c)
}

/// Letters and digits in the sense of Unicode.
pub open spec fn alphanumeric(c: char) -> bool {
    if is_ascii_char(c) {
        ascii_alphanumeric(c)
    } else {
        unicode_alphanumeric(c)
    }
}

/// Letters in the sense of Unicode.
pub open spec fn alphabetic(c: char) -> bool {
    if is_ascii_char(c) {
        ascii_alphabetic(c)
    } else {
        unicode_alphabetic(c)
    }
}

/// The text in lower case, in the sense of Unicode.
pub open spec fn lowercase(s: Seq<char>) -> Seq<char> {
    if is_ascii_text(s) {
        ascii_lower(s)
    } else {
        unicode_lowercase(s)
    }
}

/// The character with an ASCII capital turned into the small letter.
pub open spec fn ascii_lower_char(c: char) -> char {
    if 'A' <= c <= 'Z' {
        ((c as u32 + 32) as u32) as char
    } else {
        c
    }
}

/// The text with its ASCII capitals turned into small letters.
pub open spec fn ascii_lower(s: Seq<char>) -> Seq<char> {
    s.map_values(|c: char| ascii_lower_char(c))
}

/// Equality up to the case of ASCII letters.
pub open spec fn same_ignoring_ascii_case(a: Seq<char>, b: Seq<char>) -> bool {
    ascii_lower(a) == ascii_lower(b)
}

/// The number of bytes of the UTF-8 encoding.
pub open spec fn utf8_len(s: Seq<char>) -> nat {
    vstd::utf8::encode_utf8(s).len()
}

// ---------------------------------------------------------------------------
// Searching.
// ---------------------------------------------------------------------------
/// The text `p` stands in `s` at index `i`.
pub open spec fn occurs_at(s: Seq<char>, p: Seq<char>, i: int) -> bool {
    0 <= i && i + p.len() <= s.len() && s.subrange(i, i + p.len()) == p
}

pub open spec fn starts_with(s: Seq<char>, p: Seq<char>) -> bool {
    occurs_at(s, p, 0)
}

pub open spec fn ends_with(s: Seq<char>, p: Seq<char>) -> bool {
    occurs_at(s, p, s.len() - p.len())
}

/// The text `p` stands somewhere in `s`.
pub open spec fn contains_text(s: Seq<char>, p: Seq<char>) -> bool {
    exists|i: int| occurs_at(s, p, i)
}

/// The least index from `i` on at which `p` stands in `s`.
pub open spec fn find_from(s: Seq<char>, p: Seq<char>, i: int) -> Option<int>
    decreases s.len() - i,
{
    if i < 0 || i > s.len() {
        None
    } else if occurs_at(s, p, i) {
        Some(i)
    } else if i == s.len() {
        None
    } else {
        find_from(s, p, i + 1)
    }
}

/// The greatest index at most `i` at which `p` stands in `s`.
pub open spec fn rfind_from(s: Seq<char>, p: Seq<char>, i: int) -> Option<int>
    decreases i + 1,
{
    if i < 0 {
        None
    } else if occurs_at(s, p, i) {
        Some(i)
    } else {
        rfind_from(s, p, i - 1)
    }
}

/// The greatest index at which `p` stands in `s`.
pub open spec fn rfind(s: Seq<char>, p: Seq<char>) -> Option<int> {
    rfind_from(s, p, s.len() as int)
}

/// The least index from `i` on of a character in the class `f`, or the length
/// of the text.
pub open spec fn next_index(s: Seq<char>, f: spec_fn(char) -> bool, i: int) -> int
    decreases s.len() - i,
{
    if i < 0 || i >= s.len() {
        s.len() as int
    } else if f(s[i]) {
        i
    } else {
        next_index(s, f, i + 1)
    }
}

/// The part of `s` before the first character in the class `f`.
pub open spec fn before_any(s: Seq<char>, f: spec_fn(char) -> bool) -> Seq<char> {
    s.subrange(0, next_index(s, f, 0))
}

/// The part of `s` before the first place where `p` stands, or all of `s`.
pub open spec fn before_text(s: Seq<char>, p: Seq<char>) -> Seq<char> {
    match find_from(s, p, 0) {
        Some(i) => s.subrange(0, i),
        None => s,
    }
}

/// The part of `s` behind the first place where `p` stands.
pub open spec fn after_text(s: Seq<char>, p: Seq<char>) -> Option<Seq<char>> {
    match find_from(s, p, 0) {
        Some(i) => Some(s.subrange(i + p.len(), s.len() as int)),
        None => None,
    }
}

/// The part of `s` behind the last place where `p` stands, or all of `s`.
pub open spec fn after_last(s: Seq<char>, p: Seq<char>) -> Seq<char> {
    match rfind(s, p) {
        Some(i) => s.subrange(i + p.len(), s.len() as int),
        None => s,
    }
}

/// `s` without `p` at its front, where it starts with it.
pub open spec fn strip_prefix(s: Seq<char>, p: Seq<char>) -> Option<Seq<char>> {
    if starts_with(s, p) {
        Some(s.subrange(p.len() as int, s.len() as int))
    } else {
        None
    }
}

/// `s` without `p` in front, as often as it stands there.
pub open spec fn without_repeated(s: Seq<char>, p: Seq<char>) -> Seq<char>
    decreases s.len(),
{
    if p.len() > 0 && starts_with(s, p) {
        without_repeated(s.subrange(p.len() as int, s.len() as int), p)
    } else {
        s
    }
}

/// `s` without `p` at its end, where it ends with it.
pub open spec fn strip_suffix(s: Seq<char>, p: Seq<char>) -> Option<Seq<char>> {
    if ends_with(s, p) {
        Some(s.subrange(0, s.len() - p.len()))
    } else {
        None
    }
}

// ---------------------------------------------------------------------------
// Trimming.
// ---------------------------------------------------------------------------
/// `s` without the characters in the class `f` at its front.
pub open spec fn trim_start_while(s: Seq<char>, f: spec_fn(char) -> bool) -> Seq<char>
    decreases s.len(),
{
    if s.len() > 0 && f(s[0]) {
        trim_start_while(s.drop_first(), f)
    } else {
        s
    }
}

/// `s` without the characters in the class `f` at its end.
pub open spec fn trim_end_while(s: Seq<char>, f: spec_fn(char) -> bool) -> Seq<char>
    decreases s.len(),
{
    if s.len() > 0 && f(s.last()) {
        trim_end_while(s.drop_last(), f)
    } else {
        s
    }
}

pub open spec fn white() -> spec_fn(char) -> bool {
    |c: char| is_white_space(c)
}

pub open spec fn just(d: char) -> spec_fn(char) -> bool {
    |c: char| c == d
}

pub open spec fn trimmed_start(s: Seq<char>) -> Seq<char> {
    trim_start_while(s, white())
}

pub open spec fn trimmed_end(s: Seq<char>) -> Seq<char> {
    trim_end_while(s, white())
}

/// `s` without white space at either end.
pub open spec fn trimmed(s: Seq<char>) -> Seq<char> {
    trimmed_end(trimmed_start(s))
}

/// `s` without the characters `d` at its front.
pub open spec fn without_leading(s: Seq<char>, d: char) -> Seq<char> {
    trim_start_while(s, just(d))
}

/// `s` without the characters `d` at its end.
pub open spec fn without_trailing(s: Seq<char>, d: char) -> Seq<char> {
    trim_end_while(s, just(d))
}

/// `s` without the characters `d` at either end.
pub open spec fn without_outer(s: Seq<char>, d: char) -> Seq<char> {
    without_trailing(without_leading(s, d), d)
}

// ---------------------------------------------------------------------------
// Splitting and joining.
// ---------------------------------------------------------------------------
/// The pieces of `s[i..]` between characters in the class `f`, the first of
/// them continuing `piece`.
pub open spec fn pieces_from(
    s: Seq<char>,
    f: spec_fn(char) -> bool,
    i: int,
    piece: Seq<char>,
) -> Seq<Seq<char>>
    decreases s.len() - i,
{
    if i < 0 || i >= s.len() {
        seq![piece]
    } else if f(s[i]) {
        seq![piece] + pieces_from(s, f, i + 1, seq![])
    } else {
        pieces_from(s, f, i + 1, piece.push(s[i]))
    }
}

/// The pieces of `s` between the characters `d`: always at least one.
pub open spec fn split(s: Seq<char>, d: char) -> Seq<Seq<char>> {
    pieces_from(s, just(d), 0, seq![])
}

/// The pieces of `ps` that are not empty, in order.
pub open spec fn non_empty(ps: Seq<Seq<char>>) -> Seq<Seq<char>> {
    ps.filter(|p: Seq<char>| p.len() > 0)
}

/// The words of `s`: its longest pieces without white space.
pub open spec fn words(s: Seq<char>) -> Seq<Seq<char>> {
    non_empty(pieces_from(s, white(), 0, seq![]))
}

/// The texts one behind the other, with `sep` between each two.
pub open spec fn join(ps: Seq<Seq<char>>, sep: Seq<char>) -> Seq<char>
    decreases ps.len(),
{
    if ps.len() == 0 {
        seq![]
    } else if ps.len() == 1 {
        ps[0]
    } else {
        join(ps.drop_last(), sep) + sep + ps.last()
    }
}

/// The texts of a list, each where it occurs first.
pub open spec fn distinct(us: Seq<Seq<char>>) -> Seq<Seq<char>>
    decreases us.len(),
{
    if us.len() == 0 {
        seq![]
    } else if distinct(us.drop_last()).contains(us.last()) {
        distinct(us.drop_last())
    } else {
        distinct(us.drop_last()).push(us.last())
    }
}

/// The contents of a list of texts.
pub open spec fn contents(v: Seq<Vec<char>>) -> Seq<Seq<char>> {
    v.map_values(|t: Vec<char>| t@)
}

/// The contents of a list of strings.
pub open spec fn string_contents(v: Seq<String>) -> Seq<Seq<char>> {
    v.map_values(|t: String| t@)
}

/// The text that an optional string holds.
pub open spec fn str_view(s: Option<&str>) -> Option<Seq<char>> {
    match s {
        Some(t) => Some(t@),
        None => None,
    }
}

/// The text that an optional owned string holds.
pub open spec fn string_view(s: Option<String>) -> Option<Seq<char>> {
    match s {
        Some(t) => Some(t@),
        None => None,
    }
}

// ---------------------------------------------------------------------------
// Facts about the vocabulary.
// ---------------------------------------------------------------------------
/// What is found is the first of its class from the starting index on.
pub proof fn lemma_next_index(s: Seq<char>, f: spec_fn(char) -> bool, i: int)
    requires
        0 <= i <= s.len(),
    ensures
        i <= next_index(s, f, i) <= s.len(),
        next_index(s, f, i) < s.len() ==> f(s[next_index(s, f, i)]),
        forall|k: int| i <= k < next_index(s, f, i) ==> !f(#[trigger] s[k]),
    decreases s.len() - i,
{
    if i < s.len() && !f(s[i]) {
        lemma_next_index(s, f, i + 1);
    }
}

/// What is found is the first place from the starting index on.
pub proof fn lemma_find_from(s: Seq<char>, p: Seq<char>, i: int)
    requires
        0 <= i <= s.len(),
    ensures
        find_from(s, p, i) matches Some(k) ==> i <= k && occurs_at(s, p, k) && forall|j: int|
            i <= j < k ==> !#[trigger] occurs_at(s, p, j),
        find_from(s, p, i) is None ==> forall|j: int| i <= j ==> !#[trigger] occurs_at(s, p, j),
    decreases s.len() - i,
{
    if !occurs_at(s, p, i) && i < s.len() {
        lemma_find_from(s, p, i + 1);
    }
}

/// A text contains another one exactly where a search from its front finds it.
pub proof fn lemma_contains_text(s: Seq<char>, p: Seq<char>)
    ensures
        contains_text(s, p) <==> find_from(s, p, 0) is Some,
{
    lemma_find_from(s, p, 0);
    if contains_text(s, p) {
        let i: int = choose|i: int| occurs_at(s, p, i);
        assert(occurs_at(s, p, i));
    }
    if find_from(s, p, 0) is Some {
        assert(occurs_at(s, p, find_from(s, p, 0)->0));
    }
}

/// What is found is the last place up to the starting index.
pub proof fn lemma_rfind_from(s: Seq<char>, p: Seq<char>, i: int)
    ensures
        rfind_from(s, p, i) matches Some(k) ==> 0 <= k <= i && occurs_at(s, p, k) && forall|j: int|
            k < j <= i ==> !#[trigger] occurs_at(s, p, j),
        rfind_from(s, p, i) is None ==> forall|j: int| j <= i ==> !#[trigger] occurs_at(s, p, j),
    decreases i + 1,
{
    if i >= 0 && !occurs_at(s, p, i) {
        lemma_rfind_from(s, p, i - 1);
    }
}

/// What stands behind the last character `d` of a text.
pub proof fn lemma_after_last(a: Seq<char>, d: char, b: Seq<char>, p: Seq<char>)
    requires
        !b.contains(d),
        p == seq![d],
    ensures
        after_last(a + seq![d] + b, p) == b,
{
    let s = a + seq![d] + b;
    let n: int = a.len() as int;
    lemma_rfind_from(s, p, s.len() as int);
    assert(s.subrange(n, n + 1) =~= p);
    assert(occurs_at(s, p, n));
    match rfind(s, p) {
        Some(k) => {
            assert(occurs_at(s, p, k));
            if k > n {
                assert(s.subrange(k, k + 1)[0] == d);
                assert(s[k] == b[k - n - 1]);
                assert(b.contains(b[k - n - 1]));
                assert(false);
            }
            assert(k == n);
        },
        None => {},
    }
    assert(s.subrange(n + 1, s.len() as int) =~= b);
}

/// What a trimmed text is: the suffix that starts at the first character to stay.
pub proof fn lemma_trim_start_while(s: Seq<char>, f: spec_fn(char) -> bool, k: int)
    requires
        0 <= k <= s.len(),
        forall|i: int| 0 <= i < k ==> f(#[trigger] s[i]),
        k < s.len() ==> !f(s[k]),
    ensures
        trim_start_while(s, f) == s.subrange(k, s.len() as int),
    decreases s.len(),
{
    if k == 0 {
        assert(s.subrange(0, s.len() as int) =~= s);
    } else {
        assert(f(s[0]));
        let t = s.drop_first();
        assert forall|i: int| 0 <= i < k - 1 implies f(#[trigger] t[i]) by {
            assert(t[i] == s[i + 1]);
        }
        lemma_trim_start_while(t, f, k - 1);
        assert(t.subrange(k - 1, t.len() as int) =~= s.subrange(k, s.len() as int));
    }
}

/// What a trimmed text is: the prefix that ends behind the last character to stay.
pub proof fn lemma_trim_end_while(s: Seq<char>, f: spec_fn(char) -> bool, k: int)
    requires
        0 <= k <= s.len(),
        forall|i: int| k <= i < s.len() ==> f(#[trigger] s[i]),
        k > 0 ==> !f(s[k - 1]),
    ensures
        trim_end_while(s, f) == s.subrange(0, k),
    decreases s.len(),
{
    if k == s.len() {
        assert(s.subrange(0, k) =~= s);
    } else {
        assert(f(s[s.len() - 1]));
        lemma_trim_end_while(s.drop_last(), f, k);
        assert(s.drop_last().subrange(0, k) =~= s.subrange(0, k));
    }
}

/// What trimming at the front leaves: a suffix whose first character stays.
pub proof fn lemma_trimmed_front(s: Seq<char>, f: spec_fn(char) -> bool)
    ensures
        trim_start_while(s, f).len() <= s.len(),
        trim_start_while(s, f) == s.subrange(
            s.len() - trim_start_while(s, f).len(),
            s.len() as int,
        ),
        trim_start_while(s, f).len() > 0 ==> !f(trim_start_while(s, f)[0]),
    decreases s.len(),
{
    if s.len() > 0 && f(s[0]) {
        let t = s.drop_first();
        lemma_trimmed_front(t, f);
        let r = trim_start_while(t, f);
        assert(t.subrange(t.len() - r.len(), t.len() as int) =~= s.subrange(
            s.len() - r.len(),
            s.len() as int,
        ));
    } else {
        assert(s.subrange(0, s.len() as int) =~= s);
    }
}

/// What trimming at the end leaves: a prefix whose last character stays.
pub proof fn lemma_trimmed_back(s: Seq<char>, f: spec_fn(char) -> bool)
    ensures
        trim_end_while(s, f).len() <= s.len(),
        trim_end_while(s, f) == s.subrange(0, trim_end_while(s, f).len() as int),
        trim_end_while(s, f).len() > 0 ==> !f(trim_end_while(s, f).last()),
    decreases s.len(),
{
    if s.len() > 0 && f(s.last()) {
        let t = s.drop_last();
        lemma_trimmed_back(t, f);
        let r = trim_end_while(t, f);
        assert(t.subrange(0, r.len() as int) =~= s.subrange(0, r.len() as int));
    } else {
        assert(s.subrange(0, s.len() as int) =~= s);
    }
}

/// No piece of a split text holds a character at which the text is split.
pub proof fn lemma_pieces(s: Seq<char>, f: spec_fn(char) -> bool, i: int, piece: Seq<char>)
    requires
        0 <= i <= s.len(),
        forall|j: int| 0 <= j < piece.len() ==> !f(#[trigger] piece[j]),
    ensures
        forall|k: int, j: int|
            #![trigger pieces_from(s, f, i, piece)[k][j]]
            0 <= k < pieces_from(s, f, i, piece).len() && 0 <= j < pieces_from(
                s,
                f,
                i,
                piece,
            )[k].len() ==> !f(pieces_from(s, f, i, piece)[k][j]),
    decreases s.len() - i,
{
    let all = pieces_from(s, f, i, piece);
    if i < s.len() {
        if f(s[i]) {
            let rest = pieces_from(s, f, i + 1, seq![]);
            lemma_pieces(s, f, i + 1, seq![]);
            assert forall|k: int, j: int| 0 <= k < all.len() && 0 <= j < all[k].len() implies !f(
                #[trigger] all[k][j],
            ) by {
                if k > 0 {
                    assert(all[k] == rest[k - 1]);
                    assert(!f(rest[k - 1][j]));
                } else {
                    assert(all[k] == piece);
                    assert(!f(piece[j]));
                }
            }
        } else {
            let next = pieces_from(s, f, i + 1, piece.push(s[i]));
            lemma_pieces(s, f, i + 1, piece.push(s[i]));
            assert forall|k: int, j: int| 0 <= k < all.len() && 0 <= j < all[k].len() implies !f(
                #[trigger] all[k][j],
            ) by {
                assert(!f(next[k][j]));
            }
        }
    } else {
        assert forall|k: int, j: int| 0 <= k < all.len() && 0 <= j < all[k].len() implies !f(
            #[trigger] all[k][j],
        ) by {
            assert(k == 0 && all[0] == piece);
            assert(!f(piece[j]));
        }
    }
}

/// The pieces from index `i` on: what stands before the next character at which
/// the text is split, and the pieces behind that character.
pub proof fn lemma_pieces_step(s: Seq<char>, f: spec_fn(char) -> bool, i: int, piece: Seq<char>)
    requires
        0 <= i <= s.len(),
    ensures
        ({
            let k = next_index(s, f, i);
            &&& i <= k <= s.len()
            &&& pieces_from(s, f, i, piece) == (if k < s.len() {
                seq![piece + s.subrange(i, k)] + pieces_from(s, f, k + 1, seq![])
            } else {
                seq![piece + s.subrange(i, k)]
            })
        }),
    decreases s.len() - i,
{
    lemma_next_index(s, f, i);
    let k = next_index(s, f, i);
    if i >= s.len() || f(s[i]) {
        assert(piece + s.subrange(i, k) =~= piece);
    } else {
        lemma_pieces_step(s, f, i + 1, piece.push(s[i]));
        assert(piece.push(s[i]) + s.subrange(i + 1, k) =~= piece + s.subrange(i, k));
    }
}

/// A text without the character at which it is split is one piece.
pub proof fn lemma_split_none(s: Seq<char>, d: char)
    requires
        !s.contains(d),
    ensures
        split(s, d) == seq![s],
{
    lemma_pieces_step(s, just(d), 0, seq![]);
    lemma_next_index(s, just(d), 0);
    assert(Seq::<char>::empty() + s.subrange(0, s.len() as int) =~= s);
}

/// A text with the character at which it is split between `a` and the rest.
pub proof fn lemma_split_cons(a: Seq<char>, d: char, rest: Seq<char>)
    requires
        !a.contains(d),
    ensures
        split(a + seq![d] + rest, d) == seq![a] + split(rest, d),
{
    let s = a + seq![d] + rest;
    let n: int = a.len() as int;
    lemma_pieces_step(s, just(d), 0, seq![]);
    lemma_next_index(s, just(d), 0);
    let k = next_index(s, just(d), 0);
    assert(s[n] == d);
    assert forall|j: int| 0 <= j < n implies s[j] != d by {
        assert(s[j] == a[j]);
    }
    assert(k == n);
    assert(Seq::<char>::empty() + s.subrange(0, n) =~= a);
    assert(s.subrange(n + 1, s.len() as int) =~= rest);
    assert(rest.subrange(0, rest.len() as int) =~= rest);
    lemma_pieces_shift(s, rest, just(d), n + 1, 0, seq![]);
}

/// Pieces depend only on what stands behind the index.
proof fn lemma_pieces_shift(
    s: Seq<char>,
    t: Seq<char>,
    f: spec_fn(char) -> bool,
    i: int,
    j: int,
    piece: Seq<char>,
)
    requires
        0 <= i <= s.len(),
        0 <= j <= t.len(),
        s.subrange(i, s.len() as int) == t.subrange(j, t.len() as int),
    ensures
        pieces_from(s, f, i, piece) == pieces_from(t, f, j, piece),
    decreases s.len() - i,
{
    let rest = s.subrange(i, s.len() as int);
    assert(rest.len() == t.len() - j);
    if i < s.len() {
        assert(s[i] == rest[0] && t[j] == rest[0]);
        assert(s.subrange(i + 1, s.len() as int) =~= rest.drop_first());
        assert(t.subrange(j + 1, t.len() as int) =~= rest.drop_first());
        lemma_pieces_shift(s, t, f, i + 1, j + 1, seq![]);
        lemma_pieces_shift(s, t, f, i + 1, j + 1, piece.push(s[i]));
    }
}

/// The words of a text are not empty and hold no white space.
pub proof fn lemma_words(s: Seq<char>)
    ensures
        forall|k: int| 0 <= k < words(s).len() ==> (#[trigger] words(s)[k]).len() > 0,
        forall|k: int, j: int|
            #![trigger words(s)[k][j]]
            0 <= k < words(s).len() && 0 <= j < words(s)[k].len() ==> !is_white_space(
                words(s)[k][j],
            ),
{
    let ps = pieces_from(s, white(), 0, seq![]);
    let keep = |p: Seq<char>| p.len() > 0;
    lemma_pieces(s, white(), 0, seq![]);
    assert(words(s) == ps.filter(keep));
    assert forall|k: int| 0 <= k < words(s).len() implies (#[trigger] words(s)[k]).len() > 0 by {
        ps.lemma_filter_pred(keep, k);
    }
    assert forall|k: int, j: int|
        0 <= k < words(s).len() && 0 <= j < words(s)[k].len() implies !is_white_space(
        #[trigger] words(s)[k][j],
    ) by {
        assert(words(s).contains(words(s)[k]));
        ps.lemma_filter_contains_rev(keep, words(s)[k]);
        let n: int = choose|n: int| 0 <= n < ps.len() && ps[n] == words(s)[k];
        assert(!white()(ps[n][j]));
    }
}

/// The only white space of the text is single spaces between other characters.
pub open spec fn single_spaced(s: Seq<char>) -> bool {
    forall|i: int|
        0 <= i < s.len() && is_white_space(#[trigger] s[i]) ==> s[i] == ' ' && 0 < i < s.len() - 1
            && !is_white_space(s[i - 1]) && !is_white_space(s[i + 1])
}

/// Words set apart by single spaces have no other white space.
pub proof fn lemma_joined_words(ws: Seq<Seq<char>>)
    requires
        forall|k: int| 0 <= k < ws.len() ==> (#[trigger] ws[k]).len() > 0,
        forall|k: int, j: int|
            #![trigger ws[k][j]]
            0 <= k < ws.len() && 0 <= j < ws[k].len() ==> !is_white_space(ws[k][j]),
    ensures
        single_spaced(join(ws, seq![' '])),
        ws.len() > 0 ==> join(ws, seq![' ']).len() > 0,
    decreases ws.len(),
{
    let r = join(ws, seq![' ']);
    if ws.len() == 1 {
        assert forall|i: int| 0 <= i < r.len() implies !is_white_space(#[trigger] r[i]) by {
            assert(!is_white_space(ws[0][i]));
        }
    } else if ws.len() > 1 {
        let front = ws.drop_last();
        let last = ws.last();
        assert forall|k: int, j: int|
            0 <= k < front.len() && 0 <= j < front[k].len() implies !is_white_space(
            #[trigger] front[k][j],
        ) by {
            assert(!is_white_space(ws[k][j]));
        }
        lemma_joined_words(front);
        let a = join(front, seq![' ']);
        assert(r == a + seq![' '] + last);
        assert forall|j: int| 0 <= j < last.len() implies !is_white_space(#[trigger] last[j]) by {
            assert(!is_white_space(ws[ws.len() - 1][j]));
        }
        assert(!is_white_space(a[a.len() - 1]));
        assert forall|i: int| 0 <= i < r.len() && is_white_space(#[trigger] r[i]) implies r[i] == ' '
            && 0 < i < r.len() - 1 && !is_white_space(r[i - 1]) && !is_white_space(r[i + 1]) by {
            if i < a.len() {
                assert(r[i] == a[i]);
                assert(r[i - 1] == a[i - 1]);
                assert(r[i + 1] == a[i + 1]);
            } else if i == a.len() {
                assert(r[i - 1] == a[a.len() - 1]);
                assert(r[i + 1] == last[0]);
            } else {
                assert(r[i] == last[i - a.len() - 1]);
            }
        }
    }
}

/// A list of texts that grows at its end: what is joined grows at its end too.
pub proof fn lemma_join_push(ps: Seq<Seq<char>>, p: Seq<char>, sep: Seq<char>)
    ensures
        join(ps.push(p), sep) == if ps.len() == 0 {
            p
        } else {
            join(ps, sep) + sep + p
        },
{
    assert(ps.push(p).drop_last() =~= ps);
}

/// A list of the different texts of another one holds each of them once.
pub proof fn lemma_distinct(us: Seq<Seq<char>>)
    ensures
        distinct(us).no_duplicates(),
        forall|t: Seq<char>| #[trigger] distinct(us).contains(t) <==> us.contains(t),
    decreases us.len(),
{
    if us.len() > 0 {
        let init = us.drop_last();
        let d = distinct(init);
        lemma_distinct(init);
        assert(us =~= init.push(us.last()));
        assert forall|t: Seq<char>| #[trigger] distinct(us).contains(t) <==> us.contains(t) by {
            if us.contains(t) {
                let i = us.index_of(t);
                if i < init.len() {
                    assert(init[i] == t);
                    assert(init.contains(t));
                    assert(d.contains(t));
                    let k = d.index_of(t);
                    assert(distinct(us)[k] == t);
                } else {
                    assert(t == us.last());
                    if !d.contains(t) {
                        assert(distinct(us)[d.len() as int] == t);
                    }
                }
            }
            if distinct(us).contains(t) {
                if d.contains(t) {
                    assert(init.contains(t));
                    let k = init.index_of(t);
                    assert(us[k] == t);
                } else {
                    assert(us[us.len() - 1] == t);
                }
            }
        }
        if !d.contains(us.last()) {
            assert forall|i: int, j: int|
                0 <= i < distinct(us).len() && 0 <= j < distinct(us).len() && i
                    != j implies #[trigger] distinct(us)[i] != #[trigger] distinct(us)[j] by {
                if i < d.len() && j < d.len() {
                    assert(d[i] != d[j]);
                } else if i < d.len() {
                    assert(d.contains(d[i]));
                } else {
                    assert(d.contains(d[j]));
                }
            }
        }
    }
}

/// The pieces that are not empty are no more than the pieces.
pub proof fn lemma_non_empty_len(ps: Seq<Seq<char>>)
    ensures
        non_empty(ps).len() <= ps.len(),
    decreases ps.len(),
{
    reveal(Seq::filter);
    if ps.len() > 0 {
        lemma_non_empty_len(ps.drop_last());
    }
}

/// The UTF-8 length of two texts one behind the other.
pub proof fn lemma_utf8_len_add(a: Seq<char>, b: Seq<char>)
    ensures
        utf8_len(a + b) == utf8_len(a) + utf8_len(b),
    decreases a.len(),
{
    if a.len() == 0 {
        assert(a + b =~= b);
    } else {
        assert((a + b).drop_first() =~= a.drop_first() + b);
        lemma_utf8_len_add(a.drop_first(), b);
    }
}

// ---------------------------------------------------------------------------
// Executable operations.
// ---------------------------------------------------------------------------
/// The characters of a string.
pub fn chars_of(s: &str) -> (r: Vec<char>)
    ensures
        r@ == s@,
{
    let mut out: Vec<char> = Vec::new();
    for c in it: s.chars()
        invariant
            out@ == it.seq().take(it.index() as int),
            it.seq() == s@,
    {
        out.push(c);
        assert(it.seq().take(it.index() + 1) =~= it.seq().take(it.index() as int).push(c));
    }
    assert(s@.take(s@.len() as int) =~= s@);
    out
}

/// The string that holds the given characters.
pub fn string_of(s: &[char]) -> (r: String)
    ensures
        r@ == s@,
{
    let mut out: String = String::new();
    let mut i: usize = 0;
    while i < s.len()
        invariant
            i <= s@.len(),
            out@ == s@.take(i as int),
        decreases s@.len() - i,
    {
        out.push(s[i]);
        assert(s@.take(i + 1) =~= s@.take(i as int).push(s@[i as int]));
        i += 1;
    }
    assert(s@.take(i as int) =~= s@);
    out
}

/// Appends a text to a text.
pub fn append(out: &mut Vec<char>, s: &[char])
    ensures
        final(out)@ == old(out)@ + s@,
{
    let mut i: usize = 0;
    while i < s.len()
        invariant
            i <= s@.len(),
            out@ == old(out)@ + s@.take(i as int),
        decreases s@.len() - i,
    {
        out.push(s[i]);
        assert(s@.take(i + 1) =~= s@.take(i as int).push(s@[i as int]));
        i += 1;
    }
    assert(s@.take(i as int) =~= s@);
}

/// Whether `p` stands in `s` at index `i`.
pub fn is_at(s: &[char], p: &[char], i: usize) -> (b: bool)
    ensures
        b == occurs_at(s@, p@, i as int),
{
    if i > s.len() || p.len() > s.len() - i {
        return false;
    }
    let mut k: usize = 0;
    while k < p.len()
        invariant
            i + p@.len() <= s@.len() <= usize::MAX,
            k <= p@.len(),
            forall|j: int| 0 <= j < k ==> s@[i + j] == p@[j],
        decreases p@.len() - k,
    {
        if s[i + k] != p[k] {
            assert(s@.subrange(i as int, i + p@.len())[k as int] != p@[k as int]);
            return false;
        }
        k += 1;
    }
    assert(s@.subrange(i as int, i + p@.len()) =~= p@);
    true
}

/// Whether two texts are the same.
pub fn same(a: &[char], b: &[char]) -> (r: bool)
    ensures
        r == (a@ == b@),
{
    if a.len() != b.len() {
        return false;
    }
    let r: bool = is_at(a, b, 0);
    assert(a@.subrange(0, a@.len() as int) =~= a@);
    r
}

/// Whether two strings are the same.
pub fn same_str(a: &str, b: &str) -> (r: bool)
    ensures
        r == (a@ == b@),
{
    same(chars_of(a).as_slice(), chars_of(b).as_slice())
}

/// Whether a text is the one that a string holds.
pub fn is_text(s: &[char], t: &str) -> (r: bool)
    ensures
        r == (s@ == t@),
{
    same(s, chars_of(t).as_slice())
}

/// Whether a text starts with the one that a string holds.
pub fn has_prefix(s: &[char], p: &str) -> (r: bool)
    ensures
        r == starts_with(s@, p@),
{
    is_at(s, chars_of(p).as_slice(), 0)
}

/// Whether a text ends with the one that a string holds.
pub fn has_suffix(s: &[char], p: &str) -> (r: bool)
    ensures
        r == ends_with(s@, p@),
{
    let t: Vec<char> = chars_of(p);
    if t.len() > s.len() {
        return false;
    }
    is_at(s, t.as_slice(), s.len() - t.len())
}

/// The least index from `from` on at which `p` stands in `s`.
pub fn find(s: &[char], p: &[char], from: usize) -> (r: Option<usize>)
    requires
        from <= s@.len(),
    ensures
        r is Some <==> find_from(s@, p@, from as int) is Some,
        r matches Some(k) ==> find_from(s@, p@, from as int) == Some(k as int) && k + p@.len()
            <= s@.len() <= usize::MAX && from <= k,
{
    let n: usize = s.len();
    let mut i: usize = from;
    loop
        invariant
            from <= i <= s@.len() == n,
            find_from(s@, p@, from as int) == find_from(s@, p@, i as int),
        decreases s@.len() - i,
    {
        if is_at(s, p, i) {
            return Some(i);
        }
        if i == s.len() {
            return None;
        }
        i += 1;
    }
}

/// The greatest index at which `p` stands in `s`.
pub fn find_last(s: &[char], p: &[char]) -> (r: Option<usize>)
    ensures
        r is Some <==> rfind(s@, p@) is Some,
        r matches Some(k) ==> rfind(s@, p@) == Some(k as int) && k + p@.len() <= s@.len()
            <= usize::MAX,
{
    let n: usize = s.len();
    let mut i: usize = n;
    loop
        invariant
            i <= s@.len() == n,
            rfind(s@, p@) == rfind_from(s@, p@, i as int),
        decreases i,
    {
        if is_at(s, p, i) {
            return Some(i);
        }
        if i == 0 {
            assert(rfind_from(s@, p@, -1) is None);
            return None;
        }
        i -= 1;
    }
}

/// Whether `p` stands somewhere in `s`.
pub fn has_text(s: &[char], p: &[char]) -> (r: bool)
    ensures
        r == contains_text(s@, p@),
{
    proof {
        lemma_contains_text(s@, p@);
    }
    find(s, p, 0).is_some()
}

/// The least index from `from` on of the character `d`, or the length of the text.
pub fn next_char(s: &[char], d: char, from: usize) -> (r: usize)
    requires
        from <= s@.len(),
    ensures
        r == next_index(s@, just(d), from as int),
        from <= r <= s@.len(),
        r < s@.len() ==> s@[r as int] == d,
{
    let mut i: usize = from;
    while i < s.len() && s[i] != d
        invariant
            from <= i <= s@.len(),
            next_index(s@, just(d), from as int) == next_index(s@, just(d), i as int),
        decreases s@.len() - i,
    {
        i += 1;
    }
    i
}

/// Whether the character `d` occurs in the text.
pub fn has_char(s: &[char], d: char) -> (r: bool)
    ensures
        r == s@.contains(d),
{
    let k: usize = next_char(s, d, 0);
    proof {
        lemma_next_index(s@, just(d), 0);
    }
    k < s.len()
}

/// The text without white space at its front.
pub fn trim_start(s: &[char]) -> (r: &[char])
    ensures
        r@ == trimmed_start(s@),
        r@.len() <= s@.len(),
        r@ == s@.subrange(s@.len() - r@.len(), s@.len() as int),
{
    let mut k: usize = 0;
    while k < s.len() && s[k].is_whitespace()
        invariant
            k <= s@.len(),
            forall|i: int| 0 <= i < k ==> is_white_space(#[trigger] s@[i]),
        decreases s@.len() - k,
    {
        k += 1;
    }
    proof {
        lemma_trim_start_while(s@, white(), k as int);
    }
    slice_subrange(s, k, s.len())
}

/// The text without white space at its end.
pub fn trim_end(s: &[char]) -> (r: &[char])
    ensures
        r@ == trimmed_end(s@),
        r@.len() <= s@.len(),
        r@ == s@.subrange(0, r@.len() as int),
{
    let mut k: usize = s.len();
    while k > 0 && s[k - 1].is_whitespace()
        invariant
            k <= s@.len(),
            forall|i: int| k <= i < s@.len() ==> is_white_space(#[trigger] s@[i]),
        decreases k,
    {
        k -= 1;
    }
    proof {
        lemma_trim_end_while(s@, white(), k as int);
    }
    slice_subrange(s, 0, k)
}

/// The text without white space at either end.
pub fn trim(s: &[char]) -> (r: &[char])
    ensures
        r@ == trimmed(s@),
        r@.len() <= s@.len(),
{
    trim_end(trim_start(s))
}

/// The text without `p` in front, as often as it stands there.
pub fn trim_start_text<'a>(s: &'a [char], p: &str) -> (r: &'a [char])
    ensures
        r@ == without_repeated(s@, p@),
{
    let mark: Vec<char> = chars_of(p);
    let n: usize = mark.len();
    let mut i: usize = 0;
    assert(s@.subrange(0, s@.len() as int) =~= s@);
    while n > 0 && n <= s.len() - i && is_at(s, mark.as_slice(), i)
        invariant
            i <= s@.len(),
            mark@ == p@,
            n == mark@.len(),
            without_repeated(s@, p@) == without_repeated(s@.subrange(i as int, s@.len() as int), p@),
        decreases s@.len() - i,
    {
        proof {
            let rest = s@.subrange(i as int, s@.len() as int);
            assert(rest.subrange(0, n as int) =~= s@.subrange(i as int, i + n));
            assert(rest.subrange(n as int, rest.len() as int) =~= s@.subrange(
                i + n,
                s@.len() as int,
            ));
        }
        i += n;
    }
    proof {
        let rest = s@.subrange(i as int, s@.len() as int);
        if starts_with(rest, p@) {
            assert(rest.subrange(0, n as int) =~= s@.subrange(i as int, i + n));
        }
    }
    slice_subrange(s, i, s.len())
}

/// The text without the characters `d` at its front.
pub fn trim_start_char(s: &[char], d: char) -> (r: &[char])
    ensures
        r@ == without_leading(s@, d),
{
    let mut k: usize = 0;
    while k < s.len() && s[k] == d
        invariant
            k <= s@.len(),
            forall|i: int| 0 <= i < k ==> #[trigger] s@[i] == d,
        decreases s@.len() - k,
    {
        k += 1;
    }
    proof {
        lemma_trim_start_while(s@, just(d), k as int);
    }
    slice_subrange(s, k, s.len())
}

/// The text without the characters `d` at its end.
pub fn trim_end_char(s: &[char], d: char) -> (r: &[char])
    ensures
        r@ == without_trailing(s@, d),
{
    let mut k: usize = s.len();
    while k > 0 && s[k - 1] == d
        invariant
            k <= s@.len(),
            forall|i: int| k <= i < s@.len() ==> #[trigger] s@[i] == d,
        decreases k,
    {
        k -= 1;
    }
    proof {
        lemma_trim_end_while(s@, just(d), k as int);
    }
    slice_subrange(s, 0, k)
}

/// The text without the characters `d` at either end.
pub fn trim_char(s: &[char], d: char) -> (r: &[char])
    ensures
        r@ == without_outer(s@, d),
{
    trim_end_char(trim_start_char(s, d), d)
}

/// The character with an ASCII capital turned into the small letter.
pub fn lower_char(c: char) -> (r: char)
    ensures
        r == ascii_lower_char(c),
{
    match c {
        'A' => 'a',
        'B' => 'b',
        'C' => 'c',
        'D' => 'd',
        'E' => 'e',
        'F' => 'f',
        'G' => 'g',
        'H' => 'h',
        'I' => 'i',
        'J' => 'j',
        'K' => 'k',
        'L' => 'l',
        'M' => 'm',
        'N' => 'n',
        'O' => 'o',
        'P' => 'p',
        'Q' => 'q',
        'R' => 'r',
        'S' => 's',
        'T' => 't',
        'U' => 'u',
        'V' => 'v',
        'W' => 'w',
        'X' => 'x',
        'Y' => 'y',
        'Z' => 'z',
        _ => c,
    }
}

/// The text with its ASCII capitals turned into small letters.
pub fn lower(s: &[char]) -> (r: Vec<char>)
    ensures
        r@ == ascii_lower(s@),
{
    let mut out: Vec<char> = Vec::new();
    let mut i: usize = 0;
    while i < s.len()
        invariant
            i <= s@.len(),
            out@ =~= ascii_lower(s@.take(i as int)),
        decreases s@.len() - i,
    {
        out.push(lower_char(s[i]));
        i += 1;
    }
    assert(s@.take(i as int) =~= s@);
    out
}

/// Whether two texts are the same up to the case of ASCII letters.
pub fn same_ignoring_case(a: &[char], b: &[char]) -> (r: bool)
    ensures
        r == same_ignoring_ascii_case(a@, b@),
{
    same(lower(a).as_slice(), lower(b).as_slice())
}

/// The number of bytes that a character takes in UTF-8.
pub fn utf8_width(c: char) -> (n: usize)
    ensures
        n == utf8_len(seq![c]),
        1 <= n <= 4,
{
    let v: u32 = c as u32;
    proof {
        reveal_with_fuel(vstd::utf8::encode_utf8, 2);
        assert(seq![c].drop_first() =~= Seq::<char>::empty());
        vstd::utf8::char_is_scalar(c);
        vstd::utf8::char_u32_cast(c, v);
    }
    if v <= 0x7f {
        1
    } else if v <= 0x7ff {
        2
    } else if v <= 0xffff {
        3
    } else {
        4
    }
}

/// Whether the character is an ASCII letter or digit.
pub fn is_ascii_alnum(c: char) -> (b: bool)
    ensures
        b == ascii_alphanumeric(c),
{
    ('a' <= c && c <= 'z') || ('A' <= c && c <= 'Z') || ('0' <= c && c <= '9')
}

/// The words of a text: its longest pieces without white space.
pub fn split_words(s: &[char]) -> (r: Vec<Vec<char>>)
    ensures
        contents(r@) == words(s@),
{
    let mut out: Vec<Vec<char>> = Vec::new();
    let mut cur: Vec<char> = Vec::new();
    let mut i: usize = 0;
    assert(contents(out@) =~= seq![]);
    assert(contents(out@) + words(s@) =~= words(s@));
    while i < s.len()
        invariant
            i <= s@.len(),
            contents(out@) + non_empty(pieces_from(s@, white(), i as int, cur@)) == words(s@),
        decreases s@.len() - i,
    {
        let ghost rest = pieces_from(s@, white(), i + 1, seq![]);
        if s[i].is_whitespace() {
            proof {
                lemma_non_empty_cons(cur@, rest);
            }
            if cur.len() > 0 {
                let ghost before = contents(out@);
                let ghost piece = cur@;
                out.push(cur);
                cur = Vec::new();
                proof {
                    assert(contents(out@) =~= before.push(piece));
                    assert(before + (seq![piece] + non_empty(rest)) =~= before.push(piece)
                        + non_empty(rest));
                }
            }
            assert(cur@ =~= seq![]);
        } else {
            cur.push(s[i]);
        }
        i += 1;
    }
    proof {
        assert(pieces_from(s@, white(), i as int, cur@) =~= seq![cur@] + Seq::<Seq<char>>::empty());
        lemma_non_empty_cons(cur@, Seq::<Seq<char>>::empty());
        assert(non_empty(Seq::<Seq<char>>::empty()) =~= seq![]) by {
            reveal(Seq::filter);
        }
    }
    if cur.len() > 0 {
        let ghost before = contents(out@);
        let ghost piece = cur@;
        out.push(cur);
        assert(contents(out@) =~= before.push(piece));
        assert(before + (seq![piece] + Seq::<Seq<char>>::empty()) =~= before.push(piece));
    }
    assert(contents(out@) + Seq::<Seq<char>>::empty() =~= contents(out@));
    out
}

/// The pieces between the characters `d` that are not empty.
pub fn split_non_empty(s: &[char], d: char) -> (r: Vec<Vec<char>>)
    ensures
        contents(r@) == non_empty(split(s@, d)),
{
    let pieces: Vec<Vec<char>> = split_at_char(s, d);
    let ghost all = contents(pieces@);
    let ghost keep = |p: Seq<char>| p.len() > 0;
    let mut out: Vec<Vec<char>> = Vec::new();
    let mut i: usize = 0;
    proof {
        reveal(Seq::filter);
        assert(all.take(0) =~= seq![]);
        assert(contents(out@) =~= seq![]);
    }
    while i < pieces.len()
        invariant
            i <= pieces@.len(),
            all == contents(pieces@),
            keep == (|p: Seq<char>| p.len() > 0),
            contents(out@) == all.take(i as int).filter(keep),
        decreases pieces@.len() - i,
    {
        proof {
            reveal(Seq::filter);
            assert(all[i as int] == pieces@[i as int]@);
            assert(all.take(i + 1).drop_last() =~= all.take(i as int));
            assert(all.take(i + 1).last() == all[i as int]);
        }
        if pieces[i].len() > 0 {
            let ghost before = contents(out@);
            let mut piece: Vec<char> = Vec::new();
            append(&mut piece, pieces[i].as_slice());
            assert(piece@ =~= pieces@[i as int]@);
            out.push(piece);
            assert(contents(out@) =~= before.push(piece@));
        }
        i += 1;
    }
    assert(all.take(i as int) =~= all);
    out
}

/// The non-empty pieces of a list, where one piece is put in front.
pub proof fn lemma_non_empty_cons(p: Seq<char>, rest: Seq<Seq<char>>)
    ensures
        non_empty(seq![p] + rest) == (if p.len() > 0 {
            seq![p] + non_empty(rest)
        } else {
            non_empty(rest)
        }),
{
    let keep = |q: Seq<char>| q.len() > 0;
    Seq::filter_distributes_over_add(seq![p], rest, keep);
    let none = Seq::<Seq<char>>::empty();
    assert(none.push(p) =~= seq![p]);
    none.lemma_filter_push(p, keep);
    none.lemma_filter_len(keep);
    assert(none.filter(keep) =~= none);
    assert(none + non_empty(rest) =~= non_empty(rest));
    assert(none.push(p) + non_empty(rest) =~= seq![p] + non_empty(rest));
}

/// The pieces of a text between the characters `d`.
pub fn split_at_char(s: &[char], d: char) -> (r: Vec<Vec<char>>)
    ensures
        contents(r@) == split(s@, d),
{
    let mut out: Vec<Vec<char>> = Vec::new();
    let mut cur: Vec<char> = Vec::new();
    let mut i: usize = 0;
    assert(contents(out@) + split(s@, d) =~= split(s@, d));
    while i < s.len()
        invariant
            i <= s@.len(),
            contents(out@) + pieces_from(s@, just(d), i as int, cur@) == split(s@, d),
        decreases s@.len() - i,
    {
        if s[i] == d {
            let ghost before = contents(out@);
            let ghost piece = cur@;
            out.push(cur);
            cur = Vec::new();
            proof {
                let rest = pieces_from(s@, just(d), i + 1, seq![]);
                assert(contents(out@) =~= before.push(piece));
                assert(before + (seq![piece] + rest) =~= before.push(piece) + rest);
            }
        } else {
            cur.push(s[i]);
        }
        i += 1;
    }
    let ghost before = contents(out@);
    let ghost piece = cur@;
    out.push(cur);
    assert(contents(out@) =~= before.push(piece));
    assert(before + seq![piece] =~= before.push(piece));
    out
}

/// The texts one behind the other, with `sep` between each two.
pub fn join_all(ps: &Vec<Vec<char>>, sep: &[char]) -> (r: Vec<char>)
    ensures
        r@ == join(contents(ps@), sep@),
{
    let mut out: Vec<char> = Vec::new();
    let mut i: usize = 0;
    while i < ps.len()
        invariant
            i <= ps@.len(),
            out@ == join(contents(ps@.take(i as int)), sep@),
        decreases ps@.len() - i,
    {
        proof {
            assert(contents(ps@.take(i + 1)) =~= contents(ps@.take(i as int)).push(ps@[i as int]@));
            lemma_join_push(contents(ps@.take(i as int)), ps@[i as int]@, sep@);
        }
        if i > 0 {
            append(&mut out, sep);
        }
        append(&mut out, ps[i].as_slice());
        i += 1;
    }
    assert(ps@.take(i as int) =~= ps@);
    out
}

/// Whether a list of strings holds the given one.
pub fn holds(v: &Vec<String>, t: &str) -> (r: bool)
    ensures
        r == string_contents(v@).contains(t@),
{
    let mut i: usize = 0;
    while i < v.len()
        invariant
            i <= v@.len(),
            forall|k: int| 0 <= k < i ==> (#[trigger] v@[k])@ != t@,
        decreases v@.len() - i,
    {
        if same_str(v[i].as_str(), t) {
            assert(string_contents(v@)[i as int] == t@);
            return true;
        }
        i += 1;
    }
    assert forall|k: int| 0 <= k < v@.len() implies string_contents(v@)[k] != t@ by {
        assert(v@[k]@ != t@);
    }
    false
}

/// Two texts one behind the other.
pub fn cat(a: &str, b: &str) -> (r: String)
    ensures
        r@ == a@ + b@,
{
    let mut out: String = a.to_owned();
    out.push_str(b);
    out
}

/// Three texts one behind the other.
pub fn cat3(a: &str, b: &str, c: &str) -> (r: String)
    ensures
        r@ == a@ + b@ + c@,
{
    let mut out: String = cat(a, b);
    out.push_str(c);
    out
}

/// Four texts one behind the other.
pub fn cat4(a: &str, b: &str, c: &str, d: &str) -> (r: String)
    ensures
        r@ == a@ + b@ + c@ + d@,
{
    let mut out: String = cat3(a, b, c);
    out.push_str(d);
    out
}

/// Five texts one behind the other.
pub fn cat5(a: &str, b: &str, c: &str, d: &str, e: &str) -> (r: String)
    ensures
        r@ == a@ + b@ + c@ + d@ + e@,
{
    let mut out: String = cat4(a, b, c, d);
    out.push_str(e);
    out
}

/// Six texts one behind the other.
pub fn cat6(a: &str, b: &str, c: &str, d: &str, e: &str, f: &str) -> (r: String)
    ensures
        r@ == a@ + b@ + c@ + d@ + e@ + f@,
{
    let mut out: String = cat5(a, b, c, d, e);
    out.push_str(f);
    out
}

// ---------------------------------------------------------------------------
// Laws.
// ---------------------------------------------------------------------------

/// In ASCII the white space is the space and the five characters from the tab on; no
/// letter, digit or mark is.
pub proof fn law_white_space_in_ascii(c: char)
    requires
        c as u32 <= 0x7f,
    ensures
        is_white_space(c) <==> c == ' ' || 9 <= c as u32 <= 13,
        is_white_space(c) ==> !alphanumeric(c),
{
}

/// Folding the case turns the letters from `A` to `Z` into those from `a` to `z`, and
/// leaves every other character as it is. Doing it twice is doing it once.
pub proof fn law_case_is_folded(s: Seq<char>, i: int)
    requires
        0 <= i < s.len(),
    ensures
        ascii_lower(s).len() == s.len(),
        'A' <= s[i] <= 'Z' ==> ascii_lower(s)[i] as u32 == s[i] as u32 + 32,
        !('A' <= s[i] <= 'Z') ==> ascii_lower(s)[i] == s[i],
        ascii_lower(ascii_lower(s)) == ascii_lower(s),
        same_ignoring_ascii_case(s, ascii_lower(s)),
{
    assert(ascii_lower(ascii_lower(s)) =~= ascii_lower(s));
}

/// A letter is a letter or a digit, and no digit is a letter.
pub proof fn law_letters_and_digits(c: char)
    requires
        c as u32 <= 0x7f,
    ensures
        alphanumeric(c) <==> alphabetic(c) || ascii_digit(c),
        !(alphabetic(c) && ascii_digit(c)),
        alphabetic(c) <==> alphabetic(ascii_lower_char(c)),
        ascii_digit(c) <==> 0x30 <= c as u32 <= 0x39,
{
}

/// What stands around a mark is found again: `before` and `after` of the first
/// mark, whatever follows.
pub proof fn law_text_is_cut_at_the_mark(a: Seq<char>, p: Seq<char>, b: Seq<char>)
    requires
        p.len() > 0,
        forall|j: int| 0 <= j < a.len() ==> !occurs_at(a + p + b, p, j),
    ensures
        before_text(a + p + b, p) == a,
        after_text(a + p + b, p) == Some(b),
        contains_text(a + p + b, p),
        strip_prefix(p + b, p) == Some(b),
        strip_suffix(a + p, p) == Some(a),
{
    let s = a + p + b;
    let n = a.len() as int;
    lemma_find_from(s, p, 0);
    assert(s.subrange(n, n + p.len()) =~= p);
    assert(occurs_at(s, p, n));
    lemma_contains_text(s, p);
    assert(s.subrange(0, n) =~= a);
    assert(s.subrange(n + p.len(), s.len() as int) =~= b);
    assert((p + b).subrange(0, p.len() as int) =~= p);
    assert((p + b).subrange(p.len() as int, (p + b).len() as int) =~= b);
    assert((a + p).subrange(n, (a + p).len() as int) =~= p);
    assert((a + p).subrange(0, n) =~= a);
}

/// A text is split at each mark: joined with the marks again, the pieces are the text.
pub proof fn law_split_and_join(a: Seq<char>, d: char, b: Seq<char>)
    requires
        !a.contains(d),
        !b.contains(d),
    ensures
        split(a + seq![d] + b, d) == seq![a, b],
        split(a, d) == seq![a],
        join(seq![a, b], seq![d]) == a + seq![d] + b,
{
    lemma_split_none(a, d);
    lemma_split_none(b, d);
    lemma_split_cons(a, d, b);
    assert(seq![a] + seq![b] =~= seq![a, b]);
    assert(seq![a, b].drop_last() =~= seq![a]);
    assert(join(seq![a], seq![d]) == a);
}

} // verus!
