//! Facts about words, lines and the white space between them.

use crate::text;
use vstd::prelude::*;

verus! {

/// The texts are not empty and hold no white space.
pub open spec fn are_words(ws: Seq<Seq<char>>) -> bool {
    &&& forall|k: int| 0 <= k < ws.len() ==> (#[trigger] ws[k]).len() > 0
    &&& forall|k: int, j: int|
        #![trigger ws[k][j]]
        0 <= k < ws.len() && 0 <= j < ws[k].len() ==> !text::is_white_space(ws[k][j])
}

/// The pieces of a text that goes on behind a character at which it is split.
pub proof fn lemma_pieces_push(
    s: Seq<char>,
    c: char,
    last: Seq<char>,
    f: spec_fn(char) -> bool,
    i: int,
    piece: Seq<char>,
)
    requires
        0 <= i <= s.len(),
        f(c),
        forall|j: int| 0 <= j < last.len() ==> !f(#[trigger] last[j]),
    ensures
        text::pieces_from(s + seq![c] + last, f, i, piece) == text::pieces_from(
            s,
            f,
            i,
            piece,
        ).push(last),
    decreases s.len() - i,
{
    let all = s + seq![c] + last;
    let n: int = s.len() as int;
    if i < n {
        assert(all[i] == s[i]);
        if f(s[i]) {
            lemma_pieces_push(s, c, last, f, i + 1, seq![]);
            let rest = text::pieces_from(s, f, i + 1, seq![]);
            assert(seq![piece] + rest.push(last) =~= (seq![piece] + rest).push(last));
        } else {
            lemma_pieces_push(s, c, last, f, i + 1, piece.push(s[i]));
        }
    } else {
        assert(all[n] == c);
        text::lemma_pieces_step(all, f, n + 1, seq![]);
        text::lemma_next_index(all, f, n + 1);
        let k: int = text::next_index(all, f, n + 1);
        if k < all.len() {
            assert(all[k] == last[k - n - 1]);
        }
        assert(Seq::<char>::empty() + all.subrange(n + 1, all.len() as int) =~= last);
        assert(seq![piece] + seq![last] =~= seq![piece].push(last));
    }
}

proof fn lemma_all_non_empty(ps: Seq<Seq<char>>)
    requires
        forall|k: int| 0 <= k < ps.len() ==> (#[trigger] ps[k]).len() > 0,
    ensures
        text::non_empty(ps) == ps,
    decreases ps.len(),
{
    reveal(Seq::filter);
    if ps.len() > 0 {
        let front = ps.drop_last();
        assert forall|k: int| 0 <= k < front.len() implies (#[trigger] front[k]).len() > 0 by {
            assert(front[k] == ps[k]);
        }
        lemma_all_non_empty(front);
        assert(ps[ps.len() - 1].len() > 0);
        assert(front.push(ps.last()) =~= ps);
    }
}

proof fn lemma_pieces_of_joined(ws: Seq<Seq<char>>)
    requires
        ws.len() > 0,
        are_words(ws),
    ensures
        text::pieces_from(text::join(ws, seq![' ']), text::white(), 0, seq![]) == ws,
    decreases ws.len(),
{
    let r = text::join(ws, seq![' ']);
    let last = ws.last();
    assert forall|j: int| 0 <= j < last.len() implies !text::white()(#[trigger] last[j]) by {
        assert(!text::is_white_space(ws[ws.len() - 1][j]));
    }
    if ws.len() == 1 {
        text::lemma_pieces_step(r, text::white(), 0, seq![]);
        text::lemma_next_index(r, text::white(), 0);
        let k: int = text::next_index(r, text::white(), 0);
        if k < r.len() {
            assert(r[k] == last[k]);
        }
        assert(Seq::<char>::empty() + r.subrange(0, r.len() as int) =~= last);
        assert(seq![last] =~= ws);
    } else {
        let front = ws.drop_last();
        assert forall|k: int, j: int|
            0 <= k < front.len() && 0 <= j < front[k].len() implies !text::is_white_space(
            #[trigger] front[k][j],
        ) by {
            assert(!text::is_white_space(ws[k][j]));
        }
        lemma_pieces_of_joined(front);
        lemma_pieces_push(text::join(front, seq![' ']), ' ', last, text::white(), 0, seq![]);
        assert(front.push(last) =~= ws);
    }
}

/// Words that are set apart by single spaces are the words of the text.
pub proof fn lemma_words_of_joined(ws: Seq<Seq<char>>)
    requires
        are_words(ws),
    ensures
        text::words(text::join(ws, seq![' '])) == ws,
{
    if ws.len() == 0 {
        reveal_with_fuel(Seq::filter, 2);
        let r = text::join(ws, seq![' ']);
        let ps = text::pieces_from(r, text::white(), 0, seq![]);
        assert(ps =~= seq![Seq::<char>::empty()]);
        assert(ps.drop_last() =~= seq![]);
        assert(text::non_empty(ps) =~= seq![]);
        assert(ws =~= seq![]);
    } else {
        lemma_pieces_of_joined(ws);
        lemma_all_non_empty(ws);
    }
}

/// A list of texts that grows at its front: what is joined grows at its front
/// too.
pub proof fn lemma_join_cons(p: Seq<char>, ps: Seq<Seq<char>>, sep: Seq<char>)
    requires
        ps.len() > 0,
    ensures
        text::join(seq![p] + ps, sep) == p + sep + text::join(ps, sep),
    decreases ps.len(),
{
    let all = seq![p] + ps;
    assert(all.last() == ps.last());
    assert(all.drop_last() =~= seq![p] + ps.drop_last());
    if ps.len() == 1 {
        assert(ps.drop_last() =~= seq![]);
        assert(all.drop_last() =~= seq![p]);
        assert(text::join(seq![p], sep) == p);
    } else {
        lemma_join_cons(p, ps.drop_last(), sep);
        let front = text::join(ps.drop_last(), sep);
        assert(p + sep + front + sep + ps.last() =~= p + sep + (front + sep + ps.last()));
    }
}

/// The pieces of a text that is split at one character only make it up again.
pub proof fn lemma_joined_pieces(
    s: Seq<char>,
    f: spec_fn(char) -> bool,
    d: char,
    i: int,
    piece: Seq<char>,
)
    requires
        0 <= i <= s.len(),
        forall|k: int| i <= k < s.len() && f(#[trigger] s[k]) ==> s[k] == d,
    ensures
        text::pieces_from(s, f, i, piece).len() > 0,
        text::join(text::pieces_from(s, f, i, piece), seq![d]) == piece + s.subrange(
            i,
            s.len() as int,
        ),
    decreases s.len() - i,
{
    let n: int = s.len() as int;
    if i >= n {
        assert(piece + s.subrange(i, n) =~= piece);
    } else if f(s[i]) {
        lemma_joined_pieces(s, f, d, i + 1, seq![]);
        let rest = text::pieces_from(s, f, i + 1, seq![]);
        lemma_join_cons(piece, rest, seq![d]);
        assert(piece + seq![d] + (Seq::<char>::empty() + s.subrange(i + 1, n)) =~= piece
            + s.subrange(i, n));
    } else {
        lemma_joined_pieces(s, f, d, i + 1, piece.push(s[i]));
        assert(piece.push(s[i]) + s.subrange(i + 1, n) =~= piece + s.subrange(i, n));
    }
}

proof fn lemma_single_spaced_pieces(s: Seq<char>, i: int)
    requires
        text::single_spaced(s),
        0 <= i < s.len(),
        i == 0 || text::is_white_space(s[i - 1]),
    ensures
        forall|k: int|
            0 <= k < text::pieces_from(s, text::white(), i, seq![]).len() ==> (
            #[trigger] text::pieces_from(s, text::white(), i, seq![])[k]).len() > 0,
    decreases s.len() - i,
{
    text::lemma_pieces_step(s, text::white(), i, seq![]);
    text::lemma_next_index(s, text::white(), i);
    let k: int = text::next_index(s, text::white(), i);
    assert(!text::is_white_space(s[i]));
    assert(k > i);
    let first = Seq::<char>::empty() + s.subrange(i, k);
    let all = text::pieces_from(s, text::white(), i, seq![]);
    if k < s.len() {
        assert(text::is_white_space(s[k]));
        lemma_single_spaced_pieces(s, k + 1);
        let rest = text::pieces_from(s, text::white(), k + 1, seq![]);
        assert forall|m: int| 0 <= m < all.len() implies (#[trigger] all[m]).len() > 0 by {
            if m > 0 {
                assert(all[m] == rest[m - 1]);
            } else {
                assert(all[0] == first);
            }
        }
    } else {
        assert(all =~= seq![first]);
    }
}

/// A text whose only white space is single spaces between other characters is
/// its words, set apart by single spaces.
pub proof fn lemma_single_spaced_words(s: Seq<char>)
    requires
        text::single_spaced(s),
    ensures
        text::join(text::words(s), seq![' ']) == s,
{
    let ps = text::pieces_from(s, text::white(), 0, seq![]);
    if s.len() == 0 {
        lemma_words_of_joined(seq![]);
        assert(text::join(Seq::<Seq<char>>::empty(), seq![' ']) =~= s);
    } else {
        lemma_single_spaced_pieces(s, 0);
        lemma_all_non_empty(ps);
        lemma_joined_pieces(s, text::white(), ' ', 0, seq![]);
        assert(Seq::<char>::empty() + s.subrange(0, s.len() as int) =~= s);
    }
}

// ---------------------------------------------------------------------------
// What is not white space.
// ---------------------------------------------------------------------------
/// The characters of a text that are no white space, in order.
pub open spec fn visible(s: Seq<char>) -> Seq<char> {
    s.filter(|c: char| !text::is_white_space(c))
}

/// The visible characters of texts, one behind the other.
pub open spec fn all_visible(ps: Seq<Seq<char>>) -> Seq<char>
    decreases ps.len(),
{
    if ps.len() == 0 {
        seq![]
    } else {
        all_visible(ps.drop_last()) + visible(ps.last())
    }
}

pub proof fn lemma_visible_add(a: Seq<char>, b: Seq<char>)
    ensures
        visible(a + b) == visible(a) + visible(b),
{
    Seq::filter_distributes_over_add(a, b, |c: char| !text::is_white_space(c));
}

pub proof fn lemma_visible_one(c: char)
    ensures
        visible(seq![c]) == (if text::is_white_space(c) {
            seq![]
        } else {
            seq![c]
        }),
{
    reveal_with_fuel(Seq::filter, 2);
    assert(seq![c].drop_last() =~= seq![]);
    assert(seq![c].last() == c);
    assert(Seq::<char>::empty().push(c) =~= seq![c]);
}

pub proof fn lemma_visible_none()
    ensures
        visible(Seq::<char>::empty()) == Seq::<char>::empty(),
{
    reveal(Seq::filter);
}

proof fn lemma_visible_join(ps: Seq<Seq<char>>, d: char)
    requires
        text::is_white_space(d),
    ensures
        visible(text::join(ps, seq![d])) == all_visible(ps),
    decreases ps.len(),
{
    lemma_visible_none();
    lemma_visible_one(d);
    if ps.len() == 1 {
        assert(all_visible(ps.drop_last()) =~= seq![]);
        assert(Seq::<char>::empty() + visible(ps[0]) =~= visible(ps[0]));
    } else if ps.len() > 1 {
        lemma_visible_join(ps.drop_last(), d);
        let a = text::join(ps.drop_last(), seq![d]);
        lemma_visible_add(a, seq![d]);
        lemma_visible_add(a + seq![d], ps.last());
        assert(visible(a) + Seq::<char>::empty() =~= visible(a));
    }
}

proof fn lemma_all_visible_cons(p: Seq<char>, ps: Seq<Seq<char>>)
    ensures
        all_visible(seq![p] + ps) == visible(p) + all_visible(ps),
    decreases ps.len(),
{
    let all = seq![p] + ps;
    if ps.len() == 0 {
        assert(all_visible(all.drop_last()) =~= seq![]);
        assert(Seq::<char>::empty() + visible(p) =~= visible(p) + Seq::<char>::empty());
    } else {
        assert(all.drop_last() =~= seq![p] + ps.drop_last());
        lemma_all_visible_cons(p, ps.drop_last());
        assert(visible(p) + all_visible(ps.drop_last()) + visible(ps.last()) =~= visible(p) + (
        all_visible(ps.drop_last()) + visible(ps.last())));
    }
}

proof fn lemma_all_visible_non_empty(ps: Seq<Seq<char>>)
    ensures
        all_visible(text::non_empty(ps)) == all_visible(ps),
    decreases ps.len(),
{
    reveal(Seq::filter);
    if ps.len() > 0 {
        lemma_all_visible_non_empty(ps.drop_last());
        let front = text::non_empty(ps.drop_last());
        if ps.last().len() > 0 {
            assert(front.push(ps.last()).drop_last() =~= front);
        } else {
            lemma_visible_none();
            assert(ps.last() =~= Seq::<char>::empty());
            assert(all_visible(ps.drop_last()) + Seq::<char>::empty() =~= all_visible(
                ps.drop_last(),
            ));
        }
    }
}

proof fn lemma_all_visible_pieces(
    s: Seq<char>,
    f: spec_fn(char) -> bool,
    i: int,
    piece: Seq<char>,
)
    requires
        0 <= i <= s.len(),
        forall|c: char| #[trigger] f(c) ==> text::is_white_space(c),
    ensures
        all_visible(text::pieces_from(s, f, i, piece)) == visible(
            piece + s.subrange(i, s.len() as int),
        ),
    decreases s.len() - i,
{
    let n: int = s.len() as int;
    if i >= n {
        assert(piece + s.subrange(i, n) =~= piece);
        lemma_all_visible_cons(piece, seq![]);
        assert(seq![piece] + Seq::<Seq<char>>::empty() =~= seq![piece]);
        assert(visible(piece) + Seq::<char>::empty() =~= visible(piece));
    } else if f(s[i]) {
        lemma_all_visible_pieces(s, f, i + 1, seq![]);
        let rest = text::pieces_from(s, f, i + 1, seq![]);
        lemma_all_visible_cons(piece, rest);
        let tail = s.subrange(i + 1, n);
        assert(Seq::<char>::empty() + tail =~= tail);
        lemma_visible_one(s[i]);
        lemma_visible_add(seq![s[i]], tail);
        assert(Seq::<char>::empty() + visible(tail) =~= visible(tail));
        assert(seq![s[i]] + tail =~= s.subrange(i, n));
        lemma_visible_add(piece, s.subrange(i, n));
    } else {
        lemma_all_visible_pieces(s, f, i + 1, piece.push(s[i]));
        assert(piece.push(s[i]) + s.subrange(i + 1, n) =~= piece + s.subrange(i, n));
    }
}

/// Setting the words of a text apart by single spaces keeps what is visible.
pub proof fn lemma_visible_squeezed(s: Seq<char>)
    ensures
        visible(text::join(text::words(s), seq![' '])) == visible(s),
{
    lemma_visible_join(text::words(s), ' ');
    lemma_all_visible_non_empty(text::pieces_from(s, text::white(), 0, seq![]));
    lemma_all_visible_pieces(s, text::white(), 0, seq![]);
    assert(Seq::<char>::empty() + s.subrange(0, s.len() as int) =~= s);
}

/// Lines that keep what is visible keep it together.
pub proof fn lemma_visible_lines(s: Seq<char>, lines: Seq<Seq<char>>)
    requires
        lines.len() == text::split(s, '\n').len(),
        forall|k: int|
            0 <= k < lines.len() ==> visible(#[trigger] lines[k]) == visible(text::split(s, '\n')[k]),
    ensures
        visible(text::join(lines, seq!['\n'])) == visible(s),
{
    let raw = text::split(s, '\n');
    lemma_visible_join(lines, '\n');
    lemma_same_visible(lines, raw);
    lemma_all_visible_pieces(s, text::just('\n'), 0, seq![]);
    assert(Seq::<char>::empty() + s.subrange(0, s.len() as int) =~= s);
}

proof fn lemma_same_visible(a: Seq<Seq<char>>, b: Seq<Seq<char>>)
    requires
        a.len() == b.len(),
        forall|k: int| 0 <= k < a.len() ==> visible(#[trigger] a[k]) == visible(b[k]),
    ensures
        all_visible(a) == all_visible(b),
    decreases a.len(),
{
    if a.len() > 0 {
        assert forall|k: int| 0 <= k < a.drop_last().len() implies visible(
            #[trigger] a.drop_last()[k],
        ) == visible(b.drop_last()[k]) by {
            assert(a.drop_last()[k] == a[k]);
            assert(b.drop_last()[k] == b[k]);
        }
        lemma_same_visible(a.drop_last(), b.drop_last());
        assert(a[a.len() - 1] == a.last());
    }
}

// ---------------------------------------------------------------------------
// Trimming.
// ---------------------------------------------------------------------------
/// What trimming takes off at the front is in the class, and not visible where
/// the class is white space.
pub proof fn lemma_trimmed_off_front(s: Seq<char>, f: spec_fn(char) -> bool)
    ensures
        trim_front_len(s, f) >= 0,
        forall|i: int| 0 <= i < trim_front_len(s, f) ==> f(#[trigger] s[i]),
        (forall|c: char| #[trigger] f(c) ==> text::is_white_space(c)) ==> visible(
            text::trim_start_while(s, f),
        ) == visible(s),
    decreases s.len(),
{
    if s.len() > 0 && f(s[0]) {
        let t = s.drop_first();
        lemma_trimmed_off_front(t, f);
        assert forall|i: int| 0 <= i < trim_front_len(s, f) implies f(#[trigger] s[i]) by {
            if i > 0 {
                assert(s[i] == t[i - 1]);
            }
        }
        assert(seq![s[0]] + t =~= s);
        lemma_visible_add(seq![s[0]], t);
        lemma_visible_one(s[0]);
        assert(Seq::<char>::empty() + visible(t) =~= visible(t));
    }
}

/// How many characters trimming takes off at the front.
pub open spec fn trim_front_len(s: Seq<char>, f: spec_fn(char) -> bool) -> int {
    s.len() - text::trim_start_while(s, f).len()
}

/// What trimming takes off at the end is in the class, and not visible where the
/// class is white space.
pub proof fn lemma_trimmed_off_back(s: Seq<char>, f: spec_fn(char) -> bool)
    ensures
        forall|i: int| text::trim_end_while(s, f).len() <= i < s.len() ==> f(#[trigger] s[i]),
        (forall|c: char| #[trigger] f(c) ==> text::is_white_space(c)) ==> visible(
            text::trim_end_while(s, f),
        ) == visible(s),
    decreases s.len(),
{
    if s.len() > 0 && f(s.last()) {
        let t = s.drop_last();
        lemma_trimmed_off_back(t, f);
        assert forall|i: int| text::trim_end_while(s, f).len() <= i < s.len() implies f(
            #[trigger] s[i],
        ) by {
            if i < t.len() {
                assert(s[i] == t[i]);
            }
        }
        assert(t + seq![s.last()] =~= s);
        lemma_visible_add(t, seq![s.last()]);
        lemma_visible_one(s.last());
        assert(visible(t) + Seq::<char>::empty() =~= visible(t));
    }
}

proof fn lemma_white_end_is_dropped(s: Seq<char>, w: Seq<char>)
    requires
        forall|i: int| 0 <= i < w.len() ==> text::is_white_space(#[trigger] w[i]),
    ensures
        text::words(s + w) == text::words(s),
    decreases w.len(),
{
    if w.len() == 0 {
        assert(s + w =~= s);
    } else {
        let front = w.drop_last();
        let c = w[w.len() - 1];
        lemma_white_end_is_dropped(s, front);
        let none = Seq::<char>::empty();
        lemma_pieces_push(s + front, c, none, text::white(), 0, seq![]);
        assert(s + front + seq![c] + none =~= s + w);
        reveal(Seq::filter);
        let ps = text::pieces_from(s + front, text::white(), 0, seq![]);
        assert(ps.push(none).drop_last() =~= ps);
        assert(ps.push(none).last() == none);
    }
}

/// A word behind white space is one more word of the text, however much white space
/// there is.
pub proof fn lemma_one_more_word(s: Seq<char>, gap: Seq<char>, word: Seq<char>)
    requires
        gap.len() > 0,
        forall|i: int| 0 <= i < gap.len() ==> text::is_white_space(#[trigger] gap[i]),
        word.len() > 0,
        forall|i: int| 0 <= i < word.len() ==> !text::is_white_space(#[trigger] word[i]),
    ensures
        text::words(s + gap + word) == text::words(s).push(word),
{
    let front = gap.drop_last();
    let c = gap[gap.len() - 1];
    assert forall|i: int| 0 <= i < front.len() implies text::is_white_space(#[trigger] front[i]) by {
        assert(front[i] == gap[i]);
    }
    lemma_white_end_is_dropped(s, front);
    lemma_pieces_push(s + front, c, word, text::white(), 0, seq![]);
    assert(s + front + seq![c] + word =~= s + gap + word);
    reveal(Seq::filter);
    let ps = text::pieces_from(s + front, text::white(), 0, seq![]);
    assert(ps.push(word).drop_last() =~= ps);
    assert(ps.push(word).last() == word);
}

} // verus!
