//! The HTML content of a remote note: as plain text with Markdown links, and as
//! sanitised HTML.

use crate::json;
use crate::json::{Json, JsonModel};
use crate::outside;
use crate::spacing;
use crate::text;
use vstd::prelude::*;
use vstd::slice::slice_subrange;

verus! {

// ---------------------------------------------------------------------------
// Attributes that a sanitised document may hold.
// ---------------------------------------------------------------------------
/// The attribute's value after filtering; nothing where the attribute is
/// dropped. Of `style`, only a lone `text-align` stays.
pub open spec fn kept_attribute(attribute: Seq<char>, value: Seq<char>) -> Option<Seq<char>> {
    if attribute != "style"@ {
        Some(value)
    } else if allowed_style(value) {
        Some(text::trimmed(value))
    } else {
        None
    }
}

/// A `style` value that sets `text-align`, to one of the four plain values, and
/// nothing else.
pub open spec fn allowed_style(value: Seq<char>) -> bool {
    let v = text::trimmed(text::without_trailing(text::trimmed(value), ';'));
    match text::strip_prefix(v, "text-align"@) {
        None => false,
        Some(rest) => match text::strip_prefix(text::trimmed_start(rest), ":"@) {
            None => false,
            Some(rest) => {
                let word = text::trimmed(rest);
                word == "left"@ || word == "right"@ || word == "center"@ || word == "justify"@
            },
        },
    }
}

/// The attribute's value after filtering; nothing where the attribute is
/// dropped.
pub fn filter_attribute(attribute: &str, value: &str) -> (r: Option<String>)
    ensures
        text::string_view(r) == kept_attribute(attribute@, value@),
{
    if !text::same_str(attribute, "style") {
        return Some(value.to_owned());
    }
    if is_allowed_style_value(value) {
        let v: Vec<char> = text::chars_of(value);
        Some(text::string_of(text::trim(v.as_slice())))
    } else {
        None
    }
}

/// Whether a `style` value sets `text-align`, to one of the four plain values,
/// and nothing else.
pub fn is_allowed_style_value(value: &str) -> (r: bool)
    ensures
        r == allowed_style(value@),
{
    let all: Vec<char> = text::chars_of(value);
    let v: &[char] = text::trim(text::trim_end_char(text::trim(all.as_slice()), ';'));
    proof {
        reveal_strlit("text-align");
        reveal_strlit(":");
    }
    if !text::has_prefix(v, "text-align") {
        return false;
    }
    let rest: &[char] = text::trim_start(slice_subrange(v, 10, v.len()));
    if !text::has_prefix(rest, ":") {
        return false;
    }
    let word: &[char] = text::trim(slice_subrange(rest, 1, rest.len()));
    text::is_text(word, "left") || text::is_text(word, "right") || text::is_text(word, "center")
        || text::is_text(word, "justify")
}

// ---------------------------------------------------------------------------
// Tags.
// ---------------------------------------------------------------------------
/// The text of `s[i..]` outside its tags, with `gap` in the place of each `>`.
pub open spec fn without_tags(s: Seq<char>, i: int, in_tag: bool, gap: Seq<char>) -> Seq<char>
    decreases s.len() - i,
{
    if i < 0 || i >= s.len() {
        seq![]
    } else if s[i] == '<' {
        without_tags(s, i + 1, true, gap)
    } else if s[i] == '>' {
        gap + without_tags(s, i + 1, false, gap)
    } else if in_tag {
        without_tags(s, i + 1, true, gap)
    } else {
        seq![s[i]] + without_tags(s, i + 1, false, gap)
    }
}

/// The text of a document outside its tags.
pub open spec fn untagged(s: Seq<char>) -> Seq<char> {
    without_tags(s, 0, false, seq![])
}

/// The text outside the tags of `s`, with `gap` in the place of each `>`.
fn remove_tags(s: &[char], gap: &[char]) -> (r: Vec<char>)
    ensures
        r@ == without_tags(s@, 0, false, gap@),
{
    let mut out: Vec<char> = Vec::new();
    let mut in_tag: bool = false;
    let mut i: usize = 0;
    let ghost all = without_tags(s@, 0, false, gap@);
    assert(out@ + all =~= all);
    while i < s.len()
        invariant
            i <= s@.len(),
            out@ + without_tags(s@, i as int, in_tag, gap@) == all,
        decreases s@.len() - i,
    {
        let ghost before = out@;
        let c: char = s[i];
        if c == '<' {
            in_tag = true;
        } else if c == '>' {
            in_tag = false;
            text::append(&mut out, gap);
            proof {
                let rest = without_tags(s@, i + 1, false, gap@);
                assert(before + (gap@ + rest) =~= (before + gap@) + rest);
            }
        } else if !in_tag {
            out.push(c);
            proof {
                let rest = without_tags(s@, i + 1, false, gap@);
                assert(before + (seq![c] + rest) =~= before.push(c) + rest);
            }
        }
        i += 1;
    }
    assert(out@ + Seq::<char>::empty() =~= out@);
    out
}

/// The plain text of an HTML fragment: tags dropped, character references
/// decoded, and its words set apart by single spaces.
pub open spec fn stripped_html(html: Seq<char>) -> Seq<char> {
    text::join(
        text::words(outside::entities_decoded(without_tags(html, 0, false, seq![' ']))),
        seq![' '],
    )
}

/// The plain text of an HTML fragment.
pub fn strip_html(html: &str) -> (r: String)
    ensures
        r@ == stripped_html(html@),
{
    let chars: Vec<char> = text::chars_of(html);
    let gap: Vec<char> = vec![' '];
    assert(gap@ =~= seq![' ']);
    let bare: Vec<char> = remove_tags(chars.as_slice(), gap.as_slice());
    let decoded: String = outside::decode_html_entities(text::string_of(bare.as_slice()).as_str());
    let decoded_chars: Vec<char> = text::chars_of(decoded.as_str());
    let found: Vec<Vec<char>> = text::split_words(decoded_chars.as_slice());
    text::string_of(text::join_all(&found, gap.as_slice()).as_slice())
}

/// What a tag that is no link leaves behind in the plain text: a line break for
/// `br`, an empty line for the end of a paragraph or division, else a space.
pub open spec fn tag_break(tag: Seq<char>) -> Seq<char> {
    let name = text::ascii_lower(
        text::trimmed(text::without_trailing(text::trimmed(tag), '/')),
    );
    if name == "br"@ {
        "\n"@
    } else if name == "/p"@ || name == "/div"@ {
        "\n\n"@
    } else {
        " "@
    }
}

/// What a tag that is no link leaves behind in the plain text.
pub fn tag_break_text(tag_inner: &str) -> (r: &'static str)
    ensures
        r@ == tag_break(tag_inner@),
{
    let chars: Vec<char> = text::chars_of(tag_inner);
    let name: Vec<char> = text::lower(
        text::trim(text::trim_end_char(text::trim(chars.as_slice()), '/')),
    );
    if text::is_text(name.as_slice(), "br") {
        "\n"
    } else if text::is_text(name.as_slice(), "/p") || text::is_text(name.as_slice(), "/div") {
        "\n\n"
    } else {
        " "
    }
}

// ---------------------------------------------------------------------------
// Attributes of a tag.
// ---------------------------------------------------------------------------
/// Where the quoted value stands that `=` introduces at the front of `s`, behind
/// white space: the indices of its first character and of the closing quote.
pub open spec fn quoted_span(s: Seq<char>) -> Option<(int, int)> {
    let t = text::trimmed_start(s);
    if t.len() == 0 || t[0] != '=' {
        None
    } else {
        let v = text::trimmed_start(t.subrange(1, t.len() as int));
        if v.len() == 0 || (v[0] != '"' && v[0] != '\'') {
            None
        } else {
            let rest = v.subrange(1, v.len() as int);
            let end: int = text::next_index(rest, text::just(v[0]), 0);
            if end < rest.len() {
                Some((s.len() - rest.len(), s.len() - rest.len() + end))
            } else {
                None
            }
        }
    }
}

/// Where the value of an attribute stands: of the first one from index `i` of the
/// tag on that has the name, in any case, and a quoted value. A name that
/// continues a letter or a digit is another attribute's.
pub open spec fn attribute_span(tag: Seq<char>, name: Seq<char>, i: int) -> Option<(int, int)>
    decreases tag.len() - i,
{
    let low = text::ascii_lower(tag);
    if name.len() == 0 || i < 0 || i > tag.len() {
        None
    } else {
        proof {
            text::lemma_find_from(low, text::ascii_lower(name), i);
        }
        match text::find_from(low, text::ascii_lower(name), i) {
            None => None,
            Some(k) => {
                let behind: int = k + name.len();
                match quoted_span(tag.subrange(behind, tag.len() as int)) {
                    Some(v) if k == 0 || !text::ascii_alphanumeric(low[k - 1]) => Some(
                        (behind + v.0, behind + v.1),
                    ),
                    _ => attribute_span(tag, name, behind),
                }
            },
        }
    }
}

/// The value of an attribute of a tag.
pub open spec fn attribute(tag: Seq<char>, name: Seq<char>) -> Option<Seq<char>> {
    match attribute_span(tag, name, 0) {
        Some(v) => Some(tag.subrange(v.0, v.1)),
        None => None,
    }
}

/// A quoted value stands between two equal quotes and does not hold them.
pub proof fn lemma_quoted_span(s: Seq<char>)
    ensures
        quoted_span(s) matches Some(v) ==> {
            &&& 1 <= v.0 <= v.1 < s.len()
            &&& s[v.0 - 1] == '"' || s[v.0 - 1] == '\''
            &&& s[v.1] == s[v.0 - 1]
            &&& !s.subrange(v.0, v.1).contains(s[v.0 - 1])
        },
{
    if quoted_span(s) is Some {
        let t = text::trimmed_start(s);
        text::lemma_trimmed_front(s, text::white());
        let u = t.subrange(1, t.len() as int);
        let v = text::trimmed_start(u);
        text::lemma_trimmed_front(u, text::white());
        let rest = v.subrange(1, v.len() as int);
        text::lemma_next_index(rest, text::just(v[0]), 0);
        let a: int = s.len() - rest.len();
        assert(s.subrange(a, s.len() as int) =~= rest);
        assert(v[0] == u[u.len() - v.len()]);
        assert(s[a - 1] == v[0]);
        let (x, y) = quoted_span(s)->0;
        assert(s[y] == rest[y - a]);
        assert forall|i: int| 0 <= i < y - x implies s.subrange(x, y)[i] != v[0] by {
            assert(s.subrange(x, y)[i] == rest[i]);
        }
    }
}

/// The value of an attribute stands between two equal quotes and does not hold
/// them.
pub proof fn lemma_attribute_span(tag: Seq<char>, name: Seq<char>, i: int)
    ensures
        attribute_span(tag, name, i) matches Some(v) ==> {
            &&& 1 <= v.0 <= v.1 < tag.len()
            &&& tag[v.0 - 1] == '"' || tag[v.0 - 1] == '\''
            &&& tag[v.1] == tag[v.0 - 1]
            &&& !tag.subrange(v.0, v.1).contains(tag[v.0 - 1])
        },
    decreases tag.len() - i,
{
    let low = text::ascii_lower(tag);
    if name.len() > 0 && 0 <= i <= tag.len() {
        text::lemma_find_from(low, text::ascii_lower(name), i);
        match text::find_from(low, text::ascii_lower(name), i) {
            None => {},
            Some(k) => {
                let behind: int = k + name.len();
                let after = tag.subrange(behind, tag.len() as int);
                lemma_quoted_span(after);
                lemma_attribute_span(tag, name, behind);
                match quoted_span(after) {
                    Some(v) => {
                        assert(tag.subrange(behind + v.0, behind + v.1) =~= after.subrange(v.0, v.1));
                    },
                    None => {},
                }
            },
        }
    }
}

/// Where the quoted value stands that `=` introduces at the front of `s`.
fn find_quoted_value(s: &[char]) -> (r: Option<(usize, usize)>)
    ensures
        (match r {
            Some(v) => Some((v.0 as int, v.1 as int)),
            None => None,
        }) == quoted_span(s@),
        r matches Some(v) ==> v.0 <= v.1 < s@.len(),
{
    proof {
        lemma_quoted_span(s@);
    }
    let t: &[char] = text::trim_start(s);
    if t.len() == 0 || t[0] != '=' {
        return None;
    }
    let v: &[char] = text::trim_start(slice_subrange(t, 1, t.len()));
    if v.len() == 0 || (v[0] != '"' && v[0] != '\'') {
        return None;
    }
    let rest: &[char] = slice_subrange(v, 1, v.len());
    let end: usize = text::next_char(rest, v[0], 0);
    if end < rest.len() {
        proof {
            text::lemma_trimmed_front(s@, text::white());
            text::lemma_trimmed_front(t@.subrange(1, t@.len() as int), text::white());
        }
        let start: usize = s.len() - rest.len();
        Some((start, start + end))
    } else {
        None
    }
}

/// Where the value of an attribute of a tag stands.
fn find_attr(tag: &[char], attr_name: &str) -> (r: Option<(usize, usize)>)
    requires
        attr_name@.len() > 0,
    ensures
        (match r {
            Some(v) => Some((v.0 as int, v.1 as int)),
            None => None,
        }) == attribute_span(tag@, attr_name@, 0),
        r matches Some(v) ==> 1 <= v.0 <= v.1 < tag@.len(),
{
    proof {
        lemma_attribute_span(tag@, attr_name@, 0);
    }
    let low: Vec<char> = text::lower(tag);
    let name_chars: Vec<char> = text::chars_of(attr_name);
    let name: Vec<char> = text::lower(name_chars.as_slice());
    let mut from: usize = 0;
    loop
        invariant
            from <= tag@.len(),
            low@ == text::ascii_lower(tag@),
            name@ == text::ascii_lower(attr_name@),
            name@.len() == attr_name@.len() > 0,
            attribute_span(tag@, attr_name@, 0) == attribute_span(tag@, attr_name@, from as int),
            attribute_span(tag@, attr_name@, 0) matches Some(v) ==> 1 <= v.0 <= v.1 < tag@.len(),
        decreases tag@.len() - from,
    {
        proof {
            text::lemma_find_from(low@, name@, from as int);
        }
        match text::find(low.as_slice(), name.as_slice(), from) {
            None => {
                return None;
            },
            Some(k) => {
                let bounded: bool = k == 0 || !text::is_ascii_alnum(low[k - 1]);
                let behind: usize = k + name.len();
                let after: &[char] = slice_subrange(tag, behind, tag.len());
                if bounded {
                    match find_quoted_value(after) {
                        Some(v) => {
                            return Some((behind + v.0, behind + v.1));
                        },
                        None => {},
                    }
                }
                from = behind;
            },
        }
    }
}

/// The value of an attribute of a tag.
pub fn extract_attr(tag_inner: &str, attr_name: &str) -> (r: Option<String>)
    requires
        attr_name@.len() > 0,
    ensures
        text::string_view(r) == attribute(tag_inner@, attr_name@),
{
    let tag: Vec<char> = text::chars_of(tag_inner);
    match find_attr(tag.as_slice(), attr_name) {
        Some(v) => Some(text::string_of(slice_subrange(tag.as_slice(), v.0, v.1))),
        None => None,
    }
}

/// The value of the `href` attribute of a tag.
pub open spec fn href_attribute(tag: Seq<char>) -> Option<Seq<char>> {
    attribute(tag, "href"@)
}

/// The value of the `href` attribute of a tag.
pub fn extract_href_attr(tag_inner: &str) -> (r: Option<String>)
    ensures
        text::string_view(r) == href_attribute(tag_inner@),
{
    proof {
        reveal_strlit("href");
    }
    extract_attr(tag_inner, "href")
}

/// The words of the `class` attribute of a tag, in small letters.
pub open spec fn class_tokens(tag: Seq<char>) -> Seq<Seq<char>> {
    match attribute(tag, "class"@) {
        Some(v) => text::words(v).map_values(|w: Seq<char>| text::ascii_lower(w)),
        None => seq![],
    }
}

/// The words of the `class` attribute of a tag, in small letters.
pub fn extract_class_tokens(tag_inner: &str) -> (r: Vec<String>)
    ensures
        text::string_contents(r@) == class_tokens(tag_inner@),
{
    proof {
        reveal_strlit("class");
    }
    let mut out: Vec<String> = Vec::new();
    match extract_attr(tag_inner, "class") {
        None => {},
        Some(v) => {
            let chars: Vec<char> = text::chars_of(v.as_str());
            let found: Vec<Vec<char>> = text::split_words(chars.as_slice());
            let mut i: usize = 0;
            while i < found.len()
                invariant
                    i <= found@.len(),
                    out@.len() == i,
                    forall|k: int|
                        0 <= k < i ==> (#[trigger] out@[k])@ == text::ascii_lower(found@[k]@),
                decreases found@.len() - i,
            {
                out.push(text::string_of(text::lower(found[i].as_slice()).as_slice()));
                i += 1;
            }
            assert(text::string_contents(out@) =~= text::contents(found@).map_values(
                |w: Seq<char>| text::ascii_lower(w),
            ));
        },
    }
    assert(class_tokens(tag_inner@).len() == 0 ==> text::string_contents(out@) =~= class_tokens(
        tag_inner@,
    ));
    out
}

// ---------------------------------------------------------------------------
// Mentions.
// ---------------------------------------------------------------------------
/// The characters that end the host of a URL.
pub open spec fn host_end() -> spec_fn(char) -> bool {
    |c: char| c == '/' || c == '?' || c == '#'
}

/// The part of `url` between the first and the second `://`.
pub open spec fn after_scheme(url: Seq<char>) -> Option<Seq<char>> {
    match text::after_text(url, "://"@) {
        Some(rest) => Some(text::before_text(rest, "://"@)),
        None => None,
    }
}

/// The host of a URL, where it is not empty.
pub open spec fn host_of(url: Seq<char>) -> Option<Seq<char>> {
    match after_scheme(url) {
        None => None,
        Some(rest) => {
            let host = text::before_any(rest, host_end());
            if host.len() > 0 {
                Some(host)
            } else {
                None
            }
        },
    }
}

/// The host of a URL, where it is not empty.
pub fn extract_host<'a>(url: &'a str) -> (r: Option<&'a str>)
    ensures
        text::str_view(r) == host_of(url@),
{
    let chars: Vec<char> = text::chars_of(url);
    let mark: Vec<char> = text::chars_of("://");
    let start: usize = match text::find(chars.as_slice(), mark.as_slice(), 0) {
        None => {
            return None;
        },
        Some(k) => k + mark.len(),
    };
    let rest: &[char] = slice_subrange(chars.as_slice(), start, chars.len());
    let limit: usize = match text::find(rest, mark.as_slice(), 0) {
        Some(k) => k,
        None => rest.len(),
    };
    let part: &[char] = slice_subrange(rest, 0, limit);
    assert(Some(part@) == after_scheme(url@)) by {
        assert(rest@.subrange(0, rest@.len() as int) =~= rest@);
    }
    let mut end: usize = 0;
    while end < part.len() && part[end] != '/' && part[end] != '?' && part[end] != '#'
        invariant
            end <= part@.len(),
            text::next_index(part@, host_end(), 0) == text::next_index(
                part@,
                host_end(),
                end as int,
            ),
        decreases part@.len() - end,
    {
        end += 1;
    }
    if end == 0 {
        return None;
    }
    assert(url@.subrange(start as int, start + end) =~= part@.subrange(0, end as int));
    Some(url.substring_char(start, start + end))
}

/// The user name in `@user` or `@user@host`.
pub open spec fn user_of(name: Seq<char>) -> Seq<char> {
    text::before_any(text::without_leading(name, '@'), text::just('@'))
}

/// The name of a mention with a host: the host of `href` is added where the name
/// has none.
pub open spec fn qualified_name(name: Seq<char>, href: Seq<char>) -> Seq<char> {
    let user = text::without_leading(name, '@');
    if user.contains('@') {
        name
    } else {
        match host_of(href) {
            Some(host) => seq!['@'] + user + seq!['@'] + host,
            None => name,
        }
    }
}

/// `@user@host`.
fn full_name(user: &[char], host: &str) -> (r: String)
    ensures
        r@ == seq!['@'] + user@ + seq!['@'] + host@,
{
    let mut out: String = String::new();
    out.push('@');
    out.push_str(text::string_of(user).as_str());
    out.push('@');
    out.push_str(host);
    assert(out@ =~= seq!['@'] + user@ + seq!['@'] + host@);
    out
}

/// The name of a mention with a host.
pub fn qualify_mention_name(name: &str, href: &str) -> (r: String)
    ensures
        r@ == qualified_name(name@, href@),
{
    let chars: Vec<char> = text::chars_of(name);
    let user: &[char] = text::trim_start_char(chars.as_slice(), '@');
    if text::has_char(user, '@') {
        return name.to_owned();
    }
    match extract_host(href) {
        Some(host) => full_name(user, host),
        None => name.to_owned(),
    }
}

/// The user name in `@user` or `@user@host`.
fn read_user(name: &str) -> (r: Vec<char>)
    ensures
        r@ == user_of(name@),
{
    let chars: Vec<char> = text::chars_of(name);
    let rest: &[char] = text::trim_start_char(chars.as_slice(), '@');
    let end: usize = text::next_char(rest, '@', 0);
    vstd::slice::slice_to_vec(slice_subrange(rest, 0, end))
}

/// The first value from index `i` on that is in the class `f`.
pub open spec fn first_where(ts: Seq<JsonModel>, f: spec_fn(JsonModel) -> bool, i: int) -> Option<
    JsonModel,
>
    decreases ts.len() - i,
{
    if i < 0 || i >= ts.len() {
        None
    } else if f(ts[i]) {
        Some(ts[i])
    } else {
        first_where(ts, f, i + 1)
    }
}

pub open spec fn is_mention(t: JsonModel) -> bool {
    t.text_at("type"@) == Some("Mention"@)
}

/// The mentions of the actor at `href`.
pub open spec fn mention_of(href: Seq<char>) -> spec_fn(JsonModel) -> bool {
    |t: JsonModel| is_mention(t) && t.text_at("href"@) == Some(href)
}

/// The mentions of a user of the given name.
pub open spec fn mention_of_user(user: Seq<char>) -> spec_fn(JsonModel) -> bool {
    |t: JsonModel|
        is_mention(t) && match t.text_at("name"@) {
            Some(n) => text::same_ignoring_ascii_case(user_of(n), user),
            None => false,
        }
}

/// The mentions of a user of the given name whose actor is at the given host.
pub open spec fn mention_of_user_at(user: Seq<char>, host: Seq<char>) -> spec_fn(JsonModel) -> bool {
    |t: JsonModel|
        mention_of_user(user)(t) && match t.text_at("href"@) {
            Some(h) => match host_of(h) {
                Some(other) => text::same_ignoring_ascii_case(other, host),
                None => false,
            },
            None => false,
        }
}

pub open spec fn text_or_empty(s: Option<Seq<char>>) -> Seq<char> {
    match s {
        Some(t) => t,
        None => seq![],
    }
}

/// The qualified name that a mention gives.
pub open spec fn mention_name(t: JsonModel) -> Seq<char> {
    qualified_name(text_or_empty(t.text_at("name"@)), text_or_empty(t.text_at("href"@)))
}

/// The name of the mention whose actor is at `href`.
pub open spec fn name_by_href(href: Seq<char>, tags: Seq<JsonModel>) -> Option<Seq<char>> {
    match first_where(tags, mention_of(href), 0) {
        Some(t) => match t.text_at("name"@) {
            Some(n) => Some(qualified_name(n, href)),
            None => None,
        },
        None => None,
    }
}

/// The name of the mention that a link's text points at: one whose actor is at
/// the link's own host where there is such a one, else any with the user name.
pub open spec fn name_by_inner_text(
    anchor_href: Seq<char>,
    inner: Seq<char>,
    tags: Seq<JsonModel>,
) -> Option<Seq<char>> {
    let user = user_of(inner);
    let at_host = match host_of(anchor_href) {
        Some(host) => first_where(tags, mention_of_user_at(user, host), 0),
        None => None,
    };
    if user.len() == 0 {
        None
    } else if at_host is Some {
        Some(mention_name(at_host->0))
    } else {
        match first_where(tags, mention_of_user(user), 0) {
            Some(t) => Some(mention_name(t)),
            None => None,
        }
    }
}

/// The name of the mention whose actor is at `href`.
pub fn find_mention_name_by_href(href: &str, tags: &[Json]) -> (r: Option<String>)
    ensures
        text::string_view(r) == name_by_href(href@, json::models(tags@)),
{
    let ghost ts = json::models(tags@);
    let mut i: usize = 0;
    while i < tags.len()
        invariant
            i <= tags@.len(),
            ts == json::models(tags@),
            first_where(ts, mention_of(href@), 0) == first_where(ts, mention_of(href@), i as int),
        decreases tags@.len() - i,
    {
        let t: &Json = &tags[i];
        assert(ts[i as int] == t@);
        if t.text_is("type", "Mention") && t.text_is("href", href) {
            return match t.text_at("name") {
                Some(n) => Some(qualify_mention_name(n, href)),
                None => None,
            };
        }
        i += 1;
    }
    None
}

/// Whether a tag mentions a user of the given name.
fn mentions_user(t: &Json, user: &[char]) -> (r: bool)
    ensures
        r == mention_of_user(user@)(t@),
{
    if !t.text_is("type", "Mention") {
        return false;
    }
    match t.text_at("name") {
        Some(n) => text::same_ignoring_case(read_user(n).as_slice(), user),
        None => false,
    }
}

/// Whether the actor that a tag points at is at the given host.
fn points_at_host(t: &Json, host: &[char]) -> (r: bool)
    ensures
        r == (match t@.text_at("href"@) {
            Some(h) => match host_of(h) {
                Some(other) => text::same_ignoring_ascii_case(other, host@),
                None => false,
            },
            None => false,
        }),
{
    match t.text_at("href") {
        Some(h) => match extract_host(h) {
            Some(other) => text::same_ignoring_case(text::chars_of(other).as_slice(), host),
            None => false,
        },
        None => false,
    }
}

/// The qualified name that a mention gives.
fn read_mention_name(t: &Json) -> (r: String)
    ensures
        r@ == mention_name(t@),
{
    proof {
        reveal_strlit("");
    }
    let name: &str = match t.text_at("name") {
        Some(n) => n,
        None => "",
    };
    let href: &str = match t.text_at("href") {
        Some(h) => h,
        None => "",
    };
    assert(name@ =~= text_or_empty(t@.text_at("name"@)));
    assert(href@ =~= text_or_empty(t@.text_at("href"@)));
    qualify_mention_name(name, href)
}

/// The name of the mention that a link's text points at.
pub fn find_mention_name_by_inner_text(anchor_href: &str, inner_text: &str, tags: &[Json]) -> (r:
    Option<String>)
    ensures
        text::string_view(r) == name_by_inner_text(
            anchor_href@,
            inner_text@,
            json::models(tags@),
        ),
{
    let user: Vec<char> = read_user(inner_text);
    if user.len() == 0 {
        return None;
    }
    let ghost ts = json::models(tags@);
    match extract_host(anchor_href) {
        Some(host) => {
            let host_chars: Vec<char> = text::chars_of(host);
            let ghost f = mention_of_user_at(user@, host@);
            let mut i: usize = 0;
            while i < tags.len()
                invariant
                    i <= tags@.len(),
                    ts == json::models(tags@),
                    host_chars@ == host@,
                    user@ == user_of(inner_text@),
                    user@.len() > 0,
                    host_of(anchor_href@) == Some(host@),
                    f == mention_of_user_at(user@, host@),
                    first_where(ts, f, 0) == first_where(ts, f, i as int),
                decreases tags@.len() - i,
            {
                assert(ts[i as int] == tags@[i as int]@);
                if mentions_user(&tags[i], user.as_slice()) && points_at_host(
                    &tags[i],
                    host_chars.as_slice(),
                ) {
                    return Some(read_mention_name(&tags[i]));
                }
                i += 1;
            }
        },
        None => {},
    }
    let ghost f = mention_of_user(user@);
    let mut i: usize = 0;
    while i < tags.len()
        invariant
            i <= tags@.len(),
            ts == json::models(tags@),
            user@ == user_of(inner_text@),
            user@.len() > 0,
            f == mention_of_user(user@),
            host_of(anchor_href@) matches Some(host) ==> first_where(
                ts,
                mention_of_user_at(user@, host),
                0,
            ) is None,
            first_where(ts, f, 0) == first_where(ts, f, i as int),
        decreases tags@.len() - i,
    {
        assert(ts[i as int] == tags@[i as int]@);
        if mentions_user(&tags[i], user.as_slice()) {
            return Some(read_mention_name(&tags[i]));
        }
        i += 1;
    }
    None
}

/// The mention that a link stands for, as `@user@host`; nothing where the link
/// is no mention. A hashtag never is one. A link whose target is a mentioned
/// actor is one. Any other is one only where it is marked as a mention: then its
/// text names the mention, and the sender's domain is added where no mention
/// fits and the text has no host.
pub open spec fn mention_text(
    href: Seq<char>,
    inner: Seq<char>,
    is_mention_class: bool,
    is_hashtag: bool,
    tags: Seq<JsonModel>,
    sender_domain: Seq<char>,
) -> Option<Seq<char>> {
    let user = text::without_leading(inner, '@');
    if is_hashtag {
        None
    } else if name_by_href(href, tags) is Some {
        name_by_href(href, tags)
    } else if !is_mention_class {
        None
    } else if name_by_inner_text(href, inner, tags) is Some {
        name_by_inner_text(href, inner, tags)
    } else if user.len() == 0 {
        None
    } else if user.contains('@') || sender_domain.len() == 0 {
        Some(seq!['@'] + user)
    } else {
        Some(seq!['@'] + user + seq!['@'] + sender_domain)
    }
}

/// The mention that a link stands for, as `@user@host`.
pub fn resolve_ap_mention_text(
    href: &str,
    inner_text: &str,
    is_mention_class: bool,
    is_hashtag: bool,
    tags: &[Json],
    sender_domain: &str,
) -> (r: Option<String>)
    ensures
        text::string_view(r) == mention_text(
            href@,
            inner_text@,
            is_mention_class,
            is_hashtag,
            json::models(tags@),
            sender_domain@,
        ),
{
    if is_hashtag {
        return None;
    }
    let by_href: Option<String> = find_mention_name_by_href(href, tags);
    if by_href.is_some() {
        return by_href;
    }
    if !is_mention_class {
        return None;
    }
    let by_text: Option<String> = find_mention_name_by_inner_text(href, inner_text, tags);
    if by_text.is_some() {
        return by_text;
    }
    let chars: Vec<char> = text::chars_of(inner_text);
    let user: &[char] = text::trim_start_char(chars.as_slice(), '@');
    if user.len() == 0 {
        return None;
    }
    if text::has_char(user, '@') || sender_domain.is_empty() {
        let mut out: String = String::new();
        out.push('@');
        out.push_str(text::string_of(user).as_str());
        assert(out@ =~= seq!['@'] + user@);
        Some(out)
    } else {
        Some(full_name(user, sender_domain))
    }
}

// ---------------------------------------------------------------------------
// Links.
// ---------------------------------------------------------------------------
/// A piece of an HTML fragment: running text, or a link.
pub enum HtmlSegment {
    Text(String),
    Link {
        href: String,
        text: String,
        /// The link is marked as a mention.
        is_mention_class: bool,
        /// The link is marked as a hashtag. Hashtags are often marked as
        /// mentions too, so this comes first.
        is_hashtag: bool,
    },
}

/// What a piece of an HTML fragment stands for.
pub enum SegmentModel {
    Text(Seq<char>),
    Link { href: Seq<char>, text: Seq<char>, is_mention_class: bool, is_hashtag: bool },
}

impl View for HtmlSegment {
    type V = SegmentModel;

    open spec fn view(&self) -> SegmentModel {
        match self {
            HtmlSegment::Text(t) => SegmentModel::Text(t@),
            HtmlSegment::Link { href, text, is_mention_class, is_hashtag } => SegmentModel::Link {
                href: href@,
                text: text@,
                is_mention_class: *is_mention_class,
                is_hashtag: *is_hashtag,
            },
        }
    }
}

/// What a list of pieces stands for.
pub open spec fn segment_models(v: Seq<HtmlSegment>) -> Seq<SegmentModel> {
    v.map_values(|g: HtmlSegment| g@)
}

/// The inside of the tag whose `<` stands before index `i`.
pub open spec fn tag_at(s: Seq<char>, i: int) -> Seq<char> {
    s.subrange(i, text::next_index(s, text::just('>'), i))
}

/// The index behind the next `>` from index `i` on, or the length of the text.
pub open spec fn behind_tag(s: Seq<char>, i: int) -> int {
    let k: int = text::next_index(s, text::just('>'), i);
    if k < s.len() {
        k + 1
    } else {
        k
    }
}

/// The tag opens a link.
pub open spec fn opens_anchor(tag: Seq<char>) -> bool {
    let t = text::trimmed_start(tag);
    let low = text::ascii_lower(t);
    (low == "a"@ || text::starts_with(low, "a "@) || text::starts_with(low, "a\t"@))
        && !text::ends_with(t, "/"@)
}

/// The index of the next `</a` from index `i` on, in any case, or the length of
/// the text.
pub open spec fn anchor_end(s: Seq<char>, i: int) -> int {
    match text::find_from(text::ascii_lower(s), "</a"@, i) {
        Some(k) => k,
        None => s.len() as int,
    }
}

/// The index behind the link whose inside starts at index `i`.
pub open spec fn behind_anchor(s: Seq<char>, i: int) -> int {
    let k: int = anchor_end(s, i);
    if k < s.len() {
        behind_tag(s, k + 1)
    } else {
        s.len() as int
    }
}

/// The tag is marked as a mention.
pub open spec fn marked_as_mention(tag: Seq<char>) -> bool {
    class_tokens(tag).contains("mention"@) || class_tokens(tag).contains("u-url"@)
}

/// The tag is marked as a hashtag.
pub open spec fn marked_as_hashtag(tag: Seq<char>) -> bool {
    class_tokens(tag).contains("hashtag"@) || match attribute(tag, "rel"@) {
        Some(r) => has_word(r, "tag"@),
        None => false,
    }
}

/// One of the words of `s` is `w`, in any case.
pub open spec fn has_word(s: Seq<char>, w: Seq<char>) -> bool {
    exists|k: int|
        0 <= k < text::words(s).len() && text::same_ignoring_ascii_case(
            #[trigger] text::words(s)[k],
            w,
        )
}

/// The text of a link with the given inside.
pub open spec fn anchor_text(inside: Seq<char>) -> Seq<char> {
    outside::entities_decoded(text::trimmed(untagged(inside)))
}

/// What a link makes of its tag and its text: nothing where it has no text, and
/// plain text where it has no target.
pub open spec fn anchor_segment(tag: Seq<char>, inner: Seq<char>) -> Seq<SegmentModel> {
    if inner.len() == 0 {
        seq![]
    } else {
        match href_attribute(tag) {
            Some(href) => seq![
                SegmentModel::Link {
                    href,
                    text: inner,
                    is_mention_class: marked_as_mention(tag),
                    is_hashtag: marked_as_hashtag(tag),
                },
            ],
            None => seq![SegmentModel::Text(inner)],
        }
    }
}

/// The text collected so far, as a piece; none where it is empty.
pub open spec fn flushed(buf: Seq<char>) -> Seq<SegmentModel> {
    if buf.len() > 0 {
        seq![SegmentModel::Text(buf)]
    } else {
        seq![]
    }
}

/// The pieces of `s[i..]`, where `buf` is the running text in front of it. A tag
/// that opens no link leaves its break behind; a link becomes a piece of its
/// own, with a space behind it.
pub open spec fn segments_from(s: Seq<char>, i: int, buf: Seq<char>) -> Seq<SegmentModel>
    decreases s.len() - i,
{
    if i < 0 || i >= s.len() {
        flushed(buf)
    } else if s[i] != '<' {
        segments_from(s, i + 1, buf.push(s[i]))
    } else {
        let tag = tag_at(s, i + 1);
        let inside: int = behind_tag(s, i + 1);
        proof {
            lemma_tag_bounds(s, i + 1);
            lemma_anchor_bounds(s, inside);
        }
        if !opens_anchor(tag) {
            segments_from(s, inside, buf + tag_break(tag))
        } else {
            flushed(buf) + anchor_segment(tag, anchor_text(s.subrange(inside, anchor_end(s, inside))))
                + segments_from(s, behind_anchor(s, inside), seq![' '])
        }
    }
}

/// The pieces of an HTML fragment.
pub open spec fn segments(html: Seq<char>) -> Seq<SegmentModel> {
    segments_from(html, 0, seq![])
}

/// A tag ends inside the text, behind the place where it starts.
pub proof fn lemma_tag_bounds(s: Seq<char>, i: int)
    requires
        0 <= i <= s.len(),
    ensures
        i <= text::next_index(s, text::just('>'), i) <= behind_tag(s, i) <= s.len(),
{
    text::lemma_next_index(s, text::just('>'), i);
}

/// A link ends inside the text, behind the place where its inside starts.
pub proof fn lemma_anchor_bounds(s: Seq<char>, i: int)
    requires
        0 <= i <= s.len(),
    ensures
        i <= anchor_end(s, i) <= behind_anchor(s, i) <= s.len(),
{
    let low = text::ascii_lower(s);
    reveal_strlit("</a");
    text::lemma_find_from(low, "</a"@, i);
    let k: int = anchor_end(s, i);
    if k < s.len() {
        lemma_tag_bounds(s, k + 1);
    }
}

/// Whether a tag opens a link.
fn is_anchor_open(tag: &[char]) -> (r: bool)
    ensures
        r == opens_anchor(tag@),
{
    let t: &[char] = text::trim_start(tag);
    let low: Vec<char> = text::lower(t);
    (text::is_text(low.as_slice(), "a") || text::has_prefix(low.as_slice(), "a ")
        || text::has_prefix(low.as_slice(), "a\t")) && !text::has_suffix(t, "/")
}

/// Whether a tag is marked as a mention.
fn is_mention_tag(tag_inner: &str) -> (r: bool)
    ensures
        r == marked_as_mention(tag_inner@),
{
    let tokens: Vec<String> = extract_class_tokens(tag_inner);
    text::holds(&tokens, "mention") || text::holds(&tokens, "u-url")
}

/// Whether a tag is marked as a hashtag.
fn is_hashtag_tag(tag_inner: &str) -> (r: bool)
    ensures
        r == marked_as_hashtag(tag_inner@),
{
    proof {
        reveal_strlit("rel");
    }
    let tokens: Vec<String> = extract_class_tokens(tag_inner);
    if text::holds(&tokens, "hashtag") {
        return true;
    }
    let rel: String = match extract_attr(tag_inner, "rel") {
        Some(v) => v,
        None => {
            return false;
        },
    };
    let rel_chars: Vec<char> = text::chars_of(rel.as_str());
    let found: Vec<Vec<char>> = text::split_words(rel_chars.as_slice());
    let wanted: Vec<char> = text::chars_of("tag");
    let mut i: usize = 0;
    while i < found.len()
        invariant
            i <= found@.len(),
            text::contents(found@) == text::words(rel@),
            wanted@ == "tag"@,
            attribute(tag_inner@, "rel"@) == Some(rel@),
            forall|k: int|
                0 <= k < i ==> !text::same_ignoring_ascii_case(
                    #[trigger] text::words(rel@)[k],
                    "tag"@,
                ),
        decreases found@.len() - i,
    {
        assert(text::words(rel@)[i as int] == found@[i as int]@);
        assert(text::words(rel@).len() == found@.len());
        if text::same_ignoring_case(found[i].as_slice(), wanted.as_slice()) {
            let ghost k = i as int;
            assert(0 <= k < text::words(rel@).len() && text::same_ignoring_ascii_case(
                text::words(rel@)[k],
                "tag"@,
            ));
            assert(has_word(rel@, "tag"@));
            return true;
        }
        i += 1;
    }
    assert(text::words(rel@).len() == found@.len());
    false
}

/// The index behind the next `>` from index `i` on, or the length of the text.
fn find_behind_tag(s: &[char], i: usize) -> (r: usize)
    requires
        i <= s@.len(),
    ensures
        r == behind_tag(s@, i as int),
        i <= r <= s@.len(),
{
    let k: usize = text::next_char(s, '>', i);
    if k < s.len() {
        k + 1
    } else {
        k
    }
}

/// The index of the next `</a` from index `i` on, in any case, or the length of
/// the text. `low` is the text in small letters.
fn find_anchor_end(low: &[char], i: usize, Ghost(s): Ghost<Seq<char>>) -> (r: usize)
    requires
        low@ == text::ascii_lower(s),
        i <= s.len(),
    ensures
        r == anchor_end(s, i as int),
        i <= r <= s.len(),
{
    let mark: Vec<char> = text::chars_of("</a");
    proof {
        lemma_anchor_bounds(s, i as int);
    }
    match text::find(low, mark.as_slice(), i) {
        Some(k) => k,
        None => low.len(),
    }
}

/// The text of a link with the given inside.
fn read_anchor_text(inside: &[char]) -> (r: String)
    ensures
        r@ == anchor_text(inside@),
{
    let none: Vec<char> = Vec::new();
    assert(none@ =~= seq![]);
    let bare: Vec<char> = remove_tags(inside, none.as_slice());
    outside::decode_html_entities(text::string_of(text::trim(bare.as_slice())).as_str())
}

/// The pieces of an HTML fragment.
pub fn tokenize_anchors(html: &str) -> (r: Vec<HtmlSegment>)
    ensures
        segment_models(r@) == segments(html@),
{
    let chars: Vec<char> = text::chars_of(html);
    let s: &[char] = chars.as_slice();
    let low: Vec<char> = text::lower(s);
    let mut out: Vec<HtmlSegment> = Vec::new();
    let mut buf: Vec<char> = Vec::new();
    let mut i: usize = 0;
    assert(segment_models(out@) + segments(html@) =~= segments(html@));
    while i < s.len()
        invariant
            i <= s@.len(),
            s@ == html@,
            low@ == text::ascii_lower(s@),
            segment_models(out@) + segments_from(s@, i as int, buf@) == segments(html@),
        decreases s@.len() - i,
    {
        if s[i] != '<' {
            buf.push(s[i]);
            i += 1;
        } else {
            let end: usize = text::next_char(s, '>', i + 1);
            let tag: &[char] = slice_subrange(s, i + 1, end);
            let inside: usize = find_behind_tag(s, i + 1);
            let tag_inner: String = text::string_of(tag);
            if !is_anchor_open(tag) {
                text::append(&mut buf, text::chars_of(tag_break_text(tag_inner.as_str())).as_slice());
                i = inside;
            } else {
                let ghost before = segment_models(out@);
                let ghost flush = flushed(buf@);
                let ghost rest = segments_from(s@, behind_anchor(s@, inside as int), seq![' ']);
                if buf.len() > 0 {
                    out.push(HtmlSegment::Text(text::string_of(buf.as_slice())));
                    assert(segment_models(out@) =~= before + flush);
                } else {
                    assert(segment_models(out@) =~= before + flush);
                }
                let close: usize = find_anchor_end(low.as_slice(), inside, Ghost(s@));
                let inner: String = read_anchor_text(slice_subrange(s, inside, close));
                let ghost piece = anchor_segment(tag@, inner@);
                if !inner.as_str().is_empty() {
                    match extract_href_attr(tag_inner.as_str()) {
                        Some(href) => {
                            out.push(
                                HtmlSegment::Link {
                                    href,
                                    text: inner,
                                    is_mention_class: is_mention_tag(tag_inner.as_str()),
                                    is_hashtag: is_hashtag_tag(tag_inner.as_str()),
                                },
                            );
                            assert(segment_models(out@) =~= before + flush + piece);
                        },
                        None => {
                            out.push(HtmlSegment::Text(inner));
                            assert(segment_models(out@) =~= before + flush + piece);
                        },
                    }
                } else {
                    assert(segment_models(out@) =~= before + flush + piece);
                }
                i = if close < s.len() {
                    find_behind_tag(s, close + 1)
                } else {
                    close
                };
                buf = vec![' '];
                proof {
                    assert(buf@ =~= seq![' ']);
                    assert(before + (flush + piece + rest) =~= (before + flush + piece) + rest);
                }
            }
        }
    }
    let ghost before = segment_models(out@);
    let ghost flush = flushed(buf@);
    if buf.len() > 0 {
        out.push(HtmlSegment::Text(text::string_of(buf.as_slice())));
    }
    assert(segment_models(out@) =~= before + flush);
    out
}

// ---------------------------------------------------------------------------
// Plain text with Markdown links.
// ---------------------------------------------------------------------------
/// A line with its words set apart by single spaces.
pub open spec fn squeezed(line: Seq<char>) -> Seq<char> {
    text::join(text::words(line), seq![' '])
}

/// `s[i..]` with every run of line breaks cut down to two, where `run` line
/// breaks stand in front of it, and without the run at its end.
pub open spec fn short_breaks(s: Seq<char>, i: int, run: nat) -> Seq<char>
    decreases s.len() - i,
{
    if i < 0 || i >= s.len() {
        seq![]
    } else if s[i] == '\n' {
        short_breaks(s, i + 1, run + 1)
    } else {
        breaks(run) + seq![s[i]] + short_breaks(s, i + 1, 0)
    }
}

/// A run of line breaks, cut down to two.
pub open spec fn breaks(run: nat) -> Seq<char> {
    if run == 0 {
        seq![]
    } else if run == 1 {
        seq!['\n']
    } else {
        seq!['\n', '\n']
    }
}

/// The lines of a text, each squeezed, with at most one empty line between two
/// of them and none at either end.
pub open spec fn normalized(s: Seq<char>) -> Seq<char> {
    let lines = text::split(s, '\n').map_values(|l: Seq<char>| squeezed(l));
    text::without_outer(short_breaks(text::join(lines, seq!['\n']), 0, 0), '\n')
}

/// Every run of line breaks cut down to two.
fn shorten_breaks(s: &[char]) -> (r: Vec<char>)
    ensures
        r@ == short_breaks(s@, 0, 0),
{
    let mut out: Vec<char> = Vec::new();
    let mut run: usize = 0;
    let mut i: usize = 0;
    let ghost all = short_breaks(s@, 0, 0);
    assert(out@ + all =~= all);
    while i < s.len()
        invariant
            run <= i <= s@.len(),
            out@ + short_breaks(s@, i as int, run as nat) == all,
        decreases s@.len() - i,
    {
        let c: char = s[i];
        if c == '\n' {
            run += 1;
        } else {
            let ghost before = out@;
            let ghost rest = short_breaks(s@, i + 1, 0);
            let ghost gap = breaks(run as nat);
            if run > 0 {
                out.push('\n');
            }
            if run > 1 {
                out.push('\n');
            }
            assert(out@ =~= before + gap);
            out.push(c);
            run = 0;
            assert(before + (gap + seq![c] + rest) =~= out@ + rest);
        }
        i += 1;
    }
    assert(out@ + Seq::<char>::empty() =~= out@);
    out
}

/// The lines of a text, each squeezed, with at most one empty line between two
/// of them and none at either end.
pub fn normalize_whitespace_preserving_newlines(s: &str) -> (r: String)
    ensures
        r@ == normalized(s@),
{
    let chars: Vec<char> = text::chars_of(s);
    let raw: Vec<Vec<char>> = text::split_at_char(chars.as_slice(), '\n');
    let space: Vec<char> = vec![' '];
    let newline: Vec<char> = vec!['\n'];
    assert(space@ =~= seq![' ']);
    assert(newline@ =~= seq!['\n']);
    let mut lines: Vec<Vec<char>> = Vec::new();
    let mut i: usize = 0;
    while i < raw.len()
        invariant
            i <= raw@.len(),
            lines@.len() == i,
            space@ == seq![' '],
            forall|k: int| 0 <= k < i ==> (#[trigger] lines@[k])@ == squeezed(raw@[k]@),
        decreases raw@.len() - i,
    {
        let found: Vec<Vec<char>> = text::split_words(raw[i].as_slice());
        lines.push(text::join_all(&found, space.as_slice()));
        i += 1;
    }
    assert(text::contents(lines@) =~= text::contents(raw@).map_values(|l: Seq<char>| squeezed(l)));
    let joined: Vec<char> = text::join_all(&lines, newline.as_slice());
    let short: Vec<char> = shorten_breaks(joined.as_slice());
    text::string_of(text::trim_char(short.as_slice(), '\n'))
}

/// A piece in the plain text: running text as it is, a mention as `@user@host`,
/// any other link as `[text](href)`.
pub open spec fn rendered_segment(
    g: SegmentModel,
    tags: Seq<JsonModel>,
    sender_domain: Seq<char>,
) -> Seq<char> {
    match g {
        SegmentModel::Text(t) => t,
        SegmentModel::Link { href, text, is_mention_class, is_hashtag } => match mention_text(
            href,
            text,
            is_mention_class,
            is_hashtag,
            tags,
            sender_domain,
        ) {
            Some(name) => name,
            None => seq!['['] + text + seq![']', '('] + href + seq![')'],
        },
    }
}

/// The pieces one behind the other.
pub open spec fn rendered(gs: Seq<SegmentModel>, tags: Seq<JsonModel>, sender_domain: Seq<char>) -> Seq<
    char,
>
    decreases gs.len(),
{
    if gs.len() == 0 {
        seq![]
    } else {
        rendered(gs.drop_last(), tags, sender_domain) + rendered_segment(
            gs.last(),
            tags,
            sender_domain,
        )
    }
}

/// The plain text, with Markdown links, of a note's HTML content.
pub open spec fn markdown_body(html: Seq<char>, tags: Seq<JsonModel>, sender_domain: Seq<char>) -> Seq<
    char,
> {
    normalized(outside::entities_decoded(rendered(segments(html), tags, sender_domain)))
}

/// The plain text, with Markdown links, of a note's HTML content.
pub fn ap_content_to_markdown_body(content_html: &str, tags: &[Json], sender_domain: &str) -> (r:
    String)
    ensures
        r@ == markdown_body(content_html@, json::models(tags@), sender_domain@),
{
    let pieces: Vec<HtmlSegment> = tokenize_anchors(content_html);
    let ghost gs = segment_models(pieces@);
    let ghost ts = json::models(tags@);
    let mut out: String = String::new();
    let mut i: usize = 0;
    while i < pieces.len()
        invariant
            i <= pieces@.len(),
            gs == segment_models(pieces@),
            ts == json::models(tags@),
            out@ == rendered(gs.take(i as int), ts, sender_domain@),
        decreases pieces@.len() - i,
    {
        proof {
            assert(gs.take(i + 1).drop_last() =~= gs.take(i as int));
            assert(gs.take(i + 1).last() == pieces@[i as int]@);
        }
        let ghost before = out@;
        match &pieces[i] {
            HtmlSegment::Text(t) => {
                out.push_str(t.as_str());
            },
            HtmlSegment::Link { href, text, is_mention_class, is_hashtag } => {
                match resolve_ap_mention_text(
                    href.as_str(),
                    text.as_str(),
                    *is_mention_class,
                    *is_hashtag,
                    tags,
                    sender_domain,
                ) {
                    Some(name) => {
                        out.push_str(name.as_str());
                    },
                    None => {
                        out.push('[');
                        out.push_str(text.as_str());
                        out.push(']');
                        out.push('(');
                        out.push_str(href.as_str());
                        out.push(')');
                        assert(out@ =~= before + (seq!['['] + text@ + seq![']', '('] + href@ + seq![
                            ')',
                        ]));
                    },
                }
            },
        }
        i += 1;
    }
    assert(gs.take(i as int) =~= gs);
    normalize_whitespace_preserving_newlines(outside::decode_html_entities(out.as_str()).as_str())
}

// ---------------------------------------------------------------------------
// Sanitised HTML.
// ---------------------------------------------------------------------------
/// A character in an attribute's value.
pub open spec fn escaped_char(c: char) -> Seq<char> {
    if c == '&' {
        "&amp;"@
    } else if c == '"' {
        "&quot;"@
    } else if c == '<' {
        "&lt;"@
    } else if c == '>' {
        "&gt;"@
    } else {
        seq![c]
    }
}

/// A text in an attribute's value.
pub open spec fn escaped(s: Seq<char>) -> Seq<char>
    decreases s.len(),
{
    if s.len() == 0 {
        seq![]
    } else {
        escaped(s.drop_last()) + escaped_char(s.last())
    }
}

/// A text in an attribute's value.
pub fn escape_html_attr(s: &str) -> (r: String)
    ensures
        r@ == escaped(s@),
{
    let chars: Vec<char> = text::chars_of(s);
    let mut out: String = String::new();
    let mut i: usize = 0;
    while i < chars.len()
        invariant
            i <= chars@.len(),
            chars@ == s@,
            out@ == escaped(s@.take(i as int)),
        decreases chars@.len() - i,
    {
        proof {
            assert(s@.take(i + 1).drop_last() =~= s@.take(i as int));
            assert(s@.take(i + 1).last() == chars@[i as int]);
        }
        let ghost before = out@;
        let c: char = chars[i];
        if c == '&' {
            out.push_str("&amp;");
        } else if c == '"' {
            out.push_str("&quot;");
        } else if c == '<' {
            out.push_str("&lt;");
        } else if c == '>' {
            out.push_str("&gt;");
        } else {
            out.push(c);
            assert(out@ =~= before + seq![c]);
        }
        i += 1;
    }
    assert(s@.take(i as int) =~= s@);
    out
}

/// The path inside the application that a link is pointed at: the page of its
/// hashtag, or the profile that it mentions; nothing for any other link.
pub open spec fn internal_path(
    tag: Seq<char>,
    inner: Seq<char>,
    tags: Seq<JsonModel>,
    sender_domain: Seq<char>,
) -> Option<Seq<char>> {
    if marked_as_hashtag(tag) {
        let name = text::without_leading(inner, '#');
        if name.len() > 0 {
            Some(
                "/tags/"@ + outside::percent_encoded(
                    vstd::utf8::encode_utf8(text::lowercase(name)),
                ),
            )
        } else {
            None
        }
    } else {
        match mention_text(
            text_or_empty(href_attribute(tag)),
            inner,
            marked_as_mention(tag),
            false,
            tags,
            sender_domain,
        ) {
            Some(name) => Some("/@"@ + text::without_leading(name, '@')),
            None => None,
        }
    }
}

/// A text between single quotes.
pub open spec fn single_quoted(s: Seq<char>) -> Seq<char>
    decreases s.len(),
{
    if s.len() == 0 {
        seq![]
    } else {
        single_quoted(s.drop_last()) + (if s.last() == '\'' {
            "&#39;"@
        } else {
            seq![s.last()]
        })
    }
}

/// A text as the value of an attribute between the given quotes.
pub open spec fn attribute_text(s: Seq<char>, quote: char) -> Seq<char> {
    if quote == '\'' {
        single_quoted(escaped(s))
    } else {
        escaped(s)
    }
}

/// The index behind the name of a tag that opens a link.
pub open spec fn behind_anchor_name(tag: Seq<char>) -> int {
    tag.len() - text::trimmed_start(tag).len() + 1
}

/// The tag of a link, pointed at the path: only the value of its `href` is
/// another one. Where it has no such value, `href` comes in behind its name.
pub open spec fn retargeted(tag: Seq<char>, path: Seq<char>) -> Seq<char> {
    match attribute_span(tag, "href"@, 0) {
        Some(v) => tag.subrange(0, v.0) + attribute_text(path, tag[v.0 - 1]) + tag.subrange(
            v.1,
            tag.len() as int,
        ),
        None => {
            let k: int = behind_anchor_name(tag);
            tag.subrange(0, k) + " href=\""@ + escaped(path) + "\""@ + tag.subrange(
                k,
                tag.len() as int,
            )
        },
    }
}

/// `s[i..]` with its links to hashtags and mentioned users pointed inside the
/// application, and all else unchanged. So is a link that is not closed.
pub open spec fn rewritten_from(
    s: Seq<char>,
    i: int,
    tags: Seq<JsonModel>,
    sender_domain: Seq<char>,
) -> Seq<char>
    decreases s.len() - i,
{
    if i < 0 || i >= s.len() {
        seq![]
    } else if s[i] != '<' {
        seq![s[i]] + rewritten_from(s, i + 1, tags, sender_domain)
    } else {
        let tag = tag_at(s, i + 1);
        let inside: int = behind_tag(s, i + 1);
        let end: int = anchor_end(s, inside);
        let behind: int = behind_anchor(s, inside);
        proof {
            lemma_tag_bounds(s, i + 1);
            lemma_anchor_bounds(s, inside);
        }
        if !opens_anchor(tag) {
            s.subrange(i, inside) + rewritten_from(s, inside, tags, sender_domain)
        } else if end >= s.len() {
            s.subrange(i, s.len() as int)
        } else {
            (match internal_path(tag, anchor_text(s.subrange(inside, end)), tags, sender_domain) {
                None => s.subrange(i, behind),
                Some(path) => seq!['<'] + retargeted(tag, path) + s.subrange(inside - 1, behind),
            }) + rewritten_from(s, behind, tags, sender_domain)
        }
    }
}

/// The path inside the application that a link is pointed at.
fn read_internal_path(tag_inner: &str, href: &str, inner: &str, tags: &[Json], sender_domain: &str) -> (r:
    Option<String>)
    requires
        href@ == text_or_empty(href_attribute(tag_inner@)),
    ensures
        text::string_view(r) == internal_path(
            tag_inner@,
            inner@,
            json::models(tags@),
            sender_domain@,
        ),
{
    if is_hashtag_tag(tag_inner) {
        let chars: Vec<char> = text::chars_of(inner);
        let name: &[char] = text::trim_start_char(chars.as_slice(), '#');
        if name.len() == 0 {
            return None;
        }
        let low: String = text::to_lowercase(text::string_of(name).as_str());
        let mut out: String = "/tags/".to_owned();
        out.push_str(outside::percent_encode(low.as_str()).as_str());
        Some(out)
    } else {
        match resolve_ap_mention_text(
            href,
            inner,
            is_mention_tag(tag_inner),
            false,
            tags,
            sender_domain,
        ) {
            Some(name) => {
                let chars: Vec<char> = text::chars_of(name.as_str());
                let mut out: String = "/@".to_owned();
                out.push_str(text::string_of(text::trim_start_char(chars.as_slice(), '@')).as_str());
                Some(out)
            },
            None => None,
        }
    }
}

/// Appends the text that a string holds.
fn append_str(out: &mut Vec<char>, s: &str)
    ensures
        final(out)@ == old(out)@ + s@,
{
    text::append(out, text::chars_of(s).as_slice());
}

/// A text as the value of an attribute between the given quotes.
fn make_attribute_text(s: &str, quote: char) -> (r: String)
    ensures
        r@ == attribute_text(s@, quote),
{
    let plain: String = escape_html_attr(s);
    if quote != '\'' {
        return plain;
    }
    let chars: Vec<char> = text::chars_of(plain.as_str());
    let mut out: String = String::new();
    let mut i: usize = 0;
    while i < chars.len()
        invariant
            i <= chars@.len(),
            out@ == single_quoted(chars@.take(i as int)),
        decreases chars@.len() - i,
    {
        proof {
            assert(chars@.take(i + 1).drop_last() =~= chars@.take(i as int));
            assert(chars@.take(i + 1).last() == chars@[i as int]);
        }
        let ghost before = out@;
        if chars[i] == '\'' {
            out.push_str("&#39;");
        } else {
            out.push(chars[i]);
            assert(out@ =~= before + seq![chars@[i as int]]);
        }
        i += 1;
    }
    assert(chars@.take(i as int) =~= chars@);
    out
}

/// A tag that opens a link has a name.
proof fn lemma_anchor_name(tag: Seq<char>)
    requires
        opens_anchor(tag),
    ensures
        0 < behind_anchor_name(tag) <= tag.len(),
{
    reveal_strlit("a");
    reveal_strlit("a ");
    reveal_strlit("a\t");
    text::lemma_trimmed_front(tag, text::white());
    let t = text::trimmed_start(tag);
    assert(text::ascii_lower(t).len() == t.len());
}

/// Appends the tag of a link, pointed at the path.
fn append_retargeted(out: &mut Vec<char>, tag: &[char], path: &str)
    requires
        opens_anchor(tag@),
    ensures
        final(out)@ == old(out)@ + retargeted(tag@, path@),
{
    proof {
        reveal_strlit("href");
        lemma_anchor_name(tag@);
    }
    match find_attr(tag, "href") {
        Some(v) => {
            let value: String = make_attribute_text(path, tag[v.0 - 1]);
            text::append(out, slice_subrange(tag, 0, v.0));
            append_str(out, value.as_str());
            text::append(out, slice_subrange(tag, v.1, tag.len()));
        },
        None => {
            let k: usize = tag.len() - text::trim_start(tag).len() + 1;
            text::append(out, slice_subrange(tag, 0, k));
            append_str(out, " href=\"");
            append_str(out, escape_html_attr(path).as_str());
            append_str(out, "\"");
            text::append(out, slice_subrange(tag, k, tag.len()));
        },
    }
    assert(out@ =~= old(out)@ + retargeted(tag@, path@));
}

/// The fragment with its links to hashtags and mentioned users pointed inside the
/// application, and all else unchanged.
pub fn rewrite_mention_hashtag_hrefs(html: &str, tags: &[Json], sender_domain: &str) -> (r: String)
    ensures
        r@ == rewritten_from(html@, 0, json::models(tags@), sender_domain@),
{
    let chars: Vec<char> = text::chars_of(html);
    let s: &[char] = chars.as_slice();
    let low: Vec<char> = text::lower(s);
    let ghost ts = json::models(tags@);
    let ghost all = rewritten_from(html@, 0, ts, sender_domain@);
    let mut out: Vec<char> = Vec::new();
    let mut i: usize = 0;
    assert(out@ + all =~= all);
    proof {
        reveal_strlit("");
    }
    while i < s.len()
        invariant
            i <= s@.len(),
            s@ == html@,
            low@ == text::ascii_lower(s@),
            ts == json::models(tags@),
            ""@ == Seq::<char>::empty(),
            out@ + rewritten_from(s@, i as int, ts, sender_domain@) == all,
        decreases s@.len() - i,
    {
        let ghost before = out@;
        if s[i] != '<' {
            out.push(s[i]);
            proof {
                let rest = rewritten_from(s@, i + 1, ts, sender_domain@);
                assert(before + (seq![s@[i as int]] + rest) =~= out@ + rest);
            }
            i += 1;
        } else {
            let end: usize = text::next_char(s, '>', i + 1);
            let tag: &[char] = slice_subrange(s, i + 1, end);
            let inside: usize = find_behind_tag(s, i + 1);
            let tag_inner: String = text::string_of(tag);
            if !is_anchor_open(tag) {
                text::append(&mut out, slice_subrange(s, i, inside));
                proof {
                    let rest = rewritten_from(s@, inside as int, ts, sender_domain@);
                    let kept = s@.subrange(i as int, inside as int);
                    assert(before + (kept + rest) =~= out@ + rest);
                }
                i = inside;
            } else {
                let href: String = match extract_href_attr(tag_inner.as_str()) {
                    Some(h) => h,
                    None => "".to_owned(),
                };
                assert(href@ =~= text_or_empty(href_attribute(tag@)));
                let close: usize = find_anchor_end(low.as_slice(), inside, Ghost(s@));
                if close >= s.len() {
                    text::append(&mut out, slice_subrange(s, i, s.len()));
                    i = s.len();
                    assert(out@ + Seq::<char>::empty() =~= out@);
                } else {
                    let inner: String = read_anchor_text(slice_subrange(s, inside, close));
                    let behind: usize = find_behind_tag(s, close + 1);
                    match read_internal_path(
                        tag_inner.as_str(),
                        href.as_str(),
                        inner.as_str(),
                        tags,
                        sender_domain,
                    ) {
                        Some(path) => {
                            out.push('<');
                            append_retargeted(&mut out, tag, path.as_str());
                            text::append(&mut out, slice_subrange(s, inside - 1, behind));
                            proof {
                                let new = seq!['<'] + retargeted(tag@, path@) + s@.subrange(
                                    inside - 1,
                                    behind as int,
                                );
                                let rest = rewritten_from(s@, behind as int, ts, sender_domain@);
                                assert(out@ =~= before + new);
                                assert(before + (new + rest) =~= out@ + rest);
                            }
                        },
                        None => {
                            text::append(&mut out, slice_subrange(s, i, behind));
                            proof {
                                let new = s@.subrange(i as int, behind as int);
                                let rest = rewritten_from(s@, behind as int, ts, sender_domain@);
                                assert(before + (new + rest) =~= out@ + rest);
                            }
                        },
                    }
                    i = behind;
                }
            }
        }
    }
    assert(out@ + Seq::<char>::empty() =~= out@);
    text::string_of(out.as_slice())
}

/// The last `<br` of a fragment, in any case.
pub open spec fn last_break(s: Seq<char>) -> Option<int> {
    text::rfind(text::ascii_lower(s), "<br"@)
}

/// The fragment before its last line break; nothing where it has none.
pub open spec fn before_last_line(s: Seq<char>) -> Seq<char> {
    match last_break(s) {
        Some(k) => s.subrange(0, k),
        None => seq![],
    }
}

/// The last line of a fragment: what stands behind its last line break.
pub open spec fn last_html_line(s: Seq<char>) -> Seq<char> {
    match last_break(s) {
        Some(k) => {
            let end: int = text::next_index(s, text::just('>'), k);
            if end < s.len() {
                s.subrange(end + 1, s.len() as int)
            } else {
                s.subrange(k, s.len() as int)
            }
        },
        None => s,
    }
}

/// A line that stands in for a quote: `RE:` or `QT:`, and the quoted note's URI.
pub open spec fn is_html_quote_line(line: Seq<char>, quote_uri: Seq<char>) -> bool {
    let t = anchor_text(line);
    (text::starts_with(t, "RE:"@) || text::starts_with(t, "QT:"@)) && text::contains_text(
        t,
        quote_uri,
    )
}

/// The fragment without a last line that stands in for the quote.
pub open spec fn without_html_quote_line(html: Seq<char>, quote_uri: Seq<char>) -> Seq<char> {
    let s = text::trimmed_end(html);
    if is_html_quote_line(last_html_line(s), quote_uri) {
        text::trimmed_end(before_last_line(s))
    } else {
        html
    }
}

/// The fragment without a last line that stands in for the quote.
pub fn strip_quote_fallback_line_html(html: &str, quote_uri: &str) -> (r: String)
    ensures
        r@ == without_html_quote_line(html@, quote_uri@),
{
    let chars: Vec<char> = text::chars_of(html);
    let s: &[char] = text::trim_end(chars.as_slice());
    let low: Vec<char> = text::lower(s);
    let mark: Vec<char> = text::chars_of("<br");
    let mut keep: usize = 0;
    let mut start: usize = 0;
    match text::find_last(low.as_slice(), mark.as_slice()) {
        Some(k) => {
            keep = k;
            let end: usize = text::next_char(s, '>', k);
            start = if end < s.len() {
                end + 1
            } else {
                k
            };
        },
        None => {
            assert(s@.subrange(0, s@.len() as int) =~= s@);
        },
    }
    assert(s@.subrange(0, keep as int) =~= before_last_line(s@));
    let line: String = read_anchor_text(slice_subrange(s, start, s.len()));
    let line_chars: Vec<char> = text::chars_of(line.as_str());
    let uri: Vec<char> = text::chars_of(quote_uri);
    let is_fallback: bool = (text::has_prefix(line_chars.as_slice(), "RE:") || text::has_prefix(
        line_chars.as_slice(),
        "QT:",
    )) && text::has_text(line_chars.as_slice(), uri.as_slice());
    if is_fallback {
        text::string_of(text::trim_end(slice_subrange(s, 0, keep)))
    } else {
        html.to_owned()
    }
}

/// What sanitised content may hold: elements that carry structure, targets of
/// links, the attributes of images, `style`, and addresses over HTTP.
pub open spec fn content_policy() -> outside::HtmlPolicyModel {
    outside::HtmlPolicyModel {
        elements: seq![
            "br"@,
            "p"@,
            "div"@,
            "a"@,
            "b"@,
            "i"@,
            "s"@,
            "code"@,
            "pre"@,
            "blockquote"@,
            "ruby"@,
            "rt"@,
            "rp"@,
            "h1"@,
            "h2"@,
            "figure"@,
            "img"@,
            "ul"@,
            "ol"@,
            "li"@,
            "small"@,
            "center"@,
        ],
        element_attributes: seq![
            outside::ElementAttributesModel { element: "a"@, attributes: seq!["href"@] },
            outside::ElementAttributesModel {
                element: "img"@,
                attributes: seq!["src"@, "alt"@, "width"@, "height"@],
            },
        ],
        generic_attributes: seq!["style"@],
        url_schemes: seq!["http"@, "https"@],
        link_rel: None,
    }
}

/// What sanitised content may hold.
fn make_content_policy() -> (r: outside::HtmlPolicy)
    ensures
        r@ == content_policy(),
{
    let r: outside::HtmlPolicy = outside::HtmlPolicy {
        elements: vec![
            "br",
            "p",
            "div",
            "a",
            "b",
            "i",
            "s",
            "code",
            "pre",
            "blockquote",
            "ruby",
            "rt",
            "rp",
            "h1",
            "h2",
            "figure",
            "img",
            "ul",
            "ol",
            "li",
            "small",
            "center",
        ],
        element_attributes: vec![
            outside::ElementAttributes { element: "a", attributes: vec!["href"] },
            outside::ElementAttributes {
                element: "img",
                attributes: vec!["src", "alt", "width", "height"],
            },
        ],
        generic_attributes: vec!["style"],
        url_schemes: vec!["http", "https"],
        link_rel: None,
    };
    proof {
        let p = content_policy();
        assert(outside::strs(r.elements@) =~= p.elements);
        assert(outside::strs(r.element_attributes@[0].attributes@)
            =~= p.element_attributes[0].attributes);
        assert(outside::strs(r.element_attributes@[1].attributes@)
            =~= p.element_attributes[1].attributes);
        assert(outside::attribute_models(r.element_attributes@) =~= p.element_attributes);
        assert(outside::strs(r.generic_attributes@) =~= p.generic_attributes);
        assert(outside::strs(r.url_schemes@) =~= p.url_schemes);
    }
    r
}

/// The note's HTML content with its links rewritten, sanitised.
pub open spec fn sanitized_content(html: Seq<char>, tags: Seq<JsonModel>, sender_domain: Seq<char>) -> Seq<
    char,
> {
    outside::sanitized_html(content_policy(), rewritten_from(html, 0, tags, sender_domain))
}

/// The note's HTML content with its links rewritten, sanitised.
pub fn sanitize_ap_content_html(content_html: &str, tags: &[Json], sender_domain: &str) -> (r:
    String)
    ensures
        r@ == sanitized_content(content_html@, json::models(tags@), sender_domain@),
{
    let rewritten: String = rewrite_mention_hashtag_hrefs(content_html, tags, sender_domain);
    let policy: outside::HtmlPolicy = make_content_policy();
    proof {
        lemma_content_policy_consistent();
    }
    outside::sanitize_html(&policy, rewritten.as_str())
}

/// No element that the sanitiser drops with its content is allowed.
pub proof fn lemma_content_policy_consistent()
    ensures
        content_policy().consistent(),
{
    reveal_strlit("script");
    reveal_strlit("style");
    reveal_strlit("br");
    reveal_strlit("p");
    reveal_strlit("div");
    reveal_strlit("a");
    reveal_strlit("b");
    reveal_strlit("i");
    reveal_strlit("s");
    reveal_strlit("code");
    reveal_strlit("pre");
    reveal_strlit("blockquote");
    reveal_strlit("ruby");
    reveal_strlit("rt");
    reveal_strlit("rp");
    reveal_strlit("h1");
    reveal_strlit("h2");
    reveal_strlit("figure");
    reveal_strlit("img");
    reveal_strlit("ul");
    reveal_strlit("ol");
    reveal_strlit("li");
    reveal_strlit("small");
    reveal_strlit("center");
    let p = content_policy();
    assert(p.elements.len() == 22);
    assert("script"@.len() == 6 && "style"@.len() == 5);
    assert("figure"@[0] != "script"@[0]);
    assert("center"@[0] != "script"@[0]);
    assert("small"@[1] != "style"@[1]);
    assert forall|i: int| 0 <= i < p.elements.len() implies p.elements[i] != "script"@
        && p.elements[i] != "style"@ by {
        if i == 0 {
            assert(p.elements[0] == "br"@ && "br"@.len() == 2);
        } else if i == 1 {
            assert(p.elements[1] == "p"@ && "p"@.len() == 1);
        } else if i == 2 {
            assert(p.elements[2] == "div"@ && "div"@.len() == 3);
        } else if i == 3 {
            assert(p.elements[3] == "a"@ && "a"@.len() == 1);
        } else if i == 4 {
            assert(p.elements[4] == "b"@ && "b"@.len() == 1);
        } else if i == 5 {
            assert(p.elements[5] == "i"@ && "i"@.len() == 1);
        } else if i == 6 {
            assert(p.elements[6] == "s"@ && "s"@.len() == 1);
        } else if i == 7 {
            assert(p.elements[7] == "code"@ && "code"@.len() == 4);
        } else if i == 8 {
            assert(p.elements[8] == "pre"@ && "pre"@.len() == 3);
        } else if i == 9 {
            assert(p.elements[9] == "blockquote"@ && "blockquote"@.len() == 10);
        } else if i == 10 {
            assert(p.elements[10] == "ruby"@ && "ruby"@.len() == 4);
        } else if i == 11 {
            assert(p.elements[11] == "rt"@ && "rt"@.len() == 2);
        } else if i == 12 {
            assert(p.elements[12] == "rp"@ && "rp"@.len() == 2);
        } else if i == 13 {
            assert(p.elements[13] == "h1"@ && "h1"@.len() == 2);
        } else if i == 14 {
            assert(p.elements[14] == "h2"@ && "h2"@.len() == 2);
        } else if i == 15 {
            assert(p.elements[15] == "figure"@ && "figure"@.len() == 6);
        } else if i == 16 {
            assert(p.elements[16] == "img"@ && "img"@.len() == 3);
        } else if i == 17 {
            assert(p.elements[17] == "ul"@ && "ul"@.len() == 2);
        } else if i == 18 {
            assert(p.elements[18] == "ol"@ && "ol"@.len() == 2);
        } else if i == 19 {
            assert(p.elements[19] == "li"@ && "li"@.len() == 2);
        } else if i == 20 {
            assert(p.elements[20] == "small"@ && "small"@.len() == 5);
        } else if i == 21 {
            assert(p.elements[21] == "center"@ && "center"@.len() == 6);
        }
    }
}

// ---------------------------------------------------------------------------
// Laws.
// ---------------------------------------------------------------------------
proof fn lemma_no_tags(s: Seq<char>, i: int, gap: Seq<char>)
    requires
        0 <= i <= s.len(),
        !s.contains('<'),
        !s.contains('>'),
    ensures
        without_tags(s, i, false, gap) == s.subrange(i, s.len() as int),
    decreases s.len() - i,
{
    let n: int = s.len() as int;
    if i < n {
        assert(s.contains(s[i]));
        lemma_no_tags(s, i + 1, gap);
        assert(seq![s[i]] + s.subrange(i + 1, n) =~= s.subrange(i, n));
    } else {
        assert(s.subrange(i, n) =~= seq![]);
    }
}

/// The plain text of an HTML fragment is its words, set apart by single spaces,
/// with no other white space. A plain text that holds no `<`, `>` or `&` is its
/// own plain text.
pub proof fn law_stripped_html_is_single_spaced(html: Seq<char>)
    ensures
        text::single_spaced(stripped_html(html)),
        stripped_html(html) == text::join(text::words(stripped_html(html)), seq![' ']),
        !stripped_html(html).contains('<') && !stripped_html(html).contains('>')
            && !stripped_html(html).contains('&') ==> stripped_html(stripped_html(html))
            == stripped_html(html),
{
    let s = outside::entities_decoded(without_tags(html, 0, false, seq![' ']));
    let r = stripped_html(html);
    text::lemma_words(s);
    text::lemma_joined_words(text::words(s));
    spacing::lemma_words_of_joined(text::words(s));
    if !r.contains('<') && !r.contains('>') && !r.contains('&') {
        lemma_no_tags(r, 0, seq![' ']);
        assert(r.subrange(0, r.len() as int) =~= r);
    }
}

/// No three line breaks stand one behind the other.
pub open spec fn no_long_gap(s: Seq<char>) -> bool {
    forall|i: int|
        0 <= i < s.len() - 2 ==> !(#[trigger] s[i] == '\n' && s[i + 1] == '\n' && s[i + 2] == '\n')
}

proof fn lemma_short_breaks(s: Seq<char>, i: int, run: nat)
    requires
        0 <= i <= s.len(),
    ensures
        no_long_gap(short_breaks(s, i, run)),
    decreases s.len() - i,
{
    if i < s.len() {
        if s[i] == '\n' {
            lemma_short_breaks(s, i + 1, run + 1);
        } else {
            lemma_short_breaks(s, i + 1, 0);
            let gap = breaks(run);
            let rest = short_breaks(s, i + 1, 0);
            let r = short_breaks(s, i, run);
            assert(r == gap + seq![s[i]] + rest);
            assert(r[gap.len() as int] == s[i]);
            assert forall|k: int| 0 <= k < r.len() - 2 implies !(#[trigger] r[k] == '\n' && r[k + 1]
                == '\n' && r[k + 2] == '\n') by {
                if k > gap.len() {
                    let m: int = k - gap.len() - 1;
                    assert(r[k] == rest[m]);
                    assert(r[k + 1] == rest[m + 1]);
                    assert(r[k + 2] == rest[m + 2]);
                }
            }
        }
    }
}

/// A normalised text has at most one empty line between two others, and no line
/// break at either end.
pub proof fn law_normalized_breaks(s: Seq<char>)
    ensures
        no_long_gap(normalized(s)),
        normalized(s).len() > 0 ==> normalized(s)[0] != '\n' && normalized(s).last() != '\n',
{
    let lines = text::split(s, '\n').map_values(|l: Seq<char>| squeezed(l));
    let joined = text::join(lines, seq!['\n']);
    let short = short_breaks(joined, 0, 0);
    lemma_short_breaks(joined, 0, 0);
    text::lemma_trimmed_front(short, text::just('\n'));
    let front = text::without_leading(short, '\n');
    text::lemma_trimmed_back(front, text::just('\n'));
    let r = normalized(s);
    let k: int = short.len() - front.len();
    assert forall|i: int| 0 <= i < r.len() - 2 implies !(#[trigger] r[i] == '\n' && r[i + 1] == '\n'
        && r[i + 2] == '\n') by {
        assert(r[i] == short[i + k]);
        assert(r[i + 1] == short[i + k + 1]);
        assert(r[i + 2] == short[i + k + 2]);
    }
}

/// White space is line breaks, and single spaces between other characters.
pub open spec fn evenly_spaced(s: Seq<char>) -> bool {
    forall|i: int|
        0 <= i < s.len() && text::is_white_space(#[trigger] s[i]) && s[i] != '\n' ==> s[i] == ' '
            && 0 < i < s.len() - 1 && !text::is_white_space(s[i - 1]) && !text::is_white_space(
            s[i + 1],
        )
}

proof fn lemma_joined_lines(lines: Seq<Seq<char>>)
    requires
        forall|k: int| 0 <= k < lines.len() ==> text::single_spaced(#[trigger] lines[k]),
    ensures
        evenly_spaced(text::join(lines, seq!['\n'])),
    decreases lines.len(),
{
    let r = text::join(lines, seq!['\n']);
    if lines.len() == 1 {
        assert(text::single_spaced(lines[0]));
    } else if lines.len() > 1 {
        let front = lines.drop_last();
        assert forall|k: int| 0 <= k < front.len() implies text::single_spaced(
            #[trigger] front[k],
        ) by {
            assert(front[k] == lines[k]);
        }
        lemma_joined_lines(front);
        let a = text::join(front, seq!['\n']);
        let last = lines[lines.len() - 1];
        let n: int = a.len() as int;
        assert(text::single_spaced(last));
        assert forall|i: int|
            0 <= i < r.len() && text::is_white_space(#[trigger] r[i]) && r[i] != '\n' implies r[i]
            == ' ' && 0 < i < r.len() - 1 && !text::is_white_space(r[i - 1])
            && !text::is_white_space(r[i + 1]) by {
            if i < n {
                assert(r[i] == a[i]);
                assert(r[i - 1] == a[i - 1]);
                assert(r[i + 1] == a[i + 1]);
            } else if i > n {
                let m: int = i - n - 1;
                assert(r[i] == last[m]);
                assert(r[i - 1] == last[m - 1]);
                assert(r[i + 1] == last[m + 1]);
            }
        }
    }
}

/// As `evenly_spaced`, for the end of a text: its first character may be a space
/// where `open` holds.
spec fn evenly_spaced_end(s: Seq<char>, open: bool) -> bool {
    forall|k: int|
        0 <= k < s.len() && text::is_white_space(#[trigger] s[k]) && s[k] != '\n' ==> s[k] == ' '
            && k < s.len() - 1 && !text::is_white_space(s[k + 1]) && (if k == 0 {
            open
        } else {
            !text::is_white_space(s[k - 1])
        })
}

proof fn lemma_short_breaks_spaced(s: Seq<char>, i: int, run: nat)
    requires
        0 <= i <= s.len(),
        evenly_spaced(s),
        run > 0 ==> i > 0 && s[i - 1] == '\n',
    ensures
        i < s.len() && s[i] != '\n' && run == 0 ==> short_breaks(s, i, run).len() > 0
            && short_breaks(s, i, run)[0] == s[i],
        evenly_spaced_end(short_breaks(s, i, run), run == 0 && i < s.len() && s[i] == ' '),
    decreases s.len() - i,
{
    if i < s.len() {
        if s[i] == '\n' {
            lemma_short_breaks_spaced(s, i + 1, run + 1);
        } else {
            lemma_short_breaks_spaced(s, i + 1, 0);
            let gap = breaks(run);
            let rest = short_breaks(s, i + 1, 0);
            let r = short_breaks(s, i, run);
            let g: int = gap.len() as int;
            assert(r == gap + seq![s[i]] + rest);
            assert(r[g] == s[i]);
            assert forall|k: int|
                0 <= k < r.len() && text::is_white_space(#[trigger] r[k]) && r[k]
                    != '\n' implies r[k] == ' ' && k < r.len() - 1 && !text::is_white_space(r[k + 1])
                && (if k == 0 {
                run == 0 && s[i] == ' '
            } else {
                !text::is_white_space(r[k - 1])
            }) by {
                if k < g {
                    assert(r[k] == gap[k]);
                } else if k == g {
                    assert(!text::is_white_space(s[i - 1]));
                    assert(!text::is_white_space(s[i + 1]));
                    assert(run == 0);
                    assert(r[k + 1] == rest[0]);
                } else {
                    let m: int = k - g - 1;
                    assert(r[k] == rest[m]);
                    assert(r[k + 1] == rest[m + 1]);
                    if m > 0 {
                        assert(r[k - 1] == rest[m - 1]);
                    } else {
                        assert(s[i + 1] == ' ');
                        assert(r[k - 1] == s[i + 1 - 1]);
                    }
                }
            }
        }
    }
}

proof fn lemma_normalized_spaced(s: Seq<char>)
    ensures
        evenly_spaced(normalized(s)),
{
    let lines = text::split(s, '\n').map_values(|l: Seq<char>| squeezed(l));
    assert forall|k: int| 0 <= k < lines.len() implies text::single_spaced(#[trigger] lines[k]) by {
        let ws = text::words(text::split(s, '\n')[k]);
        text::lemma_words(text::split(s, '\n')[k]);
        text::lemma_joined_words(ws);
    }
    lemma_joined_lines(lines);
    let joined = text::join(lines, seq!['\n']);
    let short = short_breaks(joined, 0, 0);
    lemma_short_breaks_spaced(joined, 0, 0);
    let f = text::just('\n');
    text::lemma_trimmed_front(short, f);
    spacing::lemma_trimmed_off_front(short, f);
    let front = text::without_leading(short, '\n');
    text::lemma_trimmed_back(front, f);
    spacing::lemma_trimmed_off_back(front, f);
    let r = normalized(s);
    let k: int = short.len() - front.len();
    assert forall|i: int|
        0 <= i < r.len() && text::is_white_space(#[trigger] r[i]) && r[i] != '\n' implies r[i] == ' '
        && 0 < i < r.len() - 1 && !text::is_white_space(r[i - 1]) && !text::is_white_space(
        r[i + 1],
    ) by {
        assert(r[i] == front[i]);
        assert(front[i] == short[i + k]);
        assert(i + k > 0);
        assert(!text::is_white_space(short[i + k - 1]));
        assert(!text::is_white_space(short[i + k + 1]));
        assert(front[i + 1] == short[i + k + 1]);
        if i == 0 {
            assert(f(short[k - 1]));
        }
        if i == r.len() - 1 {
            assert(f(front[i + 1]));
        }
        assert(r[i - 1] == short[i + k - 1]);
    }
}

proof fn lemma_lines_spaced(s: Seq<char>, i: int)
    requires
        evenly_spaced(s),
        0 <= i <= s.len(),
        i == 0 || s[i - 1] == '\n',
    ensures
        forall|k: int|
            0 <= k < text::pieces_from(s, text::just('\n'), i, seq![]).len()
                ==> text::single_spaced(
                #[trigger] text::pieces_from(s, text::just('\n'), i, seq![])[k],
            ),
    decreases s.len() - i,
{
    let f = text::just('\n');
    let n: int = s.len() as int;
    text::lemma_pieces_step(s, f, i, seq![]);
    text::lemma_next_index(s, f, i);
    let end: int = text::next_index(s, f, i);
    let first = Seq::<char>::empty() + s.subrange(i, end);
    let all = text::pieces_from(s, f, i, seq![]);
    assert(text::single_spaced(first)) by {
        assert forall|j: int| 0 <= j < first.len() && text::is_white_space(#[trigger] first[j]) implies
            first[j] == ' ' && 0 < j < first.len() - 1 && !text::is_white_space(first[j - 1])
            && !text::is_white_space(first[j + 1]) by {
            assert(first[j] == s[i + j]);
            assert(!f(s[i + j]));
            assert(!text::is_white_space(s[i + j - 1]));
            assert(!text::is_white_space(s[i + j + 1]));
            assert(j > 0);
            if j == first.len() - 1 {
                assert(f(s[end]));
            }
            assert(first[j - 1] == s[i + j - 1]);
            assert(first[j + 1] == s[i + j + 1]);
        }
    }
    if end < n {
        assert(s[end] == '\n');
        lemma_lines_spaced(s, end + 1);
        let rest = text::pieces_from(s, f, end + 1, seq![]);
        assert forall|k: int| 0 <= k < all.len() implies text::single_spaced(#[trigger] all[k]) by {
            if k > 0 {
                assert(all[k] == rest[k - 1]);
            } else {
                assert(all[0] == first);
            }
        }
    } else {
        assert(all =~= seq![first]);
    }
}

/// Every line of a normalised text is its words, set apart by single spaces.
pub proof fn law_normalized_lines(s: Seq<char>)
    ensures
        forall|k: int|
            0 <= k < text::split(normalized(s), '\n').len() ==> squeezed(
                #[trigger] text::split(normalized(s), '\n')[k],
            ) == text::split(normalized(s), '\n')[k],
{
    let r = normalized(s);
    lemma_normalized_spaced(s);
    lemma_lines_spaced(r, 0);
    let lines = text::split(r, '\n');
    assert forall|k: int| 0 <= k < lines.len() implies squeezed(#[trigger] lines[k]) == lines[k] by {
        assert(text::single_spaced(lines[k]));
        spacing::lemma_single_spaced_words(lines[k]);
    }
}

proof fn lemma_visible_short_breaks(s: Seq<char>, i: int, run: nat)
    requires
        0 <= i <= s.len(),
    ensures
        spacing::visible(short_breaks(s, i, run)) == spacing::visible(
            s.subrange(i, s.len() as int),
        ),
    decreases s.len() - i,
{
    let n: int = s.len() as int;
    if i >= n {
        assert(s.subrange(i, n) =~= short_breaks(s, i, run));
    } else {
        let tail = s.subrange(i + 1, n);
        assert(seq![s[i]] + tail =~= s.subrange(i, n));
        spacing::lemma_visible_add(seq![s[i]], tail);
        if s[i] == '\n' {
            lemma_visible_short_breaks(s, i + 1, run + 1);
            spacing::lemma_visible_one('\n');
            assert(Seq::<char>::empty() + spacing::visible(tail) =~= spacing::visible(tail));
        } else {
            lemma_visible_short_breaks(s, i + 1, 0);
            let gap = breaks(run);
            let rest = short_breaks(s, i + 1, 0);
            assert(spacing::visible(gap) =~= seq![]) by {
                spacing::lemma_visible_none();
                spacing::lemma_visible_one('\n');
                spacing::lemma_visible_add(seq!['\n'], seq!['\n']);
                assert(seq!['\n'] + seq!['\n'] =~= seq!['\n', '\n']);
            }
            spacing::lemma_visible_add(gap, seq![s[i]]);
            spacing::lemma_visible_add(gap + seq![s[i]], rest);
            assert(Seq::<char>::empty() + spacing::visible(seq![s[i]]) =~= spacing::visible(
                seq![s[i]],
            ));
        }
    }
}

/// Normalising changes white space alone: all other characters stay, in their
/// order.
pub proof fn law_normalized_keeps_the_text(s: Seq<char>)
    ensures
        spacing::visible(normalized(s)) == spacing::visible(s),
{
    let raw = text::split(s, '\n');
    let lines = raw.map_values(|l: Seq<char>| squeezed(l));
    assert forall|k: int| 0 <= k < lines.len() implies spacing::visible(#[trigger] lines[k])
        == spacing::visible(raw[k]) by {
        spacing::lemma_visible_squeezed(raw[k]);
    }
    spacing::lemma_visible_lines(s, lines);
    let joined = text::join(lines, seq!['\n']);
    let short = short_breaks(joined, 0, 0);
    lemma_visible_short_breaks(joined, 0, 0);
    assert(joined.subrange(0, joined.len() as int) =~= joined);
    spacing::lemma_trimmed_off_front(short, text::just('\n'));
    spacing::lemma_trimmed_off_back(text::without_leading(short, '\n'), text::just('\n'));
}

proof fn lemma_short_breaks_keep(s: Seq<char>, i: int, run: nat)
    requires
        run <= i <= s.len(),
        no_long_gap(s),
        s.len() > 0 ==> s.last() != '\n',
        forall|k: int| i - run <= k < i ==> #[trigger] s[k] == '\n',
    ensures
        short_breaks(s, i, run) == s.subrange(i - run, s.len() as int),
    decreases s.len() - i,
{
    let n: int = s.len() as int;
    if run > 2 {
        assert(s[i - 3] == '\n' && s[i - 2] == '\n' && s[i - 1] == '\n');
        assert(i - 3 + 1 == i - 2 && i - 3 + 2 == i - 1);
    }
    if i >= n {
        if run > 0 {
            assert(s[i - 1] == '\n');
        }
        assert(s.subrange(i, n) =~= seq![]);
    } else if s[i] == '\n' {
        lemma_short_breaks_keep(s, i + 1, run + 1);
    } else {
        lemma_short_breaks_keep(s, i + 1, 0);
        assert(s.subrange(i - run, i) =~= breaks(run));
        assert(breaks(run) + seq![s[i]] + s.subrange(i + 1, n) =~= s.subrange(i - run, n));
    }
}

/// A normalised text is its own normalised form.
pub proof fn law_normalized_twice(s: Seq<char>)
    ensures
        normalized(normalized(s)) == normalized(s),
{
    let r = normalized(s);
    law_normalized_lines(s);
    law_normalized_breaks(s);
    let raw = text::split(r, '\n');
    let lines = raw.map_values(|l: Seq<char>| squeezed(l));
    assert(lines =~= raw);
    spacing::lemma_joined_pieces(r, text::just('\n'), '\n', 0, seq![]);
    assert(Seq::<char>::empty() + r.subrange(0, r.len() as int) =~= r);
    lemma_short_breaks_keep(r, 0, 0);
    assert(r.subrange(0, r.len() as int) =~= r);
}

/// No link of the fragment leads inside the application.
pub open spec fn has_no_inner_link(s: Seq<char>, tags: Seq<JsonModel>, sender_domain: Seq<char>) -> bool {
    forall|i: int|
        #![trigger s[i]]
        0 <= i < s.len() && s[i] == '<' && opens_anchor(tag_at(s, i + 1)) ==> {
            let inside = behind_tag(s, i + 1);
            let end = anchor_end(s, inside);
            end < s.len() ==> internal_path(
                tag_at(s, i + 1),
                anchor_text(s.subrange(inside, end)),
                tags,
                sender_domain,
            ) is None
        }
}

proof fn lemma_rewrite_keeps(s: Seq<char>, i: int, tags: Seq<JsonModel>, sender_domain: Seq<char>)
    requires
        0 <= i <= s.len(),
        has_no_inner_link(s, tags, sender_domain),
    ensures
        rewritten_from(s, i, tags, sender_domain) == s.subrange(i, s.len() as int),
    decreases s.len() - i,
{
    let n: int = s.len() as int;
    if i < n {
        if s[i] != '<' {
            lemma_rewrite_keeps(s, i + 1, tags, sender_domain);
            assert(seq![s[i]] + s.subrange(i + 1, n) =~= s.subrange(i, n));
        } else {
            let inside: int = behind_tag(s, i + 1);
            let behind: int = behind_anchor(s, inside);
            lemma_tag_bounds(s, i + 1);
            lemma_anchor_bounds(s, inside);
            lemma_rewrite_keeps(s, inside, tags, sender_domain);
            lemma_rewrite_keeps(s, behind, tags, sender_domain);
            assert(s.subrange(i, inside) + s.subrange(inside, n) =~= s.subrange(i, n));
            assert(s.subrange(i, behind) + s.subrange(behind, n) =~= s.subrange(i, n));
        }
    }
}

/// Rewriting leaves everything but links to hashtags and mentioned users as it
/// is: a fragment none of whose links leads inside the application comes back
/// unchanged, the attributes of its links included.
pub proof fn law_rewrite_keeps_other_html(
    html: Seq<char>,
    tags: Seq<JsonModel>,
    sender_domain: Seq<char>,
)
    requires
        has_no_inner_link(html, tags, sender_domain),
    ensures
        rewritten_from(html, 0, tags, sender_domain) == html,
{
    lemma_rewrite_keeps(html, 0, tags, sender_domain);
    assert(html.subrange(0, html.len() as int) =~= html);
}

/// Pointing a link inside the application changes the value of its `href` alone,
/// and the new value does not hold the quotes that it stands between.
pub proof fn law_only_the_target_changes(tag: Seq<char>, path: Seq<char>)
    requires
        attribute(tag, "href"@) is Some,
    ensures
        exists|a: int, b: int, value: Seq<char>|
            #![trigger tag.subrange(0, a) + value + tag.subrange(b, tag.len() as int)]
            {
                &&& 1 <= a <= b < tag.len()
                &&& attribute(tag, "href"@) == Some(tag.subrange(a, b))
                &&& retargeted(tag, path) == tag.subrange(0, a) + value + tag.subrange(
                    b,
                    tag.len() as int,
                )
                &&& tag[a - 1] == tag[b]
                &&& !value.contains(tag[b])
            },
{
    let v = attribute_span(tag, "href"@, 0)->0;
    lemma_attribute_span(tag, "href"@, 0);
    let value = attribute_text(path, tag[v.0 - 1]);
    law_escaped_is_safe(path);
    lemma_single_quoted(escaped(path));
    assert(retargeted(tag, path) == tag.subrange(0, v.0) + value + tag.subrange(
        v.1,
        tag.len() as int,
    ));
}

proof fn lemma_single_quoted(s: Seq<char>)
    ensures
        !single_quoted(s).contains('\''),
    decreases s.len(),
{
    if s.len() > 0 {
        reveal_strlit("&#39;");
        lemma_single_quoted(s.drop_last());
        let a = single_quoted(s.drop_last());
        let r = single_quoted(s);
        assert forall|i: int| 0 <= i < r.len() implies r[i] != '\'' by {
            if i < a.len() {
                assert(a.contains(a[i]));
            }
        }
    }
}

/// What is escaped can stand in a quoted attribute: it holds no quotation mark
/// and no angle bracket.
pub proof fn law_escaped_is_safe(s: Seq<char>)
    ensures
        !escaped(s).contains('"'),
        !escaped(s).contains('<'),
        !escaped(s).contains('>'),
    decreases s.len(),
{
    if s.len() > 0 {
        law_escaped_is_safe(s.drop_last());
        reveal_strlit("&amp;");
        reveal_strlit("&quot;");
        reveal_strlit("&lt;");
        reveal_strlit("&gt;");
        let a = escaped(s.drop_last());
        let b = escaped_char(s.last());
        let r = escaped(s);
        assert forall|i: int| 0 <= i < r.len() implies r[i] != '"' && r[i] != '<' && r[i] != '>' by {
            if i < a.len() {
                assert(a.contains(a[i]));
            } else {
                assert(r[i] == b[i - a.len()]);
            }
        }
    }
}

/// Dropping the line that stands in for a quote only ever cuts the fragment off
/// at some place.
pub proof fn law_html_quote_line_is_cut_off(html: Seq<char>, quote_uri: Seq<char>)
    ensures
        without_html_quote_line(html, quote_uri).is_prefix_of(html),
{
    let s = text::trimmed_end(html);
    text::lemma_trimmed_back(html, text::white());
    text::lemma_rfind_from(text::ascii_lower(s), "<br"@, s.len() as int);
    let before = before_last_line(s);
    assert(before.is_prefix_of(s));
    text::lemma_trimmed_back(before, text::white());
}

/// A link that is marked as a hashtag is never taken for a mention.
pub proof fn law_hashtag_is_no_mention(
    href: Seq<char>,
    inner: Seq<char>,
    is_mention_class: bool,
    tags: Seq<JsonModel>,
    sender_domain: Seq<char>,
)
    ensures
        mention_text(href, inner, is_mention_class, true, tags, sender_domain) is None,
{
}

// ---------------------------------------------------------------------------
// What the plain text holds of the HTML.
// ---------------------------------------------------------------------------
proof fn lemma_running_text(s: Seq<char>, i: int, end: int, buf: Seq<char>)
    requires
        0 <= i <= end <= s.len(),
        forall|k: int| i <= k < end ==> #[trigger] s[k] != '<',
    ensures
        segments_from(s, i, buf) == segments_from(s, end, buf + s.subrange(i, end)),
    decreases end - i,
{
    if i < end {
        lemma_running_text(s, i + 1, end, buf.push(s[i]));
        assert(buf.push(s[i]) + s.subrange(i + 1, end) =~= buf + s.subrange(i, end));
    } else {
        assert(buf + s.subrange(i, end) =~= buf);
    }
}

proof fn lemma_rendered_one(g: SegmentModel, tags: Seq<JsonModel>, sender_domain: Seq<char>)
    ensures
        rendered(seq![g], tags, sender_domain) == rendered_segment(g, tags, sender_domain),
{
    assert(seq![g].drop_last() =~= seq![]);
    assert(rendered(seq![g].drop_last(), tags, sender_domain) =~= seq![]);
    assert(Seq::<char>::empty() + rendered_segment(g, tags, sender_domain) =~= rendered_segment(
        g,
        tags,
        sender_domain,
    ));
}

proof fn lemma_rendered_add(
    a: Seq<SegmentModel>,
    b: Seq<SegmentModel>,
    tags: Seq<JsonModel>,
    sender_domain: Seq<char>,
)
    ensures
        rendered(a + b, tags, sender_domain) == rendered(a, tags, sender_domain) + rendered(
            b,
            tags,
            sender_domain,
        ),
    decreases b.len(),
{
    if b.len() == 0 {
        assert(a + b =~= a);
        assert(rendered(b, tags, sender_domain) =~= seq![]);
    } else {
        assert((a + b).drop_last() =~= a + b.drop_last());
        assert((a + b).last() == b.last());
        lemma_rendered_add(a, b.drop_last(), tags, sender_domain);
    }
}

proof fn lemma_rendered_text(t: Seq<char>, tags: Seq<JsonModel>, sender_domain: Seq<char>)
    ensures
        rendered(flushed(t), tags, sender_domain) == t,
{
    if t.len() > 0 {
        lemma_rendered_one(SegmentModel::Text(t), tags, sender_domain);
    } else {
        assert(rendered(flushed(t), tags, sender_domain) =~= t);
    }
}

/// Text without tags is kept: with its HTML entities decoded and its white space
/// normalised.
pub proof fn law_plain_text_is_kept(h: Seq<char>, tags: Seq<JsonModel>, sender_domain: Seq<char>)
    requires
        !h.contains('<'),
    ensures
        markdown_body(h, tags, sender_domain) == normalized(outside::entities_decoded(h)),
        !h.contains('&') ==> markdown_body(h, tags, sender_domain) == normalized(h),
{
    let n: int = h.len() as int;
    assert forall|k: int| 0 <= k < n implies #[trigger] h[k] != '<' by {
        assert(h.contains(h[k]));
    }
    lemma_running_text(h, 0, n, seq![]);
    assert(Seq::<char>::empty() + h.subrange(0, n) =~= h);
    lemma_rendered_text(h, tags, sender_domain);
}

proof fn lemma_tag_between(t: Seq<char>, g: Seq<char>, u: Seq<char>)
    requires
        !g.contains('>'),
    ensures
        ({
            let s = t + seq!['<'] + g + seq!['>'] + u;
            let n: int = t.len() as int;
            &&& s[n] == '<'
            &&& tag_at(s, n + 1) == g
            &&& behind_tag(s, n + 1) == n + 2 + g.len()
        }),
{
    let s = t + seq!['<'] + g + seq!['>'] + u;
    let n: int = t.len() as int;
    let f = text::just('>');
    text::lemma_next_index(s, f, n + 1);
    let k: int = text::next_index(s, f, n + 1);
    let end: int = n + 1 + g.len();
    assert(s[end] == '>');
    if k < end {
        assert(s[k] == g[k - n - 1]);
        assert(g.contains(g[k - n - 1]));
    }
    assert(k == end);
    assert(s.subrange(n + 1, end) =~= g);
}

/// A tag that opens no link leaves its break behind in the text, and nothing else.
pub proof fn law_tags_leave_breaks(
    t: Seq<char>,
    g: Seq<char>,
    u: Seq<char>,
    tags: Seq<JsonModel>,
    sender_domain: Seq<char>,
)
    requires
        !t.contains('<'),
        !g.contains('>'),
        !u.contains('<'),
        !opens_anchor(g),
    ensures
        markdown_body(t + seq!['<'] + g + seq!['>'] + u, tags, sender_domain) == normalized(
            outside::entities_decoded(t + tag_break(g) + u),
        ),
{
    let s = t + seq!['<'] + g + seq!['>'] + u;
    let n: int = t.len() as int;
    let b: int = n + 2 + g.len();
    let end: int = s.len() as int;
    lemma_tag_between(t, g, u);
    assert forall|k: int| 0 <= k < n implies #[trigger] s[k] != '<' by {
        assert(s[k] == t[k]);
        assert(t.contains(t[k]));
    }
    lemma_running_text(s, 0, n, seq![]);
    assert(Seq::<char>::empty() + s.subrange(0, n) =~= t);
    assert forall|k: int| b <= k < end implies #[trigger] s[k] != '<' by {
        assert(s[k] == u[k - b]);
        assert(u.contains(u[k - b]));
    }
    let buf = t + tag_break(g);
    lemma_running_text(s, b, end, buf);
    assert(s.subrange(b, end) =~= u);
    lemma_rendered_text(buf + u, tags, sender_domain);
}

proof fn lemma_trimmed_word(g: Seq<char>)
    requires
        forall|i: int| 0 <= i < g.len() ==> !text::is_white_space(#[trigger] g[i]),
    ensures
        text::trimmed(g) == g,
{
    if g.len() > 0 {
        assert(!text::is_white_space(g[0]));
        assert(!text::is_white_space(g[g.len() - 1]));
    }
}

/// `br` breaks the line, in any case and with a slash behind it; the end of a
/// paragraph or a division leaves an empty line.
pub proof fn law_line_breaks_are_known(g: Seq<char>)
    ensures
        text::ascii_lower(g) == "br"@ || text::ascii_lower(g) == "br/"@ ==> tag_break(g) == seq!['\n'],
        text::ascii_lower(g) == "/p"@ || text::ascii_lower(g) == "/div"@ ==> tag_break(g) == seq![
            '\n',
            '\n',
        ],
{
    reveal_strlit("br");
    reveal_strlit("br/");
    reveal_strlit("/p");
    reveal_strlit("/div");
    assert("br"@.len() == 2);
    assert("br/"@.len() == 3);
    assert("/p"@.len() == 2);
    assert("/div"@.len() == 4);
    assert("br"@[0] != "/p"@[0]);
    reveal_strlit("\n");
    reveal_strlit("\n\n");
    assert("\n"@ =~= seq!['\n']);
    assert("\n\n"@ =~= seq!['\n', '\n']);
    let low = text::ascii_lower(g);
    if low == "br"@ || low == "br/"@ || low == "/p"@ || low == "/div"@ {
        assert forall|i: int| 0 <= i < g.len() implies !text::is_white_space(#[trigger] g[i]) by {
            assert(low[i] == text::ascii_lower_char(g[i]));
        }
        lemma_trimmed_word(g);
        assert(low.last() == text::ascii_lower_char(g.last()));
        if low == "br/"@ {
            let b = g.drop_last();
            assert(low[1] == text::ascii_lower_char(g[1]));
            assert(low[2] == text::ascii_lower_char(g[2]));
            assert(g[2] == '/');
            assert(b.last() == g[1]);
            assert(low[1] == 'r');
            assert(text::without_trailing(b, '/') == b);
            assert(text::without_trailing(g, '/') == b);
            lemma_trimmed_word(b);
            assert(text::ascii_lower(b) =~= "br"@) by {
                assert(low[0] == text::ascii_lower_char(g[0]));
            }
        } else {
            assert(text::without_trailing(g, '/') == g);
        }
    }
}

/// Any other name of a tag, at its start or its end, leaves a single space.
pub proof fn law_other_tags_leave_a_space(name: Seq<char>, closing: bool)
    requires
        name.len() > 0,
        forall|i: int|
            0 <= i < name.len() ==> !text::is_white_space(#[trigger] name[i]) && name[i] != '/',
        text::ascii_lower(name) != "br"@,
        closing ==> text::ascii_lower(name) != "p"@ && text::ascii_lower(name) != "div"@,
    ensures
        tag_break(
            if closing {
                seq!['/'] + name
            } else {
                name
            },
        ) == seq![' '],
{
    reveal_strlit("br");
    reveal_strlit("/p");
    reveal_strlit("/div");
    reveal_strlit("p");
    reveal_strlit("div");
    reveal_strlit(" ");
    assert("br"@.len() == 2);
    assert("/p"@.len() == 2);
    assert("/div"@.len() == 4);
    assert("p"@.len() == 1);
    assert("div"@.len() == 3);
    assert(" "@.len() == 1);
    assert("br"@[0] != "/p"@[0]);
    assert("p"@[0] != " "@[0]);
    let g = if closing {
        seq!['/'] + name
    } else {
        name
    };
    assert(" "@ =~= seq![' ']);
    assert forall|i: int| 0 <= i < g.len() implies !text::is_white_space(#[trigger] g[i]) by {
        if closing && i > 0 {
            assert(g[i] == name[i - 1]);
        }
    }
    lemma_trimmed_word(g);
    assert(g.last() == name[name.len() - 1]);
    assert(text::without_trailing(g, '/') == g);
    let low = text::ascii_lower(g);
    let plain = text::ascii_lower(name);
    if closing {
        assert(low[0] == '/');
        assert(low =~= seq!['/'] + plain);
        if low == "/p"@ {
            assert(plain =~= "p"@) by {
                assert(plain[0] == low[1]);
            }
        }
        if low == "/div"@ {
            assert(plain =~= "div"@) by {
                assert(plain[0] == low[1] && plain[1] == low[2] && plain[2] == low[3]);
            }
        }
    } else {
        assert(low[0] == text::ascii_lower_char(name[0]));
        assert(name[0] != '/');
    }
}

proof fn lemma_anchor_between(t: Seq<char>, g: Seq<char>, x: Seq<char>, u: Seq<char>)
    requires
        !t.contains('<'),
        !g.contains('>'),
        !x.contains('<'),
    ensures
        ({
            let s = t + seq!['<'] + g + seq!['>'] + (x + "</a>"@ + u);
            let n = t.len() as int;
            let inside = n + 2 + g.len();
            &&& s.len() == inside + x.len() + 4 + u.len()
            &&& s[n] == '<'
            &&& tag_at(s, n + 1) == g
            &&& behind_tag(s, n + 1) == inside
            &&& anchor_end(s, inside) == inside + x.len()
            &&& behind_anchor(s, inside) == inside + x.len() + 4
            &&& s.subrange(inside, inside + x.len()) == x
        }),
{
    reveal_strlit("</a>");
    reveal_strlit("</a");
    assert("</a>"@.len() == 4);
    assert("</a"@.len() == 3);
    let more = x + "</a>"@ + u;
    let s = t + seq!['<'] + g + seq!['>'] + more;
    let n: int = t.len() as int;
    let inside: int = n + 2 + g.len();
    let e: int = inside + x.len();
    lemma_tag_between(t, g, more);
    let low = text::ascii_lower(s);
    let p = "</a"@;
    text::lemma_find_from(low, p, inside);
    assert(s[e] == '<' && s[e + 1] == '/' && s[e + 2] == 'a' && s[e + 3] == '>');
    assert(low[e] == '<' && low[e + 1] == '/' && low[e + 2] == 'a');
    assert(low.subrange(e, e + 3) =~= p);
    assert(text::occurs_at(low, p, e));
    match text::find_from(low, p, inside) {
        Some(k) => {
            assert(text::occurs_at(low, p, k));
            if k < e {
                assert(low.subrange(k, k + 3)[0] == '<');
                assert(low[k] == text::ascii_lower_char(s[k]));
                assert(s[k] == x[k - inside]);
                assert(x.contains(x[k - inside]));
            }
        },
        None => {},
    }
    assert(anchor_end(s, inside) == e);
    text::lemma_next_index(s, text::just('>'), e + 1);
    let q: int = text::next_index(s, text::just('>'), e + 1);
    assert(q == e + 3) by {
        if q < e + 3 {
            assert(q == e + 1 || q == e + 2);
        }
    }
    assert(s.subrange(inside, e) =~= x);
}

proof fn lemma_link_between(t: Seq<char>, g: Seq<char>, x: Seq<char>, u: Seq<char>)
    requires
        !t.contains('<'),
        !g.contains('>'),
        !x.contains('<'),
        !u.contains('<'),
        opens_anchor(g),
    ensures
        segments(t + seq!['<'] + g + seq!['>'] + (x + "</a>"@ + u)) == flushed(t) + anchor_segment(
            g,
            anchor_text(x),
        ) + flushed(seq![' '] + u),
{
    reveal_strlit("</a>");
    reveal_strlit("</a");
    assert("</a>"@.len() == 4);
    assert("</a"@.len() == 3);
    let more = x + "</a>"@ + u;
    let s = t + seq!['<'] + g + seq!['>'] + more;
    let n: int = t.len() as int;
    let inside: int = n + 2 + g.len();
    let e: int = inside + x.len();
    let end: int = s.len() as int;
    lemma_tag_between(t, g, more);
    assert forall|k: int| 0 <= k < n implies #[trigger] s[k] != '<' by {
        assert(s[k] == t[k]);
        assert(t.contains(t[k]));
    }
    lemma_running_text(s, 0, n, seq![]);
    assert(Seq::<char>::empty() + s.subrange(0, n) =~= t);
    lemma_anchor_between(t, g, x, u);
    assert forall|k: int| e + 4 <= k < end implies #[trigger] s[k] != '<' by {
        assert(s[k] == u[k - e - 4]);
        assert(u.contains(u[k - e - 4]));
    }
    lemma_running_text(s, e + 4, end, seq![' ']);
    assert(s.subrange(e + 4, end) =~= u);
}

/// A link stands in the text as its label and its address, in Markdown; one that
/// stands for a mention as the name of the account; and one without an address as its
/// label. Nothing of the text around it is lost.
pub proof fn law_links_are_kept(
    t: Seq<char>,
    g: Seq<char>,
    x: Seq<char>,
    u: Seq<char>,
    tags: Seq<JsonModel>,
    sender_domain: Seq<char>,
)
    requires
        !t.contains('<'),
        !g.contains('>'),
        !x.contains('<'),
        !x.contains('>'),
        !u.contains('<'),
        opens_anchor(g),
        outside::entities_decoded(text::trimmed(x)).len() > 0,
    ensures
        ({
            let label = outside::entities_decoded(text::trimmed(x));
            let shown = match href_attribute(g) {
                None => label,
                Some(h) => match mention_text(
                    h,
                    label,
                    marked_as_mention(g),
                    marked_as_hashtag(g),
                    tags,
                    sender_domain,
                ) {
                    Some(name) => name,
                    None => seq!['['] + label + seq![']', '('] + h + seq![')'],
                },
            };
            markdown_body(
                t + seq!['<'] + g + seq!['>'] + (x + "</a>"@ + u),
                tags,
                sender_domain,
            ) == normalized(outside::entities_decoded(t + shown + (seq![' '] + u)))
        }),
{
    lemma_link_between(t, g, x, u);
    lemma_no_tags(x, 0, seq![]);
    assert(x.subrange(0, x.len() as int) =~= x);
    let label = anchor_text(x);
    let a = flushed(t);
    let b = anchor_segment(g, label);
    let c = flushed(seq![' '] + u);
    lemma_rendered_add(a + b, c, tags, sender_domain);
    lemma_rendered_add(a, b, tags, sender_domain);
    lemma_rendered_text(t, tags, sender_domain);
    lemma_rendered_text(seq![' '] + u, tags, sender_domain);
    lemma_rendered_one(b[0], tags, sender_domain);
    assert(b =~= seq![b[0]]);
}

proof fn lemma_first_attribute(name: Seq<char>, q: char, v: Seq<char>, rest: Seq<char>)
    requires
        name.len() > 0,
        text::ascii_lower(name) == name,
        name[0] != 'a',
        name[0] != ' ',
        q == '"' || q == '\'',
        !v.contains(q),
    ensures
        ({
            let tag = seq!['a', ' '] + name + seq!['=', q] + v + seq![q] + rest;
            &&& attribute(tag, name) == Some(v)
            &&& attribute_span(tag, name, 0) == Some(
                ((name.len() + 4) as int, (name.len() + 4 + v.len()) as int),
            )
        }),
{
    let tag = seq!['a', ' '] + name + seq!['=', q] + v + seq![q] + rest;
    let low = text::ascii_lower(tag);
    let m: int = name.len() as int;
    text::lemma_find_from(low, name, 0);
    assert(low.subrange(2, 2 + m) =~= name) by {
        assert forall|i: int| 0 <= i < m implies low[2 + i] == name[i] by {
            assert(tag[2 + i] == name[i]);
            assert(text::ascii_lower(name)[i] == text::ascii_lower_char(name[i]));
        }
    }
    assert(text::occurs_at(low, name, 2));
    match text::find_from(low, name, 0) {
        Some(k) => {
            assert(text::occurs_at(low, name, k));
            assert(low.subrange(k, k + m)[0] == name[0]);
            assert(tag[0] == 'a' && tag[1] == ' ');
            assert(low[0] == 'a' && low[1] == ' ');
            assert(k == 2);
        },
        None => {},
    }
    assert(low[1] == ' ');
    let s = tag.subrange(2 + m, tag.len() as int);
    assert(s =~= seq!['=', q] + v + seq![q] + rest);
    assert(s[0] == '=');
    assert(text::trimmed_start(s) == s);
    let w = s.subrange(1, s.len() as int);
    assert(w =~= seq![q] + v + seq![q] + rest);
    assert(w[0] == q);
    assert(text::trimmed_start(w) == w);
    let r = w.subrange(1, w.len() as int);
    assert(r =~= v + seq![q] + rest);
    let f = text::just(q);
    text::lemma_next_index(r, f, 0);
    let e: int = text::next_index(r, f, 0);
    assert(r[v.len() as int] == q);
    if e < v.len() {
        assert(r[e] == v[e]);
        assert(v.contains(v[e]));
    }
    assert(e == v.len());
    assert(tag.subrange(2 + m + 2, 2 + m + 2 + v.len()) =~= v);
}

/// The address of a link is what stands between the quotes of its `href`, of either
/// kind.
pub proof fn law_address_of_a_link_is_read(q: char, v: Seq<char>, rest: Seq<char>)
    requires
        q == '"' || q == '\'',
        !v.contains(q),
    ensures
        href_attribute("a href="@ + seq![q] + v + seq![q] + rest) == Some(v),
{
    reveal_strlit("a href=");
    reveal_strlit("href");
    assert("a href="@.len() == 7);
    assert("href"@.len() == 4);
    assert(text::ascii_lower("href"@) =~= "href"@);
    lemma_first_attribute("href"@, q, v, rest);
    assert("a href="@ + seq![q] + v + seq![q] + rest =~= seq!['a', ' '] + "href"@ + seq!['=', q] + v
        + seq![q] + rest);
}

/// A link is marked as a mention by the class `mention` or `u-url`, and as a hashtag by
/// the class `hashtag`, in any case.
pub proof fn law_classes_mark_a_link(q: char, v: Seq<char>, rest: Seq<char>)
    requires
        q == '"' || q == '\'',
        !v.contains(q),
    ensures
        ({
            let tag = "a class="@ + seq![q] + v + seq![q] + rest;
            &&& marked_as_mention(tag) <==> has_word(v, "mention"@) || has_word(v, "u-url"@)
            &&& has_word(v, "hashtag"@) ==> marked_as_hashtag(tag)
            &&& !has_word(v, "hashtag"@) && attribute(tag, "rel"@) is None ==> !marked_as_hashtag(
                tag,
            )
        }),
{
    reveal_strlit("a class=");
    reveal_strlit("class");
    reveal_strlit("mention");
    reveal_strlit("u-url");
    reveal_strlit("hashtag");
    assert("a class="@.len() == 8);
    assert("class"@.len() == 5);
    assert("mention"@.len() == 7);
    assert("u-url"@.len() == 5);
    assert("hashtag"@.len() == 7);
    assert("class"@[0] != "u-url"@[0]);
    assert("mention"@[0] != "hashtag"@[0]);
    assert(text::ascii_lower("class"@) =~= "class"@);
    lemma_first_attribute("class"@, q, v, rest);
    let tag = "a class="@ + seq![q] + v + seq![q] + rest;
    assert(tag =~= seq!['a', ' '] + "class"@ + seq!['=', q] + v + seq![q] + rest);
    assert(text::ascii_lower("mention"@) =~= "mention"@);
    assert(text::ascii_lower("u-url"@) =~= "u-url"@);
    assert(text::ascii_lower("hashtag"@) =~= "hashtag"@);
    lemma_class_word(v, "mention"@);
    lemma_class_word(v, "u-url"@);
    lemma_class_word(v, "hashtag"@);
}

proof fn lemma_class_word(v: Seq<char>, w: Seq<char>)
    requires
        text::ascii_lower(w) == w,
    ensures
        text::words(v).map_values(|x: Seq<char>| text::ascii_lower(x)).contains(w) <==> has_word(
            v,
            w,
        ),
{
    let ws = text::words(v);
    let ls = ws.map_values(|x: Seq<char>| text::ascii_lower(x));
    if ls.contains(w) {
        let k: int = choose|k: int| 0 <= k < ls.len() && ls[k] == w;
        assert(text::same_ignoring_ascii_case(ws[k], w));
    }
    if has_word(v, w) {
        let k: int = choose|k: int|
            0 <= k < ws.len() && text::same_ignoring_ascii_case(#[trigger] ws[k], w);
        assert(ls[k] == w);
    }
}

/// A link whose `rel` is `tag` is a hashtag.
pub proof fn law_rel_tag_marks_a_hashtag(q: char, v: Seq<char>, rest: Seq<char>)
    requires
        q == '"' || q == '\'',
        !v.contains(q),
        has_word(v, "tag"@),
    ensures
        marked_as_hashtag("a rel="@ + seq![q] + v + seq![q] + rest),
{
    reveal_strlit("a rel=");
    reveal_strlit("rel");
    assert("a rel="@.len() == 6);
    assert("rel"@.len() == 3);
    assert(text::ascii_lower("rel"@) =~= "rel"@);
    lemma_first_attribute("rel"@, q, v, rest);
    assert("a rel="@ + seq![q] + v + seq![q] + rest =~= seq!['a', ' '] + "rel"@ + seq!['=', q] + v
        + seq![q] + rest);
}

/// The host of a web address stands between the scheme and the path.
pub proof fn law_host_is_read(scheme: Seq<char>, host: Seq<char>, rest: Seq<char>)
    requires
        !scheme.contains(':'),
        host.len() > 0,
        forall|i: int|
            0 <= i < host.len() ==> #[trigger] host[i] != '/' && host[i] != '?' && host[i] != '#'
                && host[i] != ':',
        !rest.contains(':'),
        rest.len() > 0 ==> rest[0] == '/' || rest[0] == '?' || rest[0] == '#',
    ensures
        host_of(scheme + "://"@ + host + rest) == Some(host),
{
    reveal_strlit("://");
    assert("://"@.len() == 3);
    let url = scheme + "://"@ + host + rest;
    let sep = "://"@;
    let n: int = scheme.len() as int;
    let tail = host + rest;
    text::lemma_find_from(url, sep, 0);
    assert(url.subrange(n, n + 3) =~= sep);
    assert(text::occurs_at(url, sep, n));
    match text::find_from(url, sep, 0) {
        Some(k) => {
            assert(text::occurs_at(url, sep, k));
            if k < n {
                assert(url.subrange(k, k + 3)[0] == ':');
                assert(url[k] == scheme[k]);
                assert(scheme.contains(scheme[k]));
            }
        },
        None => {},
    }
    assert(url.subrange(n + 3, url.len() as int) =~= tail);
    text::lemma_find_from(tail, sep, 0);
    if let Some(k) = text::find_from(tail, sep, 0) {
        assert(text::occurs_at(tail, sep, k));
        assert(tail.subrange(k, k + 3)[0] == ':');
        if k < host.len() {
            assert(tail[k] == host[k]);
        } else {
            assert(tail[k] == rest[k - host.len()]);
            assert(rest.contains(rest[k - host.len()]));
        }
        assert(false);
    }
    text::lemma_next_index(tail, host_end(), 0);
    let e: int = text::next_index(tail, host_end(), 0);
    if e < host.len() {
        assert(tail[e] == host[e]);
    }
    if rest.len() > 0 {
        assert(tail[host.len() as int] == rest[0]);
    }
    assert(e == host.len());
    assert(tail.subrange(0, e) =~= host);
}

/// A mention by its address is shown under the name that the tag gives: as it is,
/// where it has a host, and else with the host of the address.
pub proof fn law_mention_is_named_by_its_tag(
    t: JsonModel,
    more: Seq<JsonModel>,
    user: Seq<char>,
    domain: Seq<char>,
    href: Seq<char>,
    inner: Seq<char>,
    marked: bool,
    sender_domain: Seq<char>,
)
    requires
        t.text_at("type"@) == Some("Mention"@),
        t.text_at("href"@) == Some(href),
        user.len() > 0,
        user[0] != '@',
        !user.contains('@'),
    ensures
        ({
            let tags = seq![t] + more;
            let shown = mention_text(href, inner, marked, false, tags, sender_domain);
            let whole = seq!['@'] + user + seq!['@'] + domain;
            &&& t.text_at("name"@) == Some(whole) ==> shown == Some(whole)
            &&& t.text_at("name"@) == Some(seq!['@'] + user) ==> (host_of(href) matches Some(host)
                ==> shown == Some(seq!['@'] + user + seq!['@'] + host))
        }),
{
    let tags = seq![t] + more;
    assert(tags[0] == t);
    let whole = seq!['@'] + user + seq!['@'] + domain;
    let bare = user + seq!['@'] + domain;
    assert(whole.drop_first() =~= bare);
    assert(bare[0] == user[0]);
    assert(text::without_leading(whole, '@') == bare) by {
        assert(whole[0] == '@');
        assert(text::without_leading(bare, '@') == bare);
    }
    assert(bare[user.len() as int] == '@');
    let short = seq!['@'] + user;
    assert(short.drop_first() =~= user);
    assert(text::without_leading(short, '@') == user) by {
        assert(short[0] == '@');
        assert(text::without_leading(user, '@') == user);
    }
}

/// A link that is marked as a mention, and is known from no tag, is shown by its label:
/// with the sender's domain where it has no host.
pub proof fn law_unknown_mention_is_of_the_sender(
    href: Seq<char>,
    user: Seq<char>,
    domain: Seq<char>,
    sender_domain: Seq<char>,
)
    requires
        user.len() > 0,
        !user.contains('@'),
        sender_domain.len() > 0,
    ensures
        mention_text(href, seq!['@'] + user, true, false, seq![], sender_domain) == Some(
            seq!['@'] + user + seq!['@'] + sender_domain,
        ),
        mention_text(href, seq!['@'] + user + seq!['@'] + domain, true, false, seq![], sender_domain)
            == Some(seq!['@'] + user + seq!['@'] + domain),
        mention_text(href, seq!['@'] + user, false, false, seq![], sender_domain) is None,
{
    let whole = seq!['@'] + user + seq!['@'] + domain;
    let bare = user + seq!['@'] + domain;
    assert(user.contains(user[0]));
    assert(whole.drop_first() =~= bare);
    assert(bare[0] == user[0]);
    assert(text::without_leading(whole, '@') == bare) by {
        assert(whole[0] == '@');
        assert(text::without_leading(bare, '@') == bare);
    }
    assert(bare[user.len() as int] == '@');
    assert(seq!['@'] + bare =~= whole);
    let short = seq!['@'] + user;
    assert(short.drop_first() =~= user);
    assert(text::without_leading(short, '@') == user) by {
        assert(short[0] == '@');
        assert(text::without_leading(user, '@') == user);
    }
}

/// A link that stands for a mention leads to the page of the account that the text
/// names, and one that stands for a hashtag to the page of the tag in lower case.
pub proof fn law_inner_links_lead_to_what_is_shown(
    tag: Seq<char>,
    inner: Seq<char>,
    name: Seq<char>,
    tags: Seq<JsonModel>,
    sender_domain: Seq<char>,
)
    requires
        name.len() > 0,
        name[0] != '@',
        name[0] != '#',
    ensures
        !marked_as_hashtag(tag) && mention_text(
            text_or_empty(href_attribute(tag)),
            inner,
            marked_as_mention(tag),
            false,
            tags,
            sender_domain,
        ) == Some(seq!['@'] + name) ==> internal_path(tag, inner, tags, sender_domain) == Some(
            seq!['/', '@'] + name,
        ),
        marked_as_hashtag(tag) ==> internal_path(tag, seq!['#'] + name, tags, sender_domain)
            == Some(
            "/tags/"@ + outside::percent_encoded(vstd::utf8::encode_utf8(text::lowercase(name))),
        ),
{
    reveal_strlit("/@");
    assert("/@"@.len() == 2);
    let m = seq!['@'] + name;
    assert(m.drop_first() =~= name);
    assert(m[0] == '@');
    assert(text::without_leading(name, '@') == name);
    assert(text::without_leading(m, '@') == name);
    assert("/@"@ + name =~= seq!['/', '@'] + name);
    let h = seq!['#'] + name;
    assert(h.drop_first() =~= name);
    assert(h[0] == '#');
    assert(text::without_leading(name, '#') == name);
    assert(text::without_leading(h, '#') == name);
}

proof fn lemma_escaped_add(a: Seq<char>, b: Seq<char>)
    ensures
        escaped(a + b) == escaped(a) + escaped(b),
    decreases b.len(),
{
    if b.len() == 0 {
        assert(a + b =~= a);
        assert(escaped(b) =~= seq![]);
        assert(escaped(a) + escaped(b) =~= escaped(a));
    } else {
        assert((a + b).drop_last() =~= a + b.drop_last());
        assert((a + b).last() == b.last());
        lemma_escaped_add(a, b.drop_last());
        assert(escaped(a) + escaped(b.drop_last()) + escaped_char(b.last()) =~= escaped(a) + (
        escaped(b.drop_last()) + escaped_char(b.last())));
    }
}

/// Escaping goes character by character: the four characters that mean something in
/// HTML become their entities, and all others stay.
pub proof fn law_escaping_goes_by_character(a: Seq<char>, c: char, b: Seq<char>)
    ensures
        ({
            let e = escaped(a + seq![c] + b);
            &&& c == '&' ==> e == escaped(a) + "&amp;"@ + escaped(b)
            &&& c == '<' ==> e == escaped(a) + "&lt;"@ + escaped(b)
            &&& c == '>' ==> e == escaped(a) + "&gt;"@ + escaped(b)
            &&& c == '"' ==> e == escaped(a) + "&quot;"@ + escaped(b)
            &&& c != '&' && c != '<' && c != '>' && c != '"' ==> e == escaped(a) + seq![c]
                + escaped(b)
        }),
{
    lemma_escaped_add(a + seq![c], b);
    lemma_escaped_add(a, seq![c]);
    assert(seq![c].drop_last() =~= seq![]);
    assert(escaped(seq![c].drop_last()) =~= seq![]);
    assert(escaped(seq![c]) =~= escaped_char(c));
}

/// Of the styles only an alignment stays; any other attribute stays as it is.
pub proof fn law_only_alignment_is_styled(attribute: Seq<char>, value: Seq<char>, word: Seq<char>)
    ensures
        attribute != "style"@ ==> kept_attribute(attribute, value) == Some(value),
        kept_attribute("style"@, value) is Some ==> text::starts_with(
            text::trimmed(text::without_trailing(text::trimmed(value), ';')),
            "text-align"@,
        ),
        kept_attribute("style"@, value) matches Some(v) ==> v == text::trimmed(value),
        word == "left"@ || word == "right"@ || word == "center"@ || word == "justify"@
            ==> kept_attribute("style"@, "text-align:"@ + word) == Some("text-align:"@ + word)
            && kept_attribute("style"@, "text-align: "@ + word) == Some("text-align: "@ + word),
{
    if word == "left"@ || word == "right"@ || word == "center"@ || word == "justify"@ {
        reveal_strlit("left");
        reveal_strlit("right");
        reveal_strlit("center");
        reveal_strlit("justify");
        assert("left"@.len() == 4);
        assert("right"@.len() == 5);
        assert("center"@.len() == 6);
        assert("justify"@.len() == 7);
        lemma_alignment("text-align:"@, seq![], word);
        reveal_strlit("text-align:");
        reveal_strlit("text-align: ");
        assert("text-align: "@ =~= "text-align:"@ + seq![' ']);
        lemma_alignment("text-align: "@, seq![' '], word);
    }
}

proof fn lemma_alignment(p: Seq<char>, gap: Seq<char>, word: Seq<char>)
    requires
        p == "text-align:"@ + gap,
        gap == Seq::<char>::empty() || gap == seq![' '],
        word == "left"@ || word == "right"@ || word == "center"@ || word == "justify"@,
    ensures
        allowed_style(p + word),
        text::trimmed(p + word) == p + word,
{
    reveal_strlit("left");
    reveal_strlit("right");
    reveal_strlit("center");
    reveal_strlit("justify");
    reveal_strlit("text-align:");
    reveal_strlit("text-align");
    reveal_strlit(":");
    assert("left"@.len() == 4);
    assert("right"@.len() == 5);
    assert("center"@.len() == 6);
    assert("justify"@.len() == 7);
    assert("text-align:"@.len() == 11);
    assert("text-align"@.len() == 10);
    assert(":"@.len() == 1);
    let v = p + word;
    assert(v[0] == 't');
    assert(v.last() == word.last());
    assert(word.last() == word[word.len() - 1]);
    assert(text::trimmed_start(v) == v);
    assert(text::trimmed_end(v) == v);
    assert(text::without_trailing(v, ';') == v);
    assert(v.subrange(0, 10) =~= "text-align"@);
    let rest = v.subrange(10, v.len() as int);
    assert(rest =~= ":"@ + (gap + word));
    assert(rest[0] == ':');
    assert(text::trimmed_start(rest) == rest);
    assert(rest.subrange(0, 1) =~= ":"@);
    let tail = rest.subrange(1, rest.len() as int);
    assert(tail =~= gap + word);
    assert(word[0] == 'l' || word[0] == 'r' || word[0] == 'c' || word[0] == 'j');
    if gap.len() > 0 {
        assert(tail[0] == ' ');
        assert(tail.drop_first() =~= word);
        assert(text::trimmed_start(word) == word);
        assert(text::trimmed_start(tail) == word);
    } else {
        assert(tail =~= word);
        assert(text::trimmed_start(tail) == word);
    }
    assert(text::trimmed_end(word) == word);
}

/// The text of a fragment is what stands outside its tags, each of which leaves a space.
pub proof fn law_tags_are_stripped(t: Seq<char>, g: Seq<char>, u: Seq<char>)
    requires
        !t.contains('<') && !t.contains('>'),
        !g.contains('<') && !g.contains('>'),
        !u.contains('<') && !u.contains('>'),
    ensures
        stripped_html(t + seq!['<'] + g + seq!['>'] + u) == text::join(
            text::words(outside::entities_decoded(t + seq![' '] + u)),
            seq![' '],
        ),
        stripped_html(t) == text::join(text::words(outside::entities_decoded(t)), seq![' ']),
{
    let s = t + seq!['<'] + g + seq!['>'] + u;
    let n: int = t.len() as int;
    let gap = seq![' '];
    lemma_no_tags(t, 0, gap);
    assert(t.subrange(0, n) =~= t);
    let b: int = n + 2 + g.len();
    lemma_outside_tags(s, 0, n, gap);
    lemma_inside_tags(s, n + 1, b - 1, gap);
    lemma_outside_tags(s, b, s.len() as int, gap);
    assert(s.subrange(0, n) =~= t);
    assert(s.subrange(b, s.len() as int) =~= u);
    assert(u + Seq::<char>::empty() =~= u);
    assert(t + (gap + u) =~= t + gap + u);
}

proof fn lemma_outside_tags(s: Seq<char>, i: int, end: int, gap: Seq<char>)
    requires
        0 <= i <= end <= s.len(),
        forall|k: int| i <= k < end ==> #[trigger] s[k] != '<' && s[k] != '>',
    ensures
        without_tags(s, i, false, gap) == s.subrange(i, end) + without_tags(s, end, false, gap),
    decreases end - i,
{
    if i < end {
        lemma_outside_tags(s, i + 1, end, gap);
        assert(seq![s[i]] + (s.subrange(i + 1, end) + without_tags(s, end, false, gap))
            =~= s.subrange(i, end) + without_tags(s, end, false, gap));
    } else {
        assert(s.subrange(i, end) + without_tags(s, end, false, gap) =~= without_tags(
            s,
            end,
            false,
            gap,
        ));
    }
}

proof fn lemma_inside_tags(s: Seq<char>, i: int, end: int, gap: Seq<char>)
    requires
        0 <= i <= end <= s.len(),
        forall|k: int| i <= k < end ==> #[trigger] s[k] != '<' && s[k] != '>',
    ensures
        without_tags(s, i, true, gap) == without_tags(s, end, true, gap),
    decreases end - i,
{
    if i < end {
        lemma_inside_tags(s, i + 1, end, gap);
    }
}

proof fn lemma_spaced_lines_kept(s: Seq<char>)
    requires
        evenly_spaced(s),
    ensures
        text::join(text::split(s, '\n').map_values(|l: Seq<char>| squeezed(l)), seq!['\n']) == s,
{
    lemma_lines_spaced(s, 0);
    let raw = text::split(s, '\n');
    let lines = raw.map_values(|l: Seq<char>| squeezed(l));
    assert forall|k: int| 0 <= k < raw.len() implies squeezed(#[trigger] raw[k]) == raw[k] by {
        assert(text::single_spaced(raw[k]));
        spacing::lemma_single_spaced_words(raw[k]);
    }
    assert(lines =~= raw);
    spacing::lemma_joined_pieces(s, text::just('\n'), '\n', 0, seq![]);
    assert(Seq::<char>::empty() + s.subrange(0, s.len() as int) =~= s);
}

/// A text that is in order already is its own normalised form: its line breaks stay,
/// and so do the single spaces between its words.
pub proof fn law_tidy_text_is_kept(r: Seq<char>)
    requires
        evenly_spaced(r),
        no_long_gap(r),
        r.len() > 0 ==> r[0] != '\n' && r.last() != '\n',
    ensures
        normalized(r) == r,
{
    lemma_spaced_lines_kept(r);
    lemma_short_breaks_keep(r, 0, 0);
    assert(r.subrange(0, r.len() as int) =~= r);
}

/// A document may hold the elements that give a text its structure, links and images,
/// and nothing that runs; links and images lead to web addresses only.
pub proof fn law_policy_keeps_the_structure()
    ensures
        ({
            let p = content_policy();
            let es = p.elements;
            &&& es.len() == 22
            &&& es.contains("p"@) && es.contains("br"@) && es.contains("div"@) && es.contains("a"@)
            &&& es.contains("b"@) && es.contains("i"@) && es.contains("s"@) && es.contains("code"@)
            &&& es.contains("pre"@) && es.contains("blockquote"@) && es.contains("ruby"@)
            &&& es.contains("rt"@) && es.contains("rp"@) && es.contains("h1"@) && es.contains("h2"@)
            &&& es.contains("figure"@) && es.contains("img"@) && es.contains("ul"@)
            &&& es.contains("ol"@) && es.contains("li"@) && es.contains("small"@)
            &&& es.contains("center"@)
            &&& p.url_schemes.contains("http"@) && p.url_schemes.contains("https"@)
            &&& p.url_schemes.len() == 2
            &&& p.generic_attributes.len() == 1 && p.generic_attributes.contains("style"@)
            &&& p.link_rel is None
            &&& p.element_attributes.len() == 2
            &&& forall|k: int|
                0 <= k < 2 ==> {
                    let e = #[trigger] p.element_attributes[k];
                    &&& e.element == "a"@ || e.element == "img"@
                    &&& e.element == "a"@ ==> e.attributes == seq!["href"@]
                    &&& e.element == "img"@ ==> e.attributes.len() == 4 && e.attributes.contains(
                        "src"@,
                    ) && e.attributes.contains("alt"@) && e.attributes.contains("width"@)
                        && e.attributes.contains("height"@)
                }
            &&& p.element_attributes[0].element != p.element_attributes[1].element
        }),
{
    reveal_strlit("a");
    reveal_strlit("img");
    assert("a"@.len() == 1);
    assert("img"@.len() == 3);
    let p = content_policy();
    let es = p.elements;
    assert(es[0] == "br"@ && es[1] == "p"@ && es[2] == "div"@ && es[3] == "a"@);
    assert(es[4] == "b"@ && es[5] == "i"@ && es[6] == "s"@ && es[7] == "code"@);
    assert(es[8] == "pre"@ && es[9] == "blockquote"@ && es[10] == "ruby"@ && es[11] == "rt"@);
    assert(es[12] == "rp"@ && es[13] == "h1"@ && es[14] == "h2"@ && es[15] == "figure"@);
    assert(es[16] == "img"@ && es[17] == "ul"@ && es[18] == "ol"@ && es[19] == "li"@);
    assert(es[20] == "small"@ && es[21] == "center"@);
    assert(p.url_schemes[0] == "http"@ && p.url_schemes[1] == "https"@);
    assert(p.generic_attributes[0] == "style"@);
    let a = p.element_attributes[1].attributes;
    assert(a[0] == "src"@ && a[1] == "alt"@ && a[2] == "width"@ && a[3] == "height"@);
}

/// A last line that is marked as standing in for the quote, and names it, is cut off
/// the HTML together with the break in front of it.
pub proof fn law_last_html_quote_line_is_dropped(
    html: Seq<char>,
    mark: Seq<char>,
    gap: Seq<char>,
    quote_uri: Seq<char>,
)
    requires
        mark == "RE:"@ || mark == "QT:"@,
        quote_uri.len() > 0,
        !text::is_white_space(quote_uri.last()),
        forall|i: int|
            0 <= i < gap.len() ==> #[trigger] gap[i] != '<' && gap[i] != '>' && gap[i] != '&',
        forall|i: int|
            0 <= i < quote_uri.len() ==> #[trigger] quote_uri[i] != '<' && quote_uri[i] != '>'
                && quote_uri[i] != '&',
    ensures
        without_html_quote_line(html + "<br>"@ + (mark + gap + quote_uri), quote_uri)
            == text::trimmed_end(html),
{
    reveal_strlit("RE:");
    reveal_strlit("QT:");
    reveal_strlit("<br>");
    reveal_strlit("<br");
    assert("RE:"@.len() == 3);
    assert("QT:"@.len() == 3);
    assert("<br>"@.len() == 4);
    assert("<br"@.len() == 3);
    assert("RE:"@[0] != "QT:"@[0]);
    assert("RE:"@[0] != "<br"@[0]);
    assert("QT:"@[0] != "<br"@[0]);
    let line = mark + gap + quote_uri;
    let s = html + "<br>"@ + line;
    let n: int = html.len() as int;
    let m: int = (mark.len() + gap.len()) as int;
    assert(line.last() == quote_uri.last());
    assert(s.last() == line.last());
    assert(text::trimmed_end(s) == s);
    assert forall|i: int| 0 <= i < line.len() implies #[trigger] line[i] != '<' && line[i] != '>'
        && line[i] != '&' by {
        if i < 3 {
            assert(line[i] == mark[i]);
        } else if i < m {
            assert(line[i] == gap[i - 3]);
        } else {
            assert(line[i] == quote_uri[i - m]);
        }
    }
    let low = text::ascii_lower(s);
    let p = "<br"@;
    text::lemma_rfind_from(low, p, low.len() as int);
    assert(s[n] == '<' && s[n + 1] == 'b' && s[n + 2] == 'r' && s[n + 3] == '>');
    assert(low.subrange(n, n + 3) =~= p);
    assert(text::occurs_at(low, p, n));
    match text::rfind(low, p) {
        Some(k) => {
            assert(text::occurs_at(low, p, k));
            if k > n {
                assert(low.subrange(k, k + 3)[0] == '<');
                assert(low[k] == text::ascii_lower_char(s[k]));
                assert(s[k] == '<');
                if k >= n + 4 {
                    assert(s[k] == line[k - n - 4]);
                }
                assert(false);
            }
        },
        None => {},
    }
    assert(last_break(s) == Some(n));
    text::lemma_next_index(s, text::just('>'), n);
    let e: int = text::next_index(s, text::just('>'), n);
    assert(e == n + 3) by {
        if e < n + 3 {
            assert(e == n || e == n + 1 || e == n + 2);
        }
    }
    assert(s.subrange(n + 4, s.len() as int) =~= line);
    assert(s.subrange(0, n) =~= html);
    assert(!line.contains('<') && !line.contains('>') && !line.contains('&'));
    lemma_no_tags(line, 0, seq![]);
    assert(line.subrange(0, line.len() as int) =~= line);
    assert(line[0] == mark[0]);
    assert(text::trimmed_start(line) == line);
    assert(text::trimmed_end(line) == line);
    assert(line.subrange(0, 3) =~= mark);
    assert(line.subrange(m, m + quote_uri.len()) =~= quote_uri);
    assert(text::occurs_at(line, quote_uri, m));
}

/// A last line of the HTML that does not begin like one that stands in for a quote, or
/// does not name it, stays, and so does all else.
pub proof fn law_other_html_stays(html: Seq<char>, quote_uri: Seq<char>)
    ensures
        without_html_quote_line(html, quote_uri) != html ==> {
            let t = anchor_text(last_html_line(text::trimmed_end(html)));
            (text::starts_with(t, "RE:"@) || text::starts_with(t, "QT:"@)) && text::contains_text(
                t,
                quote_uri,
            )
        },
{
}

/// A word holds at least one character, and no white space.
pub open spec fn is_word(w: Seq<char>) -> bool {
    w.len() > 0 && forall|i: int| 0 <= i < w.len() ==> !text::is_white_space(#[trigger] w[i])
}

/// However much white space stands between two words of a line, one space is left.
pub proof fn law_gaps_become_one_space(a: Seq<char>, gap: Seq<char>, b: Seq<char>)
    requires
        is_word(a),
        is_word(b),
        gap.len() > 0,
        forall|i: int|
            0 <= i < gap.len() ==> text::is_white_space(#[trigger] gap[i]) && gap[i] != '\n',
    ensures
        normalized(a + gap + b) == a + seq![' '] + b,
{
    let s = a + gap + b;
    spacing::lemma_one_more_word(a, gap, b);
    assert(text::words(a) == seq![a]) by {
        spacing::lemma_words_of_joined(seq![a]);
    }
    let r = a + seq![' '] + b;
    assert(seq![a].push(b) =~= seq![a, b]);
    assert(seq![a, b].drop_last() =~= seq![a]);
    assert(text::join(seq![a], seq![' ']) == a);
    assert(text::join(seq![a, b], seq![' ']) =~= r);
    assert forall|i: int| 0 <= i < s.len() implies #[trigger] s[i] != '\n' by {
        if i < a.len() {
            assert(s[i] == a[i]);
        } else if i < a.len() + gap.len() {
            assert(s[i] == gap[i - a.len()]);
        } else {
            assert(s[i] == b[i - a.len() - gap.len()]);
        }
    }
    assert(!s.contains('\n'));
    text::lemma_split_none(s, '\n');
    let lines = text::split(s, '\n').map_values(|l: Seq<char>| squeezed(l));
    assert(lines =~= seq![r]);
    assert(text::join(seq![r], seq!['\n']) == r);
    assert(r[0] == a[0] && r.last() == b[b.len() - 1]);
    assert forall|i: int| 0 <= i < r.len() implies #[trigger] r[i] != '\n' by {
        if i < a.len() {
            assert(r[i] == a[i]);
        } else if i > a.len() {
            assert(r[i] == b[i - a.len() - 1]);
        }
    }
    lemma_short_breaks_keep(r, 0, 0);
    assert(r.subrange(0, r.len() as int) =~= r);
}

proof fn lemma_breaks_run(s: Seq<char>, i: int, end: int, run: nat)
    requires
        0 <= i <= end <= s.len(),
        forall|k: int| i <= k < end ==> #[trigger] s[k] == '\n',
    ensures
        short_breaks(s, i, run) == short_breaks(s, end, (run + (end - i)) as nat),
    decreases end - i,
{
    if i < end {
        lemma_breaks_run(s, i + 1, end, run + 1);
    }
}

proof fn lemma_breaks_text(s: Seq<char>, i: int, end: int, run: nat)
    requires
        0 <= i < end <= s.len(),
        forall|k: int| i <= k < end ==> #[trigger] s[k] != '\n',
    ensures
        short_breaks(s, i, run) == breaks(run) + s.subrange(i, end) + short_breaks(s, end, 0),
    decreases end - i,
{
    if i + 1 < end {
        lemma_breaks_text(s, i + 1, end, 0);
        assert(breaks(run) + seq![s[i]] + (Seq::<char>::empty() + s.subrange(i + 1, end)
            + short_breaks(s, end, 0)) =~= breaks(run) + s.subrange(i, end) + short_breaks(
            s,
            end,
            0,
        ));
    } else {
        assert(s.subrange(i, end) =~= seq![s[i]]);
    }
}

/// A line break between two words stays, two leave an empty line, and more than two
/// leave no more than that.
pub proof fn law_line_breaks_stay(a: Seq<char>, gap: Seq<char>, b: Seq<char>)
    requires
        is_word(a),
        is_word(b),
        gap.len() > 0,
        forall|i: int| 0 <= i < gap.len() ==> #[trigger] gap[i] == '\n',
    ensures
        gap.len() == 1 ==> normalized(a + gap + b) == a + seq!['\n'] + b,
        gap.len() >= 2 ==> normalized(a + gap + b) == a + seq!['\n', '\n'] + b,
{
    let s = a + gap + b;
    let n: int = a.len() as int;
    let m: int = n + gap.len();
    let end: int = s.len() as int;
    assert forall|i: int| 0 <= i < n implies #[trigger] s[i] != '\n' by {
        assert(s[i] == a[i]);
    }
    assert forall|i: int| n <= i < m implies #[trigger] s[i] == '\n' by {
        assert(s[i] == gap[i - n]);
    }
    assert forall|i: int| m <= i < end implies #[trigger] s[i] != '\n' by {
        assert(s[i] == b[i - m]);
    }
    assert(evenly_spaced(s)) by {
        assert forall|i: int| 0 <= i < s.len() && text::is_white_space(
            #[trigger] s[i],
        ) implies s[i] == '\n' by {
            if i < n {
                assert(s[i] == a[i]);
            } else if i >= m {
                assert(s[i] == b[i - m]);
            }
        }
    }
    lemma_spaced_lines_kept(s);
    lemma_breaks_text(s, 0, n, 0);
    lemma_breaks_run(s, n, m, 0);
    lemma_breaks_text(s, m, end, gap.len());
    assert(s.subrange(0, n) =~= a);
    assert(s.subrange(m, end) =~= b);
    let r = a + breaks(gap.len()) + b;
    assert(short_breaks(s, 0, 0) =~= r);
    assert(r[0] == a[0] && r.last() == b[b.len() - 1]);
}

proof fn lemma_rewritten_run(
    s: Seq<char>,
    i: int,
    n: int,
    tags: Seq<JsonModel>,
    sender_domain: Seq<char>,
)
    requires
        0 <= i <= n <= s.len(),
        forall|k: int| i <= k < n ==> #[trigger] s[k] != '<',
    ensures
        rewritten_from(s, i, tags, sender_domain) == s.subrange(i, n) + rewritten_from(
            s,
            n,
            tags,
            sender_domain,
        ),
    decreases n - i,
{
    if i < n {
        lemma_rewritten_run(s, i + 1, n, tags, sender_domain);
        assert(s[i] != '<');
        assert(seq![s[i]] + s.subrange(i + 1, n) =~= s.subrange(i, n));
        assert(rewritten_from(s, i, tags, sender_domain) =~= s.subrange(i, n) + rewritten_from(
            s,
            n,
            tags,
            sender_domain,
        ));
    } else {
        assert(s.subrange(i, n) =~= seq![]);
        assert(rewritten_from(s, i, tags, sender_domain) =~= s.subrange(i, n) + rewritten_from(
            s,
            n,
            tags,
            sender_domain,
        ));
    }
}

/// A link to a mentioned account or to a hashtag leads to its page on this server:
/// its target is exchanged, and everything around it and inside it stays.
pub proof fn law_inner_links_are_rewritten(
    t: Seq<char>,
    g: Seq<char>,
    x: Seq<char>,
    u: Seq<char>,
    tags: Seq<JsonModel>,
    sender_domain: Seq<char>,
    path: Seq<char>,
)
    requires
        !t.contains('<'),
        !g.contains('>'),
        !x.contains('<'),
        !u.contains('<'),
        opens_anchor(g),
        internal_path(g, anchor_text(x), tags, sender_domain) == Some(path),
    ensures
        rewritten_from(
            t + seq!['<'] + g + seq!['>'] + (x + "</a>"@ + u),
            0,
            tags,
            sender_domain,
        ) == t + seq!['<'] + retargeted(g, path) + seq!['>'] + (x + "</a>"@ + u),
{
    reveal_strlit("</a>");
    assert("</a>"@.len() == 4);
    let more = x + "</a>"@ + u;
    let s = t + seq!['<'] + g + seq!['>'] + more;
    let n: int = t.len() as int;
    let inside: int = n + 2 + g.len();
    let e: int = inside + x.len();
    let end: int = s.len() as int;
    lemma_anchor_between(t, g, x, u);
    assert forall|k: int| 0 <= k < n implies #[trigger] s[k] != '<' by {
        assert(s[k] == t[k]);
        assert(t.contains(t[k]));
    }
    lemma_rewritten_run(s, 0, n, tags, sender_domain);
    assert forall|k: int| e + 4 <= k < end implies #[trigger] s[k] != '<' by {
        assert(s[k] == u[k - e - 4]);
        assert(u.contains(u[k - e - 4]));
    }
    lemma_rewritten_run(s, e + 4, end, tags, sender_domain);
    assert(rewritten_from(s, end, tags, sender_domain) == Seq::<char>::empty());
    assert(s.subrange(0, n) =~= t);
    assert(s.subrange(e + 4, end) =~= u);
    assert(s.subrange(inside - 1, e + 4) =~= seq!['>'] + x + "</a>"@);
    assert(rewritten_from(s, 0, tags, sender_domain) =~= t + seq!['<'] + retargeted(g, path) + seq![
        '>',
    ] + (x + "</a>"@ + u));
}

proof fn lemma_no_single_quote(s: Seq<char>)
    ensures
        !s.contains('\'') ==> single_quoted(s) == s,
        !s.contains('\'') ==> !escaped(s).contains('\''),
    decreases s.len(),
{
    reveal_strlit("&amp;");
    reveal_strlit("&quot;");
    reveal_strlit("&lt;");
    reveal_strlit("&gt;");
    assert("&amp;"@.len() == 5);
    assert("&quot;"@.len() == 6);
    assert("&lt;"@.len() == 4);
    assert("&gt;"@.len() == 4);
    assert("&lt;"@[1] != "&gt;"@[1]);
    if s.len() > 0 && !s.contains('\'') {
        let front = s.drop_last();
        assert(!front.contains('\'')) by {
            if front.contains('\'') {
                let k = choose|k: int| 0 <= k < front.len() && front[k] == '\'';
                assert(s[k] == '\'');
            }
        }
        lemma_no_single_quote(front);
        assert(s.contains(s[s.len() - 1]));
        assert(single_quoted(s) =~= s);
        let a = escaped(front);
        let b = escaped_char(s.last());
        if escaped(s).contains('\'') {
            let k = choose|k: int| 0 <= k < escaped(s).len() && escaped(s)[k] == '\'';
            if k < a.len() {
                assert(a[k] == '\'');
            } else {
                assert(b[k - a.len()] == '\'');
            }
        }
    }
}

/// The new target is the path, with its marks escaped, between the quotes of the old
/// one; a link without a target gets one behind its name.
pub proof fn law_new_target_is_the_path(
    q: char,
    v: Seq<char>,
    rest: Seq<char>,
    path: Seq<char>,
)
    requires
        q == '"' || q == '\'',
        !v.contains(q),
        !path.contains('\''),
    ensures
        retargeted("a href="@ + seq![q] + v + seq![q] + rest, path) == "a href="@ + seq![q]
            + escaped(path) + seq![q] + rest,
        attribute(seq!['a'] + rest, "href"@) is None ==> retargeted(seq!['a'] + rest, path)
            == "a href=\""@ + escaped(path) + "\""@ + rest,
{
    reveal_strlit("a href=");
    reveal_strlit("href");
    assert("a href="@.len() == 7);
    assert("href"@.len() == 4);
    reveal_strlit(" href=\"");
    reveal_strlit("a href=\"");
    reveal_strlit("\"");
    assert(text::ascii_lower("href"@) =~= "href"@);
    lemma_first_attribute("href"@, q, v, rest);
    lemma_no_single_quote(path);
    lemma_no_single_quote(escaped(path));
    let tag = "a href="@ + seq![q] + v + seq![q] + rest;
    assert(tag =~= seq!['a', ' '] + "href"@ + seq!['=', q] + v + seq![q] + rest);
    assert(tag[7] == q);
    assert(tag.subrange(0, 8) =~= "a href="@ + seq![q]);
    assert(tag.subrange((8 + v.len()) as int, tag.len() as int) =~= seq![q] + rest);
    assert(retargeted(tag, path) =~= "a href="@ + seq![q] + escaped(path) + seq![q] + rest);
    let bare = seq!['a'] + rest;
    assert(bare[0] == 'a');
    assert(text::trimmed_start(bare) == bare);
    assert(bare.subrange(0, 1) =~= seq!['a']);
    assert(bare.subrange(1, bare.len() as int) =~= rest);
    if attribute(bare, "href"@) is None {
        assert(retargeted(bare, path) =~= "a href=\""@ + escaped(path) + "\""@ + rest);
    }
}

/// An anchor is the tag `a`, in either case, alone or with attributes behind it; a
/// longer name that begins so is none, and no other tag is.
pub proof fn law_anchors_are_known(c: char, d: char, rest: Seq<char>)
    requires
        rest.len() > 0 ==> rest.last() != '/',
    ensures
        (c == 'a' || c == 'A') && (d == ' ' || d == '\t') ==> opens_anchor(seq![c, d] + rest),
        c == 'a' || c == 'A' ==> opens_anchor(seq![c]),
        (c == 'a' || c == 'A') && d != ' ' && d != '\t' ==> !opens_anchor(seq![c, d] + rest),
        c != 'a' && c != 'A' && !text::is_white_space(c) ==> !opens_anchor(seq![c] + rest),
{
    reveal_strlit("a");
    reveal_strlit("a ");
    reveal_strlit("a\t");
    reveal_strlit("/");
    assert("a"@.len() == 1);
    assert("a "@.len() == 2);
    assert("a\t"@.len() == 2);
    assert("/"@.len() == 1);
    let both = seq![c, d] + rest;
    let one = seq![c] + rest;
    let alone = seq![c];
    assert(both[0] == c && both[1] == d);
    assert(one[0] == c);
    assert(alone[0] == c);
    let low = text::ascii_lower(both);
    assert(low[0] == text::ascii_lower_char(c) && low[1] == text::ascii_lower_char(d));
    assert(text::ascii_lower(alone) =~= seq![text::ascii_lower_char(c)]);
    if !text::is_white_space(c) {
        assert(text::trimmed_start(both) == both);
        assert(text::trimmed_start(one) == one);
        assert(text::trimmed_start(alone) == alone);
    }
    if c == 'a' || c == 'A' {
        assert(alone.last() == c);
        assert(!text::ends_with(alone, "/"@)) by {
            if text::ends_with(alone, "/"@) {
                assert(alone.subrange(0, 1)[0] == '/');
            }
        }
        assert(text::ascii_lower(alone) =~= "a"@);
        if d == ' ' {
            assert(low.subrange(0, 2) =~= "a "@);
        }
        if d == '\t' {
            assert(low.subrange(0, 2) =~= "a\t"@);
        }
        if d == ' ' || d == '\t' {
            if text::ends_with(both, "/"@) {
                assert(both.subrange(both.len() - 1, both.len() as int)[0] == '/');
                assert(both.last() == '/');
            }
        } else {
            if text::starts_with(low, "a "@) {
                assert(low.subrange(0, 2)[1] == ' ');
            }
            if text::starts_with(low, "a\t"@) {
                assert(low.subrange(0, 2)[1] == '\t');
            }
        }
    } else if !text::is_white_space(c) {
        let w = text::ascii_lower(one);
        assert(w[0] == text::ascii_lower_char(c));
        assert(w != "a"@) by {
            assert("a"@[0] == 'a');
        }
        if text::starts_with(w, "a "@) {
            assert(w.subrange(0, 2)[0] == 'a');
        }
        if text::starts_with(w, "a\t"@) {
            assert(w.subrange(0, 2)[0] == 'a');
        }
    }
}

proof fn lemma_user_of(user: Seq<char>, domain: Seq<char>)
    requires
        user.len() > 0,
        !user.contains('@'),
    ensures
        user_of(seq!['@'] + user) == user,
        user_of(seq!['@'] + user + seq!['@'] + domain) == user,
        text::without_leading(seq!['@'] + user + seq!['@'] + domain, '@') == user + seq!['@']
            + domain,
{
    let f = text::just('@');
    let a = seq!['@'] + user;
    let b = seq!['@'] + user + seq!['@'] + domain;
    assert(user.contains(user[0]));
    assert(a[1] == user[0] && b[1] == user[0]);
    text::lemma_trim_start_while(a, f, 1);
    text::lemma_trim_start_while(b, f, 1);
    assert(a.subrange(1, a.len() as int) =~= user);
    let rest = user + seq!['@'] + domain;
    assert(b.subrange(1, b.len() as int) =~= rest);
    text::lemma_next_index(user, f, 0);
    text::lemma_next_index(rest, f, 0);
    let n = text::next_index(user, f, 0);
    if n < user.len() {
        assert(user.contains(user[n]));
    }
    let m = text::next_index(rest, f, 0);
    assert(rest[user.len() as int] == '@');
    if m < user.len() {
        assert(rest[m] == user[m]);
        assert(user.contains(user[m]));
    }
    assert(user.subrange(0, user.len() as int) =~= user);
    assert(rest.subrange(0, user.len() as int) =~= user);
}

/// A link that is marked as a mention and leads to a page other than the account's
/// address is named by the tag of the user that it shows, in any case; where several
/// users have that name, by the one on the server that the link leads to.
pub proof fn law_mention_is_found_by_its_name(
    t: JsonModel,
    other: JsonModel,
    user: Seq<char>,
    shown: Seq<char>,
    domain: Seq<char>,
    elsewhere: Seq<char>,
    href: Seq<char>,
    sender_domain: Seq<char>,
)
    requires
        user.len() > 0,
        !user.contains('@'),
        shown.len() > 0,
        !shown.contains('@'),
        text::ascii_lower(shown) == text::ascii_lower(user),
        t.text_at("type"@) == Some("Mention"@),
        t.text_at("name"@) == Some(seq!['@'] + user + seq!['@'] + domain),
        t.text_at("href"@) is Some && t.text_at("href"@) != Some(href),
        other.text_at("type"@) == Some("Mention"@),
        other.text_at("name"@) == Some(seq!['@'] + user + seq!['@'] + elsewhere),
        other.text_at("href"@) is Some && other.text_at("href"@) != Some(href),
    ensures
        mention_text(href, seq!['@'] + shown, true, false, seq![t], sender_domain) == Some(
            seq!['@'] + user + seq!['@'] + domain,
        ),
        host_of(href) is Some && host_of(t.text_at("href"@)->0) == host_of(href) && (host_of(
            other.text_at("href"@)->0,
        ) is None || text::ascii_lower(host_of(other.text_at("href"@)->0)->0)
            != text::ascii_lower(host_of(href)->0)) ==> mention_text(
            href,
            seq!['@'] + shown,
            true,
            false,
            seq![other, t],
            sender_domain,
        ) == Some(seq!['@'] + user + seq!['@'] + domain),
{
    lemma_user_of(user, domain);
    lemma_user_of(user, elsewhere);
    lemma_user_of(shown, domain);
    let whole = seq!['@'] + user + seq!['@'] + domain;
    let rest = user + seq!['@'] + domain;
    assert(rest[user.len() as int] == '@');
    assert(rest.contains('@'));
    assert(qualified_name(whole, text_or_empty(t.text_at("href"@))) == whole);
    let one = seq![t];
    let two = seq![other, t];
    reveal_with_fuel(first_where, 3);
    assert(one[0] == t && two[0] == other && two[1] == t);
    assert(first_where(one, mention_of(href), 0) is None);
    assert(first_where(two, mention_of(href), 0) is None);
    assert(mention_of_user(shown)(t));
    assert(first_where(one, mention_of_user(shown), 0) == Some(t));
}

/// HTML without tags is sanitised as it is.
pub proof fn law_plain_html_is_only_sanitised(
    h: Seq<char>,
    tags: Seq<JsonModel>,
    sender_domain: Seq<char>,
)
    requires
        !h.contains('<'),
    ensures
        sanitized_content(h, tags, sender_domain) == outside::sanitized_html(content_policy(), h),
{
    assert forall|k: int| 0 <= k < h.len() implies #[trigger] h[k] != '<' by {
        assert(h.contains(h[k]));
    }
    lemma_rewritten_run(h, 0, h.len() as int, tags, sender_domain);
    assert(h.subrange(0, h.len() as int) =~= h);
    assert(rewritten_from(h, 0, tags, sender_domain) =~= h);
}

/// An attribute whose name only ends in `href` is another one.
pub proof fn law_longer_names_are_other_attributes(c: char, q: char, v: Seq<char>)
    requires
        text::ascii_alphanumeric(c),
        q == '"' || q == '\'',
        !v.contains('h'),
        !v.contains('H'),
    ensures
        href_attribute(seq!['a', ' ', c] + "href"@ + seq!['=', q] + v + seq![q]) is None,
{
    reveal_strlit("href");
    assert("href"@.len() == 4);
    let tag = seq!['a', ' ', c] + "href"@ + seq!['=', q] + v + seq![q];
    let low = text::ascii_lower(tag);
    let name = "href"@;
    assert(text::ascii_lower(name) =~= name);
    assert(tag[0] == 'a' && tag[1] == ' ' && tag[2] == c && tag[3] == 'h' && tag[4] == 'r' && tag[5]
        == 'e' && tag[6] == 'f' && tag[7] == '=' && tag[8] == q);
    assert(low[0] == 'a' && low[1] == ' ' && low[2] == text::ascii_lower_char(c) && low[3] == 'h'
        && low[4] == 'r');
    text::lemma_find_from(low, name, 0);
    assert(low.subrange(3, 7) =~= name);
    assert(text::occurs_at(low, name, 3));
    match text::find_from(low, name, 0) {
        Some(k) => {
            assert(text::occurs_at(low, name, k));
            if k < 3 {
                assert(low.subrange(k, k + 4)[0] == 'h');
                assert(low.subrange(k, k + 4)[1] == 'r');
                assert(k == 2);
                assert(low[3] == 'r');
            }
            assert(k == 3);
        },
        None => {},
    }
    assert(text::ascii_alphanumeric(low[2]));
    text::lemma_find_from(low, name, 7);
    match text::find_from(low, name, 7) {
        Some(k) => {
            assert(text::occurs_at(low, name, k));
            assert(low.subrange(k, k + 4)[0] == 'h');
            assert(low[k] == text::ascii_lower_char(tag[k]));
            assert(tag[k] == 'h' || tag[k] == 'H');
            if 9 <= k < 9 + v.len() {
                assert(tag[k] == v[k - 9]);
                assert(v.contains(v[k - 9]));
            }
        },
        None => {},
    }
    assert(attribute_span(tag, name, 7) is None);
}

/// A mention of somebody who is not tagged, from a server that is not known, is shown
/// by the user's name alone.
pub proof fn law_mention_from_nowhere_has_no_server(href: Seq<char>, user: Seq<char>)
    requires
        user.len() > 0,
        !user.contains('@'),
    ensures
        mention_text(href, seq!['@'] + user, true, false, seq![], seq![]) == Some(seq!['@'] + user),
        mention_text(href, user, true, false, seq![], seq![]) == Some(seq!['@'] + user),
{
    lemma_user_of(user, seq![]);
    let f = text::just('@');
    let a = seq!['@'] + user;
    assert(user.contains(user[0]));
    assert(a[1] == user[0]);
    text::lemma_trim_start_while(a, f, 1);
    assert(a.subrange(1, a.len() as int) =~= user);
    text::lemma_trim_start_while(user, f, 0);
    assert(user.subrange(0, user.len() as int) =~= user);
    assert(first_where(seq![], mention_of(href), 0) is None);
}

/// An anchor ends at its closing tag, in either case, and the text goes on behind that.
pub proof fn law_anchors_end_in_either_case(x: Seq<char>, c: char, u: Seq<char>)
    requires
        !x.contains('<'),
        c == 'a' || c == 'A',
    ensures
        anchor_end(x + seq!['<', '/', c, '>'] + u, 0) == x.len(),
        behind_anchor(x + seq!['<', '/', c, '>'] + u, 0) == x.len() + 4,
{
    reveal_strlit("</a");
    assert("</a"@.len() == 3);
    let s = x + seq!['<', '/', c, '>'] + u;
    let low = text::ascii_lower(s);
    let p = "</a"@;
    let e: int = x.len() as int;
    text::lemma_find_from(low, p, 0);
    assert(s[e] == '<' && s[e + 1] == '/' && s[e + 2] == c && s[e + 3] == '>');
    assert(low[e] == '<' && low[e + 1] == '/' && low[e + 2] == 'a');
    assert(low.subrange(e, e + 3) =~= p);
    assert(text::occurs_at(low, p, e));
    match text::find_from(low, p, 0) {
        Some(k) => {
            assert(text::occurs_at(low, p, k));
            if k < e {
                assert(low.subrange(k, k + 3)[0] == '<');
                assert(low[k] == text::ascii_lower_char(s[k]));
                assert(s[k] == x[k]);
                assert(x.contains(x[k]));
            }
        },
        None => {},
    }
    text::lemma_next_index(s, text::just('>'), e + 1);
    let q: int = text::next_index(s, text::just('>'), e + 1);
    assert(q == e + 3) by {
        if q < e + 3 {
            assert(q == e + 1 || q == e + 2);
        }
    }
}

} // verus!
