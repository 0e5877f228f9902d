//! What is read out of a remote note: loops and duplicates, quotes, polls,
//! attachments and mentions.

use crate::ap;
use crate::decimal;
use crate::json;
use crate::json::{Json, JsonModel};
use crate::outside;
use crate::text;
use vstd::prelude::*;
use vstd::slice::slice_subrange;

verus! {

// ---------------------------------------------------------------------------
// Loops and duplicates.
// ---------------------------------------------------------------------------
/// The AT URI of the post that a Bluesky web address shows:
/// `https://bsky.app/profile/{did}/post/{rkey}`.
pub open spec fn at_uri_of_bsky_url(url: Seq<char>) -> Option<Seq<char>> {
    match text::strip_prefix(url, "https://bsky.app/profile/"@) {
        None => None,
        Some(rest) => match text::after_text(rest, "/"@) {
            None => None,
            Some(tail) => match text::after_text(tail, "/"@) {
                None => None,
                Some(rkey) => if text::before_text(tail, "/"@) == "post"@ {
                    Some(
                        "at://"@ + text::before_text(rest, "/"@) + "/app.bsky.feed.post/"@ + rkey,
                    )
                } else {
                    None
                },
            },
        },
    }
}

/// The parts of a text before and behind its first `/`.
fn cut_at_slash(s: &[char]) -> (r: Option<(&[char], &[char])>)
    ensures
        r is Some <==> text::after_text(s@, "/"@) is Some,
        r matches Some(p) ==> p.0@ == text::before_text(s@, "/"@) && text::after_text(s@, "/"@)
            == Some(p.1@),
{
    let slash: Vec<char> = text::chars_of("/");
    match text::find(s, slash.as_slice(), 0) {
        Some(k) => Some(
            (slice_subrange(s, 0, k), slice_subrange(s, k + slash.len(), s.len())),
        ),
        None => None,
    }
}

/// The AT URI of the post that a Bluesky web address shows.
pub fn bsky_app_url_to_at_uri(url: &str) -> (r: Option<String>)
    ensures
        text::string_view(r) == at_uri_of_bsky_url(url@),
{
    let chars: Vec<char> = text::chars_of(url);
    let prefix: Vec<char> = text::chars_of("https://bsky.app/profile/");
    if !text::is_at(chars.as_slice(), prefix.as_slice(), 0) {
        return None;
    }
    let rest: &[char] = slice_subrange(chars.as_slice(), prefix.len(), chars.len());
    let (did, tail): (&[char], &[char]) = match cut_at_slash(rest) {
        Some(p) => p,
        None => {
            return None;
        },
    };
    let (label, rkey): (&[char], &[char]) = match cut_at_slash(tail) {
        Some(p) => p,
        None => {
            return None;
        },
    };
    if !text::is_text(label, "post") {
        return None;
    }
    Some(
        text::cat4(
            "at://",
            text::string_of(did).as_str(),
            "/app.bsky.feed.post/",
            text::string_of(rkey).as_str(),
        ),
    )
}

/// What the addresses of this server's own notes start with.
pub open spec fn local_notes_prefix(local_domain: Seq<char>) -> Seq<char> {
    "https://"@ + local_domain + "/notes/"@
}

/// The identifier of the local note at an address.
pub open spec fn local_note_id(url: Seq<char>, local_domain: Seq<char>) -> Option<i64> {
    match text::strip_prefix(url, local_notes_prefix(local_domain)) {
        Some(t) => decimal::denoted_i64(t),
        None => None,
    }
}

/// The identifier of the local note at an address.
pub fn read_local_note_id(url: &str, local_domain: &str) -> (r: Option<i64>)
    ensures
        r == local_note_id(url@, local_domain@),
{
    let prefix: String = text::cat3("https://", local_domain, "/notes/");
    match ap::strip_prefix_str(url, prefix.as_str()) {
        Some(t) => decimal::parse_i64(text::chars_of(t).as_slice()),
        None => None,
    }
}

/// The local note that a received note pretends to be: the one that its web
/// address names, else the one that its identifier names.
pub open spec fn loopback_post_id(local_domain: Seq<char>, note_id: Seq<char>, note_url: Seq<char>) -> Option<
    i64,
> {
    if local_note_id(note_url, local_domain) is Some {
        local_note_id(note_url, local_domain)
    } else {
        local_note_id(note_id, local_domain)
    }
}

/// The local note that a received note pretends to be.
pub fn detect_loopback_post_id(local_domain: &str, note_id: &str, note_url: &str) -> (r: Option<i64>)
    ensures
        r == loopback_post_id(local_domain@, note_id@, note_url@),
{
    let by_url: Option<i64> = read_local_note_id(note_url, local_domain);
    if by_url.is_some() {
        by_url
    } else {
        read_local_note_id(note_id, local_domain)
    }
}

// ---------------------------------------------------------------------------
// Quotes.
// ---------------------------------------------------------------------------
/// The quoted note that a tag gives.
pub open spec fn tag_quote(t: JsonModel) -> Option<Seq<char>> {
    if t.text_at("rel"@) == Some("https://misskey-hub.net/ns#_misskey_quote"@) {
        t.text_at("href"@)
    } else {
        None
    }
}

/// The first quoted note that the tags from index `i` on give.
pub open spec fn first_tag_quote(ts: Seq<JsonModel>, i: int) -> Option<Seq<char>>
    decreases ts.len() - i,
{
    if i < 0 || i >= ts.len() {
        None
    } else if tag_quote(ts[i]) is Some {
        tag_quote(ts[i])
    } else {
        first_tag_quote(ts, i + 1)
    }
}

/// The address of the note that a note quotes: `quoteUrl`, else
/// `_misskey_quote`, else the tags.
pub open spec fn quote_uri_of(note: JsonModel, tags: Seq<JsonModel>) -> Option<Seq<char>> {
    if note.text_at("quoteUrl"@) is Some {
        note.text_at("quoteUrl"@)
    } else if note.text_at("_misskey_quote"@) is Some {
        note.text_at("_misskey_quote"@)
    } else {
        first_tag_quote(tags, 0)
    }
}

/// The address of the note that a note quotes.
pub fn extract_ap_quote_uri(note: &Json, tags: &[Json]) -> (r: Option<String>)
    ensures
        text::string_view(r) == quote_uri_of(note@, json::models(tags@)),
{
    match note.text_at("quoteUrl") {
        Some(u) => {
            return Some(u.to_owned());
        },
        None => {},
    }
    match note.text_at("_misskey_quote") {
        Some(u) => {
            return Some(u.to_owned());
        },
        None => {},
    }
    let ghost ts = json::models(tags@);
    let mut i: usize = 0;
    while i < tags.len()
        invariant
            i <= tags@.len(),
            ts == json::models(tags@),
            note@.text_at("quoteUrl"@) is None,
            note@.text_at("_misskey_quote"@) is None,
            first_tag_quote(ts, 0) == first_tag_quote(ts, i as int),
        decreases tags@.len() - i,
    {
        assert(ts[i as int] == tags@[i as int]@);
        if tags[i].text_is("rel", "https://misskey-hub.net/ns#_misskey_quote") {
            match tags[i].text_at("href") {
                Some(h) => {
                    return Some(h.to_owned());
                },
                None => {},
            }
        }
        i += 1;
    }
    None
}

/// The line starts with a marker of a quote.
pub open spec fn has_quote_marker(line: Seq<char>) -> bool {
    text::starts_with(line, "RE:"@) || text::starts_with(line, "QT:"@) || text::starts_with(
        line,
        "RE "@,
    ) || text::starts_with(line, "QT "@)
}

/// Whether a line starts with a marker of a quote.
pub fn starts_with_quote_marker(line: &str) -> (r: bool)
    ensures
        r == has_quote_marker(line@),
{
    let s: Vec<char> = text::chars_of(line);
    text::has_prefix(s.as_slice(), "RE:") || text::has_prefix(s.as_slice(), "QT:")
        || text::has_prefix(s.as_slice(), "RE ") || text::has_prefix(s.as_slice(), "QT ")
}

/// The host of an address: what stands between `://` and the next `/`.
pub open spec fn quote_host(uri: Seq<char>) -> Option<Seq<char>> {
    match text::after_text(uri, "://"@) {
        None => None,
        Some(rest) => {
            let host = text::before_text(text::before_text(rest, "://"@), "/"@);
            if host.len() > 0 {
                Some(host)
            } else {
                None
            }
        },
    }
}

/// What can be taken for a note's identifier: at least six letters and digits.
pub open spec fn is_note_id(id: Seq<char>) -> bool {
    id.len() >= 6 && forall|i: int| 0 <= i < id.len() ==> text::ascii_alphanumeric(#[trigger] id[i])
}

/// The text points at the quoted note: it holds the note's address, or else the
/// host of that address and its last segment, where that can be an identifier.
pub open spec fn points_at_quote(s: Seq<char>, quote_uri: Seq<char>) -> bool {
    let id = text::after_last(quote_uri, "/"@);
    text::contains_text(s, quote_uri) || match quote_host(quote_uri) {
        Some(host) => is_note_id(id) && text::contains_text(s, host) && text::contains_text(s, id),
        None => false,
    }
}

/// The part of a text before the first place of `p`, or all of it.
fn cut_before<'a>(s: &'a [char], p: &str) -> (r: &'a [char])
    ensures
        r@ == text::before_text(s@, p@),
{
    match text::find(s, text::chars_of(p).as_slice(), 0) {
        Some(k) => slice_subrange(s, 0, k),
        None => s,
    }
}

/// Whether a text points at the quoted note.
pub fn quote_uri_matches(body: &str, quote_uri: &str) -> (r: bool)
    ensures
        r == points_at_quote(body@, quote_uri@),
{
    let s: Vec<char> = text::chars_of(body);
    let uri: Vec<char> = text::chars_of(quote_uri);
    if text::has_text(s.as_slice(), uri.as_slice()) {
        return true;
    }
    let mark: Vec<char> = text::chars_of("://");
    let rest: &[char] = match text::find(uri.as_slice(), mark.as_slice(), 0) {
        Some(k) => slice_subrange(uri.as_slice(), k + mark.len(), uri.len()),
        None => {
            return false;
        },
    };
    let host: &[char] = cut_before(cut_before(rest, "://"), "/");
    if host.len() == 0 {
        return false;
    }
    let slash: Vec<char> = text::chars_of("/");
    let id: &[char] = match text::find_last(uri.as_slice(), slash.as_slice()) {
        Some(k) => slice_subrange(uri.as_slice(), k + slash.len(), uri.len()),
        None => uri.as_slice(),
    };
    if id.len() < 6 {
        return false;
    }
    let mut i: usize = 0;
    while i < id.len()
        invariant
            i <= id@.len(),
            id@ == text::after_last(quote_uri@, "/"@),
            !text::contains_text(s@, quote_uri@),
            s@ == body@,
            forall|k: int| 0 <= k < i ==> text::ascii_alphanumeric(#[trigger] id@[k]),
        decreases id@.len() - i,
    {
        if !text::is_ascii_alnum(id[i]) {
            return false;
        }
        i += 1;
    }
    text::has_text(s.as_slice(), host) && text::has_text(s.as_slice(), id)
}

/// The last line of a text, and the index at which it starts.
pub open spec fn last_line_start(s: Seq<char>) -> int {
    match text::rfind(s, "\n"@) {
        Some(k) => k + 1,
        None => 0,
    }
}

/// The index at which the first line of a text ends.
pub open spec fn first_line_end(s: Seq<char>) -> int {
    match text::find_from(s, "\n"@, 0) {
        Some(k) => k,
        None => s.len() as int,
    }
}

/// The line stands in for the quote.
pub open spec fn is_quote_line(line: Seq<char>, quote_uri: Seq<char>) -> bool {
    has_quote_marker(text::trimmed(line)) && points_at_quote(text::trimmed(line), quote_uri)
}

/// The text without a last line that stands in for the quote.
pub open spec fn without_quote_line(body: Seq<char>, quote_uri: Seq<char>) -> Seq<char> {
    let s = text::trimmed_end(body);
    let k: int = last_line_start(s);
    if is_quote_line(s.subrange(k, s.len() as int), quote_uri) {
        text::trimmed_end(s.subrange(0, k))
    } else {
        body
    }
}

/// The text without a first line that stands in for the quote.
pub open spec fn without_leading_quote_line(body: Seq<char>, quote_uri: Seq<char>) -> Seq<char> {
    let s = text::trimmed_start(body);
    let k: int = first_line_end(s);
    if is_quote_line(s.subrange(0, k), quote_uri) {
        text::trimmed_start(s.subrange(k, s.len() as int))
    } else {
        body
    }
}

/// Whether a line stands in for the quote.
fn stands_for_quote(line: &[char], quote_uri: &str) -> (r: bool)
    ensures
        r == is_quote_line(line@, quote_uri@),
{
    let t: String = text::string_of(text::trim(line));
    starts_with_quote_marker(t.as_str()) && quote_uri_matches(t.as_str(), quote_uri)
}

/// The text without a last line that stands in for the quote.
pub fn strip_quote_fallback_line(body: &str, quote_uri: &str) -> (r: String)
    ensures
        r@ == without_quote_line(body@, quote_uri@),
{
    proof {
        reveal_strlit("\n");
    }
    let chars: Vec<char> = text::chars_of(body);
    let s: &[char] = text::trim_end(chars.as_slice());
    let newline: Vec<char> = text::chars_of("\n");
    let k: usize = match text::find_last(s, newline.as_slice()) {
        Some(k) => k + 1,
        None => 0,
    };
    if stands_for_quote(slice_subrange(s, k, s.len()), quote_uri) {
        text::string_of(text::trim_end(slice_subrange(s, 0, k)))
    } else {
        body.to_owned()
    }
}

/// The text without a first line that stands in for the quote.
pub fn strip_quote_fallback_line_leading(body: &str, quote_uri: &str) -> (r: String)
    ensures
        r@ == without_leading_quote_line(body@, quote_uri@),
{
    let chars: Vec<char> = text::chars_of(body);
    let s: &[char] = text::trim_start(chars.as_slice());
    let newline: Vec<char> = text::chars_of("\n");
    let k: usize = match text::find(s, newline.as_slice(), 0) {
        Some(k) => k,
        None => s.len(),
    };
    if stands_for_quote(slice_subrange(s, 0, k), quote_uri) {
        text::string_of(text::trim_start(slice_subrange(s, k, s.len())))
    } else {
        body.to_owned()
    }
}

// ---------------------------------------------------------------------------
// Attachments.
// ---------------------------------------------------------------------------
/// The MIME type that the extension of a file's name tells, where it does.
pub open spec fn mime_of_extension(ext: Seq<char>) -> Option<Seq<char>> {
    if ext == "mp4"@ || ext == "m4v"@ {
        Some("video/mp4"@)
    } else if ext == "webm"@ {
        Some("video/webm"@)
    } else if ext == "mov"@ {
        Some("video/quicktime"@)
    } else if ext == "mp3"@ {
        Some("audio/mpeg"@)
    } else if ext == "ogg"@ || ext == "oga"@ {
        Some("audio/ogg"@)
    } else if ext == "wav"@ {
        Some("audio/wav"@)
    } else if ext == "m4a"@ {
        Some("audio/mp4"@)
    } else if ext == "flac"@ {
        Some("audio/flac"@)
    } else {
        None
    }
}

/// The MIME type of an attachment: the one that it names, else the one that the
/// extension in its address tells.
pub open spec fn attachment_mime(att: JsonModel, url: Seq<char>) -> Option<Seq<char>> {
    match att.text_at("mediaType"@) {
        Some(t) if t.len() > 0 => Some(t),
        _ => mime_of_extension(text::ascii_lower(text::after_last(url, "."@))),
    }
}

/// The MIME type of an attachment.
pub fn guess_attachment_mime_type(att: &Json, url: &str) -> (r: Option<String>)
    ensures
        text::string_view(r) == attachment_mime(att@, url@),
{
    match att.text_at("mediaType") {
        Some(t) => {
            if !t.is_empty() {
                return Some(t.to_owned());
            }
        },
        None => {},
    }
    let chars: Vec<char> = text::chars_of(url);
    let dot: Vec<char> = text::chars_of(".");
    let last: &[char] = match text::find_last(chars.as_slice(), dot.as_slice()) {
        Some(k) => slice_subrange(chars.as_slice(), k + dot.len(), chars.len()),
        None => chars.as_slice(),
    };
    let ext_chars: Vec<char> = text::lower(last);
    let ext: &[char] = ext_chars.as_slice();
    if text::is_text(ext, "mp4") || text::is_text(ext, "m4v") {
        Some("video/mp4".to_owned())
    } else if text::is_text(ext, "webm") {
        Some("video/webm".to_owned())
    } else if text::is_text(ext, "mov") {
        Some("video/quicktime".to_owned())
    } else if text::is_text(ext, "mp3") {
        Some("audio/mpeg".to_owned())
    } else if text::is_text(ext, "ogg") || text::is_text(ext, "oga") {
        Some("audio/ogg".to_owned())
    } else if text::is_text(ext, "wav") {
        Some("audio/wav".to_owned())
    } else if text::is_text(ext, "m4a") {
        Some("audio/mp4".to_owned())
    } else if text::is_text(ext, "flac") {
        Some("audio/flac".to_owned())
    } else {
        None
    }
}

// ---------------------------------------------------------------------------
// Polls.
// ---------------------------------------------------------------------------
/// The number of votes that a choice of a poll reports, and none where it
/// reports a negative number or no number.
pub open spec fn reported_votes(choice: JsonModel) -> int {
    match choice.at("replies"@).at("totalItems"@).as_int() {
        Some(n) => if n > 0 {
            n
        } else {
            0
        },
        None => 0,
    }
}

/// The option that a choice of a poll gives; nothing where it has no name.
pub open spec fn poll_option(choice: JsonModel) -> Option<JsonModel> {
    match choice.text_at("name"@) {
        Some(name) => Some(
            JsonModel::Obj(
                seq![
                    json::member_of("name"@, JsonModel::Str(name)),
                    json::member_of("votes"@, JsonModel::Int(reported_votes(choice))),
                ],
            ),
        ),
        None => None,
    }
}

/// The options that the choices of a poll give, in order.
pub open spec fn poll_options(cs: Seq<JsonModel>) -> Seq<JsonModel>
    decreases cs.len(),
{
    if cs.len() == 0 {
        seq![]
    } else {
        match poll_option(cs.last()) {
            Some(o) => poll_options(cs.drop_last()).push(o),
            None => poll_options(cs.drop_last()),
        }
    }
}

/// The poll in the form in which it is kept.
pub open spec fn poll_object(note: JsonModel, multiple: bool, options: Seq<JsonModel>) -> JsonModel {
    JsonModel::Obj(
        seq![
            json::member_of("multiple"@, JsonModel::Bool(multiple)),
            json::member_of("options"@, JsonModel::Arr(options)),
            json::member_of("endTime"@, json::text_or_null(note.text_at("endTime"@))),
            json::member_of("closed"@, json::text_or_null(note.text_at("closed"@))),
            json::member_of(
                "votersCount"@,
                match note.at("votersCount"@).as_int() {
                    Some(n) => JsonModel::Int(n),
                    None => JsonModel::Null,
                },
            ),
        ],
    )
}

/// The poll that a note is: a `Question` with at least one named choice, one of
/// which (`oneOf`) or any of which (`anyOf`) can be taken.
pub open spec fn poll_of(note: JsonModel) -> Option<JsonModel> {
    let one = note.at("oneOf"@).as_arr();
    let any = note.at("anyOf"@).as_arr();
    if note.text_at("type"@) != Some("Question"@) || (one is None && any is None) {
        None
    } else {
        let options = poll_options(
            if one is Some {
                one->0
            } else {
                any->0
            },
        );
        if options.len() == 0 {
            None
        } else {
            Some(poll_object(note, one is None, options))
        }
    }
}

/// The option that a choice of a poll gives.
fn make_poll_option(choice: &Json) -> (r: Option<Json>)
    ensures
        (match r {
            Some(o) => Some(o@),
            None => None,
        }) == poll_option(choice@),
{
    let name: &str = match choice.text_at("name") {
        Some(n) => n,
        None => {
            return None;
        },
    };
    let votes: i64 = match choice.get("replies") {
        Some(replies) => match replies.int_at("totalItems") {
            Some(n) => if n > 0 {
                n
            } else {
                0
            },
            None => 0,
        },
        None => 0,
    };
    let ms: Vec<json::Member> = vec![
        json::member("name", json::text_json(name)),
        json::member("votes", Json::Int(votes)),
    ];
    let r: Json = json::object(ms);
    assert(json::member_models(ms@) =~= poll_option(choice@)->0->Obj_0);
    Some(r)
}

/// The options that the choices of a poll give.
fn make_poll_options(choices: &Vec<Json>) -> (r: Vec<Json>)
    ensures
        json::models(r@) == poll_options(json::models(choices@)),
{
    let ghost cs = json::models(choices@);
    let mut out: Vec<Json> = Vec::new();
    let mut i: usize = 0;
    assert(json::models(out@) =~= seq![]);
    while i < choices.len()
        invariant
            i <= choices@.len(),
            cs == json::models(choices@),
            json::models(out@) == poll_options(cs.take(i as int)),
        decreases choices@.len() - i,
    {
        proof {
            assert(cs.take(i + 1).drop_last() =~= cs.take(i as int));
            assert(cs.take(i + 1).last() == choices@[i as int]@);
        }
        let ghost before = json::models(out@);
        match make_poll_option(&choices[i]) {
            Some(o) => {
                out.push(o);
                assert(json::models(out@) =~= before.push(o@));
            },
            None => {},
        }
        i += 1;
    }
    assert(cs.take(i as int) =~= cs);
    out
}

/// The poll that a note is.
pub fn normalize_ap_poll(note: &Json) -> (r: Option<Json>)
    ensures
        (match r {
            Some(p) => Some(p@),
            None => None,
        }) == poll_of(note@),
{
    if !note.text_is("type", "Question") {
        return None;
    }
    let one: Option<&Vec<Json>> = note.arr_at("oneOf");
    let multiple: bool = one.is_none();
    let choices: &Vec<Json> = match one {
        Some(v) => v,
        None => match note.arr_at("anyOf") {
            Some(v) => v,
            None => {
                return None;
            },
        },
    };
    let options: Vec<Json> = make_poll_options(choices);
    if options.len() == 0 {
        assert(json::models(options@).len() == 0);
        return None;
    }
    assert(json::models(options@).len() > 0);
    let voters: Json = match note.int_at("votersCount") {
        Some(n) => Json::Int(n),
        None => Json::Null,
    };
    let ghost shown = json::models(options@);
    let ms: Vec<json::Member> = vec![
        json::member("multiple", Json::Bool(multiple)),
        json::member("options", json::array(options)),
        json::member("endTime", json::opt_text_json(note.text_at("endTime"))),
        json::member("closed", json::opt_text_json(note.text_at("closed"))),
        json::member("votersCount", voters),
    ];
    assert(json::member_models(ms@) =~= poll_object(note@, multiple, shown)->Obj_0);
    Some(json::object(ms))
}

// ---------------------------------------------------------------------------
// Mentions of local users.
// ---------------------------------------------------------------------------
/// The local user that a tag mentions.
pub open spec fn mentioned_local_user(t: JsonModel, local_domain: Seq<char>) -> Option<Seq<char>> {
    if t.text_at("type"@) == Some("Mention"@) {
        match t.text_at("href"@) {
            Some(h) => ap::local_username(h, local_domain),
            None => None,
        }
    } else {
        None
    }
}

/// The local users that tags mention, in order.
pub open spec fn mentioned_local_users(ts: Seq<JsonModel>, local_domain: Seq<char>) -> Seq<Seq<char>>
    decreases ts.len(),
{
    if ts.len() == 0 {
        seq![]
    } else {
        match mentioned_local_user(ts.last(), local_domain) {
            Some(u) => mentioned_local_users(ts.drop_last(), local_domain).push(u),
            None => mentioned_local_users(ts.drop_last(), local_domain),
        }
    }
}

/// The local users that tags mention, in order.
pub fn extract_mentioned_local_usernames<'a>(tags: &'a [Json], local_domain: &str) -> (r: Vec<
    &'a str,
>)
    ensures
        outside::strs(r@) == mentioned_local_users(json::models(tags@), local_domain@),
{
    let ghost ts = json::models(tags@);
    let mut out: Vec<&'a str> = Vec::new();
    let mut i: usize = 0;
    assert(outside::strs(out@) =~= seq![]);
    while i < tags.len()
        invariant
            i <= tags@.len(),
            ts == json::models(tags@),
            outside::strs(out@) == mentioned_local_users(ts.take(i as int), local_domain@),
        decreases tags@.len() - i,
    {
        proof {
            assert(ts.take(i + 1).drop_last() =~= ts.take(i as int));
            assert(ts.take(i + 1).last() == tags@[i as int]@);
        }
        let ghost before = outside::strs(out@);
        if tags[i].text_is("type", "Mention") {
            match tags[i].text_at("href") {
                Some(h) => match ap::extract_local_username(h, local_domain) {
                    Some(u) => {
                        out.push(u);
                        assert(outside::strs(out@) =~= before.push(u@));
                    },
                    None => {},
                },
                None => {},
            }
        }
        i += 1;
    }
    assert(ts.take(i as int) =~= ts);
    out
}

// ---------------------------------------------------------------------------
// Laws.
// ---------------------------------------------------------------------------
/// A note that comes back under its own local address is recognised, whatever
/// its web address is, unless that one names a local note itself.
pub proof fn law_own_note_is_recognised(
    local_domain: Seq<char>,
    id: i64,
    note_url: Seq<char>,
)
    requires
        local_note_id(note_url, local_domain) is None,
    ensures
        loopback_post_id(
            local_domain,
            local_notes_prefix(local_domain) + decimal::int_text(id as int),
            note_url,
        ) == Some(id),
{
    let p = local_notes_prefix(local_domain);
    let t = decimal::int_text(id as int);
    decimal::law_notation_denotes(id as int);
    assert((p + t).subrange(0, p.len() as int) =~= p);
    assert((p + t).subrange(p.len() as int, (p + t).len() as int) =~= t);
}

proof fn lemma_cut(a: Seq<char>, b: Seq<char>)
    requires
        !a.contains('/'),
    ensures
        text::before_text(a + seq!['/'] + b, "/"@) == a,
        text::after_text(a + seq!['/'] + b, "/"@) == Some(b),
{
    reveal_strlit("/");
    let s = a + seq!['/'] + b;
    let p = "/"@;
    assert(p =~= seq!['/']);
    text::lemma_find_from(s, p, 0);
    assert(s.subrange(a.len() as int, a.len() as int + 1) =~= p);
    assert(text::occurs_at(s, p, a.len() as int));
    assert forall|j: int| 0 <= j < a.len() implies !text::occurs_at(s, p, j) by {
        if text::occurs_at(s, p, j) {
            assert(s.subrange(j, j + 1)[0] == '/');
            assert(s[j] == a[j]);
            assert(a.contains(a[j]));
        }
    }
    assert(text::find_from(s, p, 0) == Some(a.len() as int));
    assert(s.subrange(0, a.len() as int) =~= a);
    assert(s.subrange(a.len() as int + 1, s.len() as int) =~= b);
}

/// The web address of a Bluesky post gives the post's AT URI.
pub proof fn law_bsky_url_gives_at_uri(did: Seq<char>, rkey: Seq<char>)
    requires
        !did.contains('/'),
    ensures
        at_uri_of_bsky_url("https://bsky.app/profile/"@ + did + "/post/"@ + rkey) == Some(
            "at://"@ + did + "/app.bsky.feed.post/"@ + rkey,
        ),
{
    reveal_strlit("/post/");
    reveal_strlit("post");
    let p = "https://bsky.app/profile/"@;
    let url = p + did + "/post/"@ + rkey;
    let tail = "post"@ + seq!['/'] + rkey;
    let rest = did + seq!['/'] + tail;
    assert(url.subrange(0, p.len() as int) =~= p);
    assert(url.subrange(p.len() as int, url.len() as int) =~= rest);
    lemma_cut(did, tail);
    assert(!"post"@.contains('/'));
    lemma_cut("post"@, rkey);
}

/// Dropping a last line that stands in for the quote only ever cuts the text
/// off at some place.
pub proof fn law_quote_line_is_cut_off(body: Seq<char>, quote_uri: Seq<char>)
    ensures
        without_quote_line(body, quote_uri).is_prefix_of(body),
{
    reveal_strlit("\n");
    let s = text::trimmed_end(body);
    text::lemma_trimmed_back(body, text::white());
    text::lemma_rfind_from(s, "\n"@, s.len() as int);
    let k: int = last_line_start(s);
    let front = s.subrange(0, k);
    text::lemma_trimmed_back(front, text::white());
}

/// Dropping a first line that stands in for the quote only ever leaves an end of
/// the text.
pub proof fn law_leading_quote_line_is_cut_off(body: Seq<char>, quote_uri: Seq<char>)
    ensures
        without_leading_quote_line(body, quote_uri).is_suffix_of(body),
{
    reveal_strlit("\n");
    let s = text::trimmed_start(body);
    text::lemma_trimmed_front(body, text::white());
    text::lemma_find_from(s, "\n"@, 0);
    let k: int = first_line_end(s);
    let back = s.subrange(k, s.len() as int);
    text::lemma_trimmed_front(back, text::white());
    let r = text::trimmed_start(back);
    assert(r =~= body.subrange(body.len() - r.len(), body.len() as int));
    assert(body =~= body.subrange(0, body.len() as int));
}

/// A poll never shows a negative number of votes.
pub proof fn law_poll_votes_are_not_negative(choice: JsonModel)
    ensures
        reported_votes(choice) >= 0,
{
}

/// A choice of a poll that has a name, and how many votes it was given.
pub open spec fn offers(o: JsonModel, choice: JsonModel) -> bool {
    &&& choice.text_at("name"@) is Some
    &&& o.text_at("name"@) == choice.text_at("name"@)
    &&& o.at("votes"@).as_int() == Some(
        match choice.at("replies"@).at("totalItems"@).as_int() {
            Some(n) if n > 0 => n,
            _ => 0,
        },
    )
}

proof fn lemma_poll_option(choice: JsonModel)
    ensures
        poll_option(choice) matches Some(o) ==> offers(o, choice),
        poll_option(choice) is Some <==> choice.text_at("name"@) is Some,
{
    reveal_strlit("name");
    reveal_strlit("votes");
    assert("name"@.len() == 4);
    assert("votes"@.len() == 5);
    reveal_with_fuel(json::first_member, 3);
    if let Some(o) = poll_option(choice) {
        assert(json::first_member(o->Obj_0, "name"@, 0) == Some(
            JsonModel::Str(choice.text_at("name"@)->0),
        ));
        assert(json::first_member(o->Obj_0, "votes"@, 0) == Some(
            JsonModel::Int(reported_votes(choice)),
        ));
    }
}

/// The choice has a name.
pub open spec fn is_named(choice: JsonModel) -> bool {
    choice.text_at("name"@) is Some
}

/// The option is one of the choices.
pub open spec fn is_offered(cs: Seq<JsonModel>, o: JsonModel) -> bool {
    exists|j: int| 0 <= j < cs.len() && #[trigger] offers(o, cs[j])
}

/// One of the options is the choice.
pub open spec fn has_option(os: Seq<JsonModel>, choice: JsonModel) -> bool {
    exists|k: int| 0 <= k < os.len() && #[trigger] offers(os[k], choice)
}

proof fn lemma_options_are_offered(cs: Seq<JsonModel>)
    ensures
        forall|k: int|
            0 <= k < poll_options(cs).len() ==> #[trigger] is_offered(cs, poll_options(cs)[k]),
    decreases cs.len(),
{
    if cs.len() > 0 {
        let front = cs.drop_last();
        lemma_options_are_offered(front);
        lemma_poll_option(cs.last());
        let all = poll_options(cs);
        let old_all = poll_options(front);
        assert forall|k: int| 0 <= k < all.len() implies #[trigger] is_offered(cs, all[k]) by {
            if k < old_all.len() {
                assert(is_offered(front, old_all[k]));
                let j: int = choose|j: int|
                    0 <= j < front.len() && #[trigger] offers(old_all[k], front[j]);
                assert(offers(all[k], cs[j]));
            } else {
                assert(offers(all[k], cs[cs.len() - 1]));
            }
        }
    }
}

proof fn lemma_choices_are_options(cs: Seq<JsonModel>, j: int)
    requires
        0 <= j < cs.len(),
        is_named(cs[j]),
    ensures
        has_option(poll_options(cs), cs[j]),
    decreases cs.len(),
{
    let front = cs.drop_last();
    let all = poll_options(cs);
    let old_all = poll_options(front);
    if j < front.len() {
        lemma_choices_are_options(front, j);
        let k: int = choose|k: int| 0 <= k < old_all.len() && #[trigger] offers(old_all[k], front[j]);
        assert(offers(all[k], cs[j]));
    } else {
        lemma_poll_option(cs.last());
        assert(offers(all[all.len() - 1], cs[j]));
    }
}

proof fn lemma_options_keep_order(cs: Seq<JsonModel>)
    requires
        forall|j: int| 0 <= j < cs.len() ==> #[trigger] is_named(cs[j]),
    ensures
        poll_options(cs).len() == cs.len(),
        forall|j: int| 0 <= j < cs.len() ==> #[trigger] offers(poll_options(cs)[j], cs[j]),
    decreases cs.len(),
{
    if cs.len() > 0 {
        let front = cs.drop_last();
        assert forall|j: int| 0 <= j < front.len() implies #[trigger] is_named(front[j]) by {
            assert(is_named(cs[j]));
        }
        assert(is_named(cs[cs.len() - 1]));
        lemma_options_keep_order(front);
        lemma_poll_option(cs.last());
        let all = poll_options(cs);
        let old_all = poll_options(front);
        assert forall|j: int| 0 <= j < cs.len() implies #[trigger] offers(all[j], cs[j]) by {
            if j < front.len() {
                assert(offers(old_all[j], front[j]));
            }
        }
    }
}

proof fn lemma_poll_members(note: JsonModel, multiple: bool, options: Seq<JsonModel>)
    ensures
        ({
            let p = poll_object(note, multiple, options);
            &&& p.at("multiple"@) == JsonModel::Bool(multiple)
            &&& p.at("options"@) == JsonModel::Arr(options)
            &&& p.at("endTime"@) == json::text_or_null(note.text_at("endTime"@))
            &&& p.at("closed"@) == json::text_or_null(note.text_at("closed"@))
            &&& p.at("votersCount"@).as_int() == note.at("votersCount"@).as_int()
        }),
{
    reveal_strlit("multiple");
    reveal_strlit("options");
    reveal_strlit("endTime");
    reveal_strlit("closed");
    reveal_strlit("votersCount");
    assert("multiple"@.len() == 8);
    assert("options"@.len() == 7);
    assert("endTime"@.len() == 7);
    assert("closed"@.len() == 6);
    assert("votersCount"@.len() == 11);
    assert("options"@[0] != "endTime"@[0]);
    reveal_with_fuel(json::first_member, 6);
    let ms = poll_object(note, multiple, options)->Obj_0;
    assert(json::first_member(ms, "options"@, 0) == Some(JsonModel::Arr(options)));
    assert(json::first_member(ms, "endTime"@, 0) == Some(ms[2].value));
    assert(json::first_member(ms, "closed"@, 0) == Some(ms[3].value));
    assert(json::first_member(ms, "votersCount"@, 0) == Some(ms[4].value));
}

/// The choices of a poll: those of `oneOf`, where it has them, and else of `anyOf`.
pub open spec fn choices_of(note: JsonModel) -> Seq<JsonModel> {
    if note.at("oneOf"@) is Arr {
        note.at("oneOf"@).items()
    } else {
        note.at("anyOf"@).items()
    }
}

/// A poll takes several choices exactly where its choices do not come from `oneOf`.
pub proof fn law_poll_takes_as_many_as_it_says(note: JsonModel)
    ensures
        poll_of(note) matches Some(p) ==> {
            &&& p.at("multiple"@) == JsonModel::Bool(!(note.at("oneOf"@) is Arr))
            &&& p.at("multiple"@) == JsonModel::Bool(true) ==> note.at("anyOf"@) is Arr
        },
{
    if let Some(p) = poll_of(note) {
        let options = poll_options(choices_of(note));
        lemma_poll_members(note, note.at("oneOf"@).as_arr() is None, options);
    }
}

/// A poll keeps when it ends, when it was closed and how many have voted, as the note
/// says it.
pub proof fn law_poll_keeps_its_dates(note: JsonModel)
    ensures
        poll_of(note) matches Some(p) ==> {
            &&& p.text_at("endTime"@) == note.text_at("endTime"@)
            &&& p.text_at("closed"@) == note.text_at("closed"@)
            &&& p.at("votersCount"@).as_int() == note.at("votersCount"@).as_int()
        },
{
    if let Some(p) = poll_of(note) {
        lemma_poll_members(
            note,
            note.at("oneOf"@).as_arr() is None,
            poll_options(choices_of(note)),
        );
    }
}

/// A poll is read from a question that offers at least one choice with a name, and
/// from nothing else.
pub proof fn law_questions_are_polls(note: JsonModel)
    ensures
        poll_of(note) is Some <==> note.text_at("type"@) == Some("Question"@) && exists|j: int|
            0 <= j < choices_of(note).len() && #[trigger] is_named(choices_of(note)[j]),
{
    let cs = choices_of(note);
    let options = poll_options(cs);
    if options.len() > 0 {
        lemma_options_are_offered(cs);
        assert(is_offered(cs, options[0]));
        let j: int = choose|j: int| 0 <= j < cs.len() && #[trigger] offers(options[0], cs[j]);
        assert(is_named(cs[j]));
    }
    if exists|j: int| 0 <= j < cs.len() && #[trigger] is_named(cs[j]) {
        let j: int = choose|j: int| 0 <= j < cs.len() && #[trigger] is_named(cs[j]);
        lemma_choices_are_options(cs, j);
    }
}

/// The options of a poll are the choices that have names, each with its votes; where
/// all have names, they keep their order.
pub proof fn law_poll_offers_the_choices(note: JsonModel)
    ensures
        poll_of(note) matches Some(p) ==> {
            let cs = choices_of(note);
            let os = p.at("options"@).items();
            &&& forall|k: int| 0 <= k < os.len() ==> #[trigger] is_offered(cs, os[k])
            &&& forall|j: int|
                0 <= j < cs.len() && #[trigger] is_named(cs[j]) ==> has_option(os, cs[j])
            &&& (forall|j: int| 0 <= j < cs.len() ==> #[trigger] is_named(cs[j])) ==> os.len()
                == cs.len() && forall|j: int| 0 <= j < cs.len() ==> #[trigger] offers(os[j], cs[j])
        },
{
    let cs = choices_of(note);
    let options = poll_options(cs);
    if let Some(p) = poll_of(note) {
        lemma_poll_members(note, note.at("oneOf"@).as_arr() is None, options);
        assert(p.at("options"@).items() == options);
        lemma_options_are_offered(cs);
        assert forall|j: int| 0 <= j < cs.len() && #[trigger] is_named(cs[j]) implies has_option(
            options,
            cs[j],
        ) by {
            lemma_choices_are_options(cs, j);
        }
        if forall|j: int| 0 <= j < cs.len() ==> #[trigger] is_named(cs[j]) {
            lemma_options_keep_order(cs);
        }
    }
}

/// What a note quotes: the address that it names as its quote, in the one field or the
/// other, and else that of the first tag that is marked as a quote.
pub proof fn law_quote_is_found(note: JsonModel, tags: Seq<JsonModel>, uri: Seq<char>)
    ensures
        note.text_at("quoteUrl"@) == Some(uri) ==> quote_uri_of(note, tags) == Some(uri),
        note.text_at("quoteUrl"@) is None && note.text_at("_misskey_quote"@) == Some(uri)
            ==> quote_uri_of(note, tags) == Some(uri),
        note.text_at("quoteUrl"@) is None && note.text_at("_misskey_quote"@) is None ==> (
        quote_uri_of(note, tags) == Some(uri) <==> exists|k: int|
            0 <= k < tags.len() && (#[trigger] tags[k]).text_at("rel"@) == Some(
                "https://misskey-hub.net/ns#_misskey_quote"@,
            ) && tags[k].text_at("href"@) == Some(uri) && forall|j: int|
                0 <= j < k && (#[trigger] tags[j]).text_at("rel"@) == Some(
                    "https://misskey-hub.net/ns#_misskey_quote"@,
                ) ==> tags[j].text_at("href"@) is None),
{
    lemma_first_tag_quote(tags, 0);
    if first_tag_quote(tags, 0) is Some {
        let k: int = choose|k: int|
            0 <= k < tags.len() && tag_quote(#[trigger] tags[k]) == first_tag_quote(tags, 0)
                && forall|j: int| 0 <= j < k ==> tag_quote(#[trigger] tags[j]) is None;
        assert(tags[k].text_at("rel"@) == Some("https://misskey-hub.net/ns#_misskey_quote"@));
        assert forall|j: int| 0 <= j < k && (#[trigger] tags[j]).text_at("rel"@) == Some(
            "https://misskey-hub.net/ns#_misskey_quote"@,
        ) implies tags[j].text_at("href"@) is None by {
            assert(tag_quote(tags[j]) is None);
        }
        if exists|m: int|
            0 <= m < tags.len() && (#[trigger] tags[m]).text_at("rel"@) == Some(
                "https://misskey-hub.net/ns#_misskey_quote"@,
            ) && tags[m].text_at("href"@) == Some(uri) && forall|j: int|
                0 <= j < m && (#[trigger] tags[j]).text_at("rel"@) == Some(
                    "https://misskey-hub.net/ns#_misskey_quote"@,
                ) ==> tags[j].text_at("href"@) is None {
            let m: int = choose|m: int|
                0 <= m < tags.len() && (#[trigger] tags[m]).text_at("rel"@) == Some(
                    "https://misskey-hub.net/ns#_misskey_quote"@,
                ) && tags[m].text_at("href"@) == Some(uri) && forall|j: int|
                    0 <= j < m && (#[trigger] tags[j]).text_at("rel"@) == Some(
                        "https://misskey-hub.net/ns#_misskey_quote"@,
                    ) ==> tags[j].text_at("href"@) is None;
            assert(tag_quote(tags[m]) is Some);
            assert(tag_quote(tags[k]) is Some);
            assert(m == k);
        }
    }
}

proof fn lemma_first_tag_quote(tags: Seq<JsonModel>, i: int)
    requires
        0 <= i <= tags.len(),
    ensures
        first_tag_quote(tags, i) is Some ==> exists|k: int|
            i <= k < tags.len() && tag_quote(#[trigger] tags[k]) == first_tag_quote(tags, i)
                && forall|j: int| i <= j < k ==> tag_quote(#[trigger] tags[j]) is None,
        first_tag_quote(tags, i) is None ==> forall|k: int|
            i <= k < tags.len() ==> tag_quote(#[trigger] tags[k]) is None,
    decreases tags.len() - i,
{
    if i < tags.len() {
        if tag_quote(tags[i]) is None {
            lemma_first_tag_quote(tags, i + 1);
        } else {
            assert(tag_quote(tags[i]) == first_tag_quote(tags, i));
        }
    }
}

/// The four ways in which a line that stands in for a quote begins.
pub open spec fn is_mark(m: Seq<char>) -> bool {
    m == "RE:"@ || m == "QT:"@ || m == "RE "@ || m == "QT "@
}

proof fn lemma_mark(mark: Seq<char>, rest: Seq<char>)
    requires
        is_mark(mark),
    ensures
        has_quote_marker(mark + rest),
        mark.len() == 3,
        !text::is_white_space(mark[0]),
        !mark.contains('\n'),
{
    reveal_strlit("RE:");
    reveal_strlit("QT:");
    reveal_strlit("RE ");
    reveal_strlit("QT ");
    assert((mark + rest).subrange(0, 3) =~= mark);
}

proof fn lemma_last_line(body: Seq<char>, line: Seq<char>)
    requires
        line.len() > 0,
        !line.contains('\n'),
        !text::is_white_space(line.last()),
    ensures
        ({
            let s = body + seq!['\n'] + line;
            let k: int = body.len() as int + 1;
            &&& text::trimmed_end(s) == s
            &&& last_line_start(s) == k
            &&& s.subrange(k, s.len() as int) == line
            &&& text::trimmed_end(s.subrange(0, k)) == text::trimmed_end(body)
        }),
{
    reveal_strlit("\n");
    let s = body + seq!['\n'] + line;
    let n: int = body.len() as int;
    let p = "\n"@;
    assert(p =~= seq!['\n']);
    assert(s.last() == line.last());
    text::lemma_rfind_from(s, p, s.len() as int);
    assert(s.subrange(n, n + 1) =~= p);
    assert(text::occurs_at(s, p, n));
    match text::rfind(s, p) {
        Some(k) => {
            assert(text::occurs_at(s, p, k));
            if k > n {
                assert(s.subrange(k, k + 1)[0] == '\n');
                assert(s[k] == line[k - n - 1]);
                assert(line.contains(line[k - n - 1]));
            }
        },
        None => {},
    }
    assert(s.subrange(n + 1, s.len() as int) =~= line);
    assert(s.subrange(0, n + 1) =~= body.push('\n'));
    assert(body.push('\n').drop_last() =~= body);
}

proof fn lemma_untrimmed(line: Seq<char>)
    requires
        line.len() > 0,
        !text::is_white_space(line[0]),
        !text::is_white_space(line.last()),
    ensures
        text::trimmed(line) == line,
        text::trimmed_start(line) == line,
{
}

/// A last line that is marked as standing in for the quote, and names it, is cut off;
/// what is left is the text in front of it, without white space at its end.
pub proof fn law_last_quote_line_is_dropped(
    body: Seq<char>,
    mark: Seq<char>,
    gap: Seq<char>,
    quote_uri: Seq<char>,
)
    requires
        is_mark(mark),
        !gap.contains('\n'),
        quote_uri.len() > 0,
        !quote_uri.contains('\n'),
        !text::is_white_space(quote_uri.last()),
    ensures
        without_quote_line(body + seq!['\n'] + (mark + gap + quote_uri), quote_uri)
            == text::trimmed_end(body),
{
    let line = mark + gap + quote_uri;
    lemma_quote_line(mark, gap, quote_uri);
    lemma_last_line(body, line);
}

proof fn lemma_quote_line(mark: Seq<char>, gap: Seq<char>, quote_uri: Seq<char>)
    requires
        is_mark(mark),
        !gap.contains('\n'),
        quote_uri.len() > 0,
        !quote_uri.contains('\n'),
        !text::is_white_space(quote_uri.last()),
    ensures
        ({
            let line = mark + gap + quote_uri;
            &&& line.len() > 0
            &&& !line.contains('\n')
            &&& !text::is_white_space(line[0])
            &&& !text::is_white_space(line.last())
            &&& is_quote_line(line, quote_uri)
        }),
{
    let line = mark + gap + quote_uri;
    lemma_mark(mark, gap + quote_uri);
    assert(line =~= mark + (gap + quote_uri));
    assert(line.last() == quote_uri.last());
    assert(line[0] == mark[0]);
    lemma_untrimmed(line);
    let at: int = (mark.len() + gap.len()) as int;
    assert(line.subrange(at, at + quote_uri.len()) =~= quote_uri);
    assert(text::occurs_at(line, quote_uri, at));
    assert forall|i: int| 0 <= i < line.len() implies #[trigger] line[i] != '\n' by {
        if i < mark.len() {
            assert(line[i] == mark[i]);
            assert(mark.contains(mark[i]));
        } else if i < at {
            assert(line[i] == gap[i - mark.len()]);
            assert(gap.contains(gap[i - mark.len()]));
        } else {
            assert(line[i] == quote_uri[i - at]);
            assert(quote_uri.contains(quote_uri[i - at]));
        }
    }
}

/// A first line that is marked as standing in for the quote, and names it, is cut off;
/// what is left is the text behind it, without white space at its front.
pub proof fn law_first_quote_line_is_dropped(
    body: Seq<char>,
    mark: Seq<char>,
    gap: Seq<char>,
    quote_uri: Seq<char>,
)
    requires
        is_mark(mark),
        !gap.contains('\n'),
        quote_uri.len() > 0,
        !quote_uri.contains('\n'),
        !text::is_white_space(quote_uri.last()),
    ensures
        without_leading_quote_line(mark + gap + quote_uri + seq!['\n'] + body, quote_uri)
            == text::trimmed_start(body),
{
    let line = mark + gap + quote_uri;
    lemma_quote_line(mark, gap, quote_uri);
    lemma_first_line(line, body);
}

proof fn lemma_first_line(line: Seq<char>, body: Seq<char>)
    requires
        line.len() > 0,
        !line.contains('\n'),
        !text::is_white_space(line[0]),
    ensures
        ({
            let s = line + seq!['\n'] + body;
            let k: int = line.len() as int;
            &&& text::trimmed_start(s) == s
            &&& first_line_end(s) == k
            &&& s.subrange(0, k) == line
            &&& text::trimmed_start(s.subrange(k, s.len() as int)) == text::trimmed_start(body)
        }),
{
    reveal_strlit("\n");
    let s = line + seq!['\n'] + body;
    let n: int = line.len() as int;
    let p = "\n"@;
    assert(p =~= seq!['\n']);
    assert(s[0] == line[0]);
    text::lemma_find_from(s, p, 0);
    assert(s.subrange(n, n + 1) =~= p);
    assert(text::occurs_at(s, p, n));
    match text::find_from(s, p, 0) {
        Some(k) => {
            assert(text::occurs_at(s, p, k));
            if k < n {
                assert(s.subrange(k, k + 1)[0] == '\n');
                assert(s[k] == line[k]);
                assert(line.contains(line[k]));
            }
        },
        None => {},
    }
    assert(s.subrange(0, n) =~= line);
    let rest = s.subrange(n, s.len() as int);
    assert(rest[0] == '\n');
    assert(rest.drop_first() =~= body);
}

/// A last line that does not begin like one that stands in for a quote stays, and so
/// does the whole text.
pub proof fn law_other_last_lines_stay(body: Seq<char>, line: Seq<char>, quote_uri: Seq<char>)
    requires
        line.len() > 0,
        !line.contains('\n'),
        !text::is_white_space(line[0]),
        !text::is_white_space(line.last()),
        !text::starts_with(line, "RE:"@),
        !text::starts_with(line, "QT:"@),
        !text::starts_with(line, "RE "@),
        !text::starts_with(line, "QT "@),
    ensures
        without_quote_line(body + seq!['\n'] + line, quote_uri) == body + seq!['\n'] + line,
{
    lemma_last_line(body, line);
    lemma_untrimmed(line);
}

/// A line names a post also where it holds the post's server and its key, however the
/// address is written.
pub proof fn law_quote_is_named_by_server_and_key(
    line: Seq<char>,
    host: Seq<char>,
    path: Seq<char>,
    key: Seq<char>,
)
    requires
        host.len() > 0,
        !host.contains('/'),
        !host.contains(':'),
        !path.contains(':'),
        key.len() >= 6,
        forall|i: int| 0 <= i < key.len() ==> text::ascii_alphanumeric(#[trigger] key[i]),
        text::contains_text(line, host),
        text::contains_text(line, key),
    ensures
        points_at_quote(line, "https://"@ + host + seq!['/'] + path + seq!['/'] + key),
{
    reveal_strlit("https://");
    reveal_strlit("://");
    reveal_strlit("/");
    assert("https://"@.len() == 8);
    assert("://"@.len() == 3);
    assert("/"@.len() == 1);
    let rest = host + seq!['/'] + (path + seq!['/'] + key);
    let u = "https://"@ + host + seq!['/'] + path + seq!['/'] + key;
    let sep = "://"@;
    assert(u =~= "https://"@ + rest);
    assert("/"@ =~= seq!['/']);
    assert forall|i: int| 0 <= i < key.len() implies key[i] != '/' by {
        assert(text::ascii_alphanumeric(key[i]));
    }
    assert(!key.contains('/'));
    assert(u =~= ("https://"@ + host + seq!['/'] + path) + seq!['/'] + key);
    text::lemma_after_last("https://"@ + host + seq!['/'] + path, '/', key, "/"@);
    text::lemma_find_from(u, sep, 0);
    assert(u.subrange(5, 8) =~= sep);
    assert(text::occurs_at(u, sep, 5));
    match text::find_from(u, sep, 0) {
        Some(k) => {
            assert(text::occurs_at(u, sep, k));
            if k < 5 {
                assert(u.subrange(k, k + 3)[0] == ':');
                assert(u[k] == "https://"@[k]);
            }
        },
        None => {},
    }
    assert(u.subrange(8, u.len() as int) =~= rest);
    text::lemma_find_from(rest, sep, 0);
    if let Some(k) = text::find_from(rest, sep, 0) {
        assert(text::occurs_at(rest, sep, k));
        assert(rest.subrange(k, k + 3)[0] == ':');
        let n: int = host.len() as int;
        if k < n {
            assert(host.contains(host[k]));
        } else if n < k < n + 1 + path.len() {
            assert(rest[k] == path[k - n - 1]);
            assert(path.contains(path[k - n - 1]));
        } else if k > n + 1 + path.len() {
            let j: int = k - n - 2 - path.len();
            assert(rest[k] == key[j]);
            assert(text::ascii_alphanumeric(key[j]));
        }
        assert(false);
    }
    lemma_cut(host, path + seq!['/'] + key);
}

/// The type of an attachment is the one that is stated, and else the one that the
/// ending of its address stands for, in any case.
pub proof fn law_ending_gives_the_type(att: JsonModel, stem: Seq<char>, ext: Seq<char>, kind: Seq<char>)
    requires
        !ext.contains('.'),
    ensures
        ({
            let url = stem + seq!['.'] + ext;
            let low = text::ascii_lower(ext);
            let stated = att.text_at("mediaType"@);
            &&& stated == Some(kind) && kind.len() > 0 ==> attachment_mime(att, url) == Some(kind)
            &&& stated is None || stated == Some(Seq::<char>::empty()) ==> {
                let found = attachment_mime(att, url);
                &&& low == "mp4"@ || low == "m4v"@ ==> found == Some("video/mp4"@)
                &&& low == "webm"@ ==> found == Some("video/webm"@)
                &&& low == "mov"@ ==> found == Some("video/quicktime"@)
                &&& low == "mp3"@ ==> found == Some("audio/mpeg"@)
                &&& low == "ogg"@ || low == "oga"@ ==> found == Some("audio/ogg"@)
                &&& low == "wav"@ ==> found == Some("audio/wav"@)
                &&& low == "m4a"@ ==> found == Some("audio/mp4"@)
                &&& low == "flac"@ ==> found == Some("audio/flac"@)
                &&& found matches Some(t) ==> text::starts_with(t, "video/"@) || text::starts_with(
                    t,
                    "audio/"@,
                )
            }
        }),
{
    reveal_strlit("mp4");
    reveal_strlit("m4v");
    reveal_strlit("webm");
    reveal_strlit("mov");
    reveal_strlit("mp3");
    reveal_strlit("ogg");
    reveal_strlit("oga");
    reveal_strlit("wav");
    reveal_strlit("m4a");
    reveal_strlit("flac");
    assert("mp4"@.len() == 3);
    assert("m4v"@.len() == 3);
    assert("webm"@.len() == 4);
    assert("mov"@.len() == 3);
    assert("mp3"@.len() == 3);
    assert("ogg"@.len() == 3);
    assert("oga"@.len() == 3);
    assert("wav"@.len() == 3);
    assert("m4a"@.len() == 3);
    assert("flac"@.len() == 4);
    assert("mp4"@[1] != "m4v"@[1]);
    assert("mp4"@[1] != "mov"@[1]);
    assert("mp4"@[2] != "mp3"@[2]);
    assert("mp4"@[0] != "ogg"@[0]);
    assert("mp4"@[0] != "oga"@[0]);
    assert("mp4"@[0] != "wav"@[0]);
    assert("mp4"@[1] != "m4a"@[1]);
    assert("m4v"@[1] != "mov"@[1]);
    assert("m4v"@[1] != "mp3"@[1]);
    assert("m4v"@[0] != "ogg"@[0]);
    assert("m4v"@[0] != "oga"@[0]);
    assert("m4v"@[0] != "wav"@[0]);
    assert("m4v"@[2] != "m4a"@[2]);
    assert("webm"@[0] != "flac"@[0]);
    assert("mov"@[1] != "mp3"@[1]);
    assert("mov"@[0] != "ogg"@[0]);
    assert("mov"@[0] != "oga"@[0]);
    assert("mov"@[0] != "wav"@[0]);
    assert("mov"@[1] != "m4a"@[1]);
    assert("mp3"@[0] != "ogg"@[0]);
    assert("mp3"@[0] != "oga"@[0]);
    assert("mp3"@[0] != "wav"@[0]);
    assert("mp3"@[1] != "m4a"@[1]);
    assert("ogg"@[2] != "oga"@[2]);
    assert("ogg"@[0] != "wav"@[0]);
    assert("ogg"@[0] != "m4a"@[0]);
    assert("oga"@[0] != "wav"@[0]);
    assert("oga"@[0] != "m4a"@[0]);
    assert("wav"@[0] != "m4a"@[0]);
    reveal_strlit(".");
    reveal_strlit("video/");
    reveal_strlit("audio/");
    reveal_strlit("video/mp4");
    reveal_strlit("video/webm");
    reveal_strlit("video/quicktime");
    reveal_strlit("audio/mpeg");
    reveal_strlit("audio/ogg");
    reveal_strlit("audio/wav");
    reveal_strlit("audio/mp4");
    reveal_strlit("audio/flac");
    assert("."@ =~= seq!['.']);
    text::lemma_after_last(stem, '.', ext, "."@);
    if let Some(t) = mime_of_extension(text::ascii_lower(ext)) {
        assert(t.subrange(0, 6) =~= "video/"@ || t.subrange(0, 6) =~= "audio/"@);
    }
}

/// A local user is mentioned in a note exactly where a tag of it is a mention that
/// leads to the user's actor.
pub proof fn law_mentioned_users_are_tagged(ts: Seq<JsonModel>, local_domain: Seq<char>, user: Seq<char>)
    ensures
        mentioned_local_users(ts, local_domain).contains(user) <==> exists|k: int|
            0 <= k < ts.len() && (#[trigger] ts[k]).text_at("type"@) == Some("Mention"@)
                && ts[k].text_at("href"@) == Some(ap::local_actor_uri(local_domain, user)),
    decreases ts.len(),
{
    let uri = ap::local_actor_uri(local_domain, user);
    if ts.len() > 0 {
        let front = ts.drop_last();
        law_mentioned_users_are_tagged(front, local_domain, user);
        ap::law_local_actor_uri_names_its_user(local_domain, user);
        if let Some(h) = ts.last().text_at("href"@) {
            ap::law_local_user_has_one_address(h, local_domain);
        }
        let all = mentioned_local_users(ts, local_domain);
        let old_all = mentioned_local_users(front, local_domain);
        if exists|k: int|
            0 <= k < ts.len() && (#[trigger] ts[k]).text_at("type"@) == Some("Mention"@)
                && ts[k].text_at("href"@) == Some(uri) {
            let k: int = choose|k: int|
                0 <= k < ts.len() && (#[trigger] ts[k]).text_at("type"@) == Some("Mention"@)
                    && ts[k].text_at("href"@) == Some(uri);
            if k < front.len() {
                assert(front[k] == ts[k]);
                let j: int = choose|j: int| 0 <= j < old_all.len() && old_all[j] == user;
                assert(all[j] == user);
            } else {
                assert(all[all.len() - 1] == user);
            }
        }
        if all.contains(user) {
            let j: int = choose|j: int| 0 <= j < all.len() && all[j] == user;
            if j < old_all.len() {
                assert(old_all[j] == user);
                let k: int = choose|k: int|
                    0 <= k < front.len() && (#[trigger] front[k]).text_at("type"@) == Some(
                        "Mention"@,
                    ) && front[k].text_at("href"@) == Some(uri);
                assert(ts[k] == front[k]);
            } else {
                assert(ts[ts.len() - 1] == ts.last());
            }
        }
    }
}

/// A post of this server is known by its web address, `https://`, the domain, `/notes/`
/// and its number, whether that stands as the note's address or as its identifier; the
/// note's address counts first.
pub proof fn law_own_addresses_are_known(local_domain: Seq<char>, id: i64, other: Seq<char>)
    ensures
        ({
            let own = "https://"@ + local_domain + "/notes/"@ + decimal::int_text(id as int);
            &&& local_note_id(own, local_domain) == Some(id)
            &&& loopback_post_id(local_domain, other, own) == Some(id)
            &&& local_note_id(other, local_domain) is None ==> loopback_post_id(
                local_domain,
                own,
                other,
            ) == Some(id)
        }),
{
    let p = local_notes_prefix(local_domain);
    let own = p + decimal::int_text(id as int);
    assert(own.subrange(0, p.len() as int) =~= p);
    assert(own.subrange(p.len() as int, own.len() as int) =~= decimal::int_text(id as int));
    decimal::law_notation_denotes(id as int);
}

/// A line points at a quoted note by its address, or by its server and its key; a key
/// of fewer than six characters is too short to be one.
pub proof fn law_short_keys_name_no_quote(s: Seq<char>, quote_uri: Seq<char>)
    ensures
        points_at_quote(s, quote_uri) && !text::contains_text(s, quote_uri) ==> {
            let key = text::after_last(quote_uri, "/"@);
            &&& key.len() >= 6
            &&& text::contains_text(s, key)
            &&& forall|i: int| 0 <= i < key.len() ==> text::ascii_alphanumeric(#[trigger] key[i])
            &&& quote_host(quote_uri) is Some
            &&& text::contains_text(s, quote_host(quote_uri)->0)
        },
{
}

proof fn lemma_cut_at_slash(a: Seq<char>, b: Seq<char>)
    requires
        !a.contains('/'),
    ensures
        text::before_text(a + "/"@ + b, "/"@) == a,
        text::after_text(a + "/"@ + b, "/"@) == Some(b),
{
    reveal_strlit("/");
    assert("/"@.len() == 1);
    let s = a + "/"@ + b;
    assert forall|j: int| 0 <= j < a.len() implies !text::occurs_at(s, "/"@, j) by {
        if text::occurs_at(s, "/"@, j) {
            assert(s.subrange(j, j + 1)[0] == '/');
            assert(a.contains(a[j]));
        }
    }
    text::law_text_is_cut_at_the_mark(a, "/"@, b);
}

/// A page of Bluesky that is no post, and a page of any other site, is the copy of no
/// post.
pub proof fn law_other_pages_are_no_posts(
    account: Seq<char>,
    page: Seq<char>,
    rest: Seq<char>,
    url: Seq<char>,
)
    requires
        !account.contains('/'),
        !page.contains('/'),
        page != "post"@,
    ensures
        at_uri_of_bsky_url("https://bsky.app/profile/"@ + account + "/"@ + page + "/"@ + rest)
            is None,
        !text::starts_with(url, "https://bsky.app/profile/"@) ==> at_uri_of_bsky_url(url) is None,
{
    let p = "https://bsky.app/profile/"@;
    let tail = page + "/"@ + rest;
    let more = account + "/"@ + tail;
    let s = p + account + "/"@ + page + "/"@ + rest;
    assert(s =~= p + more);
    assert(s.subrange(0, p.len() as int) =~= p);
    assert(s.subrange(p.len() as int, s.len() as int) =~= more);
    lemma_cut_at_slash(account, tail);
    lemma_cut_at_slash(page, rest);
}

} // verus!
