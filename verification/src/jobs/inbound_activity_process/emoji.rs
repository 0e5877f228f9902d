//! Custom emojis of remote notes, profiles and reactions.

use crate::json;
use crate::json::{Json, JsonModel, Member, MemberModel};
use crate::origin;
use crate::text;
use vstd::prelude::*;
use vstd::slice::slice_subrange;

verus! {

/// The bare name of an emoji that is written `:name:`, `:name@host:` or `name`.
pub open spec fn bare_shortcode(s: Seq<char>) -> Seq<char> {
    text::before_any(text::without_outer(s, ':'), text::just('@'))
}

/// The bare name of an emoji.
pub fn bare_shortcode_of(s: &str) -> (r: String)
    ensures
        r@ == bare_shortcode(s@),
{
    let chars: Vec<char> = text::chars_of(s);
    let name: &[char] = text::trim_char(chars.as_slice(), ':');
    let end: usize = text::next_char(name, '@', 0);
    text::string_of(slice_subrange(name, 0, end))
}

/// The name and the image address that an emoji tag gives.
pub open spec fn emoji_of(t: JsonModel) -> Option<(Seq<char>, Seq<char>)> {
    let name = t.text_at("name"@);
    let url = t.at("icon"@).text_at("url"@);
    if t.text_at("type"@) == Some("Emoji"@) && name is Some && url is Some {
        Some((name->0, url->0))
    } else {
        None
    }
}

/// The image address of the first tag from index `i` on for an emoji of the
/// given bare name.
pub open spec fn emoji_url_from(ts: Seq<JsonModel>, name: Seq<char>, i: int) -> Option<Seq<char>>
    decreases ts.len() - i,
{
    if i < 0 || i >= ts.len() {
        None
    } else {
        match emoji_of(ts[i]) {
            Some(e) if bare_shortcode(e.0) == name => Some(e.1),
            _ => emoji_url_from(ts, name, i + 1),
        }
    }
}

/// The name and the image address that an emoji tag gives.
fn read_emoji<'a>(t: &'a Json) -> (r: Option<(&'a str, &'a str)>)
    ensures
        (match r {
            Some(e) => Some((e.0@, e.1@)),
            None => None,
        }) == emoji_of(t@),
{
    if !t.text_is("type", "Emoji") {
        return None;
    }
    let name: &str = match t.text_at("name") {
        Some(n) => n,
        None => {
            return None;
        },
    };
    let icon: &Json = match t.get("icon") {
        Some(j) => j,
        None => {
            return None;
        },
    };
    match icon.text_at("url") {
        Some(u) => Some((name, u)),
        None => None,
    }
}

/// The image address of the first tag for an emoji.
pub fn extract_emoji_tag_url_from_tags(tags: &[Json], target_shortcode: &str) -> (r: Option<String>)
    ensures
        text::string_view(r) == emoji_url_from(
            json::models(tags@),
            bare_shortcode(target_shortcode@),
            0,
        ),
{
    let wanted: String = bare_shortcode_of(target_shortcode);
    let ghost ts = json::models(tags@);
    let mut i: usize = 0;
    while i < tags.len()
        invariant
            i <= tags@.len(),
            ts == json::models(tags@),
            wanted@ == bare_shortcode(target_shortcode@),
            emoji_url_from(ts, wanted@, 0) == emoji_url_from(ts, wanted@, i as int),
        decreases tags@.len() - i,
    {
        assert(ts[i as int] == tags@[i as int]@);
        match read_emoji(&tags[i]) {
            Some((name, url)) => {
                if text::same_str(bare_shortcode_of(name).as_str(), wanted.as_str()) {
                    return Some(url.to_owned());
                }
            },
            None => {},
        }
        i += 1;
    }
    None
}

/// The image address that the tags of an activity or a note give for an emoji.
pub fn extract_emoji_tag_url(value: &Json, shortcode: &str) -> (r: Option<String>)
    ensures
        text::string_view(r) == emoji_url_from(
            value@.at("tag"@).items(),
            bare_shortcode(shortcode@),
            0,
        ),
{
    match value.arr_at("tag") {
        Some(tags) => extract_emoji_tag_url_from_tags(tags.as_slice(), shortcode),
        None => None,
    }
}

/// The image address of an emoji: the one that the tags give, else the first one
/// that is on record for the sender's domain.
pub open spec fn single_emoji_url(
    ts: Seq<JsonModel>,
    shortcode: Seq<char>,
    on_record: Seq<(String, String)>,
) -> Option<Seq<char>> {
    let tagged = emoji_url_from(ts, bare_shortcode(shortcode), 0);
    if tagged is Some {
        tagged
    } else if on_record.len() > 0 {
        Some(on_record[0].1@)
    } else {
        None
    }
}

/// The image address of an emoji.
pub fn resolve_single_emoji_url_with_fallback(
    tags: &[Json],
    shortcode: &str,
    on_record: &Vec<(String, String)>,
) -> (r: Option<String>)
    ensures
        text::string_view(r) == single_emoji_url(json::models(tags@), shortcode@, on_record@),
{
    let tagged: Option<String> = extract_emoji_tag_url_from_tags(tags, shortcode);
    if tagged.is_some() {
        return tagged;
    }
    if on_record.len() > 0 {
        Some(on_record[0].1.clone())
    } else {
        None
    }
}

/// The members of the emoji map that tags give: the image address under the name
/// of each emoji.
pub open spec fn emoji_members(ts: Seq<JsonModel>) -> Seq<MemberModel>
    decreases ts.len(),
{
    if ts.len() == 0 {
        seq![]
    } else {
        match emoji_of(ts.last()) {
            Some(e) => json::with_member(
                emoji_members(ts.drop_last()),
                e.0,
                JsonModel::Str(e.1),
            ),
            None => emoji_members(ts.drop_last()),
        }
    }
}

/// The members of the emoji map that tags give.
fn make_emoji_members(tags: &[Json]) -> (r: Vec<Member>)
    ensures
        json::member_models(r@) == emoji_members(json::models(tags@)),
{
    let ghost ts = json::models(tags@);
    let mut out: Vec<Member> = Vec::new();
    let mut i: usize = 0;
    assert(json::member_models(out@) =~= seq![]);
    while i < tags.len()
        invariant
            i <= tags@.len(),
            ts == json::models(tags@),
            json::member_models(out@) == emoji_members(ts.take(i as int)),
        decreases tags@.len() - i,
    {
        proof {
            assert(ts.take(i + 1).drop_last() =~= ts.take(i as int));
            assert(ts.take(i + 1).last() == tags@[i as int]@);
        }
        match read_emoji(&tags[i]) {
            Some((name, url)) => {
                json::put_member(&mut out, name, json::text_json(url));
            },
            None => {},
        }
        i += 1;
    }
    assert(ts.take(i as int) =~= ts);
    out
}

/// The emoji map that tags give.
pub fn build_emoji_map(tags: &[Json]) -> (r: Json)
    ensures
        r@ == JsonModel::Obj(emoji_members(json::models(tags@))),
{
    json::object(make_emoji_members(tags))
}

/// An emoji as it is written in a text.
pub open spec fn colon_code(code: Seq<char>) -> Seq<char> {
    ":"@ + code + ":"@
}

/// The emojis of a text that a map does not know.
pub open spec fn missing_codes(map: JsonModel, codes: Seq<Seq<char>>) -> Seq<Seq<char>>
    decreases codes.len(),
{
    if codes.len() == 0 {
        seq![]
    } else if map.member(colon_code(codes.last())) is None {
        missing_codes(map, codes.drop_last()).push(codes.last())
    } else {
        missing_codes(map, codes.drop_last())
    }
}

/// The emojis of a text that a map does not know.
pub fn missing_shortcodes(map: &Json, codes: &Vec<String>) -> (r: Vec<String>)
    ensures
        text::string_contents(r@) == missing_codes(map@, text::string_contents(codes@)),
{
    let ghost cs = text::string_contents(codes@);
    let mut out: Vec<String> = Vec::new();
    let mut i: usize = 0;
    assert(text::string_contents(out@) =~= seq![]);
    while i < codes.len()
        invariant
            i <= codes@.len(),
            cs == text::string_contents(codes@),
            text::string_contents(out@) == missing_codes(map@, cs.take(i as int)),
        decreases codes@.len() - i,
    {
        proof {
            assert(cs.take(i + 1).drop_last() =~= cs.take(i as int));
            assert(cs.take(i + 1).last() == codes@[i as int]@);
        }
        let ghost before = text::string_contents(out@);
        if map.get(text::cat3(":", codes[i].as_str(), ":").as_str()).is_none() {
            out.push(codes[i].clone());
            assert(text::string_contents(out@) =~= before.push(codes@[i as int]@));
        }
        i += 1;
    }
    assert(cs.take(i as int) =~= cs);
    out
}

/// Whether a text has an emoji that the note's tags do not know. `codes` are the
/// emojis that the text has.
pub fn has_unresolved_emoji_shortcodes(tags: &[Json], codes: &Vec<String>) -> (r: bool)
    ensures
        r == (exists|i: int|
            0 <= i < codes@.len() && JsonModel::Obj(emoji_members(json::models(tags@))).member(
                colon_code(#[trigger] codes@[i]@),
            ) is None),
{
    let map: Json = build_emoji_map(tags);
    let mut i: usize = 0;
    while i < codes.len()
        invariant
            i <= codes@.len(),
            map@ == JsonModel::Obj(emoji_members(json::models(tags@))),
            forall|k: int|
                0 <= k < i ==> map@.member(colon_code(#[trigger] codes@[k]@)) is Some,
        decreases codes@.len() - i,
    {
        if map.get(text::cat3(":", codes[i].as_str(), ":").as_str()).is_none() {
            assert(map@.member(colon_code(codes@[i as int]@)) is None);
            return true;
        }
        i += 1;
    }
    false
}

/// The map with the image addresses that are on record put in.
pub open spec fn filled_members(ms: Seq<MemberModel>, pairs: Seq<(String, String)>) -> Seq<MemberModel>
    decreases pairs.len(),
{
    if pairs.len() == 0 {
        ms
    } else {
        json::with_member(
            filled_members(ms, pairs.drop_last()),
            colon_code(pairs.last().0@),
            JsonModel::Str(pairs.last().1@),
        )
    }
}

/// The emoji map of a text: what the note's tags give, and what is on record for
/// the emojis that they do not know.
pub fn resolve_emoji_map_with_fallback(tags: &[Json], on_record: &Vec<(String, String)>) -> (r: Json)
    ensures
        r@ == JsonModel::Obj(
            filled_members(emoji_members(json::models(tags@)), on_record@),
        ),
{
    let mut ms: Vec<Member> = make_emoji_members(tags);
    let ghost start = json::member_models(ms@);
    let mut i: usize = 0;
    assert(on_record@.take(0) =~= seq![]);
    while i < on_record.len()
        invariant
            i <= on_record@.len(),
            json::member_models(ms@) == filled_members(start, on_record@.take(i as int)),
        decreases on_record@.len() - i,
    {
        proof {
            assert(on_record@.take(i + 1).drop_last() =~= on_record@.take(i as int));
            assert(on_record@.take(i + 1).last() == on_record@[i as int]);
        }
        let key: String = text::cat3(":", on_record[i].0.as_str(), ":");
        json::put_member(&mut ms, key.as_str(), json::text_json(on_record[i].1.as_str()));
        i += 1;
    }
    assert(on_record@.take(i as int) =~= on_record@);
    json::object(ms)
}

/// Whether two addresses have the same origin.
pub fn has_same_origin(left: &str, right: &str) -> (r: bool)
    ensures
        r == origin::same_origin(origin::origin_of(left@), origin::origin_of(right@)),
{
    origin::origins_agree(&origin::read_origin(left), &origin::read_origin(right))
}

/// An emoji of a remote server, as it goes on record.
pub struct SeenEmoji {
    pub shortcode: String,
    pub url: String,
    pub tags: Vec<String>,
    pub license: Option<String>,
}

/// What an emoji on record stands for.
pub struct SeenEmojiModel {
    pub shortcode: Seq<char>,
    pub url: Seq<char>,
    pub tags: Seq<Seq<char>>,
    pub license: Option<Seq<char>>,
}

impl View for SeenEmoji {
    type V = SeenEmojiModel;

    open spec fn view(&self) -> SeenEmojiModel {
        SeenEmojiModel {
            shortcode: self.shortcode@,
            url: self.url@,
            tags: text::string_contents(self.tags@),
            license: text::string_view(self.license),
        }
    }
}

/// The texts of a list that are not blank, trimmed.
pub open spec fn trimmed_texts(vs: Seq<JsonModel>) -> Seq<Seq<char>>
    decreases vs.len(),
{
    if vs.len() == 0 {
        seq![]
    } else {
        match vs.last().as_str() {
            Some(t) if text::trimmed(t).len() > 0 => trimmed_texts(vs.drop_last()).push(
                text::trimmed(t),
            ),
            _ => trimmed_texts(vs.drop_last()),
        }
    }
}

/// The emoji that goes on record for a tag; none where the tag is no emoji or
/// its name is nothing but colons.
pub open spec fn seen_emoji(t: JsonModel) -> Option<SeenEmojiModel> {
    match emoji_of(t) {
        Some(e) if text::without_outer(e.0, ':').len() > 0 => Some(
            SeenEmojiModel {
                shortcode: text::without_outer(e.0, ':'),
                url: e.1,
                tags: trimmed_texts(t.at("aliases"@).items()) + trimmed_texts(t.at("tags"@).items())
                    + trimmed_texts(t.at("keywords"@).items()),
                license: t.at("_misskey_license"@).text_at("freeText"@),
            },
        ),
        _ => None,
    }
}

/// The emojis that go on record for tags, in order.
pub open spec fn seen_emoji_models(ts: Seq<JsonModel>) -> Seq<SeenEmojiModel>
    decreases ts.len(),
{
    if ts.len() == 0 {
        seq![]
    } else {
        match seen_emoji(ts.last()) {
            Some(e) => seen_emoji_models(ts.drop_last()).push(e),
            None => seen_emoji_models(ts.drop_last()),
        }
    }
}

/// Appends the texts, trimmed, that a tag lists under a key.
fn append_texts(out: &mut Vec<String>, t: &Json, key: &str)
    ensures
        text::string_contents(final(out)@) == text::string_contents(old(out)@) + trimmed_texts(
            t@.at(key@).items(),
        ),
{
    let ghost start = text::string_contents(old(out)@);
    match t.arr_at(key) {
        None => {
            assert(t@.at(key@).items() =~= seq![]);
            assert(start + trimmed_texts(seq![]) =~= start);
        },
        Some(v) => {
            let ghost vs = json::models(v@);
            let mut i: usize = 0;
            assert(start + trimmed_texts(vs.take(0)) =~= start);
            while i < v.len()
                invariant
                    i <= v@.len(),
                    vs == json::models(v@),
                    text::string_contents(out@) == start + trimmed_texts(vs.take(i as int)),
                decreases v@.len() - i,
            {
                proof {
                    assert(vs.take(i + 1).drop_last() =~= vs.take(i as int));
                    assert(vs.take(i + 1).last() == v@[i as int]@);
                }
                let ghost before = text::string_contents(out@);
                match v[i].as_str() {
                    Some(s) => {
                        let chars: Vec<char> = text::chars_of(s);
                        let short: &[char] = text::trim(chars.as_slice());
                        if short.len() > 0 {
                            out.push(text::string_of(short));
                            assert(text::string_contents(out@) =~= before.push(short@));
                            assert(before.push(short@) =~= start + trimmed_texts(
                                vs.take(i as int),
                            ).push(short@));
                        }
                    },
                    None => {},
                }
                i += 1;
            }
            assert(vs.take(i as int) =~= vs);
        },
    }
}

/// The emoji that goes on record for a tag.
fn make_seen_emoji(t: &Json) -> (r: Option<SeenEmoji>)
    ensures
        (match r {
            Some(e) => Some(e@),
            None => None,
        }) == seen_emoji(t@),
{
    let (name, url): (&str, &str) = match read_emoji(t) {
        Some(e) => e,
        None => {
            return None;
        },
    };
    let chars: Vec<char> = text::chars_of(name);
    let code: &[char] = text::trim_char(chars.as_slice(), ':');
    if code.len() == 0 {
        return None;
    }
    let mut tags: Vec<String> = Vec::new();
    assert(text::string_contents(tags@) =~= seq![]);
    append_texts(&mut tags, t, "aliases");
    append_texts(&mut tags, t, "tags");
    append_texts(&mut tags, t, "keywords");
    let ghost listed = trimmed_texts(t@.at("aliases"@).items()) + trimmed_texts(
        t@.at("tags"@).items(),
    ) + trimmed_texts(t@.at("keywords"@).items());
    assert(text::string_contents(tags@) =~= listed);
    let license: Option<String> = match t.get("_misskey_license") {
        Some(l) => match l.text_at("freeText") {
            Some(f) => Some(f.to_owned()),
            None => None,
        },
        None => None,
    };
    Some(
        SeenEmoji { shortcode: text::string_of(code), url: url.to_owned(), tags, license },
    )
}

/// The emojis that go on record for tags, in order.
pub fn seen_emojis(tags: &[Json]) -> (r: Vec<SeenEmoji>)
    ensures
        r@.map_values(|e: SeenEmoji| e@) == seen_emoji_models(json::models(tags@)),
{
    let ghost ts = json::models(tags@);
    let ghost show = |e: SeenEmoji| e@;
    let mut out: Vec<SeenEmoji> = Vec::new();
    let mut i: usize = 0;
    assert(out@.map_values(show) =~= seq![]);
    while i < tags.len()
        invariant
            i <= tags@.len(),
            ts == json::models(tags@),
            show == (|e: SeenEmoji| e@),
            out@.map_values(show) == seen_emoji_models(ts.take(i as int)),
        decreases tags@.len() - i,
    {
        proof {
            assert(ts.take(i + 1).drop_last() =~= ts.take(i as int));
            assert(ts.take(i + 1).last() == tags@[i as int]@);
        }
        let ghost before = out@.map_values(show);
        match make_seen_emoji(&tags[i]) {
            Some(e) => {
                out.push(e);
                assert(out@.map_values(show) =~= before.push(e@));
            },
            None => {},
        }
        i += 1;
    }
    assert(ts.take(i as int) =~= ts);
    out
}

// ---------------------------------------------------------------------------
// Laws.
// ---------------------------------------------------------------------------

proof fn lemma_without_colons(code: Seq<char>)
    requires
        code.len() > 0,
        code[0] != ':',
        code.last() != ':',
    ensures
        text::without_outer(code, ':') == code,
        text::without_outer(":"@ + code + ":"@, ':') == code,
{
    reveal_strlit(":");
    assert(":"@.len() == 1);
    let f = text::just(':');
    let s = ":"@ + code + ":"@;
    text::lemma_trim_start_while(code, f, 0);
    assert(code.subrange(0, code.len() as int) =~= code);
    text::lemma_trim_end_while(code, f, code.len() as int);
    assert(s[1] == code[0]);
    text::lemma_trim_start_while(s, f, 1);
    let t = s.subrange(1, s.len() as int);
    assert(t =~= code + ":"@);
    assert(t[code.len() - 1] == code.last());
    text::lemma_trim_end_while(t, f, code.len() as int);
    assert(t.subrange(0, code.len() as int) =~= code);
}

/// A shortcode is the same emoji with or without colons, and with or without the
/// server it is from.
pub proof fn law_shortcode_is_bare(code: Seq<char>, host: Seq<char>)
    requires
        code.len() > 0,
        !code.contains('@'),
        code[0] != ':',
        code.last() != ':',
        host.len() > 0,
        host.last() != ':',
    ensures
        bare_shortcode(code) == code,
        bare_shortcode(":"@ + code + ":"@) == code,
        bare_shortcode(code + "@"@ + host) == code,
        bare_shortcode(":"@ + code + "@"@ + host + ":"@) == code,
{
    reveal_strlit(":");
    reveal_strlit("@");
    assert(":"@.len() == 1);
    assert("@"@.len() == 1);
    assert(":"@[0] != "@"@[0]);
    let f = text::just('@');
    let full = code + "@"@ + host;
    lemma_without_colons(code);
    assert(full.last() == host.last());
    assert(full[0] == code[0]);
    lemma_without_colons(full);
    assert(":"@ + code + "@"@ + host + ":"@ =~= ":"@ + full + ":"@);
    text::lemma_next_index(code, f, 0);
    text::lemma_next_index(full, f, 0);
    let n = text::next_index(code, f, 0);
    if n < code.len() {
        assert(code.contains(code[n]));
    }
    let m = text::next_index(full, f, 0);
    assert(full[code.len() as int] == '@');
    if m < code.len() {
        assert(full[m] == code[m]);
        assert(code.contains(code[m]));
    }
    assert(code.subrange(0, code.len() as int) =~= code);
    assert(full.subrange(0, code.len() as int) =~= code);
}

/// A tag is an emoji where it says so, has a name and gives an image; it is known by
/// that name and shown as that image.
pub proof fn law_emoji_has_a_name_and_an_image(t: JsonModel, name: Seq<char>, url: Seq<char>)
    ensures
        emoji_of(t) == Some((name, url)) <==> t.text_at("type"@) == Some("Emoji"@) && t.text_at(
            "name"@,
        ) == Some(name) && t.at("icon"@).text_at("url"@) == Some(url),
{
}

spec fn shows(t: JsonModel, name: Seq<char>) -> bool {
    emoji_of(t) is Some && bare_shortcode((emoji_of(t)->0).0) == name
}

proof fn lemma_emoji_url(ts: Seq<JsonModel>, name: Seq<char>, i: int)
    requires
        0 <= i,
    ensures
        emoji_url_from(ts, name, i) is None <==> forall|j: int|
            i <= j < ts.len() ==> !shows(#[trigger] ts[j], name),
        forall|k: int|
            i <= k < ts.len() && shows(#[trigger] ts[k], name) && (forall|j: int|
                i <= j < k ==> !shows(#[trigger] ts[j], name)) ==> emoji_url_from(ts, name, i)
                == Some((emoji_of(ts[k])->0).1),
    decreases ts.len() - i,
{
    if i < ts.len() {
        lemma_emoji_url(ts, name, i + 1);
        if shows(ts[i], name) {
            assert forall|k: int|
                i <= k < ts.len() && shows(#[trigger] ts[k], name) && (forall|j: int|
                    i <= j < k ==> !shows(#[trigger] ts[j], name)) implies emoji_url_from(
                ts,
                name,
                i,
            ) == Some((emoji_of(ts[k])->0).1) by {
                assert(k == i || !shows(ts[i], name));
            }
        }
    }
}

/// The image of an emoji is that of the first tag whose name is the same emoji; what
/// is on record counts only where no tag gives one.
pub proof fn law_image_is_that_of_the_tag(
    ts: Seq<JsonModel>,
    shortcode: Seq<char>,
    on_record: Seq<(String, String)>,
    k: int,
    name: Seq<char>,
    url: Seq<char>,
)
    requires
        0 <= k < ts.len(),
        ts[k].text_at("type"@) == Some("Emoji"@),
        ts[k].text_at("name"@) == Some(name),
        ts[k].at("icon"@).text_at("url"@) == Some(url),
        bare_shortcode(name) == bare_shortcode(shortcode),
        forall|j: int| 0 <= j < k ==> (#[trigger] ts[j]).text_at("type"@) != Some("Emoji"@),
    ensures
        emoji_url_from(ts, bare_shortcode(shortcode), 0) == Some(url),
        single_emoji_url(ts, shortcode, on_record) == Some(url),
{
    lemma_emoji_url(ts, bare_shortcode(shortcode), 0);
    assert(shows(ts[k], bare_shortcode(shortcode)));
}

/// An emoji without a tag is shown as what is on record, and not at all where nothing
/// is.
pub proof fn law_image_without_a_tag_is_on_record(
    ts: Seq<JsonModel>,
    shortcode: Seq<char>,
    on_record: Seq<(String, String)>,
)
    requires
        forall|j: int|
            0 <= j < ts.len() ==> (#[trigger] ts[j]).text_at("type"@) != Some("Emoji"@),
    ensures
        on_record.len() == 0 ==> single_emoji_url(ts, shortcode, on_record) is None,
        on_record.len() > 0 ==> single_emoji_url(ts, shortcode, on_record) == Some(
            on_record[0].1@,
        ),
{
    lemma_emoji_url(ts, bare_shortcode(shortcode), 0);
    assert forall|j: int| 0 <= j < ts.len() implies !shows(
        #[trigger] ts[j],
        bare_shortcode(shortcode),
    ) by {
        assert(ts[j].text_at("type"@) != Some("Emoji"@));
    }
}

/// The map of a note's emojis gives each name the image of the last tag that has it,
/// and holds no other name.
pub proof fn law_map_gives_the_images(ts: Seq<JsonModel>, name: Seq<char>, k: int)
    ensures
        0 <= k < ts.len() && emoji_of(ts[k]) is Some && (emoji_of(ts[k])->0).0 == name && (forall|
            j: int,
        |
            k < j < ts.len() && emoji_of(#[trigger] ts[j]) is Some ==> (emoji_of(ts[j])->0).0 != name)
            ==> JsonModel::Obj(emoji_members(ts)).text_at(name) == Some((emoji_of(ts[k])->0).1),
        (forall|j: int|
            0 <= j < ts.len() && emoji_of(#[trigger] ts[j]) is Some ==> (emoji_of(ts[j])->0).0
                != name) ==> JsonModel::Obj(emoji_members(ts)).member(name) is None,
    decreases ts.len(),
{
    if ts.len() > 0 {
        let front = ts.drop_last();
        let n = ts.len() - 1;
        law_map_gives_the_images(front, name, k);
        assert(ts[n] == ts.last());
        assert(forall|j: int| 0 <= j < n ==> #[trigger] front[j] == ts[j]);
        assert(forall|j: int| 0 <= j < n ==> #[trigger] ts[j] == front[j]);
        match emoji_of(ts.last()) {
            Some(e) => {
                json::law_put_is_read(emoji_members(front), e.0, JsonModel::Str(e.1), name);
            },
            None => {},
        }
    }
}

/// A shortcode is missing where the text uses it and the map has no image for it
/// between colons; nothing else is missing.
pub proof fn law_codes_without_an_image_are_missing(
    map: JsonModel,
    codes: Seq<Seq<char>>,
    code: Seq<char>,
)
    ensures
        missing_codes(map, codes).contains(code) <==> codes.contains(code) && map.member(
            ":"@ + code + ":"@,
        ) is None,
    decreases codes.len(),
{
    if codes.len() > 0 {
        let front = codes.drop_last();
        let m = missing_codes(map, front);
        let n = codes.len() - 1;
        law_codes_without_an_image_are_missing(map, front, code);
        assert(codes[n] == codes.last());
        assert(codes =~= front.push(codes.last()));
        if front.contains(code) {
            let k = choose|k: int| 0 <= k < front.len() && front[k] == code;
            assert(codes[k] == code);
        }
        if codes.contains(code) && !front.contains(code) {
            let k = choose|k: int| 0 <= k < codes.len() && codes[k] == code;
            assert(k < n ==> front[k] == code);
        }
        let longer = m.push(codes.last());
        assert(longer[m.len() as int] == codes.last());
        if m.contains(code) {
            let k = choose|k: int| 0 <= k < m.len() && m[k] == code;
            assert(longer[k] == code);
        }
        if longer.contains(code) && !m.contains(code) {
            let k = choose|k: int| 0 <= k < longer.len() && longer[k] == code;
            assert(k < m.len() ==> m[k] == code);
        }
    }
}

/// What is on record fills the map in: each code gets its image between colons, the
/// last where there are several, and every other name keeps what it had.
pub proof fn law_record_fills_the_map(
    ms: Seq<MemberModel>,
    pairs: Seq<(String, String)>,
    k: int,
    other: Seq<char>,
)
    ensures
        0 <= k < pairs.len() && (forall|j: int|
            k < j < pairs.len() ==> (#[trigger] pairs[j]).0@ != pairs[k].0@) ==> JsonModel::Obj(
            filled_members(ms, pairs),
        ).text_at(":"@ + pairs[k].0@ + ":"@) == Some(pairs[k].1@),
        (forall|j: int|
            0 <= j < pairs.len() ==> ":"@ + (#[trigger] pairs[j]).0@ + ":"@ != other)
            ==> JsonModel::Obj(filled_members(ms, pairs)).member(other) == JsonModel::Obj(
            ms,
        ).member(other),
    decreases pairs.len(),
{
    if pairs.len() > 0 {
        let front = pairs.drop_last();
        let n = pairs.len() - 1;
        law_record_fills_the_map(ms, front, k, other);
        assert(pairs[n] == pairs.last());
        assert(forall|j: int| 0 <= j < n ==> #[trigger] front[j] == pairs[j]);
        assert(forall|j: int| 0 <= j < n ==> #[trigger] pairs[j] == front[j]);
        let fm = filled_members(ms, front);
        let key = colon_code(pairs.last().0@);
        let v = JsonModel::Str(pairs.last().1@);
        json::law_put_is_read(fm, key, v, other);
        if 0 <= k < n {
            json::law_put_is_read(fm, key, v, colon_code(pairs[k].0@));
            lemma_codes_differ(pairs[k].0@, pairs[n].0@);
        }
    }
}

proof fn lemma_codes_differ(a: Seq<char>, b: Seq<char>)
    ensures
        colon_code(a) == colon_code(b) ==> a == b,
{
    reveal_strlit(":");
    assert(":"@.len() == 1);
    let x = colon_code(a);
    let y = colon_code(b);
    assert(x.subrange(1, x.len() - 1) =~= a);
    assert(y.subrange(1, y.len() - 1) =~= b);
}

/// An emoji that is seen goes on record without its colons, with its image, the
/// license that it states, and everything that it is also called.
pub proof fn law_seen_emoji_keeps_what_is_stated(t: JsonModel, code: Seq<char>, url: Seq<char>)
    requires
        t.text_at("type"@) == Some("Emoji"@),
        t.text_at("name"@) == Some(":"@ + code + ":"@),
        t.at("icon"@).text_at("url"@) == Some(url),
        code.len() > 0,
        code[0] != ':',
        code.last() != ':',
    ensures
        seen_emoji(t) is Some,
        seen_emoji(t)->0.shortcode == code,
        seen_emoji(t)->0.url == url,
        seen_emoji(t)->0.license == t.at("_misskey_license"@).text_at("freeText"@),
        forall|word: Seq<char>|
            seen_emoji(t)->0.tags.contains(word) <==> (trimmed_texts(
                t.at("aliases"@).items(),
            ).contains(word) || trimmed_texts(t.at("tags"@).items()).contains(word)
                || trimmed_texts(t.at("keywords"@).items()).contains(word)),
{
    lemma_without_colons(code);
    let a = trimmed_texts(t.at("aliases"@).items());
    let b = trimmed_texts(t.at("tags"@).items());
    let c = trimmed_texts(t.at("keywords"@).items());
    assert forall|word: Seq<char>|
        (a + b + c).contains(word) <==> (a.contains(word) || b.contains(word) || c.contains(
            word,
        )) by {
        let all = a + b + c;
        if all.contains(word) {
            let k = choose|k: int| 0 <= k < all.len() && all[k] == word;
            if k < a.len() {
                assert(a[k] == word);
            } else if k < a.len() + b.len() {
                assert(b[k - a.len()] == word);
            } else {
                assert(c[k - a.len() - b.len()] == word);
            }
        }
        if a.contains(word) {
            let k = choose|k: int| 0 <= k < a.len() && a[k] == word;
            assert(all[k] == word);
        }
        if b.contains(word) {
            let k = choose|k: int| 0 <= k < b.len() && b[k] == word;
            assert(all[a.len() + k] == word);
        }
        if c.contains(word) {
            let k = choose|k: int| 0 <= k < c.len() && c[k] == word;
            assert(all[a.len() + b.len() + k] == word);
        }
    }
}

/// The further names of an emoji are the texts of its lists, without white space at
/// their ends; one that is nothing else is left out.
pub proof fn law_further_names_are_trimmed(vs: Seq<JsonModel>, word: Seq<char>)
    ensures
        trimmed_texts(vs).contains(word) <==> word.len() > 0 && exists|k: int|
            0 <= k < vs.len() && (#[trigger] vs[k]).as_str() is Some && text::trimmed(
                vs[k].as_str()->0,
            ) == word,
    decreases vs.len(),
{
    if vs.len() > 0 {
        let front = vs.drop_last();
        let m = trimmed_texts(front);
        let n = vs.len() - 1;
        law_further_names_are_trimmed(front, word);
        assert(vs[n] == vs.last());
        let w = text::trimmed(vs[n].as_str()->0);
        let longer = m.push(w);
        assert(longer[m.len() as int] == w);
        if m.contains(word) {
            let j = choose|j: int| 0 <= j < m.len() && m[j] == word;
            assert(longer[j] == word);
            let k = choose|k: int|
                0 <= k < front.len() && (#[trigger] front[k]).as_str() is Some && text::trimmed(
                    front[k].as_str()->0,
                ) == word;
            assert(vs[k] == front[k]);
        }
        if longer.contains(word) && !m.contains(word) {
            let j = choose|j: int| 0 <= j < longer.len() && longer[j] == word;
            assert(j < m.len() ==> m[j] == word);
        }
        if word.len() > 0 && exists|k: int|
            0 <= k < vs.len() && (#[trigger] vs[k]).as_str() is Some && text::trimmed(
                vs[k].as_str()->0,
            ) == word {
            let k = choose|k: int|
                0 <= k < vs.len() && (#[trigger] vs[k]).as_str() is Some && text::trimmed(
                    vs[k].as_str()->0,
                ) == word;
            if k < n {
                assert(front[k] == vs[k]);
            }
        }
    }
}

/// Every emoji among the tags is seen, and nothing else is.
pub proof fn law_every_emoji_is_seen(ts: Seq<JsonModel>, e: SeenEmojiModel)
    ensures
        seen_emoji_models(ts).contains(e) <==> exists|k: int|
            0 <= k < ts.len() && seen_emoji(#[trigger] ts[k]) == Some(e),
    decreases ts.len(),
{
    if ts.len() > 0 {
        let front = ts.drop_last();
        let m = seen_emoji_models(front);
        let all = seen_emoji_models(ts);
        let n = ts.len() - 1;
        law_every_emoji_is_seen(front, e);
        assert(ts[n] == ts.last());
        if m.contains(e) {
            let j = choose|j: int| 0 <= j < m.len() && m[j] == e;
            assert(all[j] == e);
            let k = choose|k: int|
                0 <= k < front.len() && seen_emoji(#[trigger] front[k]) == Some(e);
            assert(ts[k] == front[k]);
        }
        if all.contains(e) && !m.contains(e) {
            let j = choose|j: int| 0 <= j < all.len() && all[j] == e;
            assert(j < m.len() ==> m[j] == e);
            assert(seen_emoji(ts[n]) == Some(e));
        }
        if exists|k: int| 0 <= k < ts.len() && seen_emoji(#[trigger] ts[k]) == Some(e) {
            let k = choose|k: int| 0 <= k < ts.len() && seen_emoji(#[trigger] ts[k]) == Some(e);
            if k < n {
                assert(front[k] == ts[k]);
            } else {
                assert(all[m.len() as int] == e);
            }
        }
    }
}

} // verus!
