//! Keeping a remote note: what is kept of it, whether it is kept at all, and
//! what follows from it.

use crate::ap;
use crate::decimal;
use crate::jobs::inbound_activity_process as inbound;
use crate::jobs::inbound_activity_process::content;
use crate::jobs::inbound_activity_process::emoji;
use crate::jobs::inbound_activity_process::note_input;
use crate::jobs::inbound_activity_process::reference::{RefStatus, ReferenceOutcome, ReferenceResolutionMode};
use crate::json;
use crate::json::{Json, JsonModel};
use crate::origin;
use crate::outside;
use crate::outside::{GroupMatch, GroupModel, Timestamp};
use crate::text;
use vstd::prelude::*;

verus! {

// ---------------------------------------------------------------------------
// Link cards.
// ---------------------------------------------------------------------------
/// How many link cards a post gets at most.
pub const MAX_LINK_CARDS_PER_POST: usize = 5;

/// A Markdown link to a web address: `[text](https://...)`.
pub open spec fn link_pattern() -> Seq<char> {
    "\\[([^\\]]*)\\]\\((https?://[^)\\s]+)\\)"@
}

/// The address of the card that a Markdown link gives. Images, which have `!` in
/// front, and hashtags, whose text starts with `#`, give none.
pub open spec fn card_url(body: Seq<char>, m: Seq<Option<GroupModel>>) -> Option<Seq<char>> {
    let bytes = vstd::utf8::encode_utf8(body);
    if m.len() < 3 || m[0] is None || m[2] is None {
        None
    } else {
        let start: int = m[0]->0.start as int;
        let label = match m[1] {
            Some(g) => g.text,
            None => seq![],
        };
        if (start > 0 && start <= bytes.len() && bytes[start - 1] == 0x21) || (label.len() > 0
            && label[0] == '#') {
            None
        } else {
            Some(m[2]->0.text)
        }
    }
}

/// The addresses of the cards that Markdown links give, in order.
pub open spec fn card_urls(body: Seq<char>, ms: Seq<Seq<Option<GroupModel>>>) -> Seq<Seq<char>>
    decreases ms.len(),
{
    if ms.len() == 0 {
        seq![]
    } else {
        match card_url(body, ms.last()) {
            Some(u) => card_urls(body, ms.drop_last()).push(u),
            None => card_urls(body, ms.drop_last()),
        }
    }
}

/// The first `max` of a list.
pub open spec fn first_of(us: Seq<Seq<char>>, max: nat) -> Seq<Seq<char>> {
    if us.len() <= max {
        us
    } else {
        us.take(max as int)
    }
}

/// The addresses of a post's link cards: the first `max` different ones that its
/// Markdown links give.
pub open spec fn selected_cards(body: Seq<char>, ms: Seq<Seq<Option<GroupModel>>>, max: nat) -> Seq<
    Seq<char>,
> {
    first_of(text::distinct(card_urls(body, ms)), max)
}

/// Whether the byte in front of the given one is `!`.
fn is_image(body: &str, start: usize) -> (r: bool)
    ensures
        r == (start > 0 && start <= vstd::utf8::encode_utf8(body@).len() && vstd::utf8::encode_utf8(
            body@,
        )[start - 1] == 0x21),
{
    let bytes: &[u8] = body.as_bytes();
    start > 0 && start <= bytes.len() && bytes[start - 1] == 0x21
}

/// The address of the card that a Markdown link gives.
fn read_card_url(body: &str, m: &Vec<Option<GroupMatch>>) -> (r: Option<String>)
    ensures
        text::string_view(r) == card_url(body@, outside::groups_view(m@)),
{
    let ghost gs = outside::groups_view(m@);
    if m.len() < 3 {
        return None;
    }
    assert(gs[0] == outside::group_view(m@[0]));
    assert(gs[1] == outside::group_view(m@[1]));
    assert(gs[2] == outside::group_view(m@[2]));
    match (&m[0], &m[2]) {
        (Some(whole), Some(url)) => {
            if is_image(body, whole.start) {
                return None;
            }
            match &m[1] {
                Some(label) => {
                    let chars: Vec<char> = text::chars_of(label.text.as_str());
                    if chars.len() > 0 && chars[0] == '#' {
                        return None;
                    }
                },
                None => {},
            }
            Some(url.text.clone())
        },
        _ => None,
    }
}

/// The list does not change where more is put behind it, up to its own length.
proof fn lemma_distinct_prefix(us: Seq<Seq<char>>, k: int)
    requires
        0 <= k <= us.len(),
    ensures
        text::distinct(us.take(k)).is_prefix_of(text::distinct(us)),
    decreases us.len() - k,
{
    if k < us.len() {
        lemma_distinct_prefix(us, k + 1);
        assert(us.take(k + 1).drop_last() =~= us.take(k));
        assert(text::distinct(us.take(k)).is_prefix_of(text::distinct(us.take(k + 1))));
    } else {
        assert(us.take(k) =~= us);
    }
}

proof fn lemma_card_urls_prefix(body: Seq<char>, ms: Seq<Seq<Option<GroupModel>>>, k: int)
    requires
        0 <= k <= ms.len(),
    ensures
        card_urls(body, ms.take(k)).is_prefix_of(card_urls(body, ms)),
    decreases ms.len() - k,
{
    if k < ms.len() {
        lemma_card_urls_prefix(body, ms, k + 1);
        assert(ms.take(k + 1).drop_last() =~= ms.take(k));
        assert(card_urls(body, ms.take(k)).is_prefix_of(card_urls(body, ms.take(k + 1))));
    } else {
        assert(ms.take(k) =~= ms);
    }
}

/// The addresses of a post's link cards, from the Markdown links that were found
/// in its text.
pub fn select_link_cards(body: &str, matches: &Vec<Vec<Option<GroupMatch>>>, max: usize) -> (r: Vec<
    String,
>)
    ensures
        text::string_contents(r@) == selected_cards(
            body@,
            outside::matches_view(matches@),
            max as nat,
        ),
{
    let ghost ms = outside::matches_view(matches@);
    let ghost all = card_urls(body@, ms);
    let mut out: Vec<String> = Vec::new();
    let mut i: usize = 0;
    assert(text::string_contents(out@) =~= seq![]);
    while i < matches.len()
        invariant
            i <= matches@.len(),
            ms == outside::matches_view(matches@),
            all == card_urls(body@, ms),
            out@.len() <= max,
            text::string_contents(out@) == text::distinct(card_urls(body@, ms.take(i as int))),
        decreases matches@.len() - i,
    {
        if out.len() >= max {
            proof {
                lemma_card_urls_prefix(body@, ms, i as int);
                let part = card_urls(body@, ms.take(i as int));
                assert(all.take(part.len() as int) =~= part);
                lemma_distinct_prefix(all, part.len() as int);
                assert(first_of(text::distinct(all), max as nat) =~= text::string_contents(out@));
            }
            return out;
        }
        proof {
            assert(ms.take(i + 1).drop_last() =~= ms.take(i as int));
            assert(ms.take(i + 1).last() == outside::groups_view(matches@[i as int]@));
        }
        let ghost part = card_urls(body@, ms.take(i as int));
        match read_card_url(body, &matches[i]) {
            Some(u) => {
                assert(part.push(u@).drop_last() =~= part);
                if !text::holds(&out, u.as_str()) {
                    let ghost before = text::string_contents(out@);
                    out.push(u);
                    assert(text::string_contents(out@) =~= before.push(u@));
                }
            },
            None => {},
        }
        i += 1;
    }
    assert(ms.take(i as int) =~= ms);
    assert(text::string_contents(out@).len() == out@.len());
    out
}

/// The addresses of a post's link cards, by the Markdown links in its text.
pub open spec fn cards_of(body: Seq<char>, max: nat) -> Seq<Seq<char>> {
    match outside::regex_matches(link_pattern(), body) {
        Some(ms) => selected_cards(body, ms, max),
        None => seq![],
    }
}

/// The addresses of a post's link cards.
pub fn extract_link_card_urls(body: &str, max: usize) -> (r: Vec<String>)
    ensures
        text::string_contents(r@) == cards_of(body@, max as nat),
{
    match outside::find_matches("\\[([^\\]]*)\\]\\((https?://[^)\\s]+)\\)", body) {
        Some(ms) => select_link_cards(body, &ms, max),
        None => {
            let out: Vec<String> = Vec::new();
            assert(text::string_contents(out@) =~= seq![]);
            out
        },
    }
}

// ---------------------------------------------------------------------------
// Attachments.
// ---------------------------------------------------------------------------
/// A file that a note has attached, by its address.
pub struct RemoteAttachment {
    pub url: String,
    pub mime_type: Option<String>,
    pub is_sensitive: bool,
    pub position: i16,
}

/// What an attached file stands for.
pub struct AttachmentModel {
    pub url: Seq<char>,
    pub mime_type: Option<Seq<char>>,
    pub is_sensitive: bool,
    pub position: i16,
}

impl View for RemoteAttachment {
    type V = AttachmentModel;

    open spec fn view(&self) -> AttachmentModel {
        AttachmentModel {
            url: self.url@,
            mime_type: text::string_view(self.mime_type),
            is_sensitive: self.is_sensitive,
            position: self.position,
        }
    }
}

/// What a list of attached files stands for.
pub open spec fn attachment_models(v: Seq<RemoteAttachment>) -> Seq<AttachmentModel> {
    v.map_values(|a: RemoteAttachment| a@)
}

/// The address of an attached file: its `url`, or the text that it is.
pub open spec fn attachment_url(att: JsonModel) -> Seq<char> {
    match att.text_at("url"@) {
        Some(u) => u,
        None => match att.as_str() {
            Some(u) => u,
            None => seq![],
        },
    }
}

/// The file is not to be shown at once: it, or its note, says so.
pub open spec fn attachment_is_sensitive(note: JsonModel, att: JsonModel) -> bool {
    att.at("sensitive"@).as_bool() == Some(true) || note.at("sensitive"@).as_bool() == Some(true)
}

/// The files among the first that a note has attached, those without an address
/// left out. Each keeps its place among all that the note lists.
pub open spec fn attachments_of(note: JsonModel, atts: Seq<JsonModel>) -> Seq<AttachmentModel>
    decreases atts.len(),
{
    if atts.len() == 0 {
        seq![]
    } else {
        let front = attachments_of(note, atts.drop_last());
        let url = attachment_url(atts.last());
        if url.len() == 0 {
            front
        } else {
            front.push(
                AttachmentModel {
                    url,
                    mime_type: note_input::attachment_mime(atts.last(), url),
                    is_sensitive: attachment_is_sensitive(note, atts.last()),
                    position: (atts.len() - 1) as i16,
                },
            )
        }
    }
}

/// The files that a note has attached.
pub fn remote_attachments(note: &Json) -> (r: Vec<RemoteAttachment>)
    ensures
        attachment_models(r@) == attachments_of(note@, note@.at("attachment"@).items()),
{
    let mut out: Vec<RemoteAttachment> = Vec::new();
    assert(attachment_models(out@) =~= seq![]);
    let list: &Vec<Json> = match note.arr_at("attachment") {
        Some(v) => v,
        None => {
            assert(note@.at("attachment"@).items() =~= seq![]);
            return out;
        },
    };
    let ghost atts = json::models(list@);
    let note_sensitive: bool = match note.bool_at("sensitive") {
        Some(b) => b,
        None => false,
    };
    let mut i: usize = 0;
    while i < list.len()
        invariant
            i <= list@.len(),
            atts == json::models(list@),
            note_sensitive == (note@.at("sensitive"@).as_bool() == Some(true)),
            attachment_models(out@) == attachments_of(note@, atts.take(i as int)),
        decreases list@.len() - i,
    {
        let att: &Json = &list[i];
        proof {
            reveal_strlit("");
            assert(atts.take(i + 1).drop_last() =~= atts.take(i as int));
            assert(atts.take(i + 1).last() == att@);
        }
        let url: &str = match att.text_at("url") {
            Some(u) => u,
            None => match att.as_str() {
                Some(u) => u,
                None => "",
            },
        };
        assert(url@ =~= attachment_url(att@));
        if !url.is_empty() {
            let att_sensitive: bool = match att.bool_at("sensitive") {
                Some(b) => b,
                None => false,
            };
            let a: RemoteAttachment = RemoteAttachment {
                url: url.to_owned(),
                mime_type: note_input::guess_attachment_mime_type(att, url),
                is_sensitive: att_sensitive || note_sensitive,
                position: i as i16,
            };
            let ghost before = attachment_models(out@);
            out.push(a);
            assert(attachment_models(out@) =~= before.push(a@));
        }
        i += 1;
    }
    assert(atts.take(i as int) =~= atts);
    out
}

// ---------------------------------------------------------------------------
// The note itself.
// ---------------------------------------------------------------------------
/// Why a received object is not kept.
#[derive(Debug, Clone, Copy, PartialEq, Eq, Structural)]
pub enum NoteError {
    /// It is neither a note nor a poll.
    NotANote,
    /// It has no identifier.
    MissingId,
}

/// The identifier of a note or a poll.
pub open spec fn note_id_of(note: JsonModel) -> Result<Seq<char>, NoteError> {
    if !inbound::is_note(note) {
        Err(NoteError::NotANote)
    } else {
        match note.text_at("id"@) {
            Some(id) => Ok(id),
            None => Err(NoteError::MissingId),
        }
    }
}

/// The identifier of a note or a poll.
pub fn open_note(note: &Json) -> (r: Result<String, NoteError>)
    ensures
        (match r {
            Ok(id) => Ok(id@),
            Err(e) => Err(e),
        }) == note_id_of(note@),
{
    if !note.text_is("type", "Note") && !note.text_is("type", "Question") {
        return Err(NoteError::NotANote);
    }
    match note.text_at("id") {
        Some(id) => Ok(id.to_owned()),
        None => Err(NoteError::MissingId),
    }
}

/// When a note was published: the time that it states, else the present time.
pub open spec fn published_or(stated: Option<Timestamp>, now: Timestamp) -> Timestamp {
    match stated {
        Some(t) => t,
        None => now,
    }
}

/// When something was published, where `stated` is the time that it states.
pub fn choose_published(stated: Option<Timestamp>, now: Timestamp) -> (r: Timestamp)
    ensures
        r == published_or(stated, now),
{
    match stated {
        Some(t) => t,
        None => now,
    }
}

/// When something was published, from the text in which it states a time.
pub fn published_at(value: &Json, now: Timestamp) -> (r: Timestamp)
    ensures
        r == published_or(
            outside::parsed_utc(content::text_or_empty(value@.text_at("published"@))),
            now,
        ),
{
    proof {
        reveal_strlit("");
    }
    let stated: &str = match value.text_at("published") {
        Some(t) => t,
        None => "",
    };
    assert(stated@ =~= content::text_or_empty(value@.text_at("published"@)));
    choose_published(outside::parse_utc(stated), now)
}

/// The text of a note, in both forms in which it is kept.
pub struct NoteContent {
    /// Plain text with Markdown links.
    pub body: String,
    /// Sanitised HTML.
    pub content_html: String,
}

/// What the text of a note stands for.
pub struct NoteContentModel {
    pub body: Seq<char>,
    pub content_html: Seq<char>,
}

impl View for NoteContent {
    type V = NoteContentModel;

    open spec fn view(&self) -> NoteContentModel {
        NoteContentModel { body: self.body@, content_html: self.content_html@ }
    }
}

/// The text of a note in both forms.
pub open spec fn content_of(html: Seq<char>, tags: Seq<JsonModel>, domain: Seq<char>) -> NoteContentModel {
    NoteContentModel {
        body: content::markdown_body(html, tags, domain),
        content_html: content::sanitized_content(html, tags, domain),
    }
}

/// The text of a note in both forms.
pub fn prepare_content(html: &str, tags: &[Json], domain: &str) -> (r: NoteContent)
    ensures
        r@ == content_of(html@, json::models(tags@), domain@),
{
    NoteContent {
        body: content::ap_content_to_markdown_body(html, tags, domain),
        content_html: content::sanitize_ap_content_html(html, tags, domain),
    }
}

/// The note is to be fetched from its own address for the tags that it was
/// delivered without: its text has an emoji that its tags do not know, and the
/// address is of the origin of its author.
pub open spec fn lacks_tags(
    tags: Seq<JsonModel>,
    codes: Seq<String>,
    note_id: Seq<char>,
    actor_uri: Seq<char>,
) -> bool {
    (exists|i: int|
        0 <= i < codes.len() && JsonModel::Obj(emoji::emoji_members(tags)).member(
            emoji::colon_code(#[trigger] codes[i]@),
        ) is None) && origin::same_origin(origin::origin_of(note_id), origin::origin_of(actor_uri))
}

/// Whether the note is to be fetched from its own address for the tags that it
/// was delivered without.
pub fn wants_canonical_tags(tags: &[Json], codes: &Vec<String>, note_id: &str, actor_uri: &str) -> (r:
    bool)
    ensures
        r == lacks_tags(json::models(tags@), codes@, note_id@, actor_uri@),
{
    emoji::has_unresolved_emoji_shortcodes(tags, codes) && emoji::has_same_origin(
        note_id,
        actor_uri,
    )
}

/// A list of JSON values has one that is alike to the given one.
pub open spec fn has_alike(v: Seq<JsonModel>, j: JsonModel) -> bool {
    exists|k: int| 0 <= k < v.len() && json::alike(#[trigger] v[k], j)
}

/// The tags with those put behind that are not among them yet.
pub open spec fn merged_tags(ts: Seq<JsonModel>, more: Seq<JsonModel>) -> Seq<JsonModel>
    decreases more.len(),
{
    if more.len() == 0 {
        ts
    } else {
        let front = merged_tags(ts, more.drop_last());
        if has_alike(front, more.last()) {
            front
        } else {
            front.push(more.last())
        }
    }
}

/// Whether a list of JSON values has one that is alike to the given one.
fn holds_json(v: &Vec<Json>, j: &Json) -> (r: bool)
    ensures
        r == has_alike(json::models(v@), j@),
{
    let ghost all = json::models(v@);
    let mut i: usize = 0;
    while i < v.len()
        invariant
            i <= v@.len(),
            all == json::models(v@),
            forall|k: int| 0 <= k < i ==> !json::alike(#[trigger] all[k], j@),
        decreases v@.len() - i,
    {
        assert(all[i as int] == v@[i as int]@);
        if v[i].same(j) {
            return true;
        }
        i += 1;
    }
    false
}

/// Puts those tags behind that are not among the tags yet.
pub fn merge_tags(tags: &mut Vec<Json>, canonical: &Vec<Json>)
    ensures
        json::models(final(tags)@) == merged_tags(
            json::models(old(tags)@),
            json::models(canonical@),
        ),
{
    let ghost ts = json::models(old(tags)@);
    let ghost more = json::models(canonical@);
    let mut i: usize = 0;
    assert(more.take(0) =~= seq![]);
    while i < canonical.len()
        invariant
            i <= canonical@.len(),
            more == json::models(canonical@),
            json::models(tags@) == merged_tags(ts, more.take(i as int)),
        decreases canonical@.len() - i,
    {
        proof {
            assert(more.take(i + 1).drop_last() =~= more.take(i as int));
            assert(more.take(i + 1).last() == canonical@[i as int]@);
        }
        if !holds_json(tags, &canonical[i]) {
            let ghost before = json::models(tags@);
            let t: Json = canonical[i].duplicate();
            tags.push(t);
            assert(json::models(tags@) =~= before.push(t@));
        }
        i += 1;
    }
    assert(more.take(i as int) =~= more);
}

/// The text of a note without the lines that stand in for its quote: the last
/// one in either form, and the first one of the plain text.
pub open spec fn without_quote_lines(c: NoteContentModel, quote_uri: Option<Seq<char>>) -> NoteContentModel {
    match quote_uri {
        None => c,
        Some(u) => NoteContentModel {
            body: note_input::without_leading_quote_line(
                note_input::without_quote_line(c.body, u),
                u,
            ),
            content_html: content::without_html_quote_line(c.content_html, u),
        },
    }
}

/// The text of a note without the lines that stand in for its quote.
pub fn strip_quote_lines(c: NoteContent, quote_uri: Option<&str>) -> (r: NoteContent)
    ensures
        r@ == without_quote_lines(c@, text::str_view(quote_uri)),
{
    match quote_uri {
        None => c,
        Some(u) => {
            let body: String = note_input::strip_quote_fallback_line(c.body.as_str(), u);
            NoteContent {
                body: note_input::strip_quote_fallback_line_leading(body.as_str(), u),
                content_html: content::strip_quote_fallback_line_html(c.content_html.as_str(), u),
            }
        },
    }
}

/// Who may see a post.
#[derive(Debug, Clone, Copy, PartialEq, Eq, Structural)]
pub enum Visibility {
    Public,
    Unlisted,
    FollowersOnly,
    Direct,
}

impl Visibility {
    pub open spec fn name(self) -> Seq<char> {
        match self {
            Visibility::Public => "public"@,
            Visibility::Unlisted => "unlisted"@,
            Visibility::FollowersOnly => "followers_only"@,
            Visibility::Direct => "direct"@,
        }
    }

    /// The name under which the visibility is kept.
    pub fn as_str(self) -> (r: &'static str)
        ensures
            r@ == self.name(),
    {
        match self {
            Visibility::Public => "public",
            Visibility::Unlisted => "unlisted",
            Visibility::FollowersOnly => "followers_only",
            Visibility::Direct => "direct",
        }
    }
}

/// The visibility of the given name.
pub open spec fn named_visibility(name: Seq<char>) -> Option<Visibility> {
    if name == "public"@ {
        Some(Visibility::Public)
    } else if name == "unlisted"@ {
        Some(Visibility::Unlisted)
    } else if name == "followers_only"@ {
        Some(Visibility::FollowersOnly)
    } else if name == "direct"@ {
        Some(Visibility::Direct)
    } else {
        None
    }
}

/// The visibility of a note: the one that its author's server states by name,
/// where it is one of those that there are, else the one that its addressees
/// give.
pub open spec fn note_visibility(addressed: Visibility, stated: Option<Seq<char>>) -> Visibility {
    match stated {
        Some(name) => match named_visibility(name) {
            Some(v) => v,
            None => addressed,
        },
        None => addressed,
    }
}

/// The visibility of a note.
pub fn decide_visibility(addressed: Visibility, stated: Option<&str>) -> (r: Visibility)
    ensures
        r == note_visibility(addressed, text::str_view(stated)),
{
    match stated {
        None => addressed,
        Some(name) => {
            if text::same_str(name, "public") {
                Visibility::Public
            } else if text::same_str(name, "unlisted") {
                Visibility::Unlisted
            } else if text::same_str(name, "followers_only") {
                Visibility::FollowersOnly
            } else if text::same_str(name, "direct") {
                Visibility::Direct
            } else {
                addressed
            }
        },
    }
}

/// What is known of a post that another one is about.
pub struct DeliveryMeta {
    pub actor_id: i64,
    pub actor_type: String,
    pub visibility: String,
    pub thread_root_post_id: Option<i64>,
}

/// A note is treated as a message to its addressees only where it was delivered
/// here: one that was fetched says nothing of who it was delivered to.
pub open spec fn is_message(mode: ReferenceResolutionMode, visibility: Visibility) -> bool {
    mode == ReferenceResolutionMode::OneHopFetch && visibility == Visibility::Direct
}

/// The post at the root of a message's thread: the root of the message that it
/// replies to, else the message itself.
pub open spec fn thread_root(
    mode: ReferenceResolutionMode,
    visibility: Visibility,
    post_id: i64,
    parent: Option<DeliveryMeta>,
) -> Option<i64> {
    if !is_message(mode, visibility) {
        None
    } else {
        match parent {
            Some(m) if m.visibility@ == "direct"@ && m.thread_root_post_id is Some => m.thread_root_post_id,
            _ => Some(post_id),
        }
    }
}

/// The post at the root of a message's thread.
pub fn message_thread_root(
    mode: ReferenceResolutionMode,
    visibility: Visibility,
    post_id: i64,
    parent: &Option<DeliveryMeta>,
) -> (r: Option<i64>)
    ensures
        r == thread_root(mode, visibility, post_id, *parent),
{
    if mode != ReferenceResolutionMode::OneHopFetch || visibility != Visibility::Direct {
        return None;
    }
    match parent {
        Some(m) => {
            if text::same_str(m.visibility.as_str(), "direct") {
                match m.thread_root_post_id {
                    Some(root) => {
                        return Some(root);
                    },
                    None => {},
                }
            }
        },
        None => {},
    }
    Some(post_id)
}

/// The names of the local users among the addressees.
pub open spec fn local_addressees(to: Seq<Seq<char>>, local_domain: Seq<char>) -> Seq<Seq<char>>
    decreases to.len(),
{
    if to.len() == 0 {
        seq![]
    } else {
        match ap::local_username(to.last(), local_domain) {
            Some(u) => local_addressees(to.drop_last(), local_domain).push(u),
            None => local_addressees(to.drop_last(), local_domain),
        }
    }
}

/// The names of the local users that a message is addressed to; none where the
/// note is no message.
pub fn message_addressees(
    mode: ReferenceResolutionMode,
    visibility: Visibility,
    to: &Vec<String>,
    local_domain: &str,
) -> (r: Vec<String>)
    ensures
        text::string_contents(r@) == if is_message(mode, visibility) {
            local_addressees(text::string_contents(to@), local_domain@)
        } else {
            seq![]
        },
{
    let mut out: Vec<String> = Vec::new();
    assert(text::string_contents(out@) =~= seq![]);
    if mode != ReferenceResolutionMode::OneHopFetch || visibility != Visibility::Direct {
        return out;
    }
    let ghost ts = text::string_contents(to@);
    let mut i: usize = 0;
    while i < to.len()
        invariant
            i <= to@.len(),
            ts == text::string_contents(to@),
            text::string_contents(out@) == local_addressees(ts.take(i as int), local_domain@),
        decreases to@.len() - i,
    {
        proof {
            assert(ts.take(i + 1).drop_last() =~= ts.take(i as int));
            assert(ts.take(i + 1).last() == to@[i as int]@);
        }
        match ap::extract_local_username(to[i].as_str(), local_domain) {
            Some(u) => {
                let ghost before = text::string_contents(out@);
                out.push(u.to_owned());
                assert(text::string_contents(out@) =~= before.push(u@));
            },
            None => {},
        }
        i += 1;
    }
    assert(ts.take(i as int) =~= ts);
    out
}

/// The local actors among those that were found.
pub open spec fn local_ids(found: Seq<Option<inbound::actor::Actor>>) -> Seq<i64>
    decreases found.len(),
{
    if found.len() == 0 {
        seq![]
    } else {
        match found.last() {
            Some(a) if a.local() => local_ids(found.drop_last()).push(a.id),
            _ => local_ids(found.drop_last()),
        }
    }
}

/// The recipients of a message: the local actors among those that were found
/// under the names of its addressees.
pub fn message_recipients(found: &Vec<Option<inbound::actor::Actor>>) -> (r: Vec<i64>)
    ensures
        r@ == local_ids(found@),
{
    let mut out: Vec<i64> = Vec::new();
    let mut i: usize = 0;
    assert(found@.take(0) =~= seq![]);
    while i < found.len()
        invariant
            i <= found@.len(),
            out@ == local_ids(found@.take(i as int)),
        decreases found@.len() - i,
    {
        proof {
            assert(found@.take(i + 1).drop_last() =~= found@.take(i as int));
            assert(found@.take(i + 1).last() == found@[i as int]);
        }
        match &found[i] {
            Some(a) => {
                if a.is_local() {
                    out.push(a.id);
                }
            },
            None => {},
        }
        i += 1;
    }
    assert(found@.take(i as int) =~= found@);
    out
}

/// What the author's server states of a post beyond the standard fields. It
/// comes before what the standard fields give.
pub struct SeiranPost {
    pub body: String,
    pub emoji_map: Json,
    pub visibility: String,
    pub counterpart_post_id: Option<String>,
    pub content_warning: Option<String>,
    pub poll: Option<Json>,
}

/// What was found out about a note that is about to be kept.
pub struct NoteParts {
    pub post_id: i64,
    pub actor_id: i64,
    pub note_id: String,
    pub content: NoteContent,
    pub emoji_map: Json,
    pub visibility: Visibility,
    pub reply: ReferenceOutcome,
    pub quote: ReferenceOutcome,
    pub thread_root_post_id: Option<i64>,
    pub recipient_actor_ids: Vec<i64>,
    pub parent_original_post_id: Option<i64>,
    pub created_at: Timestamp,
}

/// A post as it is put into the database.
pub struct NewPost {
    pub id: i64,
    pub actor_id: i64,
    pub body: String,
    pub content_html: Option<String>,
    pub ap_object_id: String,
    pub parent_original_post_id: Option<i64>,
    pub created_at: Timestamp,
    pub emoji_map: Json,
    pub visibility: Visibility,
    pub reply_to_post_id: Option<i64>,
    pub reply_to_ap_uri: Option<String>,
    pub reply_to_ref_status: Option<RefStatus>,
    pub thread_root_post_id: Option<i64>,
    pub recipient_actor_ids: Vec<i64>,
    pub quote_of_post_id: Option<i64>,
    pub quote_of_ap_uri: Option<String>,
    pub quote_of_ref_status: Option<RefStatus>,
    pub claimed_at_uri: Option<String>,
}

/// What a post stands for. A reference is kept as the post, the address and the
/// status.
pub struct NewPostModel {
    pub id: i64,
    pub actor_id: i64,
    pub body: Seq<char>,
    pub content_html: Option<Seq<char>>,
    pub ap_object_id: Seq<char>,
    pub parent_original_post_id: Option<i64>,
    pub created_at: Timestamp,
    pub emoji_map: JsonModel,
    pub visibility: Visibility,
    pub reply: (Option<i64>, Option<Seq<char>>, Option<RefStatus>),
    pub thread_root_post_id: Option<i64>,
    pub recipient_actor_ids: Seq<i64>,
    pub quote: (Option<i64>, Option<Seq<char>>, Option<RefStatus>),
    pub claimed_at_uri: Option<Seq<char>>,
}

impl View for NewPost {
    type V = NewPostModel;

    open spec fn view(&self) -> NewPostModel {
        NewPostModel {
            id: self.id,
            actor_id: self.actor_id,
            body: self.body@,
            content_html: text::string_view(self.content_html),
            ap_object_id: self.ap_object_id@,
            parent_original_post_id: self.parent_original_post_id,
            created_at: self.created_at,
            emoji_map: self.emoji_map@,
            visibility: self.visibility,
            reply: (
                self.reply_to_post_id,
                text::string_view(self.reply_to_ap_uri),
                self.reply_to_ref_status,
            ),
            thread_root_post_id: self.thread_root_post_id,
            recipient_actor_ids: self.recipient_actor_ids@,
            quote: (
                self.quote_of_post_id,
                text::string_view(self.quote_of_ap_uri),
                self.quote_of_ref_status,
            ),
            claimed_at_uri: text::string_view(self.claimed_at_uri),
        }
    }
}

/// The three columns in which a reference is kept.
pub open spec fn reference_columns(o: ReferenceOutcome) -> (
    Option<i64>,
    Option<String>,
    Option<RefStatus>,
) {
    match o {
        ReferenceOutcome::Absent => (None, None, None),
        ReferenceOutcome::Resolved(id) => (Some(id), None, None),
        ReferenceOutcome::Unresolved { ap_uri, status } => (None, Some(ap_uri), Some(status)),
    }
}

/// The post as it is put into the database. Where the author's server states the
/// text, its emojis and the matching post on Bluesky, those are kept, and no
/// HTML.
pub fn assemble_post(parts: NoteParts, ext: &Option<SeiranPost>) -> (r: NewPost)
    ensures
        r.id == parts.post_id,
        r.actor_id == parts.actor_id,
        r.ap_object_id == parts.note_id,
        r.parent_original_post_id == parts.parent_original_post_id,
        r.created_at == parts.created_at,
        r.visibility == parts.visibility,
        r.thread_root_post_id == parts.thread_root_post_id,
        r.recipient_actor_ids == parts.recipient_actor_ids,
        (r.reply_to_post_id, r.reply_to_ap_uri, r.reply_to_ref_status) == reference_columns(
            parts.reply,
        ),
        (r.quote_of_post_id, r.quote_of_ap_uri, r.quote_of_ref_status) == reference_columns(
            parts.quote,
        ),
        match *ext {
            None => {
                &&& r.body@ == parts.content.body@
                &&& text::string_view(r.content_html) == Some(parts.content.content_html@)
                &&& r.emoji_map@ == parts.emoji_map@
                &&& r.claimed_at_uri is None
            },
            Some(sp) => {
                &&& r.body@ == sp.body@
                &&& r.content_html is None
                &&& r.emoji_map@ == sp.emoji_map@
                &&& text::string_view(r.claimed_at_uri) == text::string_view(
                    sp.counterpart_post_id,
                )
            },
        },
{
    let (reply_id, reply_uri, reply_status): (Option<i64>, Option<String>, Option<RefStatus>) =
        parts.reply.into_parts();
    let (quote_id, quote_uri, quote_status): (Option<i64>, Option<String>, Option<RefStatus>) =
        parts.quote.into_parts();
    let (body, content_html, emoji_map, claimed): (String, Option<String>, Json, Option<String>) =
        match ext {
        None => (parts.content.body, Some(parts.content.content_html), parts.emoji_map, None),
        Some(sp) => (
            sp.body.clone(),
            None,
            sp.emoji_map.duplicate(),
            match &sp.counterpart_post_id {
                Some(u) => Some(u.clone()),
                None => None,
            },
        ),
    };
    NewPost {
        id: parts.post_id,
        actor_id: parts.actor_id,
        body,
        content_html,
        ap_object_id: parts.note_id,
        parent_original_post_id: parts.parent_original_post_id,
        created_at: parts.created_at,
        emoji_map,
        visibility: parts.visibility,
        reply_to_post_id: reply_id,
        reply_to_ap_uri: reply_uri,
        reply_to_ref_status: reply_status,
        thread_root_post_id: parts.thread_root_post_id,
        recipient_actor_ids: parts.recipient_actor_ids,
        quote_of_post_id: quote_id,
        quote_of_ap_uri: quote_uri,
        quote_of_ref_status: quote_status,
        claimed_at_uri: claimed,
    }
}

/// The warning and the poll of a note: those that the author's server states,
/// else a `summary` that is not empty, and the poll that the note is.
pub fn content_metadata(note: &Json, ext: &Option<SeiranPost>) -> (r: (
    Option<String>,
    Option<Json>,
))
    ensures
        match *ext {
            Some(sp) => {
                &&& text::string_view(r.0) == text::string_view(sp.content_warning)
                &&& json::opt_model(r.1) == json::opt_model(sp.poll)
            },
            None => {
                &&& text::string_view(r.0) == (match note@.text_at("summary"@) {
                    Some(t) if t.len() > 0 => Some(t),
                    _ => None,
                })
                &&& json::opt_model(r.1) == note_input::poll_of(note@)
            },
        },
{
    match ext {
        Some(sp) => (
            match &sp.content_warning {
                Some(w) => Some(w.clone()),
                None => None,
            },
            match &sp.poll {
                Some(p) => Some(p.duplicate()),
                None => None,
            },
        ),
        None => {
            let warning: Option<String> = match note.text_at("summary") {
                Some(t) => if t.is_empty() {
                    None
                } else {
                    Some(t.to_owned())
                },
                None => None,
            };
            (warning, note_input::normalize_ap_poll(note))
        },
    }
}

/// What is done with a note.
#[derive(Debug, Clone, Copy, PartialEq, Eq, Structural)]
pub enum SaveApNoteOutcome {
    /// It is put into the database.
    Insert,
    /// It is there already, as the given post: nothing is put in, and nobody is
    /// told.
    AlreadyExists { post_id: i64 },
}

/// What is done with a note that is there as the given post, or not yet.
pub open spec fn outcome_for(existing: Option<i64>) -> SaveApNoteOutcome {
    match existing {
        Some(post_id) => SaveApNoteOutcome::AlreadyExists { post_id },
        None => SaveApNoteOutcome::Insert,
    }
}

/// What is done with a note, from the post that is known under its identifier.
/// This is decided before anything else is found out about the note.
pub fn outcome_of_lookup(by_id: Option<i64>) -> (r: SaveApNoteOutcome)
    ensures
        r == outcome_for(by_id),
{
    match by_id {
        Some(post_id) => SaveApNoteOutcome::AlreadyExists { post_id },
        None => SaveApNoteOutcome::Insert,
    }
}

/// What is done with a note that is not known under its identifier: one that
/// pretends to be a local note is that note. This is decided right before the
/// note would be put in.
pub fn outcome_of_loopback(local_domain: &str, note_id: &str, note: &Json) -> (r: SaveApNoteOutcome)
    ensures
        r == outcome_for(
            note_input::loopback_post_id(
                local_domain@,
                note_id@,
                content::text_or_empty(note@.text_at("url"@)),
            ),
        ),
{
    proof {
        reveal_strlit("");
    }
    let url: &str = match note.text_at("url") {
        Some(u) => u,
        None => "",
    };
    assert(url@ =~= content::text_or_empty(note@.text_at("url"@)));
    outcome_of_lookup(note_input::detect_loopback_post_id(local_domain, note_id, url))
}

// ---------------------------------------------------------------------------
// Laws.
// ---------------------------------------------------------------------------
/// A post has at most the given number of link cards, and no two for one
/// address.
pub proof fn law_link_cards_are_few_and_distinct(
    body: Seq<char>,
    ms: Seq<Seq<Option<GroupModel>>>,
    max: nat,
)
    ensures
        selected_cards(body, ms, max).len() <= max,
        selected_cards(body, ms, max).no_duplicates(),
{
    text::lemma_distinct(card_urls(body, ms));
}

/// A note that was fetched is never treated as a message: it gets no thread and
/// no recipients.
pub proof fn law_fetched_notes_are_no_messages(
    visibility: Visibility,
    post_id: i64,
    parent: Option<DeliveryMeta>,
)
    ensures
        !is_message(ReferenceResolutionMode::DbOnly, visibility),
        thread_root(ReferenceResolutionMode::DbOnly, visibility, post_id, parent) is None,
{
}

proof fn lemma_merged_keeps(ts: Seq<JsonModel>, more: Seq<JsonModel>)
    ensures
        ts.is_prefix_of(merged_tags(ts, more)),
        forall|i: int|
            0 <= i < more.len() ==> has_alike(merged_tags(ts, more), #[trigger] more[i]),
    decreases more.len(),
{
    if more.len() > 0 {
        let front = merged_tags(ts, more.drop_last());
        let all = merged_tags(ts, more);
        lemma_merged_keeps(ts, more.drop_last());
        assert(front.is_prefix_of(all));
        assert forall|i: int| 0 <= i < more.len() implies has_alike(all, #[trigger] more[i]) by {
            if i < more.len() - 1 {
                assert(more.drop_last()[i] == more[i]);
                let k: int = choose|k: int|
                    0 <= k < front.len() && json::alike(#[trigger] front[k], more[i]);
                assert(all[k] == front[k]);
            } else if !has_alike(front, more.last()) {
                json::law_alike_itself(more.last());
                assert(all[front.len() as int] == more.last());
            }
        }
    }
}

/// Putting more tags behind a note's own loses none of either: the note's own
/// stay as they are, and of the others each has one that is alike to it.
pub proof fn law_merged_tags_hold_all(ts: Seq<JsonModel>, more: Seq<JsonModel>)
    ensures
        ts.is_prefix_of(merged_tags(ts, more)),
        forall|i: int|
            0 <= i < more.len() ==> has_alike(merged_tags(ts, more), #[trigger] more[i]),
{
    lemma_merged_keeps(ts, more);
}

/// A local note that comes back from elsewhere is never put in again.
pub proof fn law_own_notes_are_not_kept_again(
    local_domain: Seq<char>,
    id: i64,
    note_url: Seq<char>,
)
    requires
        note_input::local_note_id(note_url, local_domain) is None,
    ensures
        outcome_for(
            note_input::loopback_post_id(
                local_domain,
                note_input::local_notes_prefix(local_domain) + decimal::int_text(id as int),
                note_url,
            ),
        ) == (SaveApNoteOutcome::AlreadyExists { post_id: id }),
{
    note_input::law_own_note_is_recognised(local_domain, id, note_url);
}

/// The name under which a visibility is kept leads back to it, whatever the
/// addressees give; a name that stands for none leaves what they give.
pub proof fn law_visibility_is_read_back(addressed: Visibility, v: Visibility, name: Seq<char>)
    ensures
        note_visibility(addressed, Some(v.name())) == v,
        note_visibility(addressed, None) == addressed,
        name != Visibility::Public.name() && name != Visibility::Unlisted.name() && name
            != Visibility::FollowersOnly.name() && name != Visibility::Direct.name()
            ==> note_visibility(addressed, Some(name)) == addressed,
        Visibility::Public.name() == "public"@,
        Visibility::Unlisted.name() == "unlisted"@,
        Visibility::FollowersOnly.name() == "followers_only"@,
        Visibility::Direct.name() == "direct"@,
{
    reveal_strlit("public");
    reveal_strlit("unlisted");
    reveal_strlit("followers_only");
    reveal_strlit("direct");
    assert("public"@.len() == 6);
    assert("unlisted"@.len() == 8);
    assert("followers_only"@.len() == 14);
    assert("direct"@.len() == 6);
    assert("public"@[0] != "direct"@[0]);
}

/// A message that answers a message goes on with its thread; any other message
/// starts one.
pub proof fn law_message_goes_on_with_its_thread(post_id: i64, parent: DeliveryMeta, root: i64)
    ensures
        ({
            let mode = ReferenceResolutionMode::OneHopFetch;
            &&& thread_root(mode, Visibility::Direct, post_id, None) == Some(post_id)
            &&& parent.visibility@ == "direct"@ && parent.thread_root_post_id == Some(root)
                ==> thread_root(mode, Visibility::Direct, post_id, Some(parent)) == Some(root)
            &&& parent.visibility@ != "direct"@ || parent.thread_root_post_id is None
                ==> thread_root(mode, Visibility::Direct, post_id, Some(parent)) == Some(post_id)
        }),
{
}

/// What is no message has no thread.
pub proof fn law_only_messages_have_threads(
    mode: ReferenceResolutionMode,
    visibility: Visibility,
    post_id: i64,
    parent: Option<DeliveryMeta>,
)
    ensures
        thread_root(mode, visibility, post_id, parent) is Some <==> mode
            == ReferenceResolutionMode::OneHopFetch && visibility == Visibility::Direct,
{
}

/// The local users that a message is addressed to are those whose actors' addresses
/// it names.
pub proof fn law_local_addressees_are_named(to: Seq<Seq<char>>, local_domain: Seq<char>, user: Seq<char>)
    ensures
        local_addressees(to, local_domain).contains(user) <==> to.contains(
            ap::local_actor_uri(local_domain, user),
        ),
    decreases to.len(),
{
    let uri = ap::local_actor_uri(local_domain, user);
    if to.len() > 0 {
        let front = to.drop_last();
        law_local_addressees_are_named(front, local_domain, user);
        ap::law_local_actor_uri_names_its_user(local_domain, user);
        ap::law_local_user_has_one_address(to.last(), local_domain);
        let all = local_addressees(to, local_domain);
        let old_all = local_addressees(front, local_domain);
        if to.contains(uri) {
            let j: int = choose|j: int| 0 <= j < to.len() && to[j] == uri;
            if j < front.len() {
                assert(front[j] == uri);
                let k: int = choose|k: int| 0 <= k < old_all.len() && old_all[k] == user;
                assert(all[k] == user);
            } else {
                assert(all.last() == user);
                assert(all[all.len() - 1] == user);
            }
        }
        if all.contains(user) {
            let k: int = choose|k: int| 0 <= k < all.len() && all[k] == user;
            if k < old_all.len() {
                assert(old_all[k] == user);
                let j: int = choose|j: int| 0 <= j < front.len() && front[j] == uri;
                assert(to[j] == uri);
            } else {
                assert(to[to.len() - 1] == uri);
            }
        }
    }
}

/// The recipients of a message are the local actors among those that were found.
pub proof fn law_recipients_are_local(found: Seq<Option<inbound::actor::Actor>>)
    ensures
        forall|id: i64| #[trigger]
            local_ids(found).contains(id) <==> exists|j: int|
                0 <= j < found.len() && (#[trigger] found[j] matches Some(a) && a.actor_type@
                    == "local"@ && a.id == id),
    decreases found.len(),
{
    if found.len() > 0 {
        let front = found.drop_last();
        law_recipients_are_local(front);
        let all = local_ids(found);
        let old_all = local_ids(front);
        assert forall|id: i64| #[trigger] all.contains(id) <==> exists|j: int|
            0 <= j < found.len() && (#[trigger] found[j] matches Some(a) && a.actor_type@
                == "local"@ && a.id == id) by {
            if all.contains(id) {
                let k: int = choose|k: int| 0 <= k < all.len() && all[k] == id;
                if k < old_all.len() {
                    assert(old_all[k] == id);
                    assert(old_all.contains(id));
                    let j: int = choose|j: int|
                        0 <= j < front.len() && (#[trigger] front[j] matches Some(a)
                            && a.actor_type@ == "local"@ && a.id == id);
                    assert(found[j] == front[j]);
                } else {
                    assert(found[found.len() - 1] == found.last());
                }
            }
            if exists|j: int|
                0 <= j < found.len() && (#[trigger] found[j] matches Some(a) && a.actor_type@
                    == "local"@ && a.id == id) {
                let j: int = choose|j: int|
                    0 <= j < found.len() && (#[trigger] found[j] matches Some(a) && a.actor_type@
                        == "local"@ && a.id == id);
                if j < front.len() {
                    assert(front[j] == found[j]);
                    assert(old_all.contains(id));
                    let k: int = choose|k: int| 0 <= k < old_all.len() && old_all[k] == id;
                    assert(all[k] == id);
                } else {
                    assert(all[all.len() - 1] == id);
                }
            }
        }
    }
}

/// The place of the attachment in the note's list, and what the list says of it.
pub open spec fn describes(m: AttachmentModel, note: JsonModel, att: JsonModel, j: int) -> bool {
    &&& m.position == j
    &&& att.text_at("url"@) matches Some(u) ==> m.url == u
    &&& att.as_str() matches Some(u) ==> m.url == u
    &&& att.text_at("mediaType"@) matches Some(t) ==> (t.len() > 0 ==> m.mime_type == Some(t))
    &&& m.is_sensitive <==> att.at("sensitive"@) == JsonModel::Bool(true) || note.at("sensitive"@)
        == JsonModel::Bool(true)
}

/// Every attachment that has an address is kept, at its place in the note's list and
/// with the type that is stated; it is sensitive where it or the note says so.
pub proof fn law_attachments_are_kept(note: JsonModel, atts: Seq<JsonModel>)
    requires
        atts.len() <= i16::MAX,
    ensures
        forall|k: int|
            #![trigger attachments_of(note, atts)[k]]
            0 <= k < attachments_of(note, atts).len() ==> {
                let m = attachments_of(note, atts)[k];
                0 <= m.position < atts.len() && m.url.len() > 0 && describes(
                    m,
                    note,
                    atts[m.position as int],
                    m.position as int,
                )
            },
        forall|j: int|
            0 <= j < atts.len() && attachment_url(#[trigger] atts[j]).len() > 0 ==> exists|k: int|
                0 <= k < attachments_of(note, atts).len() && (
                #[trigger] attachments_of(note, atts)[k]).position == j,
        forall|j: int|
            0 <= j < atts.len() && ((#[trigger] atts[j]).text_at("url"@) matches Some(u) && u.len()
                > 0) ==> attachment_url(atts[j]).len() > 0,
    decreases atts.len(),
{
    if atts.len() > 0 {
        let front = atts.drop_last();
        law_attachments_are_kept(note, front);
        let all = attachments_of(note, atts);
        let old_all = attachments_of(note, front);
        let n: int = front.len() as int;
        assert(atts[n] == atts.last());
        assert forall|k: int| #![trigger all[k]] 0 <= k < all.len() implies 0 <= all[k].position
            < atts.len() && all[k].url.len() > 0 && describes(
            all[k],
            note,
            atts[all[k].position as int],
            all[k].position as int,
        ) by {
            if k < old_all.len() {
                assert(all[k] == old_all[k]);
                assert(atts[all[k].position as int] == front[all[k].position as int]);
            } else {
                assert(all[k].position == n);
                assert(atts.last() is Str ==> atts.last().text_at("url"@) is None);
            }
        }
        assert forall|j: int| 0 <= j < atts.len() && attachment_url(#[trigger] atts[j]).len()
            > 0 implies exists|k: int| 0 <= k < all.len() && (#[trigger] all[k]).position == j by {
            if j < n {
                assert(front[j] == atts[j]);
                let k: int = choose|k: int|
                    0 <= k < old_all.len() && (#[trigger] old_all[k]).position == j;
                assert(all[k] == old_all[k]);
            } else {
                assert(all[all.len() - 1].position == n);
            }
        }
    }
}

/// A link makes a card, but not one that shows an image, nor one whose label is a
/// hashtag.
pub proof fn law_images_and_hashtags_make_no_card(
    body: Seq<char>,
    whole: GroupModel,
    label: GroupModel,
    url: GroupModel,
)
    requires
        0 < whole.start <= vstd::utf8::encode_utf8(body).len(),
    ensures
        ({
            let m = seq![Some(whole), Some(label), Some(url)];
            let image = vstd::utf8::encode_utf8(body)[whole.start - 1] == '!' as u8;
            let hashtag = text::starts_with(label.text, "#"@);
            card_url(body, m) == (if image || hashtag {
                None
            } else {
                Some(url.text)
            })
        }),
{
    reveal_strlit("#");
    let t = label.text;
    if t.len() > 0 {
        assert(t.subrange(0, 1) =~= "#"@ <==> t[0] == '#') by {
            assert(t.subrange(0, 1)[0] == t[0]);
        }
    }
}

proof fn lemma_cards_come_from_links(body: Seq<char>, ms: Seq<Seq<Option<GroupModel>>>)
    ensures
        forall|j: int|
            0 <= j < ms.len() && card_url(body, #[trigger] ms[j]) is Some ==> card_urls(
                body,
                ms,
            ).contains(card_url(body, ms[j])->0),
        forall|u: Seq<char>| #[trigger]
            card_urls(body, ms).contains(u) ==> exists|j: int|
                0 <= j < ms.len() && card_url(body, #[trigger] ms[j]) == Some(u),
    decreases ms.len(),
{
    if ms.len() > 0 {
        let front = ms.drop_last();
        lemma_cards_come_from_links(body, front);
        let all = card_urls(body, ms);
        let old_all = card_urls(body, front);
        assert forall|j: int| 0 <= j < ms.len() && card_url(
            body,
            #[trigger] ms[j],
        ) is Some implies all.contains(card_url(body, ms[j])->0) by {
            let u = card_url(body, ms[j])->0;
            if j < front.len() {
                assert(front[j] == ms[j]);
                let k: int = choose|k: int| 0 <= k < old_all.len() && old_all[k] == u;
                assert(all[k] == u);
            } else {
                assert(all[all.len() - 1] == u);
            }
        }
        assert forall|u: Seq<char>| #[trigger] all.contains(u) implies exists|j: int|
            0 <= j < ms.len() && card_url(body, #[trigger] ms[j]) == Some(u) by {
            let k: int = choose|k: int| 0 <= k < all.len() && all[k] == u;
            if k < old_all.len() {
                assert(old_all[k] == u);
                assert(old_all.contains(u));
                let j: int = choose|j: int|
                    0 <= j < front.len() && card_url(body, #[trigger] front[j]) == Some(u);
                assert(ms[j] == front[j]);
            } else {
                assert(ms[ms.len() - 1] == ms.last());
            }
        }
    }
}

/// The cards of a post are links of it, and where there is room for all different
/// ones, none is left out.
pub proof fn law_cards_are_the_links(body: Seq<char>, ms: Seq<Seq<Option<GroupModel>>>, max: nat)
    ensures
        forall|u: Seq<char>| #[trigger]
            selected_cards(body, ms, max).contains(u) ==> exists|j: int|
                0 <= j < ms.len() && card_url(body, #[trigger] ms[j]) == Some(u),
        selected_cards(body, ms, max).len() < max ==> forall|j: int|
            0 <= j < ms.len() && card_url(body, #[trigger] ms[j]) is Some ==> selected_cards(
                body,
                ms,
                max,
            ).contains(card_url(body, ms[j])->0),
{
    lemma_cards_come_from_links(body, ms);
    let us = card_urls(body, ms);
    let all = text::distinct(us);
    text::lemma_distinct(us);
    let r = selected_cards(body, ms, max);
    assert forall|u: Seq<char>| #[trigger] r.contains(u) implies exists|j: int|
        0 <= j < ms.len() && card_url(body, #[trigger] ms[j]) == Some(u) by {
        let k: int = choose|k: int| 0 <= k < r.len() && r[k] == u;
        assert(all[k] == u);
        assert(all.contains(u));
        assert(us.contains(u));
    }
    if r.len() < max {
        assert(r == all);
        assert forall|j: int| 0 <= j < ms.len() && card_url(
            body,
            #[trigger] ms[j],
        ) is Some implies r.contains(card_url(body, ms[j])->0) by {
            assert(us.contains(card_url(body, ms[j])->0));
        }
    }
}

/// What is kept is a note or a poll that has an identifier, under that identifier.
pub proof fn law_notes_are_kept_under_their_identifier(note: JsonModel)
    ensures
        ({
            let kind = note.text_at("type"@);
            let kept = kind == Some("Note"@) || kind == Some("Question"@);
            &&& kept ==> (note.text_at("id"@) matches Some(id) ==> note_id_of(note) == Ok::<
                Seq<char>,
                NoteError,
            >(id))
            &&& kept && note.text_at("id"@) is None ==> note_id_of(note) == Err::<
                Seq<char>,
                NoteError,
            >(NoteError::MissingId)
            &&& !kept ==> note_id_of(note) == Err::<Seq<char>, NoteError>(NoteError::NotANote)
        }),
{
}

/// Tags that are merged come from one of the two lists, and a tag of the second list
/// that is like one of the first does not make the list longer.
pub proof fn law_merged_tags_add_nothing(ts: Seq<JsonModel>, more: Seq<JsonModel>)
    ensures
        forall|k: int|
            0 <= k < merged_tags(ts, more).len() ==> ts.contains(
                #[trigger] merged_tags(ts, more)[k],
            ) || more.contains(merged_tags(ts, more)[k]),
        (forall|i: int| 0 <= i < more.len() ==> has_alike(ts, #[trigger] more[i])) ==> merged_tags(
            ts,
            more,
        ) == ts,
    decreases more.len(),
{
    if more.len() > 0 {
        let rest = more.drop_last();
        let front = merged_tags(ts, rest);
        let all = merged_tags(ts, more);
        law_merged_tags_add_nothing(ts, rest);
        assert(more[more.len() - 1] == more.last());
        assert(forall|i: int| 0 <= i < rest.len() ==> #[trigger] rest[i] == more[i]);
        assert forall|k: int| 0 <= k < all.len() implies ts.contains(#[trigger] all[k])
            || more.contains(all[k]) by {
            if k < front.len() {
                assert(all[k] == front[k]);
                if rest.contains(front[k]) {
                    let i = choose|i: int| 0 <= i < rest.len() && rest[i] == front[k];
                    assert(more[i] == front[k]);
                }
            }
        }
    } else {
        assert forall|k: int| 0 <= k < ts.len() implies ts.contains(
            #[trigger] merged_tags(ts, more)[k],
        ) by {
            assert(ts[k] == merged_tags(ts, more)[k]);
        }
    }
}

/// More tags are asked for where the text uses an emoji that no tag gives an image
/// for, and only of the server that the author is on.
pub proof fn law_missing_tags_are_asked_for(
    tags: Seq<JsonModel>,
    codes: Seq<String>,
    note_id: Seq<char>,
    actor_uri: Seq<char>,
    k: int,
)
    requires
        0 <= k < codes.len(),
    ensures
        JsonModel::Obj(emoji::emoji_members(tags)).member(":"@ + codes[k]@ + ":"@) is None
            && origin::same_origin(origin::origin_of(note_id), origin::origin_of(actor_uri))
            ==> lacks_tags(tags, codes, note_id, actor_uri),
        (forall|j: int|
            0 <= j < codes.len() ==> JsonModel::Obj(emoji::emoji_members(tags)).member(
                ":"@ + (#[trigger] codes[j])@ + ":"@,
            ) is Some) ==> !lacks_tags(tags, codes, note_id, actor_uri),
        !origin::same_origin(origin::origin_of(note_id), origin::origin_of(actor_uri))
            ==> !lacks_tags(tags, codes, note_id, actor_uri),
{
    assert(emoji::colon_code(codes[k]@) == ":"@ + codes[k]@ + ":"@);
}

/// A note that quotes nothing keeps its text as it is.
pub proof fn law_text_without_a_quote_stays(c: NoteContentModel, quote_uri: Seq<char>)
    ensures
        without_quote_lines(c, None) == c,
        note_input::without_quote_line(c.body, quote_uri) == c.body
            && note_input::without_leading_quote_line(c.body, quote_uri) == c.body
            ==> without_quote_lines(c, Some(quote_uri)).body == c.body,
        content::without_html_quote_line(c.content_html, quote_uri) == c.content_html
            ==> without_quote_lines(c, Some(quote_uri)).content_html == c.content_html,
        note_input::without_leading_quote_line(
            note_input::without_quote_line(c.body, quote_uri),
            quote_uri,
        ) == note_input::without_quote_line(c.body, quote_uri) ==> without_quote_lines(
            c,
            Some(quote_uri),
        ).body == note_input::without_quote_line(c.body, quote_uri),
{
}

} // verus!
