//! The order in which a remote note is kept.
//!
//! Keeping a note takes answers that only the database, other servers and the
//! clock can give. `next_save_step` says what is asked next, from the answers
//! that there are, until the note is put in or found to be there already.

use crate::jobs::inbound_activity_process as inbound;
use crate::jobs::inbound_activity_process::actor::Actor;
use crate::jobs::inbound_activity_process::content;
use crate::jobs::inbound_activity_process::emoji;
use crate::jobs::inbound_activity_process::emoji::{SeenEmoji, SeenEmojiModel};
use crate::jobs::inbound_activity_process::note_input;
use crate::jobs::inbound_activity_process::note_save;
use crate::jobs::inbound_activity_process::note_save::{
    AttachmentModel, DeliveryMeta, NewPost, NewPostModel, NoteContent, NoteContentModel, NoteError,
    NoteParts, RemoteAttachment, SaveApNoteOutcome, SeiranPost, Visibility,
};
use crate::jobs::inbound_activity_process::reference::{
    ReferenceModel, ReferenceOutcome, ReferenceResolutionMode,
};
use crate::json;
use crate::json::{Json, JsonModel};
use crate::origin;
use crate::outside;
use crate::outside::Timestamp;
use crate::text;
use vstd::prelude::*;

verus! {

/// The author of a note, as the database knows the actor.
pub struct NoteAuthor {
    pub actor_id: i64,
    pub domain: String,
}

/// A note that is to be kept, and what it is kept by.
pub struct SaveRequest {
    pub note: Json,
    pub actor_uri: String,
    pub local_domain: String,
    pub mode: ReferenceResolutionMode,
    pub now: Timestamp,
    /// What the author's server states of the post beyond the standard fields.
    pub stated: Option<SeiranPost>,
}

/// The answers that there are. A question that was not asked has no answer.
pub struct SaveAnswers {
    /// The post that is known under the note's identifier.
    pub known: Option<Option<i64>>,
    /// The identifier of the new post.
    pub post_id: Option<i64>,
    pub author: Option<NoteAuthor>,
    /// The HTML without a first paragraph that is marked as the quote, where it has
    /// one.
    pub paragraph: Option<Option<String>>,
    /// The HTML without a first line that stands in for the quote.
    pub leading: Option<String>,
    /// The emojis in the text, as the note's own tags give it.
    pub own_codes: Option<Vec<String>>,
    /// The note at its own address, where it could be fetched.
    pub canonical: Option<Option<Json>>,
    /// The emojis in the text, as all tags give it.
    pub all_codes: Option<Vec<String>>,
    /// The emojis of the tags were put on record.
    pub recorded: bool,
    /// The image addresses that are on record.
    pub on_record: Option<Vec<(String, String)>>,
    pub quote: Option<ReferenceOutcome>,
    /// The sanitised HTML without a first line that stands in for the quote.
    pub rest: Option<String>,
    /// The visibility that the addressees give.
    pub addressed: Option<Visibility>,
    pub reply: Option<ReferenceOutcome>,
    /// What is known of the post that is replied to.
    pub parent: Option<Option<DeliveryMeta>>,
    /// The actors that are found under the names of the addressees.
    pub addressees: Option<Vec<Option<Actor>>>,
    /// The post on Bluesky that the note is a copy of.
    pub original: Option<Option<i64>>,
    /// The post that is known under the note's identifier once it was put in.
    pub kept: Option<Option<i64>>,
}

impl SaveAnswers {
    /// No answer yet.
    pub fn none() -> (r: SaveAnswers)
        ensures
            r == (SaveAnswers {
                known: None,
                post_id: None,
                author: None,
                paragraph: None,
                leading: None,
                own_codes: None,
                canonical: None,
                all_codes: None,
                recorded: false,
                on_record: None,
                quote: None,
                rest: None,
                addressed: None,
                reply: None,
                parent: None,
                addressees: None,
                original: None,
                kept: None,
            }),
    {
        SaveAnswers {
            known: None,
            post_id: None,
            author: None,
            paragraph: None,
            leading: None,
            own_codes: None,
            canonical: None,
            all_codes: None,
            recorded: false,
            on_record: None,
            quote: None,
            rest: None,
            addressed: None,
            reply: None,
            parent: None,
            addressees: None,
            original: None,
            kept: None,
        }
    }
}

/// A note that was put in, and what is still to be done about it.
pub struct SavedApNote {
    pub post_id: i64,
    pub post: NewPost,
    pub tags: Vec<Json>,
    pub content_warning: Option<String>,
    pub poll: Option<Json>,
    pub link_cards: Vec<String>,
    pub attachments: Vec<RemoteAttachment>,
}

/// What is done next.
pub enum SaveStep {
    /// The object is not kept.
    Refuse(NoteError),
    /// The note is there already, as the given post.
    Known(i64),
    /// Asks for the post of the given address.
    FindPost(String),
    /// Asks for the identifier of a post of the given time.
    MakePostId(Timestamp),
    /// Asks for the actor of the given address, who is put in where they are new.
    UpsertAuthor(String),
    /// Asks for the HTML without a first paragraph that is marked as the quote.
    CutParagraph { html: String, quote_uri: String },
    /// Asks for the HTML of the note without a first line that stands in for the
    /// quote.
    CutLeadingLine { html: String, quote_uri: String },
    /// Asks for the emojis in the text, as the note's own tags give it.
    FindOwnShortcodes(String),
    /// Asks for the note at its own address.
    FetchCanonical(String),
    /// Asks for the emojis in the text, as all tags give it.
    FindAllShortcodes(String),
    /// Has the emojis of a domain put on record.
    RecordEmojis { domain: String, emojis: Vec<SeenEmoji> },
    /// Asks for the image addresses that are on record.
    FindEmojis { domain: String, codes: Vec<String> },
    /// Asks for what is quoted.
    ResolveQuote(String),
    /// Asks for the sanitised HTML without a first line that stands in for the
    /// quote.
    CutFirstLine { html: String, quote_uri: String },
    /// Asks for the visibility that the addressees give.
    ClassifyVisibility { to: Vec<String>, cc: Vec<String> },
    /// Asks for what is replied to.
    ResolveReply(String),
    /// Asks for what is known of the post that is replied to.
    FindParent(i64),
    /// Asks for the actors of the given names.
    FindAddressees(Vec<String>),
    /// Asks for the post of the given address on Bluesky.
    FindOriginal(String),
    /// Has the post put in, and asks for the post of its address.
    Insert(NewPost),
    /// The post was put in, and is not found.
    Lost(String),
    Saved(SavedApNote),
}

/// What a note that was put in stands for.
pub struct SavedModel {
    pub post_id: i64,
    pub post: NewPostModel,
    pub tags: Seq<JsonModel>,
    pub content_warning: Option<Seq<char>>,
    pub poll: Option<JsonModel>,
    pub link_cards: Seq<Seq<char>>,
    pub attachments: Seq<AttachmentModel>,
}

impl View for SavedApNote {
    type V = SavedModel;

    open spec fn view(&self) -> SavedModel {
        SavedModel {
            post_id: self.post_id,
            post: self.post@,
            tags: json::models(self.tags@),
            content_warning: text::string_view(self.content_warning),
            poll: json::opt_model(self.poll),
            link_cards: text::string_contents(self.link_cards@),
            attachments: note_save::attachment_models(self.attachments@),
        }
    }
}

/// What a step stands for.
pub enum SaveStepModel {
    Refuse(NoteError),
    Known(i64),
    FindPost(Seq<char>),
    MakePostId(Timestamp),
    UpsertAuthor(Seq<char>),
    CutParagraph { html: Seq<char>, quote_uri: Seq<char> },
    CutLeadingLine { html: Seq<char>, quote_uri: Seq<char> },
    FindOwnShortcodes(Seq<char>),
    FetchCanonical(Seq<char>),
    FindAllShortcodes(Seq<char>),
    RecordEmojis { domain: Seq<char>, emojis: Seq<SeenEmojiModel> },
    FindEmojis { domain: Seq<char>, codes: Seq<Seq<char>> },
    ResolveQuote(Seq<char>),
    CutFirstLine { html: Seq<char>, quote_uri: Seq<char> },
    ClassifyVisibility { to: Seq<Seq<char>>, cc: Seq<Seq<char>> },
    ResolveReply(Seq<char>),
    FindParent(i64),
    FindAddressees(Seq<Seq<char>>),
    FindOriginal(Seq<char>),
    Insert(NewPostModel),
    Lost(Seq<char>),
    Saved(SavedModel),
}

impl View for SaveStep {
    type V = SaveStepModel;

    open spec fn view(&self) -> SaveStepModel {
        match self {
            SaveStep::Refuse(e) => SaveStepModel::Refuse(*e),
            SaveStep::Known(id) => SaveStepModel::Known(*id),
            SaveStep::FindPost(u) => SaveStepModel::FindPost(u@),
            SaveStep::MakePostId(t) => SaveStepModel::MakePostId(*t),
            SaveStep::UpsertAuthor(u) => SaveStepModel::UpsertAuthor(u@),
            SaveStep::CutParagraph { html, quote_uri } => SaveStepModel::CutParagraph {
                html: html@,
                quote_uri: quote_uri@,
            },
            SaveStep::CutLeadingLine { html, quote_uri } => SaveStepModel::CutLeadingLine {
                html: html@,
                quote_uri: quote_uri@,
            },
            SaveStep::FindOwnShortcodes(b) => SaveStepModel::FindOwnShortcodes(b@),
            SaveStep::FetchCanonical(u) => SaveStepModel::FetchCanonical(u@),
            SaveStep::FindAllShortcodes(b) => SaveStepModel::FindAllShortcodes(b@),
            SaveStep::RecordEmojis { domain, emojis } => SaveStepModel::RecordEmojis {
                domain: domain@,
                emojis: emojis@.map_values(|e: SeenEmoji| e@),
            },
            SaveStep::FindEmojis { domain, codes } => SaveStepModel::FindEmojis {
                domain: domain@,
                codes: text::string_contents(codes@),
            },
            SaveStep::ResolveQuote(u) => SaveStepModel::ResolveQuote(u@),
            SaveStep::CutFirstLine { html, quote_uri } => SaveStepModel::CutFirstLine {
                html: html@,
                quote_uri: quote_uri@,
            },
            SaveStep::ClassifyVisibility { to, cc } => SaveStepModel::ClassifyVisibility {
                to: text::string_contents(to@),
                cc: text::string_contents(cc@),
            },
            SaveStep::ResolveReply(u) => SaveStepModel::ResolveReply(u@),
            SaveStep::FindParent(id) => SaveStepModel::FindParent(*id),
            SaveStep::FindAddressees(us) => SaveStepModel::FindAddressees(
                text::string_contents(us@),
            ),
            SaveStep::FindOriginal(u) => SaveStepModel::FindOriginal(u@),
            SaveStep::Insert(p) => SaveStepModel::Insert(p@),
            SaveStep::Lost(u) => SaveStepModel::Lost(u@),
            SaveStep::Saved(s) => SaveStepModel::Saved(s@),
        }
    }
}

// ---------------------------------------------------------------------------
// What the note gives by itself.
// ---------------------------------------------------------------------------
/// The HTML of the note.
pub open spec fn note_html(note: JsonModel) -> Seq<char> {
    content::text_or_empty(note.text_at("content"@))
}

/// The web address of the note.
pub open spec fn note_url(note: JsonModel) -> Seq<char> {
    content::text_or_empty(note.text_at("url"@))
}

/// When the note was published.
pub open spec fn creation_time(q: SaveRequest) -> Timestamp {
    note_save::published_or(
        outside::parsed_utc(content::text_or_empty(q.note@.text_at("published"@))),
        q.now,
    )
}

/// The tags of the note, with those of the note at its own address where it was
/// fetched.
pub open spec fn tags_with(note: JsonModel, canonical: Option<Json>) -> Seq<JsonModel> {
    match canonical {
        Some(n) => note_save::merged_tags(note.at("tag"@).items(), n@.at("tag"@).items()),
        None => note.at("tag"@).items(),
    }
}

/// The address that the note quotes, by its own tags.
pub open spec fn own_quote_uri(note: JsonModel) -> Option<Seq<char>> {
    note_input::quote_uri_of(note, note.at("tag"@).items())
}

/// HTML without the quote that it begins with. What is left without a marked
/// paragraph comes first; where there is none, what is left without a first line
/// that stands in for the quote counts, if that is anything else than the HTML.
pub open spec fn without_head_quote(
    html: Seq<char>,
    paragraph: Option<Seq<char>>,
    leading: Seq<char>,
) -> Seq<char> {
    match paragraph {
        Some(h) => h,
        None => if leading != html {
            leading
        } else {
            html
        },
    }
}

/// The HTML of the note without the quote that it begins with.
pub open spec fn html_of(q: SaveRequest, a: SaveAnswers) -> Seq<char> {
    let html = note_html(q.note@);
    match (own_quote_uri(q.note@), a.paragraph, a.leading) {
        (None, _, _) => html,
        (Some(_), Some(Some(h)), _) => without_head_quote(html, Some(h@), html),
        (Some(_), _, Some(l)) => without_head_quote(html, None, l@),
        _ => html,
    }
}

/// The text of the note without the lines at its end, and at the start of its
/// plain form, that stand in for the quote.
pub open spec fn text_of_note(q: SaveRequest, a: SaveAnswers, d: NoteDraft) -> NoteContentModel {
    note_save::without_quote_lines(
        note_save::content_of(html_of(q, a), d.tags, d.domain),
        note_input::quote_uri_of(q.note@, d.tags),
    )
}

/// The text of the note as it is kept.
pub open spec fn kept_text(q: SaveRequest, a: SaveAnswers, d: NoteDraft) -> NoteContentModel {
    let text = text_of_note(q, a, d);
    match (note_input::quote_uri_of(q.note@, d.tags), a.rest) {
        (Some(_), Some(h)) => NoteContentModel { body: text.body, content_html: h@ },
        _ => text,
    }
}

/// What was found out about a note before its references.
pub struct NoteDraft {
    pub note_id: Seq<char>,
    pub post_id: i64,
    pub actor_id: i64,
    pub domain: Seq<char>,
    pub tags: Seq<JsonModel>,
    pub emoji_map: JsonModel,
}

/// A reference of the note: none where it makes none, else the answer.
pub open spec fn reference_of(uri: Option<Seq<char>>, answer: Option<ReferenceOutcome>) -> ReferenceModel {
    match (uri, answer) {
        (Some(_), Some(o)) => o@,
        _ => ReferenceModel::Absent,
    }
}

/// The visibility of the note.
pub open spec fn visibility_of(q: SaveRequest, addressed: Visibility) -> Visibility {
    note_save::note_visibility(
        addressed,
        match q.stated {
            Some(sp) => Some(sp.visibility@),
            None => None,
        },
    )
}

/// The post as it is put in.
pub open spec fn post_of(
    q: SaveRequest,
    d: NoteDraft,
    text: NoteContentModel,
    visibility: Visibility,
    reply: ReferenceModel,
    quote: ReferenceModel,
    parent: Option<DeliveryMeta>,
    recipients: Seq<i64>,
    original: Option<i64>,
) -> NewPostModel {
    NewPostModel {
        id: d.post_id,
        actor_id: d.actor_id,
        body: match q.stated {
            Some(sp) => sp.body@,
            None => text.body,
        },
        content_html: match q.stated {
            Some(_) => None,
            None => Some(text.content_html),
        },
        ap_object_id: d.note_id,
        parent_original_post_id: original,
        created_at: creation_time(q),
        emoji_map: match q.stated {
            Some(sp) => sp.emoji_map@,
            None => d.emoji_map,
        },
        visibility,
        reply: reply.columns(),
        thread_root_post_id: note_save::thread_root(q.mode, visibility, d.post_id, parent),
        recipient_actor_ids: recipients,
        quote: quote.columns(),
        claimed_at_uri: match q.stated {
            Some(sp) => text::string_view(sp.counterpart_post_id),
            None => None,
        },
    }
}

/// The note that was put in under the given identifier.
pub open spec fn saved_of(q: SaveRequest, post: NewPostModel, tags: Seq<JsonModel>, post_id: i64) -> SavedModel {
    SavedModel {
        post_id,
        post,
        tags,
        content_warning: match q.stated {
            Some(sp) => text::string_view(sp.content_warning),
            None => match q.note@.text_at("summary"@) {
                Some(t) if t.len() > 0 => Some(t),
                _ => None,
            },
        },
        poll: match q.stated {
            Some(sp) => json::opt_model(sp.poll),
            None => note_input::poll_of(q.note@),
        },
        link_cards: note_save::cards_of(post.body, note_save::MAX_LINK_CARDS_PER_POST as nat),
        attachments: note_save::attachments_of(q.note@, q.note@.at("attachment"@).items()),
    }
}

// ---------------------------------------------------------------------------
// The order of the steps.
// ---------------------------------------------------------------------------
/// The last steps: the note is put in, unless it pretends to be a local one.
pub open spec fn closing_step(
    q: SaveRequest,
    a: SaveAnswers,
    d: NoteDraft,
    visibility: Visibility,
    reply: ReferenceModel,
    parent: Option<DeliveryMeta>,
    recipients: Seq<i64>,
) -> SaveStepModel {
    let url = note_url(q.note@);
    let own = note_input::loopback_post_id(q.local_domain@, d.note_id, url);
    let at_uri = note_input::at_uri_of_bsky_url(url);
    if own is Some {
        SaveStepModel::Known(own->0)
    } else if at_uri is Some && a.original is None {
        SaveStepModel::FindOriginal(at_uri->0)
    } else {
        let original = if at_uri is Some {
            a.original->0
        } else {
            None
        };
        let quote = reference_of(note_input::quote_uri_of(q.note@, d.tags), a.quote);
        let post = post_of(
            q,
            d,
            kept_text(q, a, d),
            visibility,
            reply,
            quote,
            parent,
            recipients,
            original,
        );
        match a.kept {
            None => SaveStepModel::Insert(post),
            Some(None) => SaveStepModel::Lost(d.note_id),
            Some(Some(id)) => SaveStepModel::Saved(saved_of(q, post, d.tags, id)),
        }
    }
}

/// The steps about the recipients of a message.
pub open spec fn message_step(
    q: SaveRequest,
    a: SaveAnswers,
    d: NoteDraft,
    visibility: Visibility,
    reply: ReferenceModel,
) -> SaveStepModel {
    if !note_save::is_message(q.mode, visibility) {
        closing_step(q, a, d, visibility, reply, None, seq![])
    } else if reply is Resolved && a.parent is None {
        SaveStepModel::FindParent(reply->Resolved_0)
    } else {
        let parent = if reply is Resolved {
            a.parent->0
        } else {
            None
        };
        let names = note_save::local_addressees(
            inbound::string_list(q.note@.at("to"@)),
            q.local_domain@,
        );
        if names.len() == 0 {
            closing_step(q, a, d, visibility, reply, parent, seq![])
        } else {
            match a.addressees {
                None => SaveStepModel::FindAddressees(names),
                Some(found) => closing_step(
                    q,
                    a,
                    d,
                    visibility,
                    reply,
                    parent,
                    note_save::local_ids(found@),
                ),
            }
        }
    }
}

/// The steps about what the note refers to, and who may see it.
pub open spec fn reference_step(q: SaveRequest, a: SaveAnswers, d: NoteDraft) -> SaveStepModel {
    let quote_uri = note_input::quote_uri_of(q.note@, d.tags);
    let reply_uri = q.note@.text_at("inReplyTo"@);
    if quote_uri is Some && a.quote is None {
        SaveStepModel::ResolveQuote(quote_uri->0)
    } else if quote_uri is Some && a.rest is None {
        SaveStepModel::CutFirstLine {
            html: text_of_note(q, a, d).content_html,
            quote_uri: quote_uri->0,
        }
    } else {
        match a.addressed {
            None => SaveStepModel::ClassifyVisibility {
                to: inbound::string_list(q.note@.at("to"@)),
                cc: inbound::string_list(q.note@.at("cc"@)),
            },
            Some(addressed) => if reply_uri is Some && a.reply is None {
                SaveStepModel::ResolveReply(reply_uri->0)
            } else {
                message_step(
                    q,
                    a,
                    d,
                    visibility_of(q, addressed),
                    reference_of(reply_uri, a.reply),
                )
            },
        }
    }
}

/// The steps about the emojis of the text.
pub open spec fn emoji_step(
    q: SaveRequest,
    a: SaveAnswers,
    note_id: Seq<char>,
    post_id: i64,
    author: NoteAuthor,
    tags: Seq<JsonModel>,
    codes: Seq<Seq<char>>,
) -> SaveStepModel {
    let own = emoji::emoji_members(tags);
    let missing = emoji::missing_codes(JsonModel::Obj(own), codes);
    if !a.recorded {
        SaveStepModel::RecordEmojis {
            domain: author.domain@,
            emojis: emoji::seen_emoji_models(tags),
        }
    } else if missing.len() > 0 && a.on_record is None {
        SaveStepModel::FindEmojis { domain: author.domain@, codes: missing }
    } else {
        let pairs = if missing.len() > 0 {
            a.on_record->0@
        } else {
            seq![]
        };
        reference_step(
            q,
            a,
            NoteDraft {
                note_id,
                post_id,
                actor_id: author.actor_id,
                domain: author.domain@,
                tags,
                emoji_map: JsonModel::Obj(emoji::filled_members(own, pairs)),
            },
        )
    }
}

/// The steps about the tags of the note. The note at its own address is fetched
/// only where tags are lacking.
pub open spec fn tag_step(
    q: SaveRequest,
    a: SaveAnswers,
    note_id: Seq<char>,
    post_id: i64,
    author: NoteAuthor,
    own_codes: Seq<String>,
) -> SaveStepModel {
    let own = q.note@.at("tag"@).items();
    if !note_save::lacks_tags(own, own_codes, note_id, q.actor_uri@) {
        emoji_step(q, a, note_id, post_id, author, own, text::string_contents(own_codes))
    } else {
        match a.canonical {
            None => SaveStepModel::FetchCanonical(note_id),
            Some(None) => emoji_step(
                q,
                a,
                note_id,
                post_id,
                author,
                own,
                text::string_contents(own_codes),
            ),
            Some(Some(n)) => {
                let tags = tags_with(q.note@, Some(n));
                match a.all_codes {
                    None => SaveStepModel::FindAllShortcodes(
                        content::markdown_body(html_of(q, a), tags, author.domain@),
                    ),
                    Some(codes) => emoji_step(
                        q,
                        a,
                        note_id,
                        post_id,
                        author,
                        tags,
                        text::string_contents(codes@),
                    ),
                }
            },
        }
    }
}

/// What is done next about a note, from the answers that there are.
pub open spec fn save_step(q: SaveRequest, a: SaveAnswers) -> SaveStepModel {
    match note_save::note_id_of(q.note@) {
        Err(e) => SaveStepModel::Refuse(e),
        Ok(note_id) => match (a.known, a.post_id, a.author) {
            (None, _, _) => SaveStepModel::FindPost(note_id),
            (Some(Some(id)), _, _) => SaveStepModel::Known(id),
            (_, None, _) => SaveStepModel::MakePostId(creation_time(q)),
            (_, _, None) => SaveStepModel::UpsertAuthor(q.actor_uri@),
            (_, Some(post_id), Some(author)) => if own_quote_uri(q.note@) is Some && a.paragraph is None {
                SaveStepModel::CutParagraph {
                    html: note_html(q.note@),
                    quote_uri: own_quote_uri(q.note@)->0,
                }
            } else if own_quote_uri(q.note@) is Some && a.paragraph->0 is None && a.leading is None {
                SaveStepModel::CutLeadingLine {
                    html: note_html(q.note@),
                    quote_uri: own_quote_uri(q.note@)->0,
                }
            } else {
                match a.own_codes {
                    None => SaveStepModel::FindOwnShortcodes(
                        content::markdown_body(
                            html_of(q, a),
                            q.note@.at("tag"@).items(),
                            author.domain@,
                        ),
                    ),
                    Some(codes) => tag_step(q, a, note_id, post_id, author, codes@),
                }
            },
        },
    }
}

// ---------------------------------------------------------------------------
// Taking the steps.
// ---------------------------------------------------------------------------
/// What was found out about a note before its references.
struct Draft {
    note_id: String,
    post_id: i64,
    actor_id: i64,
    domain: String,
    tags: Vec<Json>,
    emoji_map: Json,
}

impl View for Draft {
    type V = NoteDraft;

    closed spec fn view(&self) -> NoteDraft {
        NoteDraft {
            note_id: self.note_id@,
            post_id: self.post_id,
            actor_id: self.actor_id,
            domain: self.domain@,
            tags: json::models(self.tags@),
            emoji_map: self.emoji_map@,
        }
    }
}

/// The text under a key of the note, and the empty one where there is none.
fn text_of<'a>(note: &'a Json, key: &str) -> (r: &'a str)
    ensures
        r@ == content::text_or_empty(note@.text_at(key@)),
{
    crate::jobs::inbound_activity_process::undo::or_empty(note.text_at(key))
}

/// The tags of the note, with those of the note at its own address where it was
/// fetched.
fn collect_tags(note: &Json, canonical: Option<&Json>) -> (r: Vec<Json>)
    ensures
        json::models(r@) == tags_with(
            note@,
            match canonical {
                Some(n) => Some(*n),
                None => None,
            },
        ),
{
    let mut out: Vec<Json> = match note.arr_at("tag") {
        Some(v) => json::duplicate_all(v),
        None => {
            let none: Vec<Json> = Vec::new();
            assert(json::models(none@) =~= note@.at("tag"@).items());
            none
        },
    };
    match canonical {
        Some(n) => match n.arr_at("tag") {
            Some(more) => {
                note_save::merge_tags(&mut out, more);
            },
            None => {
                assert(n@.at("tag"@).items() =~= seq![]);
            },
        },
        None => {},
    }
    out
}

/// The HTML of the note without the quote that it begins with.
fn pick_html<'a>(q: &'a SaveRequest, a: &'a SaveAnswers, own: &[Json]) -> (r: &'a str)
    requires
        json::models(own@) == q.note@.at("tag"@).items(),
    ensures
        r@ == html_of(*q, *a),
{
    match (note_input::extract_ap_quote_uri(&q.note, own), &a.paragraph, &a.leading) {
        (None, _, _) => text_of(&q.note, "content"),
        (Some(_), Some(Some(h)), _) => h.as_str(),
        (Some(_), _, Some(l)) => l.as_str(),
        _ => text_of(&q.note, "content"),
    }
}

/// The text of the note without the lines at its end, and at the start of its
/// plain form, that stand in for the quote.
fn make_text(q: &SaveRequest, a: &SaveAnswers, d: &Draft, quote_uri: Option<&str>) -> (r: NoteContent)
    requires
        text::str_view(quote_uri) == note_input::quote_uri_of(q.note@, d@.tags),
    ensures
        r@ == text_of_note(*q, *a, d@),
{
    let own: Vec<Json> = collect_tags(&q.note, None);
    let whole: NoteContent = note_save::prepare_content(
        pick_html(q, a, own.as_slice()),
        d.tags.as_slice(),
        d.domain.as_str(),
    );
    note_save::strip_quote_lines(whole, quote_uri)
}

/// The post as it is put in.
fn make_post(
    q: &SaveRequest,
    a: &SaveAnswers,
    d: &Draft,
    visibility: Visibility,
    reply: ReferenceOutcome,
    parent: &Option<DeliveryMeta>,
    recipients: Vec<i64>,
    original: Option<i64>,
) -> (r: NewPost)
    ensures
        r@ == post_of(
            *q,
            d@,
            kept_text(*q, *a, d@),
            visibility,
            reply@,
            reference_of(note_input::quote_uri_of(q.note@, d@.tags), a.quote),
            *parent,
            recipients@,
            original,
        ),
{
    let quote_uri: Option<String> = note_input::extract_ap_quote_uri(&q.note, d.tags.as_slice());
    let quote: ReferenceOutcome = match (&quote_uri, &a.quote) {
        (Some(_), Some(o)) => o.duplicate(),
        _ => ReferenceOutcome::Absent,
    };
    let quoted: Option<&str> = match &quote_uri {
        Some(u) => Some(u.as_str()),
        None => None,
    };
    let text: NoteContent = make_text(q, a, d, quoted);
    let content: NoteContent = match (quoted, &a.rest) {
        (Some(_), Some(h)) => NoteContent { body: text.body, content_html: h.clone() },
        _ => text,
    };
    let parts: NoteParts = NoteParts {
        post_id: d.post_id,
        actor_id: d.actor_id,
        note_id: d.note_id.clone(),
        content,
        emoji_map: d.emoji_map.duplicate(),
        visibility,
        reply,
        quote,
        thread_root_post_id: note_save::message_thread_root(q.mode, visibility, d.post_id, parent),
        recipient_actor_ids: recipients,
        parent_original_post_id: original,
        created_at: note_save::published_at(&q.note, q.now),
    };
    note_save::assemble_post(parts, &q.stated)
}

/// The note that was put in under the given identifier.
fn make_saved(q: &SaveRequest, d: &Draft, post: NewPost, post_id: i64) -> (r: SavedApNote)
    ensures
        r@ == saved_of(*q, post@, d@.tags, post_id),
{
    let (content_warning, poll): (Option<String>, Option<Json>) = note_save::content_metadata(
        &q.note,
        &q.stated,
    );
    let link_cards: Vec<String> = note_save::extract_link_card_urls(
        post.body.as_str(),
        note_save::MAX_LINK_CARDS_PER_POST,
    );
    SavedApNote {
        post_id,
        post,
        tags: json::duplicate_all(&d.tags),
        content_warning,
        poll,
        link_cards,
        attachments: note_save::remote_attachments(&q.note),
    }
}

fn take_closing_step(
    q: &SaveRequest,
    a: &SaveAnswers,
    d: &Draft,
    visibility: Visibility,
    reply: ReferenceOutcome,
    parent: &Option<DeliveryMeta>,
    recipients: Vec<i64>,
) -> (r: SaveStep)
    ensures
        r@ == closing_step(*q, *a, d@, visibility, reply@, *parent, recipients@),
{
    match note_save::outcome_of_loopback(q.local_domain.as_str(), d.note_id.as_str(), &q.note) {
        SaveApNoteOutcome::AlreadyExists { post_id } => {
            return SaveStep::Known(post_id);
        },
        SaveApNoteOutcome::Insert => {},
    }
    let original: Option<i64> = match note_input::bsky_app_url_to_at_uri(text_of(&q.note, "url")) {
        Some(u) => match a.original {
            Some(found) => found,
            None => {
                return SaveStep::FindOriginal(u);
            },
        },
        None => None,
    };
    match a.kept {
        Some(None) => SaveStep::Lost(d.note_id.clone()),
        None => SaveStep::Insert(
            make_post(q, a, d, visibility, reply, parent, recipients, original),
        ),
        Some(Some(id)) => {
            let post: NewPost = make_post(
                q,
                a,
                d,
                visibility,
                reply,
                parent,
                recipients,
                original,
            );
            SaveStep::Saved(make_saved(q, d, post, id))
        },
    }
}

fn take_message_step(
    q: &SaveRequest,
    a: &SaveAnswers,
    d: &Draft,
    visibility: Visibility,
    reply: ReferenceOutcome,
) -> (r: SaveStep)
    ensures
        r@ == message_step(*q, *a, d@, visibility, reply@),
{
    if q.mode != ReferenceResolutionMode::OneHopFetch || visibility != Visibility::Direct {
        let none: Vec<i64> = Vec::new();
        return take_closing_step(q, a, d, visibility, reply, &None, none);
    }
    let nobody: Option<DeliveryMeta> = None;
    let parent: &Option<DeliveryMeta> = match &reply {
        ReferenceOutcome::Resolved(id) => match &a.parent {
            Some(m) => m,
            None => {
                return SaveStep::FindParent(*id);
            },
        },
        _ => &nobody,
    };
    let to: Vec<String> = inbound::string_list_at(&q.note, "to");
    let names: Vec<String> = note_save::message_addressees(
        q.mode,
        visibility,
        &to,
        q.local_domain.as_str(),
    );
    assert(text::string_contents(names@).len() == names@.len());
    if names.len() == 0 {
        let none: Vec<i64> = Vec::new();
        return take_closing_step(q, a, d, visibility, reply, parent, none);
    }
    match &a.addressees {
        None => SaveStep::FindAddressees(names),
        Some(found) => take_closing_step(
            q,
            a,
            d,
            visibility,
            reply,
            parent,
            note_save::message_recipients(found),
        ),
    }
}

fn take_reference_step(q: &SaveRequest, a: &SaveAnswers, d: &Draft) -> (r: SaveStep)
    ensures
        r@ == reference_step(*q, *a, d@),
{
    match note_input::extract_ap_quote_uri(&q.note, d.tags.as_slice()) {
        Some(u) => {
            if a.quote.is_none() {
                return SaveStep::ResolveQuote(u);
            }
            if a.rest.is_none() {
                let text: NoteContent = make_text(q, a, d, Some(u.as_str()));
                return SaveStep::CutFirstLine { html: text.content_html, quote_uri: u };
            }
        },
        None => {},
    }
    let addressed: Visibility = match a.addressed {
        Some(v) => v,
        None => {
            return SaveStep::ClassifyVisibility {
                to: inbound::string_list_at(&q.note, "to"),
                cc: inbound::string_list_at(&q.note, "cc"),
            };
        },
    };
    let reply: ReferenceOutcome = match q.note.text_at("inReplyTo") {
        Some(u) => match &a.reply {
            Some(o) => o.duplicate(),
            None => {
                return SaveStep::ResolveReply(u.to_owned());
            },
        },
        None => ReferenceOutcome::Absent,
    };
    let stated: Option<&str> = match &q.stated {
        Some(sp) => Some(sp.visibility.as_str()),
        None => None,
    };
    take_message_step(q, a, d, note_save::decide_visibility(addressed, stated), reply)
}

fn take_emoji_step(
    q: &SaveRequest,
    a: &SaveAnswers,
    note_id: String,
    post_id: i64,
    author: &NoteAuthor,
    tags: Vec<Json>,
    codes: &Vec<String>,
) -> (r: SaveStep)
    ensures
        r@ == emoji_step(
            *q,
            *a,
            note_id@,
            post_id,
            *author,
            json::models(tags@),
            text::string_contents(codes@),
        ),
{
    if !a.recorded {
        return SaveStep::RecordEmojis {
            domain: author.domain.clone(),
            emojis: emoji::seen_emojis(tags.as_slice()),
        };
    }
    let map: Json = emoji::build_emoji_map(tags.as_slice());
    let missing: Vec<String> = emoji::missing_shortcodes(&map, codes);
    assert(text::string_contents(missing@).len() == missing@.len());
    let emoji_map: Json = if missing.len() > 0 {
        match &a.on_record {
            Some(pairs) => emoji::resolve_emoji_map_with_fallback(tags.as_slice(), pairs),
            None => {
                return SaveStep::FindEmojis { domain: author.domain.clone(), codes: missing };
            },
        }
    } else {
        map
    };
    let d: Draft = Draft {
        note_id,
        post_id,
        actor_id: author.actor_id,
        domain: author.domain.clone(),
        tags,
        emoji_map,
    };
    take_reference_step(q, a, &d)
}

fn take_tag_step(
    q: &SaveRequest,
    a: &SaveAnswers,
    note_id: String,
    post_id: i64,
    author: &NoteAuthor,
    own_codes: &Vec<String>,
) -> (r: SaveStep)
    ensures
        r@ == tag_step(*q, *a, note_id@, post_id, *author, own_codes@),
{
    let own: Vec<Json> = collect_tags(&q.note, None);
    if !note_save::wants_canonical_tags(
        own.as_slice(),
        own_codes,
        note_id.as_str(),
        q.actor_uri.as_str(),
    ) {
        return take_emoji_step(q, a, note_id, post_id, author, own, own_codes);
    }
    match &a.canonical {
        None => SaveStep::FetchCanonical(note_id),
        Some(None) => take_emoji_step(q, a, note_id, post_id, author, own, own_codes),
        Some(Some(n)) => {
            let tags: Vec<Json> = collect_tags(&q.note, Some(n));
            match &a.all_codes {
                None => SaveStep::FindAllShortcodes(
                    content::ap_content_to_markdown_body(
                        pick_html(q, a, own.as_slice()),
                        tags.as_slice(),
                        author.domain.as_str(),
                    ),
                ),
                Some(codes) => take_emoji_step(q, a, note_id, post_id, author, tags, codes),
            }
        },
    }
}

/// What is done next about a note, from the answers that there are.
pub fn next_save_step(q: &SaveRequest, a: &SaveAnswers) -> (r: SaveStep)
    ensures
        r@ == save_step(*q, *a),
{
    let note_id: String = match note_save::open_note(&q.note) {
        Ok(id) => id,
        Err(e) => {
            return SaveStep::Refuse(e);
        },
    };
    match a.known {
        None => {
            return SaveStep::FindPost(note_id);
        },
        Some(Some(id)) => {
            return SaveStep::Known(id);
        },
        Some(None) => {},
    }
    let post_id: i64 = match a.post_id {
        Some(id) => id,
        None => {
            return SaveStep::MakePostId(note_save::published_at(&q.note, q.now));
        },
    };
    let author: &NoteAuthor = match &a.author {
        Some(x) => x,
        None => {
            return SaveStep::UpsertAuthor(q.actor_uri.clone());
        },
    };
    let own: Vec<Json> = collect_tags(&q.note, None);
    if let Some(u) = note_input::extract_ap_quote_uri(&q.note, own.as_slice()) {
        match (&a.paragraph, &a.leading) {
            (None, _) => {
                return SaveStep::CutParagraph {
                    html: text_of(&q.note, "content").to_owned(),
                    quote_uri: u,
                };
            },
            (Some(None), None) => {
                return SaveStep::CutLeadingLine {
                    html: text_of(&q.note, "content").to_owned(),
                    quote_uri: u,
                };
            },
            _ => {},
        }
    }
    match &a.own_codes {
        None => SaveStep::FindOwnShortcodes(
            content::ap_content_to_markdown_body(
                pick_html(q, a, own.as_slice()),
                own.as_slice(),
                author.domain.as_str(),
            ),
        ),
        Some(codes) => take_tag_step(q, a, note_id, post_id, author, codes),
    }
}

// ---------------------------------------------------------------------------
// Laws.
// ---------------------------------------------------------------------------
/// The question of a step has no answer yet.
pub open spec fn is_open(step: SaveStepModel, a: SaveAnswers) -> bool {
    match step {
        SaveStepModel::FindPost(_) => a.known is None,
        SaveStepModel::MakePostId(_) => a.post_id is None,
        SaveStepModel::UpsertAuthor(_) => a.author is None,
        SaveStepModel::CutParagraph { .. } => a.paragraph is None,
        SaveStepModel::CutLeadingLine { .. } => a.leading is None,
        SaveStepModel::FindOwnShortcodes(_) => a.own_codes is None,
        SaveStepModel::FetchCanonical(_) => a.canonical is None,
        SaveStepModel::FindAllShortcodes(_) => a.all_codes is None,
        SaveStepModel::RecordEmojis { .. } => !a.recorded,
        SaveStepModel::FindEmojis { .. } => a.on_record is None,
        SaveStepModel::ResolveQuote(_) => a.quote is None,
        SaveStepModel::CutFirstLine { .. } => a.rest is None,
        SaveStepModel::ClassifyVisibility { .. } => a.addressed is None,
        SaveStepModel::ResolveReply(_) => a.reply is None,
        SaveStepModel::FindParent(_) => a.parent is None,
        SaveStepModel::FindAddressees(_) => a.addressees is None,
        SaveStepModel::FindOriginal(_) => a.original is None,
        SaveStepModel::Insert(_) => a.kept is None,
        _ => true,
    }
}

/// The step ends the keeping of the note.
pub open spec fn is_last(step: SaveStepModel) -> bool {
    step is Refuse || step is Known || step is Lost || step is Saved
}

/// All questions about the references of a note and about what comes after them
/// are answered.
pub open spec fn is_settled(a: SaveAnswers) -> bool {
    a.quote is Some && a.rest is Some && a.addressed is Some && a.reply is Some && a.parent is Some
        && a.addressees is Some && a.original is Some && a.kept is Some
}

proof fn lemma_message_step(
    q: SaveRequest,
    a: SaveAnswers,
    d: NoteDraft,
    visibility: Visibility,
    reply: ReferenceModel,
)
    ensures
        is_open(message_step(q, a, d, visibility, reply), a),
        is_settled(a) ==> is_last(message_step(q, a, d, visibility, reply)),
{
}

proof fn lemma_reference_step(q: SaveRequest, a: SaveAnswers, d: NoteDraft)
    ensures
        is_open(reference_step(q, a, d), a),
        is_settled(a) ==> is_last(reference_step(q, a, d)),
{
    match a.addressed {
        Some(addressed) => lemma_message_step(
            q,
            a,
            d,
            visibility_of(q, addressed),
            reference_of(q.note@.text_at("inReplyTo"@), a.reply),
        ),
        None => {},
    }
}

proof fn lemma_emoji_step(
    q: SaveRequest,
    a: SaveAnswers,
    note_id: Seq<char>,
    post_id: i64,
    author: NoteAuthor,
    tags: Seq<JsonModel>,
    codes: Seq<Seq<char>>,
)
    ensures
        is_open(emoji_step(q, a, note_id, post_id, author, tags, codes), a),
        a.recorded && a.on_record is Some && is_settled(a) ==> is_last(
            emoji_step(q, a, note_id, post_id, author, tags, codes),
        ),
{
    let own = emoji::emoji_members(tags);
    let missing = emoji::missing_codes(JsonModel::Obj(own), codes);
    let pairs = if missing.len() > 0 {
        a.on_record->0@
    } else {
        seq![]
    };
    lemma_reference_step(
        q,
        a,
        NoteDraft {
            note_id,
            post_id,
            actor_id: author.actor_id,
            domain: author.domain@,
            tags,
            emoji_map: JsonModel::Obj(emoji::filled_members(own, pairs)),
        },
    );
}

/// No question is asked twice, and where all are answered the keeping ends.
pub proof fn law_questions_are_asked_once(q: SaveRequest, a: SaveAnswers)
    ensures
        is_open(save_step(q, a), a),
        a.known is Some && a.post_id is Some && a.author is Some && a.paragraph is Some
            && a.leading is Some && a.own_codes is Some && a.canonical is Some && a.all_codes is Some && a.recorded && a.on_record is Some
            && is_settled(a) ==> is_last(save_step(q, a)),
{
    let note_id = note_save::note_id_of(q.note@)->Ok_0;
    let author = a.author->0;
    lemma_emoji_step(
        q,
        a,
        note_id,
        a.post_id->0,
        author,
        q.note@.at("tag"@).items(),
        text::string_contents(a.own_codes->0@),
    );
    lemma_emoji_step(
        q,
        a,
        note_id,
        a.post_id->0,
        author,
        tags_with(q.note@, a.canonical->0),
        text::string_contents(a.all_codes->0@),
    );
}

/// The first line is cut only where the HTML does not begin with a paragraph that
/// is marked as the quote.
pub proof fn law_marked_quote_comes_first(q: SaveRequest, a: SaveAnswers)
    ensures
        save_step(q, a) is CutLeadingLine ==> a.paragraph == Some(None::<String>),
        own_quote_uri(q.note@) is Some ==> (a.paragraph matches Some(Some(h)) ==> html_of(q, a)
            == h@),
{
}

/// Of a note that is known under its identifier nothing else is asked, and
/// nothing is put in.
pub proof fn law_known_note_is_left_alone(q: SaveRequest, a: SaveAnswers, id: i64)
    requires
        note_save::note_id_of(q.note@) is Ok,
        a.known == Some(Some(id)),
    ensures
        save_step(q, a) == SaveStepModel::Known(id),
{
}

/// A note that pretends to be a local one is never put in.
pub proof fn law_loopback_is_never_put_in(q: SaveRequest, a: SaveAnswers)
    requires
        note_save::note_id_of(q.note@) is Ok,
        note_input::loopback_post_id(
            q.local_domain@,
            note_save::note_id_of(q.note@)->Ok_0,
            note_url(q.note@),
        ) is Some,
    ensures
        !(save_step(q, a) is Insert),
        !(save_step(q, a) is Saved),
{
}

/// The note at its own address is fetched only from the origin of its author.
pub proof fn law_tags_come_from_the_authors_origin(q: SaveRequest, a: SaveAnswers)
    ensures
        save_step(q, a) matches SaveStepModel::FetchCanonical(u) ==> origin::same_origin(
            origin::origin_of(u),
            origin::origin_of(q.actor_uri@),
        ),
{
}

/// A note that was fetched is put in without recipients and without a thread,
/// and nobody is looked for.
pub proof fn law_fetched_note_reaches_nobody(q: SaveRequest, a: SaveAnswers)
    requires
        q.mode == ReferenceResolutionMode::DbOnly,
    ensures
        !(save_step(q, a) is FindParent),
        !(save_step(q, a) is FindAddressees),
        save_step(q, a) matches SaveStepModel::Insert(p) ==> p.recipient_actor_ids.len() == 0
            && p.thread_root_post_id is None,
{
}

/// A post has recipients only where it is a message.
pub proof fn law_only_messages_have_recipients(q: SaveRequest, a: SaveAnswers)
    ensures
        save_step(q, a) matches SaveStepModel::Insert(p) ==> p.visibility != Visibility::Direct
            ==> p.recipient_actor_ids.len() == 0 && p.thread_root_post_id is None,
{
}

/// What the author's server states of the text, its emojis, the matching post and
/// the warning comes before what the standard fields give.
#[verifier::spinoff_prover]
#[verifier::rlimit(40)]
pub proof fn law_stated_post_comes_first(q: SaveRequest, a: SaveAnswers, sp: SeiranPost)
    requires
        q.stated == Some(sp),
    ensures
        save_step(q, a) matches SaveStepModel::Insert(p) ==> p.body == sp.body@ && p.emoji_map
            == sp.emoji_map@ && p.content_html is None && p.claimed_at_uri == text::string_view(
            sp.counterpart_post_id,
        ),
        save_step(q, a) matches SaveStepModel::Saved(s) ==> s.content_warning
            == text::string_view(sp.content_warning) && s.poll == json::opt_model(sp.poll),
{
}

/// The time of a post is the one that its note states; a note that states none that
/// can be read is of the time at which it comes.
pub proof fn law_time_is_the_stated_one(q: SaveRequest, stated: Seq<char>)
    ensures
        q.note@.text_at("published"@) == Some(stated) ==> (match outside::parsed_utc(stated) {
            Some(t) => creation_time(q) == t,
            None => creation_time(q) == q.now,
        }),
{
}

/// A note is looked up by its identifier before anything else; the author is looked
/// up by the address that the note came with.
pub proof fn law_note_is_looked_up(q: SaveRequest, a: SaveAnswers, id: Seq<char>)
    requires
        q.note@.text_at("type"@) == Some("Note"@) || q.note@.text_at("type"@) == Some(
            "Question"@,
        ),
        q.note@.text_at("id"@) == Some(id),
    ensures
        a.known is None ==> save_step(q, a) == SaveStepModel::FindPost(id),
        a.known == Some(None::<i64>) && a.post_id is None ==> save_step(q, a)
            == SaveStepModel::MakePostId(creation_time(q)),
        a.known == Some(None::<i64>) && a.post_id is Some && a.author is None ==> save_step(q, a)
            == SaveStepModel::UpsertAuthor(q.actor_uri@),
{
    note_save::law_notes_are_kept_under_their_identifier(q.note@);
}

/// What a step asks for, or puts in, is what the note states and what was answered.
pub open spec fn is_of_the_note(step: SaveStepModel, q: SaveRequest, a: SaveAnswers) -> bool {
    match step {
        SaveStepModel::ResolveReply(u) => q.note@.text_at("inReplyTo"@) == Some(u),
        SaveStepModel::ClassifyVisibility { to, cc } => to == inbound::string_list(
            q.note@.at("to"@),
        ) && cc == inbound::string_list(q.note@.at("cc"@)),
        SaveStepModel::FindParent(id) => a.reply is Some && a.reply->0@
            == ReferenceModel::Resolved(id),
        SaveStepModel::RecordEmojis { domain, .. } => a.author is Some && domain
            == a.author->0.domain@,
        SaveStepModel::FindEmojis { domain, .. } => a.author is Some && domain
            == a.author->0.domain@,
        SaveStepModel::FetchCanonical(u) => q.note@.text_at("id"@) == Some(u),
        SaveStepModel::CutParagraph { html, quote_uri } => own_quote_uri(q.note@) == Some(quote_uri)
            && (q.note@.text_at("content"@) is Some ==> html == q.note@.text_at("content"@)->0),
        SaveStepModel::CutLeadingLine { html, quote_uri } => own_quote_uri(q.note@) == Some(
            quote_uri,
        ) && (q.note@.text_at("content"@) is Some ==> html == q.note@.text_at("content"@)->0),
        SaveStepModel::FindOriginal(u) => q.note@.text_at("url"@) is Some
            ==> note_input::at_uri_of_bsky_url(q.note@.text_at("url"@)->0) == Some(u),
        SaveStepModel::Lost(u) => q.note@.text_at("id"@) == Some(u),
        SaveStepModel::Insert(p) => a.kept is None && keeps_the_note(p, q, a),
        SaveStepModel::Saved(s) => a.kept == Some(Some(s.post_id)) && keeps_the_note(s.post, q, a),
        _ => true,
    }
}

/// The post is the note: under the note's identifier and the number that was made for
/// it, as its author's, of its time, with the visibility that is stated or that its
/// addressees give, and with what it refers to as that was resolved.
pub open spec fn keeps_the_note(p: NewPostModel, q: SaveRequest, a: SaveAnswers) -> bool {
    &&& q.note@.text_at("id"@) == Some(p.ap_object_id)
    &&& a.post_id == Some(p.id)
    &&& a.author is Some
    &&& a.author->0.actor_id == p.actor_id
    &&& p.created_at == creation_time(q)
    &&& a.addressed is Some
    &&& q.stated is None ==> p.visibility == a.addressed->0 && p.claimed_at_uri is None
        && p.content_html is Some
    &&& q.note@.text_at("inReplyTo"@) is None ==> p.reply.0 is None && p.reply.1 is None
    &&& q.note@.text_at("inReplyTo"@) is Some ==> a.reply is Some && (match a.reply->0@ {
        ReferenceModel::Absent => p.reply.0 is None && p.reply.1 is None,
        ReferenceModel::Resolved(id) => p.reply.0 == Some(id) && p.reply.1 is None,
        ReferenceModel::Unresolved { ap_uri, status } => p.reply.0 is None && p.reply.1 == Some(
            ap_uri,
        ) && p.reply.2 == Some(status),
    })
    &&& p.quote.0 is Some ==> a.quote is Some && a.quote->0@ == ReferenceModel::Resolved(
        p.quote.0->0,
    )
    &&& if note_input::at_uri_of_bsky_url(note_url(q.note@)) is Some {
        a.original == Some(p.parent_original_post_id)
    } else {
        p.parent_original_post_id is None
    }
}

spec fn is_draft(d: NoteDraft, q: SaveRequest, a: SaveAnswers) -> bool {
    &&& q.note@.text_at("id"@) == Some(d.note_id)
    &&& a.post_id == Some(d.post_id)
    &&& a.author is Some
    &&& a.author->0.actor_id == d.actor_id
}

proof fn lemma_closing_of_note(
    q: SaveRequest,
    a: SaveAnswers,
    d: NoteDraft,
    addressed: Visibility,
    parent: Option<DeliveryMeta>,
    recipients: Seq<i64>,
)
    requires
        is_draft(d, q, a),
        a.addressed == Some(addressed),
        q.note@.text_at("inReplyTo"@) is Some ==> a.reply is Some,
        note_input::quote_uri_of(q.note@, d.tags) is Some ==> a.quote is Some,
    ensures
        is_of_the_note(
            closing_step(
                q,
                a,
                d,
                visibility_of(q, addressed),
                reference_of(q.note@.text_at("inReplyTo"@), a.reply),
                parent,
                recipients,
            ),
            q,
            a,
        ),
{
}

proof fn lemma_message_of_note(q: SaveRequest, a: SaveAnswers, d: NoteDraft, addressed: Visibility)
    requires
        is_draft(d, q, a),
        a.addressed == Some(addressed),
        q.note@.text_at("inReplyTo"@) is Some ==> a.reply is Some,
        note_input::quote_uri_of(q.note@, d.tags) is Some ==> a.quote is Some,
    ensures
        is_of_the_note(
            message_step(
                q,
                a,
                d,
                visibility_of(q, addressed),
                reference_of(q.note@.text_at("inReplyTo"@), a.reply),
            ),
            q,
            a,
        ),
{
    let reply = reference_of(q.note@.text_at("inReplyTo"@), a.reply);
    let parent = if reply is Resolved {
        a.parent->0
    } else {
        None
    };
    lemma_closing_of_note(q, a, d, addressed, None, seq![]);
    lemma_closing_of_note(q, a, d, addressed, parent, seq![]);
    if a.addressees is Some {
        lemma_closing_of_note(
            q,
            a,
            d,
            addressed,
            parent,
            note_save::local_ids(a.addressees->0@),
        );
    }
}

proof fn lemma_reference_of_note(q: SaveRequest, a: SaveAnswers, d: NoteDraft)
    requires
        is_draft(d, q, a),
    ensures
        is_of_the_note(reference_step(q, a, d), q, a),
{
    let quote_uri = note_input::quote_uri_of(q.note@, d.tags);
    let reply_uri = q.note@.text_at("inReplyTo"@);
    if a.addressed is Some && (reply_uri is Some ==> a.reply is Some) && (quote_uri is Some
        ==> a.quote is Some) {
        lemma_message_of_note(q, a, d, a.addressed->0);
    }
}

proof fn lemma_emoji_of_note(
    q: SaveRequest,
    a: SaveAnswers,
    note_id: Seq<char>,
    post_id: i64,
    author: NoteAuthor,
    tags: Seq<JsonModel>,
    codes: Seq<Seq<char>>,
)
    requires
        q.note@.text_at("id"@) == Some(note_id),
        a.post_id == Some(post_id),
        a.author == Some(author),
    ensures
        is_of_the_note(emoji_step(q, a, note_id, post_id, author, tags, codes), q, a),
{
    let own = emoji::emoji_members(tags);
    let missing = emoji::missing_codes(JsonModel::Obj(own), codes);
    let pairs = if missing.len() > 0 {
        a.on_record->0@
    } else {
        seq![]
    };
    lemma_reference_of_note(
        q,
        a,
        NoteDraft {
            note_id,
            post_id,
            actor_id: author.actor_id,
            domain: author.domain@,
            tags,
            emoji_map: JsonModel::Obj(emoji::filled_members(own, pairs)),
        },
    );
}

proof fn lemma_tag_of_note(
    q: SaveRequest,
    a: SaveAnswers,
    note_id: Seq<char>,
    post_id: i64,
    author: NoteAuthor,
    own_codes: Seq<String>,
)
    requires
        q.note@.text_at("id"@) == Some(note_id),
        a.post_id == Some(post_id),
        a.author == Some(author),
    ensures
        is_of_the_note(tag_step(q, a, note_id, post_id, author, own_codes), q, a),
{
    let own = q.note@.at("tag"@).items();
    lemma_emoji_of_note(
        q,
        a,
        note_id,
        post_id,
        author,
        own,
        text::string_contents(own_codes),
    );
    if a.canonical is Some && a.canonical->0 is Some && a.all_codes is Some {
        lemma_emoji_of_note(
            q,
            a,
            note_id,
            post_id,
            author,
            tags_with(q.note@, Some(a.canonical->0->0)),
            text::string_contents(a.all_codes->0@),
        );
    }
}

/// What is asked on the way is asked of what the note states: the quote and the
/// answered note by their addresses, the visibility by the addressees, the emojis by
/// the author's server. What is put in, and what is found again, is the note.
pub proof fn law_every_step_is_of_the_note(q: SaveRequest, a: SaveAnswers)
    ensures
        is_of_the_note(save_step(q, a), q, a),
        save_step(q, a) is Insert ==> a.known == Some(None::<i64>),
{
    if note_save::note_id_of(q.note@) is Ok && a.post_id is Some && a.author is Some
        && a.own_codes is Some {
        lemma_tag_of_note(
            q,
            a,
            note_save::note_id_of(q.note@)->Ok_0,
            a.post_id->0,
            a.author->0,
            a.own_codes->0@,
        );
    }
}

/// A note that quotes nothing and needs no tags from elsewhere is kept with its own
/// text, by its own tags and its author's server.
pub proof fn law_put_in_text_is_that_of_the_note(q: SaveRequest, a: SaveAnswers, p: NewPostModel)
    requires
        save_step(q, a) == SaveStepModel::Insert(p),
        q.stated is None,
        q.note@.text_at("content"@) is Some,
        a.canonical is None,
        own_quote_uri(q.note@) is None,
    ensures
        p.body == content::markdown_body(
            q.note@.text_at("content"@)->0,
            q.note@.at("tag"@).items(),
            a.author->0.domain@,
        ),
        p.content_html == Some(
            content::sanitized_content(
                q.note@.text_at("content"@)->0,
                q.note@.at("tag"@).items(),
                a.author->0.domain@,
            ),
        ),
{
}

/// A message is put in for the local users who were found for its addressees, in the
/// thread of the message that it answers.
pub proof fn law_put_in_message_reaches_its_addressees(
    q: SaveRequest,
    a: SaveAnswers,
    p: NewPostModel,
    found: Vec<Option<Actor>>,
    id: i64,
)
    requires
        save_step(q, a) == SaveStepModel::Insert(p),
        q.mode == ReferenceResolutionMode::OneHopFetch,
        p.visibility == Visibility::Direct,
    ensures
        note_save::local_addressees(
            inbound::string_list(q.note@.at("to"@)),
            q.local_domain@,
        ).len() > 0 ==> a.addressees is Some && p.recipient_actor_ids == note_save::local_ids(
            a.addressees->0@,
        ),
        note_save::local_addressees(
            inbound::string_list(q.note@.at("to"@)),
            q.local_domain@,
        ).len() == 0 ==> p.recipient_actor_ids.len() == 0,
        p.thread_root_post_id is Some,
        q.note@.text_at("inReplyTo"@) is None ==> p.thread_root_post_id == Some(p.id),
{
}

/// The note that was saved: the post as it is found again, with the warning and the
/// poll of the note, its tags, and what is attached to it.
pub proof fn law_saved_note_is_found_again(q: SaveRequest, a: SaveAnswers, s: SavedModel)
    requires
        save_step(q, a) == SaveStepModel::Saved(s),
    ensures
        a.kept == Some(Some(s.post_id)),
        q.note@.text_at("id"@) == Some(s.post.ap_object_id),
        a.author is Some && s.post.actor_id == a.author->0.actor_id,
        q.stated is None ==> s.poll == note_input::poll_of(q.note@),
        q.stated is None ==> (match q.note@.text_at("summary"@) {
            None => s.content_warning is None,
            Some(t) => if t.len() == 0 {
                s.content_warning is None
            } else {
                s.content_warning == Some(t)
            },
        }),
        a.canonical is None ==> s.tags == q.note@.at("tag"@).items(),
        s.attachments == note_save::attachments_of(q.note@, q.note@.at("attachment"@).items()),
        s.link_cards == note_save::cards_of(s.post.body, 5),
{
}

/// Whether the post was found again changes nothing of what was put in.
pub proof fn law_saved_post_is_the_one_put_in(
    q: SaveRequest,
    a: SaveAnswers,
    b: SaveAnswers,
    d: NoteDraft,
    visibility: Visibility,
    reply: ReferenceModel,
    parent: Option<DeliveryMeta>,
    recipients: Seq<i64>,
    p: NewPostModel,
    id: i64,
)
    requires
        closing_step(q, a, d, visibility, reply, parent, recipients) == SaveStepModel::Insert(p),
        b == (SaveAnswers { kept: Some(Some(id)), ..a }),
    ensures
        closing_step(q, b, d, visibility, reply, parent, recipients) matches SaveStepModel::Saved(
            s,
        ) && s.post == p && s.post_id == id,
{
}

/// The HTML of a quoting note is the one without its quote: without the paragraph
/// that is marked as the quote, else without the first line that stands in for it. A
/// note that quotes nothing keeps its HTML.
pub proof fn law_html_is_without_its_quote(q: SaveRequest, a: SaveAnswers, h: String, l: String)
    ensures
        own_quote_uri(q.note@) is None && q.note@.text_at("content"@) is Some ==> html_of(q, a)
            == q.note@.text_at("content"@)->0,
        own_quote_uri(q.note@) is Some && a.paragraph == Some(Some(h)) ==> html_of(q, a) == h@,
        own_quote_uri(q.note@) is Some && a.paragraph == Some(None::<String>) && a.leading == Some(
            l,
        ) ==> html_of(q, a) == l@,
{
}

/// The HTML that is kept of a quoting note is what is left without its first line; the
/// text that is kept is the same either way.
pub proof fn law_kept_html_is_the_rest(q: SaveRequest, a: SaveAnswers, d: NoteDraft, h: String)
    ensures
        note_input::quote_uri_of(q.note@, d.tags) is Some && a.rest == Some(h) ==> kept_text(
            q,
            a,
            d,
        ).content_html == h@,
        kept_text(q, a, d).body == text_of_note(q, a, d).body,
        note_input::quote_uri_of(q.note@, d.tags) is None ==> kept_text(q, a, d).body
            == content::markdown_body(html_of(q, a), d.tags, d.domain) && kept_text(
            q,
            a,
            d,
        ).content_html == content::sanitized_content(html_of(q, a), d.tags, d.domain),
{
}

/// The tags of a note are its own, and those of the note at its own address where that
/// was fetched.
pub proof fn law_tags_are_those_of_the_note(note: JsonModel, more: Json, k: int)
    ensures
        tags_with(note, None) == note.at("tag"@).items(),
        note.at("tag"@).items().is_prefix_of(tags_with(note, Some(more))),
        0 <= k < more@.at("tag"@).items().len() ==> note_save::has_alike(
            tags_with(note, Some(more)),
            more@.at("tag"@).items()[k],
        ),
{
    note_save::law_merged_tags_hold_all(note.at("tag"@).items(), more@.at("tag"@).items());
}

} // verus!
