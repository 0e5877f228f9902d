//! Reactions of remote actors to local posts.

use crate::decimal;
use crate::jobs::inbound_activity_process::actor::RemoteActorInfo;
use crate::jobs::inbound_activity_process::create;
use crate::jobs::inbound_activity_process::emoji;
use crate::jobs::inbound_activity_process::emoji::{SeenEmoji, SeenEmojiModel};
use crate::json;
use crate::json::{Json, JsonModel};
use crate::text;
use vstd::prelude::*;

verus! {

/// A reaction.
pub struct ReactionRequest {
    pub actor_uri: String,
    pub object_uri: String,
    pub activity_id: Option<String>,
    /// The emoji.
    pub content: String,
    /// It is a plain like.
    pub is_like: bool,
    /// The image of a custom emoji.
    pub emoji_url: Option<String>,
}

/// What a reaction stands for.
pub struct ReactionModel {
    pub actor_uri: Seq<char>,
    pub object_uri: Seq<char>,
    pub activity_id: Option<Seq<char>>,
    pub content: Seq<char>,
    pub is_like: bool,
    pub emoji_url: Option<Seq<char>>,
}

impl View for ReactionRequest {
    type V = ReactionModel;

    open spec fn view(&self) -> ReactionModel {
        ReactionModel {
            actor_uri: self.actor_uri@,
            object_uri: self.object_uri@,
            activity_id: text::string_view(self.activity_id),
            content: self.content@,
            is_like: self.is_like,
            emoji_url: text::string_view(self.emoji_url),
        }
    }
}

/// What an activity is about: the text `object`, or its `id`.
pub open spec fn object_uri(activity: JsonModel) -> Option<Seq<char>> {
    let object = activity.at("object"@);
    if object.as_str() is Some {
        object.as_str()
    } else {
        object.text_at("id"@)
    }
}

/// What an activity is about.
pub(crate) fn read_object_uri<'a>(activity: &'a Json) -> (r: Option<&'a str>)
    ensures
        text::str_view(r) == object_uri(activity@),
{
    match activity.get("object") {
        Some(o) => match o.as_str() {
            Some(t) => Some(t),
            None => o.text_at("id"),
        },
        None => None,
    }
}

/// The emoji of a reaction: its `content`, else `_misskey_reaction`, else the
/// heart that a plain like stands for.
pub open spec fn reaction_content(activity: JsonModel) -> Seq<char> {
    if activity.text_at("content"@) is Some {
        activity.text_at("content"@)->0
    } else if activity.text_at("_misskey_reaction"@) is Some {
        activity.text_at("_misskey_reaction"@)->0
    } else {
        "❤️"@
    }
}

/// The reaction that an activity makes, or why it makes none. Whether it is a
/// like is told by its emoji, not by the type of the activity.
pub open spec fn reaction_request(activity: JsonModel) -> Result<ReactionModel, Seq<char>> {
    match (activity.text_at("actor"@), object_uri(activity)) {
        (None, _) => Err("Reaction: actor フィールドがありません"@),
        (_, None) => Err("Reaction: object フィールドがありません"@),
        (Some(actor), Some(object)) => Ok(
            ReactionModel {
                actor_uri: actor,
                object_uri: object,
                activity_id: activity.text_at("id"@),
                content: reaction_content(activity),
                is_like: reaction_content(activity) == "❤️"@,
                emoji_url: emoji::emoji_url_from(
                    activity.at("tag"@).items(),
                    emoji::bare_shortcode(reaction_content(activity)),
                    0,
                ),
            },
        ),
    }
}

/// The reaction that an activity makes.
pub fn read_reaction(activity: &Json) -> (r: Result<ReactionRequest, String>)
    ensures
        (match r {
            Ok(q) => Ok(q@),
            Err(e) => Err(e@),
        }) == reaction_request(activity@),
{
    let actor: &str = match activity.text_at("actor") {
        Some(t) => t,
        None => {
            return Err("Reaction: actor フィールドがありません".to_owned());
        },
    };
    let object: &str = match read_object_uri(activity) {
        Some(t) => t,
        None => {
            return Err("Reaction: object フィールドがありません".to_owned());
        },
    };
    let content: &str = match activity.text_at("content") {
        Some(t) => t,
        None => match activity.text_at("_misskey_reaction") {
            Some(t) => t,
            None => "❤️",
        },
    };
    Ok(
        ReactionRequest {
            actor_uri: actor.to_owned(),
            object_uri: object.to_owned(),
            activity_id: match activity.text_at("id") {
                Some(t) => Some(t.to_owned()),
                None => None,
            },
            content: content.to_owned(),
            is_like: text::same_str(content, "❤️"),
            emoji_url: emoji::extract_emoji_tag_url(activity, content),
        },
    )
}

/// The kind under which a reaction is kept.
pub fn reaction_type(request: &ReactionRequest) -> (r: &'static str)
    ensures
        r@ == (if request.is_like {
            "like"@
        } else {
            "emoji"@
        }),
{
    if request.is_like {
        "like"
    } else {
        "emoji"
    }
}

/// The emoji that goes on record with a reaction, as a tag.
pub open spec fn reaction_tag(content: Seq<char>, url: Seq<char>) -> JsonModel {
    JsonModel::Obj(
        seq![
            json::member_of("type"@, JsonModel::Str("Emoji"@)),
            json::member_of("name"@, JsonModel::Str(content)),
            json::member_of(
                "icon"@,
                JsonModel::Obj(seq![json::member_of("url"@, JsonModel::Str(url))]),
            ),
        ],
    )
}

/// The emoji that goes on record with a reaction, as a tag; none for one without
/// an image.
pub fn make_reaction_tag(request: &ReactionRequest) -> (r: Option<Json>)
    ensures
        json::opt_model(r) == (match request@.emoji_url {
            Some(url) => Some(reaction_tag(request@.content, url)),
            None => None,
        }),
{
    match &request.emoji_url {
        None => None,
        Some(url) => {
            let icon: Vec<json::Member> = vec![
                json::member("url", json::text_json(url.as_str())),
            ];
            let ghost shown = reaction_tag(request@.content, url@)->Obj_0;
            assert(json::member_models(icon@) =~= shown[2].value->Obj_0);
            let ms: Vec<json::Member> = vec![
                json::member("type", json::text_json("Emoji")),
                json::member("name", json::text_json(request.content.as_str())),
                json::member("icon", json::object(icon)),
            ];
            assert(json::member_models(ms@) =~= shown);
            Some(json::object(ms))
        },
    }
}

/// The event that tells the author of a post of a reaction.
pub open spec fn reaction_event(post_id: i64, r: ReactionModel, remote: RemoteActorInfo) -> JsonModel {
    JsonModel::Obj(
        seq![
            json::member_of("postId"@, JsonModel::Str(decimal::int_text(post_id as int))),
            json::member_of("emoji"@, JsonModel::Str(r.content)),
            json::member_of("emojiUrl"@, json::text_or_null(r.emoji_url)),
            json::member_of(
                "actor"@,
                create::actor_object(
                    remote.username@,
                    remote.domain@,
                    JsonModel::Str(remote.display_name@),
                ),
            ),
        ],
    )
}

/// The event that tells the author of a post of a reaction.
pub fn make_reaction_event(post_id: i64, request: &ReactionRequest, remote: &RemoteActorInfo) -> (r:
    Json)
    ensures
        r@ == reaction_event(post_id, request@, *remote),
{
    let id: String = decimal::format_i64(post_id);
    let url: Option<&str> = match &request.emoji_url {
        Some(u) => Some(u.as_str()),
        None => None,
    };
    let ms: Vec<json::Member> = vec![
        json::member("postId", json::text_json(id.as_str())),
        json::member("emoji", json::text_json(request.content.as_str())),
        json::member("emojiUrl", json::opt_text_json(url)),
        json::member(
            "actor",
            create::make_actor_object(
                remote.username.as_str(),
                remote.domain.as_str(),
                json::text_json(remote.display_name.as_str()),
            ),
        ),
    ];
    assert(json::member_models(ms@) =~= reaction_event(post_id, request@, *remote)->Obj_0);
    json::object(ms)
}

// ---------------------------------------------------------------------------
// The order in which a reaction is handled.
// ---------------------------------------------------------------------------
/// The answers that there are about a reaction.
pub struct ReactionAnswers {
    /// The post that is reacted to, and its author.
    pub found: Option<Option<(i64, i64)>>,
    /// The actor who reacts.
    pub actor: Option<RemoteActorInfo>,
    /// The custom emoji was put on record.
    pub recorded: bool,
    /// The reaction was put in.
    pub inserted: bool,
    /// The author was told.
    pub told: bool,
    /// The reactions were shown anew.
    pub shown: bool,
}

/// What is done next about a reaction.
pub enum ReactionStep {
    Refuse(String),
    Done,
    /// Asks for the post of the given identifier, and its author.
    FindPost(String),
    /// Asks for the actor of the given address, who is put in where they are new.
    UpsertActor(String),
    /// Has the emojis of a domain put on record.
    RecordEmojis { domain: String, emojis: Vec<SeenEmoji> },
    /// The reaction is put in.
    Insert { post_id: i64, actor_id: i64, kind: &'static str, reaction: ReactionRequest },
    /// The author of the post is told.
    Tell {
        target_actor_id: i64,
        actor_id: i64,
        post_id: i64,
        reaction: ReactionRequest,
        event: Json,
    },
    /// The reactions to the post are shown anew.
    Show { post_id: i64, author_id: i64, actor_id: i64, content: String },
}

/// What a step stands for.
pub enum ReactionStepModel {
    Refuse(Seq<char>),
    Done,
    FindPost(Seq<char>),
    UpsertActor(Seq<char>),
    RecordEmojis { domain: Seq<char>, emojis: Seq<SeenEmojiModel> },
    Insert { post_id: i64, actor_id: i64, kind: Seq<char>, reaction: ReactionModel },
    Tell {
        target_actor_id: i64,
        actor_id: i64,
        post_id: i64,
        reaction: ReactionModel,
        event: JsonModel,
    },
    Show { post_id: i64, author_id: i64, actor_id: i64, content: Seq<char> },
}

impl View for ReactionStep {
    type V = ReactionStepModel;

    open spec fn view(&self) -> ReactionStepModel {
        match self {
            ReactionStep::Refuse(e) => ReactionStepModel::Refuse(e@),
            ReactionStep::Done => ReactionStepModel::Done,
            ReactionStep::FindPost(u) => ReactionStepModel::FindPost(u@),
            ReactionStep::UpsertActor(u) => ReactionStepModel::UpsertActor(u@),
            ReactionStep::RecordEmojis { domain, emojis } => ReactionStepModel::RecordEmojis {
                domain: domain@,
                emojis: emojis@.map_values(|e: SeenEmoji| e@),
            },
            ReactionStep::Insert { post_id, actor_id, kind, reaction } => ReactionStepModel::Insert {
                post_id: *post_id,
                actor_id: *actor_id,
                kind: kind@,
                reaction: reaction@,
            },
            ReactionStep::Tell { target_actor_id, actor_id, post_id, reaction, event } => ReactionStepModel::Tell {
                target_actor_id: *target_actor_id,
                actor_id: *actor_id,
                post_id: *post_id,
                reaction: reaction@,
                event: event@,
            },
            ReactionStep::Show { post_id, author_id, actor_id, content } => ReactionStepModel::Show {
                post_id: *post_id,
                author_id: *author_id,
                actor_id: *actor_id,
                content: content@,
            },
        }
    }
}

/// The steps once the post and the actor are known: the reaction goes on record,
/// the author is told, and the reactions are shown anew.
pub open spec fn known_reaction_step(
    q: ReactionModel,
    post_id: i64,
    author_id: i64,
    actor: RemoteActorInfo,
    a: ReactionAnswers,
) -> ReactionStepModel {
    if q.emoji_url is Some && !a.recorded {
        ReactionStepModel::RecordEmojis {
            domain: actor.domain@,
            emojis: emoji::seen_emoji_models(seq![reaction_tag(q.content, q.emoji_url->0)]),
        }
    } else if !a.inserted {
        ReactionStepModel::Insert {
            post_id,
            actor_id: actor.actor_id,
            kind: if q.is_like {
                "like"@
            } else {
                "emoji"@
            },
            reaction: q,
        }
    } else if !a.told {
        ReactionStepModel::Tell {
            target_actor_id: author_id,
            actor_id: actor.actor_id,
            post_id,
            reaction: q,
            event: reaction_event(post_id, q, actor),
        }
    } else if !a.shown {
        ReactionStepModel::Show { post_id, author_id, actor_id: actor.actor_id, content: q.content }
    } else {
        ReactionStepModel::Done
    }
}

/// What is done next about a reaction, from the answers that there are.
pub open spec fn reaction_step(activity: JsonModel, a: ReactionAnswers) -> ReactionStepModel {
    match reaction_request(activity) {
        Err(e) => ReactionStepModel::Refuse(e),
        Ok(q) => match (a.found, a.actor) {
            (None, _) => ReactionStepModel::FindPost(q.object_uri),
            (Some(None), _) => ReactionStepModel::Done,
            (_, None) => ReactionStepModel::UpsertActor(q.actor_uri),
            (Some(Some(p)), Some(actor)) => known_reaction_step(q, p.0, p.1, actor, a),
        },
    }
}

/// What is done next about a reaction, from the answers that there are.
pub fn next_reaction_step(activity: &Json, a: &ReactionAnswers) -> (r: ReactionStep)
    ensures
        r@ == reaction_step(activity@, *a),
{
    let q: ReactionRequest = match read_reaction(activity) {
        Ok(q) => q,
        Err(e) => {
            return ReactionStep::Refuse(e);
        },
    };
    let (post_id, author_id): (i64, i64) = match a.found {
        None => {
            return ReactionStep::FindPost(q.object_uri);
        },
        Some(None) => {
            return ReactionStep::Done;
        },
        Some(Some(p)) => p,
    };
    let actor: &RemoteActorInfo = match &a.actor {
        Some(x) => x,
        None => {
            return ReactionStep::UpsertActor(q.actor_uri);
        },
    };
    if !a.recorded {
        match make_reaction_tag(&q) {
            Some(tag) => {
                let tags: Vec<Json> = vec![tag];
                assert(json::models(tags@) =~= seq![tag@]);
                return ReactionStep::RecordEmojis {
                    domain: actor.domain.clone(),
                    emojis: emoji::seen_emojis(tags.as_slice()),
                };
            },
            None => {},
        }
    }
    if !a.inserted {
        ReactionStep::Insert {
            post_id,
            actor_id: actor.actor_id,
            kind: reaction_type(&q),
            reaction: q,
        }
    } else if !a.told {
        ReactionStep::Tell {
            target_actor_id: author_id,
            actor_id: actor.actor_id,
            post_id,
            event: make_reaction_event(post_id, &q, actor),
            reaction: q,
        }
    } else if !a.shown {
        ReactionStep::Show { post_id, author_id, actor_id: actor.actor_id, content: q.content }
    } else {
        ReactionStep::Done
    }
}

// ---------------------------------------------------------------------------
// Laws.
// ---------------------------------------------------------------------------
/// A reaction to a post that is not known changes nothing: not even the actor is
/// looked up.
pub proof fn law_reaction_to_unknown_post_is_ignored(activity: JsonModel, a: ReactionAnswers)
    requires
        a.found == Some(None::<(i64, i64)>),
    ensures
        reaction_step(activity, a) is Done || reaction_step(activity, a) is Refuse,
{
}

/// Whether a reaction is kept as a like is told by its emoji alone: an activity
/// without one is a like, whatever its type.
pub proof fn law_reaction_without_emoji_is_a_like(activity: JsonModel, a: ReactionAnswers)
    requires
        activity.text_at("content"@) is None,
        activity.text_at("_misskey_reaction"@) is None,
    ensures
        reaction_step(activity, a) matches ReactionStepModel::Insert { kind, .. } ==> kind
            == "like"@,
{
}

/// A reaction is to the post that its object names, by address or by the identifier
/// of an object that is given whole.
pub proof fn law_object_is_named_either_way(activity: JsonModel, uri: Seq<char>)
    ensures
        activity.at("object"@) == JsonModel::Str(uri) ==> object_uri(activity) == Some(uri),
        activity.at("object"@) is Obj && activity.at("object"@).text_at("id"@) == Some(uri)
            ==> object_uri(activity) == Some(uri),
        activity.at("object"@).as_str() is None && activity.at("object"@).text_at("id"@) is None
            <==> object_uri(activity) is None,
{
}

/// The emoji of a reaction is its content, else what Misskey states; a reaction that
/// states neither is a heart. The heart is a like, any other emoji is not.
pub proof fn law_emoji_is_what_is_stated(activity: JsonModel, emoji: Seq<char>)
    requires
        activity.text_at("content"@) == Some(emoji) || activity.text_at("content"@) is None
            && activity.text_at("_misskey_reaction"@) == Some(emoji),
        activity.text_at("actor"@) is Some,
        object_uri(activity) is Some,
    ensures
        reaction_request(activity) is Ok,
        reaction_request(activity)->Ok_0.content == emoji,
        reaction_request(activity)->Ok_0.is_like <==> emoji == "❤️"@,
        reaction_request(activity)->Ok_0.actor_uri == activity.text_at("actor"@)->0,
        reaction_request(activity)->Ok_0.object_uri == object_uri(activity)->0,
        reaction_request(activity)->Ok_0.activity_id == activity.text_at("id"@),
{
}

/// The event of a reaction names the post, the emoji with its image, and the actor.
pub proof fn law_event_tells_of_the_reaction(post_id: i64, r: ReactionModel, remote: RemoteActorInfo)
    ensures
        ({
            let e = reaction_event(post_id, r, remote);
            &&& e.text_at("postId"@) is Some
            &&& decimal::denoted_i64(e.text_at("postId"@)->0) == Some(post_id)
            &&& e.text_at("emoji"@) == Some(r.content)
            &&& e.text_at("emojiUrl"@) == r.emoji_url
            &&& e.at("actor"@).text_at("username"@) == Some(remote.username@)
            &&& e.at("actor"@).text_at("domain"@) == Some(remote.domain@)
            &&& e.at("actor"@).text_at("displayName"@) == Some(remote.display_name@)
        }),
{
    reveal_strlit("postId");
    reveal_strlit("emoji");
    reveal_strlit("emojiUrl");
    reveal_strlit("actor");
    reveal_strlit("username");
    reveal_strlit("domain");
    reveal_strlit("displayName");
    assert("postId"@.len() == 6);
    assert("emoji"@.len() == 5);
    assert("emojiUrl"@.len() == 8);
    assert("actor"@.len() == 5);
    assert("username"@.len() == 8);
    assert("domain"@.len() == 6);
    assert("displayName"@.len() == 11);
    assert("postId"@[0] != "domain"@[0]);
    assert("emoji"@[0] != "actor"@[0]);
    assert("emojiUrl"@[0] != "username"@[0]);
    decimal::law_notation_denotes(post_id as int);
    reveal_with_fuel(json::first_member, 5);
}

/// A reaction is first looked up by the address of its post, then by that of its
/// actor. It is put in under the post and the actor that were found, then its author
/// is told, then the reactions are shown; each of these once.
pub proof fn law_reaction_is_kept_and_told(
    activity: JsonModel,
    uri: Seq<char>,
    actor_uri: Seq<char>,
    post_id: i64,
    author_id: i64,
    actor: RemoteActorInfo,
    a: ReactionAnswers,
)
    requires
        activity.text_at("actor"@) == Some(actor_uri),
        activity.at("object"@) == JsonModel::Str(uri),
    ensures
        a.found is None ==> reaction_step(activity, a) == ReactionStepModel::FindPost(uri),
        a.found == Some(Some((post_id, author_id))) && a.actor is None ==> reaction_step(
            activity,
            a,
        ) == ReactionStepModel::UpsertActor(actor_uri),
        a.found == Some(Some((post_id, author_id))) && a.actor == Some(actor) ==> {
            let q = reaction_request(activity)->Ok_0;
            let step = reaction_step(activity, a);
            &&& step is RecordEmojis <==> q.emoji_url is Some && !a.recorded
            &&& step is Done <==> (q.emoji_url is Some ==> a.recorded) && a.inserted && a.told
                && a.shown
            &&& step matches ReactionStepModel::RecordEmojis { domain, .. } ==> domain
                == actor.domain@
            &&& step matches ReactionStepModel::Insert {
                post_id: p,
                actor_id: x,
                kind,
                reaction,
            } ==> !a.inserted && p == post_id && x == actor.actor_id && reaction == q && (kind
                == "like"@ <==> q.content == "❤️"@) && (kind == "emoji"@ <==> q.content != "❤️"@)
            &&& step matches ReactionStepModel::Tell {
                target_actor_id,
                actor_id: x,
                post_id: p,
                reaction,
                event,
            } ==> a.inserted && !a.told && target_actor_id == author_id && x == actor.actor_id
                && p == post_id && reaction == q && event == reaction_event(post_id, q, actor)
            &&& step matches ReactionStepModel::Show {
                post_id: p,
                author_id: w,
                actor_id: x,
                content,
            } ==> a.inserted && a.told && !a.shown && p == post_id && w == author_id && x
                == actor.actor_id && content == q.content
            &&& !(step is Refuse) && !(step is FindPost) && !(step is UpsertActor)
        },
{
    reveal_strlit("like");
    reveal_strlit("emoji");
    assert("like"@.len() == 4);
    assert("emoji"@.len() == 5);
}

/// A reaction with a custom emoji shows the image of the first tag that is that emoji.
pub proof fn law_custom_emoji_has_its_image(
    activity: JsonModel,
    k: int,
    name: Seq<char>,
    url: Seq<char>,
)
    requires
        activity.text_at("actor"@) is Some,
        object_uri(activity) is Some,
        0 <= k < activity.at("tag"@).items().len(),
        activity.at("tag"@).items()[k].text_at("type"@) == Some("Emoji"@),
        activity.at("tag"@).items()[k].text_at("name"@) == Some(name),
        activity.at("tag"@).items()[k].at("icon"@).text_at("url"@) == Some(url),
        emoji::bare_shortcode(name) == emoji::bare_shortcode(reaction_content(activity)),
        forall|j: int|
            0 <= j < k ==> (#[trigger] activity.at("tag"@).items()[j]).text_at("type"@) != Some(
                "Emoji"@,
            ),
    ensures
        reaction_request(activity) is Ok,
        reaction_request(activity)->Ok_0.emoji_url == Some(url),
{
    emoji::law_image_is_that_of_the_tag(
        activity.at("tag"@).items(),
        reaction_content(activity),
        seq![],
        k,
        name,
        url,
    );
}

/// The emoji of a reaction goes on record as the tag that it came with: under its
/// shortcode and with its image.
pub proof fn law_custom_emoji_goes_on_record(code: Seq<char>, url: Seq<char>)
    requires
        code.len() > 0,
        code[0] != ':',
        code.last() != ':',
    ensures
        ({
            let t = reaction_tag(":"@ + code + ":"@, url);
            let seen = emoji::seen_emoji_models(seq![t]);
            &&& t.text_at("type"@) == Some("Emoji"@)
            &&& t.text_at("name"@) == Some(":"@ + code + ":"@)
            &&& t.at("icon"@).text_at("url"@) == Some(url)
            &&& seen.len() == 1
            &&& seen[0].shortcode == code
            &&& seen[0].url == url
        }),
{
    reveal_strlit("type");
    reveal_strlit("name");
    reveal_strlit("icon");
    reveal_strlit("url");
    assert("type"@.len() == 4);
    assert("name"@.len() == 4);
    assert("icon"@.len() == 4);
    assert("url"@.len() == 3);
    assert("type"@[0] != "name"@[0]);
    assert("type"@[0] != "icon"@[0]);
    assert("name"@[0] != "icon"@[0]);
    let t = reaction_tag(":"@ + code + ":"@, url);
    reveal_with_fuel(json::first_member, 4);
    assert(t.text_at("type"@) == Some("Emoji"@));
    assert(t.text_at("name"@) == Some(":"@ + code + ":"@));
    assert(t.at("icon"@).text_at("url"@) == Some(url));
    emoji::law_seen_emoji_keeps_what_is_stated(t, code, url);
    reveal_with_fuel(emoji::seen_emoji_models, 2);
    assert(seq![t].drop_last() =~= seq![]);
    assert(seq![t].last() == t);
}

/// The custom emoji of a reaction is put on record for the server of its actor before
/// the reaction is put in.
pub proof fn law_emoji_is_recorded_for_its_server(
    activity: JsonModel,
    a: ReactionAnswers,
    p: (i64, i64),
    actor: RemoteActorInfo,
    url: Seq<char>,
)
    requires
        reaction_request(activity) is Ok,
        reaction_request(activity)->Ok_0.emoji_url == Some(url),
        a.found == Some(Some(p)),
        a.actor == Some(actor),
        !a.recorded,
    ensures
        reaction_step(activity, a) matches ReactionStepModel::RecordEmojis { domain, emojis }
            && domain == actor.domain@ && emojis == emoji::seen_emoji_models(
            seq![reaction_tag(reaction_content(activity), url)],
        ),
{
}

/// A reaction that cannot be read is refused with what it lacks.
pub proof fn law_refusal_names_what_is_missing(activity: JsonModel)
    ensures
        activity.text_at("actor"@) is None ==> reaction_request(activity) == Err::<
            ReactionModel,
            Seq<char>,
        >("Reaction: actor フィールドがありません"@),
        activity.text_at("actor"@) is Some && activity.at("object"@).as_str() is None
            && activity.at("object"@).text_at("id"@) is None ==> reaction_request(activity)
            == Err::<ReactionModel, Seq<char>>("Reaction: object フィールドがありません"@),
{
}

} // verus!
