//! The order in which a delivered note is kept, told of and shown.

use crate::decimal;
use crate::jobs::inbound_activity_process::actor::{Actor, RemoteActorInfo};
use crate::jobs::inbound_activity_process::create;
use crate::jobs::inbound_activity_process::create::{
    Broadcast, BroadcastModel, CreatedNoteContext, CreatedNoteModel, Notice, NoticeKind,
};
use crate::jobs::inbound_activity_process::note_flow::{SavedApNote, SavedModel};
use crate::jobs::inbound_activity_process::note_input;
use crate::jobs::inbound_activity_process::note_save::{DeliveryMeta, Visibility};
use crate::json::{Json, JsonModel};
use crate::outside;
use crate::text;
use vstd::prelude::*;

verus! {

/// A note that was put in, and its author.
pub struct KeptNote {
    pub saved: SavedApNote,
    pub remote: RemoteActorInfo,
}

/// The answers that there are about a delivered note.
pub struct CreateAnswers {
    /// What came of keeping the note; nothing where it was there already.
    pub kept: Option<Option<KeptNote>>,
    /// What is known of the post that is quoted.
    pub quoted: Option<Option<DeliveryMeta>>,
    /// What is known of the post that is replied to.
    pub parent: Option<Option<DeliveryMeta>>,
    /// The actors that are found under the mentioned names.
    pub mentioned: Option<Vec<Option<Actor>>>,
    /// The notices went out.
    pub told: bool,
    /// The actors whose home timelines show the author's posts.
    pub followers: Option<Vec<i64>>,
    /// The lists that hold the author.
    pub list_ids: Option<Vec<i64>>,
    /// The hashtags of the text.
    pub hashtags: Option<Vec<String>>,
    /// The note was shown.
    pub shown: bool,
}

impl CreateAnswers {
    /// No answer yet.
    pub fn none() -> (r: CreateAnswers)
        ensures
            r == (CreateAnswers {
                kept: None,
                quoted: None,
                parent: None,
                mentioned: None,
                told: false,
                followers: None,
                list_ids: None,
                hashtags: None,
                shown: false,
            }),
    {
        CreateAnswers {
            kept: None,
            quoted: None,
            parent: None,
            mentioned: None,
            told: false,
            followers: None,
            list_ids: None,
            hashtags: None,
            shown: false,
        }
    }
}

/// What is done next about a delivered note.
pub enum CreateStep {
    Refuse(String),
    Done,
    /// Has the note kept as one of the given actor.
    Keep(String),
    /// Asks for what is known of the post that is quoted.
    FindQuoted(i64),
    /// Asks for what is known of the post that is replied to.
    FindParent(i64),
    /// Asks for the actors of the given names.
    FindMentioned(Vec<String>),
    /// Each of the local actors is told.
    Tell { notices: Vec<Notice>, from_actor_id: i64, post_id: i64, event: Json },
    /// Asks for the actors whose home timelines show the author's posts.
    FindFollowers { actor_id: i64, reply_to_post_id: Option<i64> },
    /// Asks for the lists that hold the author.
    FindLists(i64),
    /// Asks for the hashtags of the text.
    FindHashtags(String),
    /// The note is shown to the recipients of a message.
    ShowTo { recipients: Vec<i64>, note: Json },
    /// The note is shown on the channels of timelines.
    Show {
        visibility: Visibility,
        home: Vec<i64>,
        list_ids: Vec<i64>,
        hashtags: Vec<String>,
        note: Json,
    },
}

/// What a step stands for.
pub enum CreateStepModel {
    Refuse(Seq<char>),
    Done,
    Keep(Seq<char>),
    FindQuoted(i64),
    FindParent(i64),
    FindMentioned(Seq<Seq<char>>),
    Tell { notices: Seq<Notice>, from_actor_id: i64, post_id: i64, event: JsonModel },
    FindFollowers { actor_id: i64, reply_to_post_id: Option<i64> },
    FindLists(i64),
    FindHashtags(Seq<char>),
    ShowTo { recipients: Seq<i64>, note: JsonModel },
    Show {
        visibility: Visibility,
        home: Seq<i64>,
        list_ids: Seq<i64>,
        hashtags: Seq<Seq<char>>,
        note: JsonModel,
    },
}

impl View for CreateStep {
    type V = CreateStepModel;

    open spec fn view(&self) -> CreateStepModel {
        match self {
            CreateStep::Refuse(e) => CreateStepModel::Refuse(e@),
            CreateStep::Done => CreateStepModel::Done,
            CreateStep::Keep(u) => CreateStepModel::Keep(u@),
            CreateStep::FindQuoted(id) => CreateStepModel::FindQuoted(*id),
            CreateStep::FindParent(id) => CreateStepModel::FindParent(*id),
            CreateStep::FindMentioned(us) => CreateStepModel::FindMentioned(
                text::string_contents(us@),
            ),
            CreateStep::Tell { notices, from_actor_id, post_id, event } => CreateStepModel::Tell {
                notices: notices@,
                from_actor_id: *from_actor_id,
                post_id: *post_id,
                event: event@,
            },
            CreateStep::FindFollowers { actor_id, reply_to_post_id } => CreateStepModel::FindFollowers {
                actor_id: *actor_id,
                reply_to_post_id: *reply_to_post_id,
            },
            CreateStep::FindLists(id) => CreateStepModel::FindLists(*id),
            CreateStep::FindHashtags(b) => CreateStepModel::FindHashtags(b@),
            CreateStep::ShowTo { recipients, note } => CreateStepModel::ShowTo {
                recipients: recipients@,
                note: note@,
            },
            CreateStep::Show { visibility, home, list_ids, hashtags, note } => CreateStepModel::Show {
                visibility: *visibility,
                home: home@,
                list_ids: list_ids@,
                hashtags: text::string_contents(hashtags@),
                note: note@,
            },
        }
    }
}

/// What is shown of a note that was put in.
pub open spec fn context_of(saved: SavedModel) -> CreatedNoteModel {
    CreatedNoteModel {
        post_id: saved.post_id,
        body: saved.post.body,
        created_at: saved.post.created_at,
        actor_id: saved.post.actor_id,
        emoji_map: saved.post.emoji_map,
        visibility: saved.post.visibility,
        recipient_actor_ids: saved.post.recipient_actor_ids,
    }
}

/// The steps about where the note is shown.
pub open spec fn show_step(saved: SavedModel, remote: RemoteActorInfo, a: CreateAnswers) -> CreateStepModel {
    if a.shown {
        CreateStepModel::Done
    } else {
        match create::broadcast_of(context_of(saved), remote) {
            BroadcastModel::Nowhere => CreateStepModel::Done,
            BroadcastModel::Recipients { recipients, note } => CreateStepModel::ShowTo {
                recipients,
                note,
            },
            BroadcastModel::Channels { note } => match (a.followers, a.list_ids, a.hashtags) {
                (None, _, _) => CreateStepModel::FindFollowers {
                    actor_id: saved.post.actor_id,
                    reply_to_post_id: saved.post.reply.0,
                },
                (_, None, _) => CreateStepModel::FindLists(saved.post.actor_id),
                (_, _, None) => CreateStepModel::FindHashtags(saved.post.body),
                (Some(followers), Some(lists), Some(hashtags)) => CreateStepModel::Show {
                    visibility: saved.post.visibility,
                    home: create::distinct_ids(followers@.push(saved.post.actor_id)),
                    list_ids: create::distinct_ids(lists@),
                    hashtags: text::string_contents(hashtags@),
                    note,
                },
            },
        }
    }
}

/// The steps about a note that was put in: those whom it quotes, answers or
/// mentions are told, and it is shown.
pub open spec fn kept_step(
    saved: SavedModel,
    remote: RemoteActorInfo,
    local_domain: Seq<char>,
    a: CreateAnswers,
) -> CreateStepModel {
    let quote = saved.post.quote.0;
    let reply = saved.post.reply.0;
    let names = note_input::mentioned_local_users(saved.tags, local_domain);
    if quote is Some && a.quoted is None {
        CreateStepModel::FindQuoted(quote->0)
    } else if reply is Some && a.parent is None {
        CreateStepModel::FindParent(reply->0)
    } else if names.len() > 0 && a.mentioned is None {
        CreateStepModel::FindMentioned(names)
    } else {
        let notices = create::note_notices(
            saved.post.actor_id,
            if quote is Some {
                a.quoted->0
            } else {
                None
            },
            if reply is Some {
                a.parent->0
            } else {
                None
            },
            if names.len() > 0 {
                a.mentioned->0@
            } else {
                seq![]
            },
        );
        if notices.len() > 0 && !a.told {
            CreateStepModel::Tell {
                notices,
                from_actor_id: saved.post.actor_id,
                post_id: saved.post_id,
                event: create::post_event(saved.post_id, remote),
            }
        } else {
            show_step(saved, remote, a)
        }
    }
}

/// What is done next about a delivered note, from the answers that there are.
pub open spec fn create_step(activity: JsonModel, local_domain: Seq<char>, a: CreateAnswers) -> CreateStepModel {
    match (activity.text_at("actor"@), a.kept) {
        (None, _) => CreateStepModel::Refuse("Create: actor がありません"@),
        (Some(actor_uri), None) => CreateStepModel::Keep(actor_uri),
        (_, Some(None)) => CreateStepModel::Done,
        (_, Some(Some(k))) => kept_step(k.saved@, k.remote, local_domain, a),
    }
}

fn take_show_step(k: &KeptNote, a: &CreateAnswers) -> (r: CreateStep)
    ensures
        r@ == show_step(k.saved@, k.remote, *a),
{
    if a.shown {
        return CreateStep::Done;
    }
    let post = &k.saved.post;
    let ctx: CreatedNoteContext = CreatedNoteContext {
        post_id: k.saved.post_id,
        body: post.body.clone(),
        created_at: post.created_at,
        actor_id: post.actor_id,
        emoji_map: post.emoji_map.duplicate(),
        visibility: post.visibility,
        recipient_actor_ids: create::copy_ids(&post.recipient_actor_ids),
    };
    match create::broadcast_created_note(&ctx, &k.remote) {
        Broadcast::Nowhere => CreateStep::Done,
        Broadcast::Recipients { recipients, note } => CreateStep::ShowTo { recipients, note },
        Broadcast::Channels { note } => match (&a.followers, &a.list_ids, &a.hashtags) {
            (None, _, _) => CreateStep::FindFollowers {
                actor_id: post.actor_id,
                reply_to_post_id: post.reply_to_post_id,
            },
            (_, None, _) => CreateStep::FindLists(post.actor_id),
            (_, _, None) => CreateStep::FindHashtags(post.body.clone()),
            (Some(followers), Some(lists), Some(hashtags)) => CreateStep::Show {
                visibility: post.visibility,
                home: create::home_recipients(followers, post.actor_id),
                list_ids: create::dedup_ids(lists),
                hashtags: copy_texts(hashtags),
                note,
            },
        },
    }
}

/// A copy of a list of texts.
fn copy_texts(v: &Vec<String>) -> (r: Vec<String>)
    ensures
        text::string_contents(r@) == text::string_contents(v@),
{
    let mut out: Vec<String> = Vec::new();
    let mut i: usize = 0;
    while i < v.len()
        invariant
            i <= v@.len(),
            out@.len() == i,
            forall|k: int| 0 <= k < i ==> (#[trigger] out@[k])@ == v@[k]@,
        decreases v@.len() - i,
    {
        out.push(v[i].clone());
        i += 1;
    }
    assert(text::string_contents(out@) =~= text::string_contents(v@));
    out
}

/// The mentioned names, each as a text of its own.
fn own_names(v: &Vec<&str>) -> (r: Vec<String>)
    ensures
        text::string_contents(r@) == outside::strs(v@),
{
    let mut out: Vec<String> = Vec::new();
    let mut i: usize = 0;
    while i < v.len()
        invariant
            i <= v@.len(),
            out@.len() == i,
            forall|k: int| 0 <= k < i ==> (#[trigger] out@[k])@ == v@[k]@,
        decreases v@.len() - i,
    {
        out.push(v[i].to_owned());
        i += 1;
    }
    assert(text::string_contents(out@) =~= outside::strs(v@));
    out
}

fn take_kept_step(k: &KeptNote, local_domain: &str, a: &CreateAnswers) -> (r: CreateStep)
    ensures
        r@ == kept_step(k.saved@, k.remote, local_domain@, *a),
{
    let post = &k.saved.post;
    let nothing: Option<DeliveryMeta> = None;
    let nobody: Vec<Option<Actor>> = Vec::new();
    let quoted: &Option<DeliveryMeta> = match (post.quote_of_post_id, &a.quoted) {
        (Some(id), None) => {
            return CreateStep::FindQuoted(id);
        },
        (Some(_), Some(m)) => m,
        (None, _) => &nothing,
    };
    let parent: &Option<DeliveryMeta> = match (post.reply_to_post_id, &a.parent) {
        (Some(id), None) => {
            return CreateStep::FindParent(id);
        },
        (Some(_), Some(m)) => m,
        (None, _) => &nothing,
    };
    let names: Vec<&str> = note_input::extract_mentioned_local_usernames(
        k.saved.tags.as_slice(),
        local_domain,
    );
    assert(outside::strs(names@).len() == names@.len());
    let mentioned: &Vec<Option<Actor>> = if names.len() > 0 {
        match &a.mentioned {
            None => {
                return CreateStep::FindMentioned(own_names(&names));
            },
            Some(found) => found,
        }
    } else {
        assert(nobody@ =~= seq![]);
        &nobody
    };
    let notices: Vec<Notice> = create::notices_for_note(post.actor_id, quoted, parent, mentioned);
    if notices.len() > 0 && !a.told {
        CreateStep::Tell {
            notices,
            from_actor_id: post.actor_id,
            post_id: k.saved.post_id,
            event: create::make_post_event(k.saved.post_id, &k.remote),
        }
    } else {
        take_show_step(k, a)
    }
}

/// What is done next about a delivered note, from the answers that there are.
pub fn next_create_step(activity: &Json, local_domain: &str, a: &CreateAnswers) -> (r: CreateStep)
    ensures
        r@ == create_step(activity@, local_domain@, *a),
{
    let actor_uri: String = match create::creator(activity) {
        Ok(u) => u,
        Err(e) => {
            return CreateStep::Refuse(e);
        },
    };
    match &a.kept {
        None => CreateStep::Keep(actor_uri),
        Some(None) => CreateStep::Done,
        Some(Some(k)) => take_kept_step(k, local_domain, a),
    }
}

// ---------------------------------------------------------------------------
// Laws.
// ---------------------------------------------------------------------------
/// A note that was there already is told to nobody and shown nowhere.
pub proof fn law_known_note_is_told_to_nobody(
    activity: JsonModel,
    local_domain: Seq<char>,
    a: CreateAnswers,
)
    requires
        a.kept == Some(None::<KeptNote>),
    ensures
        !(create_step(activity, local_domain, a) is Tell),
        !(create_step(activity, local_domain, a) is ShowTo),
        !(create_step(activity, local_domain, a) is Show),
{
}

/// A message is never shown on the channels, and shown to nobody but its
/// recipients.
pub proof fn law_message_is_shown_to_its_recipients_only(
    activity: JsonModel,
    local_domain: Seq<char>,
    a: CreateAnswers,
    k: KeptNote,
    id: i64,
)
    requires
        a.kept == Some(Some(k)),
        k.saved@.post.visibility == Visibility::Direct,
    ensures
        !(create_step(activity, local_domain, a) is Show),
        create_step(activity, local_domain, a) matches CreateStepModel::ShowTo { recipients, .. }
            ==> (recipients.contains(id) ==> k.saved@.post.recipient_actor_ids.contains(id)),
{
    create::lemma_distinct_ids(k.saved@.post.recipient_actor_ids, id);
}

/// A new note is kept as one of the actor who sends it.
pub proof fn law_note_is_kept_for_its_sender(
    activity: JsonModel,
    local_domain: Seq<char>,
    a: CreateAnswers,
    actor: Seq<char>,
)
    requires
        a.kept is None,
    ensures
        activity.text_at("actor"@) == Some(actor) ==> create_step(activity, local_domain, a)
            == CreateStepModel::Keep(actor),
        activity.text_at("actor"@) is None ==> create_step(activity, local_domain, a) is Refuse,
{
}

/// What is asked of a kept note before anybody is told: who wrote the post that it
/// quotes, who wrote the one that it answers, and who its mentions are.
pub proof fn law_kept_note_is_looked_up(
    activity: JsonModel,
    local_domain: Seq<char>,
    a: CreateAnswers,
    k: KeptNote,
    id: i64,
)
    requires
        activity.text_at("actor"@) is Some,
        a.kept == Some(Some(k)),
    ensures
        ({
            let step = create_step(activity, local_domain, a);
            let post = k.saved@.post;
            let names = note_input::mentioned_local_users(k.saved@.tags, local_domain);
            &&& step == CreateStepModel::FindQuoted(id) <==> post.quote.0 == Some(id) && a.quoted
                is None
            &&& (post.quote.0 is None || a.quoted is Some) ==> (step
                == CreateStepModel::FindParent(id) <==> post.reply.0 == Some(id) && a.parent
                is None)
            &&& (post.quote.0 is None || a.quoted is Some) && (post.reply.0 is None || a.parent
                is Some) ==> (step is FindMentioned <==> names.len() > 0 && a.mentioned is None)
            &&& step matches CreateStepModel::FindMentioned(us) ==> us == names
        }),
{
}

/// The notices of a kept note come from its author, name the post, and go to the
/// author of the quoted post, the author of the post that is answered and whoever is
/// mentioned, as far as they are local users.
pub proof fn law_kept_note_is_told(
    activity: JsonModel,
    local_domain: Seq<char>,
    a: CreateAnswers,
    k: KeptNote,
    told: Seq<Notice>,
    from: i64,
    post_id: i64,
    event: JsonModel,
    m: DeliveryMeta,
)
    requires
        a.kept == Some(Some(k)),
        create_step(activity, local_domain, a) == (CreateStepModel::Tell {
            notices: told,
            from_actor_id: from,
            post_id,
            event,
        }),
    ensures
        !a.told,
        told.len() > 0,
        from == k.saved@.post.actor_id,
        post_id == k.saved@.post_id,
        event.text_at("postId"@) is Some,
        decimal::denoted_i64(event.text_at("postId"@)->0) == Some(k.saved@.post_id),
        event.at("actor"@).text_at("username"@) == Some(k.remote.username@),
        event.at("actor"@).text_at("domain"@) == Some(k.remote.domain@),
        k.saved@.post.quote.0 is Some && a.quoted == Some(Some(m)) && m.actor_type@ == "local"@
            && m.actor_id != from ==> told.contains(
            (Notice { target_actor_id: m.actor_id, kind: NoticeKind::Quote }),
        ),
        k.saved@.post.reply.0 is Some && a.parent == Some(Some(m)) && m.actor_type@ == "local"@
            && m.actor_id != from ==> told.contains(
            (Notice { target_actor_id: m.actor_id, kind: NoticeKind::Reply }),
        ),
{
    let s = k.saved@;
    let quote = s.post.quote.0;
    let reply = s.post.reply.0;
    let names = note_input::mentioned_local_users(s.tags, local_domain);
    create::law_event_tells_of_the_post(s.post_id, k.remote);
    create::law_authors_are_told(
        s.post.actor_id,
        if quote is Some {
            a.quoted->0
        } else {
            None
        },
        if reply is Some {
            a.parent->0
        } else {
            None
        },
        if names.len() > 0 {
            a.mentioned->0@
        } else {
            seq![]
        },
        m.actor_id,
    );
}

/// Whoever is mentioned and found to be a local user is told of it.
pub proof fn law_kept_note_is_told_to_the_mentioned(
    activity: JsonModel,
    local_domain: Seq<char>,
    a: CreateAnswers,
    k: KeptNote,
    j: int,
    who: Actor,
)
    requires
        activity.text_at("actor"@) is Some,
        a.kept == Some(Some(k)),
        !a.told,
        a.quoted is Some,
        a.parent is Some,
        a.mentioned is Some,
        note_input::mentioned_local_users(k.saved@.tags, local_domain).len() > 0,
        0 <= j < a.mentioned->0@.len(),
        a.mentioned->0@[j] == Some(who),
        who.actor_type@ == "local"@,
    ensures
        create_step(activity, local_domain, a) matches CreateStepModel::Tell { notices, .. }
            && notices.contains((Notice { target_actor_id: who.id, kind: NoticeKind::Mention })),
{
    let s = k.saved@;
    let all = create::note_notices(
        s.post.actor_id,
        if s.post.quote.0 is Some {
            a.quoted->0
        } else {
            None
        },
        if s.post.reply.0 is Some {
            a.parent->0
        } else {
            None
        },
        a.mentioned->0@,
    );
    create::law_mentioned_users_are_told(
        s.post.actor_id,
        if s.post.quote.0 is Some {
            a.quoted->0
        } else {
            None
        },
        if s.post.reply.0 is Some {
            a.parent->0
        } else {
            None
        },
        a.mentioned->0@,
        who.id,
    );
    assert(all.contains((Notice { target_actor_id: who.id, kind: NoticeKind::Mention })));
    assert(all.len() > 0);
}

/// What is shown is the kept post: its number, text, time, author, emojis,
/// visibility and recipients.
pub proof fn law_shown_post_is_the_kept_one(saved: SavedModel)
    ensures
        context_of(saved).post_id == saved.post_id,
        context_of(saved).body == saved.post.body,
        context_of(saved).created_at == saved.post.created_at,
        context_of(saved).actor_id == saved.post.actor_id,
        context_of(saved).emoji_map == saved.post.emoji_map,
        context_of(saved).visibility == saved.post.visibility,
        context_of(saved).recipient_actor_ids == saved.post.recipient_actor_ids,
{
}

/// A note that is shown on channels is shown at home to the author and to everybody
/// who was found to follow, and in each of the lists that hold the author, each of
/// them once.
pub proof fn law_note_reaches_its_timelines(
    activity: JsonModel,
    local_domain: Seq<char>,
    a: CreateAnswers,
    k: KeptNote,
    id: i64,
)
    requires
        a.kept == Some(Some(k)),
    ensures
        create_step(activity, local_domain, a) matches CreateStepModel::Show {
            visibility,
            home,
            list_ids,
            hashtags,
            ..
        } ==> {
            &&& !a.shown
            &&& visibility == k.saved@.post.visibility
            &&& a.followers is Some && a.list_ids is Some && a.hashtags is Some
            &&& home.contains(id) <==> id == k.saved@.post.actor_id || a.followers->0@.contains(id)
            &&& list_ids.contains(id) <==> a.list_ids->0@.contains(id)
            &&& hashtags == text::string_contents(a.hashtags->0@)
        },
{
    if a.followers is Some {
        let f = a.followers->0@;
        let all = f.push(k.saved@.post.actor_id);
        create::lemma_distinct_ids(all, id);
        assert(all[f.len() as int] == k.saved@.post.actor_id);
        if f.contains(id) {
            let j = choose|j: int| 0 <= j < f.len() && f[j] == id;
            assert(all[j] == id);
        }
        if all.contains(id) && id != k.saved@.post.actor_id {
            let j = choose|j: int| 0 <= j < all.len() && all[j] == id;
            assert(f[j] == id);
        }
    }
    if a.list_ids is Some {
        create::lemma_distinct_ids(a.list_ids->0@, id);
    }
}

/// What is asked before a note is shown on channels: who follows its author, which
/// lists hold the author, and which hashtags its text has.
pub proof fn law_timelines_are_looked_up(
    saved: SavedModel,
    remote: RemoteActorInfo,
    a: CreateAnswers,
    b: CreateAnswers,
)
    requires
        !a.shown,
        b.shown,
        saved.post.visibility != Visibility::Direct,
    ensures
        show_step(saved, remote, b) is Done,
        a.followers is None ==> show_step(saved, remote, a) == (CreateStepModel::FindFollowers {
            actor_id: saved.post.actor_id,
            reply_to_post_id: saved.post.reply.0,
        }),
        a.followers is Some && a.list_ids is None ==> show_step(saved, remote, a)
            == CreateStepModel::FindLists(saved.post.actor_id),
        a.followers is Some && a.list_ids is Some && a.hashtags is None ==> show_step(
            saved,
            remote,
            a,
        ) == CreateStepModel::FindHashtags(saved.post.body),
        a.followers is Some && a.list_ids is Some && a.hashtags is Some ==> show_step(
            saved,
            remote,
            a,
        ) is Show,
{
}

} // verus!
