//! What follows from a remote note that was kept: who is told of it, and on
//! which channels it is shown.

use crate::decimal;
use crate::jobs::inbound_activity_process::actor::{Actor, RemoteActorInfo};
use crate::jobs::inbound_activity_process::note_save::{DeliveryMeta, Visibility};
use crate::json;
use crate::json::{Json, JsonModel};
use crate::outside;
use crate::outside::Timestamp;
use crate::text;
use vstd::prelude::*;

verus! {

/// The actor whose note an activity creates.
pub fn creator(activity: &Json) -> (r: Result<String, String>)
    ensures
        match activity@.text_at("actor"@) {
            Some(a) => r matches Ok(u) && u@ == a,
            None => r matches Err(e) && e@ == "Create: actor がありません"@,
        },
{
    match activity.text_at("actor") {
        Some(a) => Ok(a.to_owned()),
        None => Err("Create: actor がありません".to_owned()),
    }
}

/// Who is told that a remote actor quoted, answered or reposted a post: the
/// post's author, where it is a local one and not that actor.
pub open spec fn notice_target(meta: Option<DeliveryMeta>, actor_id: i64) -> Option<i64> {
    match meta {
        Some(m) if m.actor_type@ == "local"@ && m.actor_id != actor_id => Some(m.actor_id),
        _ => None,
    }
}

/// Who is told that a remote actor quoted, answered or reposted a post.
pub fn decide_notice(meta: &Option<DeliveryMeta>, actor_id: i64) -> (r: Option<i64>)
    ensures
        r == notice_target(*meta, actor_id),
{
    match meta {
        Some(m) => {
            if text::same_str(m.actor_type.as_str(), "local") && m.actor_id != actor_id {
                Some(m.actor_id)
            } else {
                None
            }
        },
        None => None,
    }
}

/// The local actors among those that were found, each once, in order.
pub open spec fn distinct_local_ids(found: Seq<Option<Actor>>) -> Seq<i64>
    decreases found.len(),
{
    if found.len() == 0 {
        seq![]
    } else {
        let front = distinct_local_ids(found.drop_last());
        match found.last() {
            Some(a) if a.local() && !front.contains(a.id) => front.push(a.id),
            _ => front,
        }
    }
}

/// Whether a list holds an identifier.
pub(crate) fn holds_id(v: &Vec<i64>, id: i64) -> (r: bool)
    ensures
        r == v@.contains(id),
{
    let mut i: usize = 0;
    while i < v.len()
        invariant
            i <= v@.len(),
            forall|k: int| 0 <= k < i ==> #[trigger] v@[k] != id,
        decreases v@.len() - i,
    {
        if v[i] == id {
            assert(v@[i as int] == id);
            return true;
        }
        i += 1;
    }
    false
}

/// Who is told of being mentioned: the local actors among those that were found
/// under the mentioned names, each once.
pub fn mention_targets(found: &Vec<Option<Actor>>) -> (r: Vec<i64>)
    ensures
        r@ == distinct_local_ids(found@),
{
    let mut out: Vec<i64> = Vec::new();
    let mut i: usize = 0;
    assert(found@.take(0) =~= seq![]);
    while i < found.len()
        invariant
            i <= found@.len(),
            out@ == distinct_local_ids(found@.take(i as int)),
        decreases found@.len() - i,
    {
        proof {
            assert(found@.take(i + 1).drop_last() =~= found@.take(i as int));
            assert(found@.take(i + 1).last() == found@[i as int]);
        }
        match &found[i] {
            Some(a) => {
                if a.is_local() && !holds_id(&out, a.id) {
                    out.push(a.id);
                }
            },
            None => {},
        }
        i += 1;
    }
    assert(found@.take(i as int) =~= found@);
    out
}

/// What is shown of a remote actor in an event.
pub open spec fn actor_object(
    username: Seq<char>,
    domain: Seq<char>,
    display_name: JsonModel,
) -> JsonModel {
    JsonModel::Obj(
        seq![
            json::member_of("username"@, JsonModel::Str(username)),
            json::member_of("domain"@, JsonModel::Str(domain)),
            json::member_of("displayName"@, display_name),
        ],
    )
}

/// What is shown of a remote actor in an event.
pub(crate) fn make_actor_object(username: &str, domain: &str, display_name: Json) -> (r: Json)
    ensures
        r@ == actor_object(username@, domain@, display_name@),
{
    let ghost shown = display_name@;
    let ms: Vec<json::Member> = vec![
        json::member("username", json::text_json(username)),
        json::member("domain", json::text_json(domain)),
        json::member("displayName", display_name),
    ];
    assert(json::member_models(ms@) =~= actor_object(username@, domain@, shown)->Obj_0);
    json::object(ms)
}

/// The event that tells of a post: the post's identifier, and the actor.
pub open spec fn post_event(post_id: i64, remote: RemoteActorInfo) -> JsonModel {
    JsonModel::Obj(
        seq![
            json::member_of("postId"@, JsonModel::Str(decimal::int_text(post_id as int))),
            json::member_of(
                "actor"@,
                actor_object(
                    remote.username@,
                    remote.domain@,
                    JsonModel::Str(remote.display_name@),
                ),
            ),
        ],
    )
}

/// The event that tells of a post.
pub fn make_post_event(post_id: i64, remote: &RemoteActorInfo) -> (r: Json)
    ensures
        r@ == post_event(post_id, *remote),
{
    let id: String = decimal::format_i64(post_id);
    let ms: Vec<json::Member> = vec![
        json::member("postId", json::text_json(id.as_str())),
        json::member(
            "actor",
            make_actor_object(
                remote.username.as_str(),
                remote.domain.as_str(),
                json::text_json(remote.display_name.as_str()),
            ),
        ),
    ];
    assert(json::member_models(ms@) =~= post_event(post_id, *remote)->Obj_0);
    json::object(ms)
}

/// Why a local user is told of a post.
#[derive(Debug, Clone, Copy, PartialEq, Eq, Structural)]
pub enum NoticeKind {
    Quote,
    Reply,
    Mention,
    Repost,
}

impl NoticeKind {
    pub open spec fn name(self) -> Seq<char> {
        match self {
            NoticeKind::Quote => "quote"@,
            NoticeKind::Reply => "reply"@,
            NoticeKind::Mention => "mention"@,
            NoticeKind::Repost => "repost"@,
        }
    }

    /// The name of the event.
    pub fn event_name(self) -> (r: &'static str)
        ensures
            r@ == self.name(),
    {
        match self {
            NoticeKind::Quote => "quote",
            NoticeKind::Reply => "reply",
            NoticeKind::Mention => "mention",
            NoticeKind::Repost => "repost",
        }
    }
}

/// A notice to a local actor.
#[derive(Debug, Clone, Copy, PartialEq, Eq, Structural)]
pub struct Notice {
    pub target_actor_id: i64,
    pub kind: NoticeKind,
}

/// The notices of mentions.
pub open spec fn mention_notices(ids: Seq<i64>) -> Seq<Notice> {
    ids.map_values(|id: i64| Notice { target_actor_id: id, kind: NoticeKind::Mention })
}

pub open spec fn notice_if(target: Option<i64>, kind: NoticeKind) -> Seq<Notice> {
    match target {
        Some(id) => seq![Notice { target_actor_id: id, kind }],
        None => seq![],
    }
}

/// The notices that a kept note gives: of a quote, of a reply and of each
/// mention, in this order.
pub open spec fn note_notices(
    actor_id: i64,
    quoted: Option<DeliveryMeta>,
    parent: Option<DeliveryMeta>,
    mentioned: Seq<Option<Actor>>,
) -> Seq<Notice> {
    notice_if(notice_target(quoted, actor_id), NoticeKind::Quote) + notice_if(
        notice_target(parent, actor_id),
        NoticeKind::Reply,
    ) + mention_notices(distinct_local_ids(mentioned))
}

/// The notices that a kept note gives.
pub fn notices_for_note(
    actor_id: i64,
    quoted: &Option<DeliveryMeta>,
    parent: &Option<DeliveryMeta>,
    mentioned: &Vec<Option<Actor>>,
) -> (r: Vec<Notice>)
    ensures
        r@ == note_notices(actor_id, *quoted, *parent, mentioned@),
{
    let mut out: Vec<Notice> = Vec::new();
    let ghost q = notice_if(notice_target(*quoted, actor_id), NoticeKind::Quote);
    let ghost p = notice_if(notice_target(*parent, actor_id), NoticeKind::Reply);
    match decide_notice(quoted, actor_id) {
        Some(id) => {
            out.push(Notice { target_actor_id: id, kind: NoticeKind::Quote });
        },
        None => {},
    }
    assert(out@ =~= q);
    match decide_notice(parent, actor_id) {
        Some(id) => {
            out.push(Notice { target_actor_id: id, kind: NoticeKind::Reply });
        },
        None => {},
    }
    assert(out@ =~= q + p);
    let ids: Vec<i64> = mention_targets(mentioned);
    let mut i: usize = 0;
    while i < ids.len()
        invariant
            i <= ids@.len(),
            out@ =~= q + p + mention_notices(ids@.take(i as int)),
        decreases ids@.len() - i,
    {
        out.push(Notice { target_actor_id: ids[i], kind: NoticeKind::Mention });
        i += 1;
    }
    assert(ids@.take(i as int) =~= ids@);
    out
}

/// What is shown of a kept note on the channels.
pub struct CreatedNoteContext {
    pub post_id: i64,
    pub body: String,
    pub created_at: Timestamp,
    pub actor_id: i64,
    pub emoji_map: Json,
    pub visibility: Visibility,
    pub recipient_actor_ids: Vec<i64>,
}

/// What the context of a kept note stands for.
pub struct CreatedNoteModel {
    pub post_id: i64,
    pub body: Seq<char>,
    pub created_at: Timestamp,
    pub actor_id: i64,
    pub emoji_map: JsonModel,
    pub visibility: Visibility,
    pub recipient_actor_ids: Seq<i64>,
}

impl View for CreatedNoteContext {
    type V = CreatedNoteModel;

    open spec fn view(&self) -> CreatedNoteModel {
        CreatedNoteModel {
            post_id: self.post_id,
            body: self.body@,
            created_at: self.created_at,
            actor_id: self.actor_id,
            emoji_map: self.emoji_map@,
            visibility: self.visibility,
            recipient_actor_ids: self.recipient_actor_ids@,
        }
    }
}

/// The note as it is shown on the channels.
pub open spec fn note_object(ctx: CreatedNoteModel, remote: RemoteActorInfo) -> Seq<json::MemberModel> {
    seq![
        json::member_of("id"@, JsonModel::Str(decimal::int_text(ctx.post_id as int))),
        json::member_of("text"@, JsonModel::Str(ctx.body)),
        json::member_of(
            "createdAt"@,
            json::text_or_null(outside::rfc3339_text(ctx.created_at)),
        ),
        json::member_of(
            "user"@,
            JsonModel::Obj(
                seq![
                    json::member_of("id"@, JsonModel::Int(ctx.actor_id as int)),
                    json::member_of("username"@, JsonModel::Str(remote.username@)),
                    json::member_of("domain"@, JsonModel::Str(remote.domain@)),
                    json::member_of("displayName"@, JsonModel::Str(remote.display_name@)),
                    json::member_of("actorType"@, JsonModel::Str("fedi"@)),
                    json::member_of(
                        "avatarUrl"@,
                        json::text_or_null(text::string_view(remote.avatar_url)),
                    ),
                ],
            ),
        ),
        json::member_of("attachments"@, JsonModel::Arr(seq![])),
        json::member_of("emojis"@, ctx.emoji_map),
    ]
}

/// The members of the note as it is shown on the channels.
fn make_note_members(ctx: &CreatedNoteContext, remote: &RemoteActorInfo) -> (r: Vec<json::Member>)
    ensures
        json::member_models(r@) == note_object(ctx@, *remote),
{
    let id: String = decimal::format_i64(ctx.post_id);
    let avatar: Option<&str> = match &remote.avatar_url {
        Some(u) => Some(u.as_str()),
        None => None,
    };
    let written: Option<String> = outside::to_rfc3339(ctx.created_at);
    let created_at: Option<&str> = match &written {
        Some(t) => Some(t.as_str()),
        None => None,
    };
    let user: Vec<json::Member> = vec![
        json::member("id", Json::Int(ctx.actor_id)),
        json::member("username", json::text_json(remote.username.as_str())),
        json::member("domain", json::text_json(remote.domain.as_str())),
        json::member("displayName", json::text_json(remote.display_name.as_str())),
        json::member("actorType", json::text_json("fedi")),
        json::member("avatarUrl", json::opt_text_json(avatar)),
    ];
    let ghost shown = note_object(ctx@, *remote);
    assert(json::member_models(user@) =~= shown[3].value->Obj_0);
    let none: Vec<Json> = Vec::new();
    assert(json::models(none@) =~= seq![]);
    let ms: Vec<json::Member> = vec![
        json::member("id", json::text_json(id.as_str())),
        json::member("text", json::text_json(ctx.body.as_str())),
        json::member("createdAt", json::opt_text_json(created_at)),
        json::member("user", json::object(user)),
        json::member("attachments", json::array(none)),
        json::member("emojis", ctx.emoji_map.duplicate()),
    ];
    assert(json::member_models(ms@) =~= shown);
    ms
}

/// A copy of a list of identifiers.
pub(crate) fn copy_ids(v: &Vec<i64>) -> (r: Vec<i64>)
    ensures
        r@ == v@,
{
    let mut out: Vec<i64> = Vec::new();
    let mut i: usize = 0;
    while i < v.len()
        invariant
            i <= v@.len(),
            out@ =~= v@.take(i as int),
        decreases v@.len() - i,
    {
        out.push(v[i]);
        i += 1;
    }
    assert(v@.take(i as int) =~= v@);
    out
}

/// The identifiers of a list, each once, in order.
pub open spec fn distinct_ids(ids: Seq<i64>) -> Seq<i64>
    decreases ids.len(),
{
    if ids.len() == 0 {
        seq![]
    } else if distinct_ids(ids.drop_last()).contains(ids.last()) {
        distinct_ids(ids.drop_last())
    } else {
        distinct_ids(ids.drop_last()).push(ids.last())
    }
}

/// The identifiers of a list, each once, in order.
pub fn dedup_ids(ids: &Vec<i64>) -> (r: Vec<i64>)
    ensures
        r@ == distinct_ids(ids@),
{
    let mut out: Vec<i64> = Vec::new();
    let mut i: usize = 0;
    assert(ids@.take(0) =~= seq![]);
    while i < ids.len()
        invariant
            i <= ids@.len(),
            out@ == distinct_ids(ids@.take(i as int)),
        decreases ids@.len() - i,
    {
        proof {
            assert(ids@.take(i + 1).drop_last() =~= ids@.take(i as int));
            assert(ids@.take(i + 1).last() == ids@[i as int]);
        }
        if !holds_id(&out, ids[i]) {
            out.push(ids[i]);
        }
        i += 1;
    }
    assert(ids@.take(i as int) =~= ids@);
    out
}

/// Keeping each identifier once neither adds nor loses one.
pub proof fn lemma_distinct_ids(ids: Seq<i64>, id: i64)
    ensures
        distinct_ids(ids).contains(id) == ids.contains(id),
    decreases ids.len(),
{
    if ids.len() > 0 {
        lemma_distinct_ids(ids.drop_last(), id);
        let front = distinct_ids(ids.drop_last());
        assert(ids =~= ids.drop_last().push(ids.last()));
        assert(ids.contains(id) == (ids.drop_last().contains(id) || id == ids.last())) by {
            if ids.drop_last().contains(id) {
                let k = choose|k: int| 0 <= k < ids.drop_last().len() && ids.drop_last()[k] == id;
                assert(ids[k] == id);
            }
            if id == ids.last() {
                assert(ids[ids.len() - 1] == id);
            }
            if ids.contains(id) && id != ids.last() {
                let k = choose|k: int| 0 <= k < ids.len() && ids[k] == id;
                assert(ids.drop_last()[k] == id);
            }
        }
        if !front.contains(ids.last()) {
            let all = front.push(ids.last());
            if front.contains(id) {
                let k = choose|k: int| 0 <= k < front.len() && front[k] == id;
                assert(all[k] == id);
            }
            if id == ids.last() {
                assert(all[front.len() as int] == id);
            }
            if all.contains(id) && id != ids.last() {
                let k = choose|k: int| 0 <= k < all.len() && all[k] == id;
                assert(front[k] == id);
            }
        }
    }
}

/// Where a kept note is shown.
pub enum Broadcast {
    /// Nowhere.
    Nowhere,
    /// To the recipients of a message.
    Recipients { recipients: Vec<i64>, note: Json },
    /// On the channels of timelines.
    Channels { note: Json },
}

/// What a place to show a note stands for.
pub enum BroadcastModel {
    Nowhere,
    Recipients { recipients: Seq<i64>, note: JsonModel },
    Channels { note: JsonModel },
}

impl View for Broadcast {
    type V = BroadcastModel;

    open spec fn view(&self) -> BroadcastModel {
        match self {
            Broadcast::Nowhere => BroadcastModel::Nowhere,
            Broadcast::Recipients { recipients, note } => BroadcastModel::Recipients {
                recipients: recipients@,
                note: note@,
            },
            Broadcast::Channels { note } => BroadcastModel::Channels { note: note@ },
        }
    }
}

/// Where a kept note is shown: a message to its recipients alone, any other note
/// on the channels.
pub open spec fn broadcast_of(ctx: CreatedNoteModel, remote: RemoteActorInfo) -> BroadcastModel {
    if ctx.visibility != Visibility::Direct {
        BroadcastModel::Channels { note: JsonModel::Obj(note_object(ctx, remote)) }
    } else if ctx.recipient_actor_ids.len() == 0 {
        BroadcastModel::Nowhere
    } else {
        BroadcastModel::Recipients {
            recipients: distinct_ids(ctx.recipient_actor_ids),
            note: JsonModel::Obj(
                json::with_member(
                    note_object(ctx, remote),
                    "visibility"@,
                    JsonModel::Str("direct"@),
                ),
            ),
        }
    }
}

/// Where a kept note is shown.
pub fn broadcast_created_note(ctx: &CreatedNoteContext, remote: &RemoteActorInfo) -> (r: Broadcast)
    ensures
        r@ == broadcast_of(ctx@, *remote),
{
    let mut ms: Vec<json::Member> = make_note_members(ctx, remote);
    if ctx.visibility == Visibility::Direct {
        if ctx.recipient_actor_ids.len() == 0 {
            return Broadcast::Nowhere;
        }
        json::put_member(&mut ms, "visibility", json::text_json("direct"));
        Broadcast::Recipients {
            recipients: dedup_ids(&ctx.recipient_actor_ids),
            note: json::object(ms),
        }
    } else {
        Broadcast::Channels { note: json::object(ms) }
    }
}

/// Whose home timelines show a note: those of the given actors, and of its
/// author.
pub fn home_recipients(followers: &Vec<i64>, actor_id: i64) -> (r: Vec<i64>)
    ensures
        r@ == distinct_ids(followers@.push(actor_id)),
{
    let mut out: Vec<i64> = dedup_ids(followers);
    proof {
        assert(followers@.push(actor_id).drop_last() =~= followers@);
    }
    if !holds_id(&out, actor_id) {
        out.push(actor_id);
    }
    out
}

// ---------------------------------------------------------------------------
// Laws.
// ---------------------------------------------------------------------------
/// Nobody is told of what they did themselves: neither of a quote of their own
/// post nor of a reply to it.
pub proof fn law_no_notice_to_oneself(actor_id: i64, meta: Option<DeliveryMeta>)
    ensures
        notice_target(meta, actor_id) != Some(actor_id),
{
}

/// Nobody is told twice of one mention.
pub proof fn law_mentions_are_told_once(found: Seq<Option<Actor>>)
    ensures
        distinct_local_ids(found).no_duplicates(),
    decreases found.len(),
{
    if found.len() > 0 {
        law_mentions_are_told_once(found.drop_last());
        let front = distinct_local_ids(found.drop_last());
        let all = distinct_local_ids(found);
        if all.len() > front.len() {
            assert forall|i: int, j: int|
                0 <= i < all.len() && 0 <= j < all.len() && i != j implies all[i] != all[j] by {
                if i < front.len() {
                    assert(front.contains(front[i]));
                }
                if j < front.len() {
                    assert(front.contains(front[j]));
                }
            }
        }
    }
}

spec fn finds_local(found: Seq<Option<Actor>>, k: int, id: i64) -> bool {
    &&& 0 <= k < found.len()
    &&& found[k] matches Some(a)
    &&& a.actor_type@ == "local"@
    &&& a.id == id
}

proof fn lemma_found_locals(found: Seq<Option<Actor>>, id: i64)
    ensures
        distinct_local_ids(found).contains(id) <==> exists|k: int| finds_local(found, k, id),
    decreases found.len(),
{
    if found.len() > 0 {
        let front = found.drop_last();
        let ids = distinct_local_ids(front);
        let n = found.len() - 1;
        lemma_found_locals(front, id);
        if exists|k: int| finds_local(found, k, id) {
            let k = choose|k: int| finds_local(found, k, id);
            if k < n {
                assert(finds_local(front, k, id));
            }
        }
        if ids.contains(id) {
            let k = choose|k: int| finds_local(front, k, id);
            assert(finds_local(found, k, id));
            let j = choose|j: int| 0 <= j < ids.len() && ids[j] == id;
            assert(ids.push(found.last()->0.id)[j] == id);
        }
        if finds_local(found, n, id) && !ids.contains(id) {
            assert(ids.push(id)[ids.len() as int] == id);
            assert(ids.push(id).contains(id));
        }
        if distinct_local_ids(found).contains(id) && !ids.contains(id) {
            let all = distinct_local_ids(found);
            let j = choose|j: int| 0 <= j < all.len() && all[j] == id;
            assert(j < ids.len() ==> ids[j] == id);
            assert(finds_local(found, n, id));
        }
    } else {
        assert(forall|k: int| !finds_local(found, k, id));
    }
}


/// Of a new note its mentions are told to the local users who were found for them,
/// whoever wrote the quoted note or the one that it answers, and to nobody else.
pub proof fn law_mentioned_users_are_told(
    actor_id: i64,
    quoted: Option<DeliveryMeta>,
    parent: Option<DeliveryMeta>,
    mentioned: Seq<Option<Actor>>,
    id: i64,
)
    ensures
        note_notices(actor_id, quoted, parent, mentioned).contains(
            (Notice { target_actor_id: id, kind: NoticeKind::Mention }),
        ) <==> exists|k: int|
            0 <= k < mentioned.len() && (#[trigger] mentioned[k]) is Some
                && mentioned[k]->0.actor_type@ == "local"@ && mentioned[k]->0.id == id,
{
    let ids = distinct_local_ids(mentioned);
    let told = mention_notices(ids);
    let q = notice_if(notice_target(quoted, actor_id), NoticeKind::Quote);
    let p = notice_if(notice_target(parent, actor_id), NoticeKind::Reply);
    let all = q + p + told;
    let m = Notice { target_actor_id: id, kind: NoticeKind::Mention };
    lemma_found_locals(mentioned, id);
    if ids.contains(id) {
        let j = choose|j: int| 0 <= j < ids.len() && ids[j] == id;
        assert(all[q.len() + p.len() + j] == m);
        let k = choose|k: int| finds_local(mentioned, k, id);
        assert(mentioned[k] is Some);
    }
    if all.contains(m) {
        let j = choose|j: int| 0 <= j < all.len() && all[j] == m;
        assert(q.len() + p.len() <= j);
        assert(ids[j - q.len() - p.len()] == id);
    }
    if exists|k: int|
        0 <= k < mentioned.len() && (#[trigger] mentioned[k]) is Some
            && mentioned[k]->0.actor_type@ == "local"@ && mentioned[k]->0.id == id {
        let k = choose|k: int|
            0 <= k < mentioned.len() && (#[trigger] mentioned[k]) is Some
                && mentioned[k]->0.actor_type@ == "local"@ && mentioned[k]->0.id == id;
        assert(finds_local(mentioned, k, id));
    }
}

/// The author of a quoted note is told of the quote, and the author of the note that
/// is answered of the reply, each where they are a local user and not the one who
/// wrote the new note. Nobody else is told of either.
pub proof fn law_authors_are_told(
    actor_id: i64,
    quoted: Option<DeliveryMeta>,
    parent: Option<DeliveryMeta>,
    mentioned: Seq<Option<Actor>>,
    id: i64,
)
    ensures
        note_notices(actor_id, quoted, parent, mentioned).contains(
            (Notice { target_actor_id: id, kind: NoticeKind::Quote }),
        ) <==> quoted is Some && quoted->0.actor_id == id && quoted->0.actor_type@ == "local"@
            && id != actor_id,
        note_notices(actor_id, quoted, parent, mentioned).contains(
            (Notice { target_actor_id: id, kind: NoticeKind::Reply }),
        ) <==> parent is Some && parent->0.actor_id == id && parent->0.actor_type@ == "local"@
            && id != actor_id,
        !note_notices(actor_id, quoted, parent, mentioned).contains(
            (Notice { target_actor_id: id, kind: NoticeKind::Repost }),
        ),
{
    let told = mention_notices(distinct_local_ids(mentioned));
    let q = notice_if(notice_target(quoted, actor_id), NoticeKind::Quote);
    let p = notice_if(notice_target(parent, actor_id), NoticeKind::Reply);
    let all = q + p + told;
    if q.len() > 0 {
        assert(all[0] == q[0]);
    }
    if p.len() > 0 {
        assert(all[q.len() as int] == p[0]);
    }
    assert forall|j: int| 0 <= j < all.len() implies (j < q.len() ==> #[trigger] all[j] == q[j]) && (
    q.len() <= j < q.len() + p.len() ==> all[j] == p[j - q.len()]) && (q.len() + p.len() <= j
        ==> all[j].kind == NoticeKind::Mention) by {}
}

/// A notice is told under the name of its kind, and no two kinds share a name.
pub proof fn law_notices_are_told_apart(a: NoticeKind, b: NoticeKind)
    ensures
        a.name() == b.name() <==> a == b,
        a is Quote <==> a.name() == "quote"@,
        a is Reply <==> a.name() == "reply"@,
        a is Mention <==> a.name() == "mention"@,
        a is Repost <==> a.name() == "repost"@,
{
    reveal_strlit("quote");
    reveal_strlit("reply");
    reveal_strlit("mention");
    reveal_strlit("repost");
    assert("quote"@.len() == 5);
    assert("reply"@.len() == 5);
    assert("mention"@.len() == 7);
    assert("repost"@.len() == 6);
    assert("quote"@[0] != "reply"@[0]);
}

/// An event about a post names the post, and its actor by user name, server and
/// display name.
pub proof fn law_event_tells_of_the_post(post_id: i64, remote: RemoteActorInfo)
    ensures
        ({
            let e = post_event(post_id, remote);
            &&& e.text_at("postId"@) is Some
            &&& decimal::denoted_i64(e.text_at("postId"@)->0) == Some(post_id)
            &&& e.at("actor"@).text_at("username"@) == Some(remote.username@)
            &&& e.at("actor"@).text_at("domain"@) == Some(remote.domain@)
            &&& e.at("actor"@).text_at("displayName"@) == Some(remote.display_name@)
        }),
{
    reveal_strlit("postId");
    reveal_strlit("actor");
    reveal_strlit("username");
    reveal_strlit("domain");
    reveal_strlit("displayName");
    assert("postId"@.len() == 6);
    assert("actor"@.len() == 5);
    assert("username"@.len() == 8);
    assert("domain"@.len() == 6);
    assert("displayName"@.len() == 11);
    assert("postId"@[0] != "domain"@[0]);
    decimal::law_notation_denotes(post_id as int);
    reveal_with_fuel(json::first_member, 4);
}

proof fn lemma_note_members(ctx: CreatedNoteModel, remote: RemoteActorInfo)
    ensures
        ({
            let n = JsonModel::Obj(note_object(ctx, remote));
            let u = n.at("user"@);
            &&& n.text_at("id"@) == Some(decimal::int_text(ctx.post_id as int))
            &&& n.text_at("text"@) == Some(ctx.body)
            &&& n.text_at("createdAt"@) == outside::rfc3339_text(ctx.created_at)
            &&& n.at("emojis"@) == ctx.emoji_map
            &&& n.at("attachments"@) == JsonModel::Arr(seq![])
            &&& n.member("visibility"@) is None
            &&& u.at("id"@) == JsonModel::Int(ctx.actor_id as int)
            &&& u.text_at("username"@) == Some(remote.username@)
            &&& u.text_at("domain"@) == Some(remote.domain@)
            &&& u.text_at("displayName"@) == Some(remote.display_name@)
            &&& u.text_at("actorType"@) == Some("fedi"@)
            &&& u.text_at("avatarUrl"@) == text::string_view(remote.avatar_url)
        }),
{
    reveal_strlit("id");
    reveal_strlit("text");
    reveal_strlit("createdAt");
    reveal_strlit("user");
    reveal_strlit("attachments");
    reveal_strlit("emojis");
    reveal_strlit("visibility");
    reveal_strlit("username");
    reveal_strlit("domain");
    reveal_strlit("displayName");
    reveal_strlit("actorType");
    reveal_strlit("avatarUrl");
    assert("id"@.len() == 2);
    assert("text"@.len() == 4);
    assert("createdAt"@.len() == 9);
    assert("user"@.len() == 4);
    assert("attachments"@.len() == 11);
    assert("emojis"@.len() == 6);
    assert("visibility"@.len() == 10);
    assert("username"@.len() == 8);
    assert("domain"@.len() == 6);
    assert("displayName"@.len() == 11);
    assert("actorType"@.len() == 9);
    assert("avatarUrl"@.len() == 9);
    assert("text"@[0] != "user"@[0]);
    assert("createdAt"@[0] != "actorType"@[0]);
    assert("createdAt"@[0] != "avatarUrl"@[0]);
    assert("attachments"@[0] != "displayName"@[0]);
    assert("emojis"@[0] != "domain"@[0]);
    assert("actorType"@[1] != "avatarUrl"@[1]);
    reveal_with_fuel(json::first_member, 8);
}

proof fn lemma_ids_once(ids: Seq<i64>)
    ensures
        distinct_ids(ids).no_duplicates(),
    decreases ids.len(),
{
    if ids.len() > 0 {
        lemma_ids_once(ids.drop_last());
    }
}

/// The note that is shown: whatever its visibility, it carries the number, the text,
/// the time and the emojis of the post, and names its author as an actor of the
/// fediverse.
pub proof fn law_shown_note_is_the_post(ctx: CreatedNoteModel, remote: RemoteActorInfo, n: JsonModel)
    requires
        (match broadcast_of(ctx, remote) {
            BroadcastModel::Nowhere => false,
            BroadcastModel::Recipients { note, .. } => note == n,
            BroadcastModel::Channels { note } => note == n,
        }),
    ensures
        n.text_at("id"@) is Some,
        decimal::denoted_i64(n.text_at("id"@)->0) == Some(ctx.post_id),
        n.text_at("text"@) == Some(ctx.body),
        n.text_at("createdAt"@) == outside::rfc3339_text(ctx.created_at),
        n.at("emojis"@) == ctx.emoji_map,
        n.at("attachments"@).items().len() == 0,
        n.at("user"@).at("id"@).as_int() == Some(ctx.actor_id as int),
        n.at("user"@).text_at("username"@) == Some(remote.username@),
        n.at("user"@).text_at("domain"@) == Some(remote.domain@),
        n.at("user"@).text_at("displayName"@) == Some(remote.display_name@),
        n.at("user"@).text_at("actorType"@) == Some("fedi"@),
        n.at("user"@).text_at("avatarUrl"@) == text::string_view(remote.avatar_url),
        n.text_at("visibility"@) == (if ctx.visibility == Visibility::Direct {
            Some("direct"@)
        } else {
            None
        }),
{
    reveal_strlit("id");
    reveal_strlit("text");
    reveal_strlit("createdAt");
    reveal_strlit("user");
    reveal_strlit("attachments");
    reveal_strlit("emojis");
    reveal_strlit("visibility");
    assert("id"@.len() == 2);
    assert("text"@.len() == 4);
    assert("createdAt"@.len() == 9);
    assert("user"@.len() == 4);
    assert("attachments"@.len() == 11);
    assert("emojis"@.len() == 6);
    assert("visibility"@.len() == 10);
    assert("text"@[0] != "user"@[0]);
    lemma_note_members(ctx, remote);
    decimal::law_notation_denotes(ctx.post_id as int);
    let ms = note_object(ctx, remote);
    let v = JsonModel::Str("direct"@);
    json::law_put_is_read(ms, "visibility"@, v, "id"@);
    json::law_put_is_read(ms, "visibility"@, v, "text"@);
    json::law_put_is_read(ms, "visibility"@, v, "createdAt"@);
    json::law_put_is_read(ms, "visibility"@, v, "user"@);
    json::law_put_is_read(ms, "visibility"@, v, "attachments"@);
    json::law_put_is_read(ms, "visibility"@, v, "emojis"@);
}

/// A message is shown to its recipients alone, to each of them once, and on no
/// channel; any other note is shown on the channels.
pub proof fn law_message_is_shown_to_its_recipients(ctx: CreatedNoteModel, remote: RemoteActorInfo)
    ensures
        broadcast_of(ctx, remote) is Channels <==> ctx.visibility != Visibility::Direct,
        broadcast_of(ctx, remote) is Recipients <==> ctx.visibility == Visibility::Direct
            && ctx.recipient_actor_ids.len() > 0,
        broadcast_of(ctx, remote) matches BroadcastModel::Recipients { recipients, .. } ==> {
            &&& recipients.no_duplicates()
            &&& forall|id: i64|
                recipients.contains(id) <==> ctx.recipient_actor_ids.contains(id)
        },
{
    lemma_ids_once(ctx.recipient_actor_ids);
    assert forall|id: i64|
        distinct_ids(ctx.recipient_actor_ids).contains(id) <==> ctx.recipient_actor_ids.contains(
            id,
        ) by {
        lemma_distinct_ids(ctx.recipient_actor_ids, id);
    }
}

} // verus!
