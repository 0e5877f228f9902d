//! Taking back a reaction, a block, a repost or a follow.

use crate::ap;
use crate::jobs::inbound_activity_process::actor::Actor;
use crate::jobs::inbound_activity_process::content;
use crate::json::{Json, JsonModel};
use crate::text;
use vstd::prelude::*;

verus! {

/// What is taken back.
pub enum UndoSubject {
    /// Nothing that is handled.
    Ignore,
    /// The reaction of the given activity, where it is named.
    Reaction { activity_id: Option<String> },
    /// A block of a local user.
    Block { blocker_uri: String, local_username: String },
    /// The repost of the given activity, where it is named.
    Announce { announce_id: Option<String> },
    /// A follow of a local user.
    Follow { follower_uri: String, local_username: String },
}

/// What the subject stands for.
pub enum UndoSubjectModel {
    Ignore,
    Reaction { activity_id: Option<Seq<char>> },
    Block { blocker_uri: Seq<char>, local_username: Seq<char> },
    Announce { announce_id: Option<Seq<char>> },
    Follow { follower_uri: Seq<char>, local_username: Seq<char> },
}

impl View for UndoSubject {
    type V = UndoSubjectModel;

    open spec fn view(&self) -> UndoSubjectModel {
        match self {
            UndoSubject::Ignore => UndoSubjectModel::Ignore,
            UndoSubject::Reaction { activity_id } => UndoSubjectModel::Reaction {
                activity_id: text::string_view(*activity_id),
            },
            UndoSubject::Block { blocker_uri, local_username } => UndoSubjectModel::Block {
                blocker_uri: blocker_uri@,
                local_username: local_username@,
            },
            UndoSubject::Announce { announce_id } => UndoSubjectModel::Announce {
                announce_id: text::string_view(*announce_id),
            },
            UndoSubject::Follow { follower_uri, local_username } => UndoSubjectModel::Follow {
                follower_uri: follower_uri@,
                local_username: local_username@,
            },
        }
    }
}

/// What an activity takes back, or why it is refused. A block names no user
/// where its object is not one of this server.
pub open spec fn undo_subject(activity: JsonModel, local_domain: Seq<char>) -> Result<
    UndoSubjectModel,
    Seq<char>,
> {
    let object = activity.at("object"@);
    let kind = object.text_at("type"@);
    if kind == Some("Like"@) || kind == Some("EmojiReact"@) {
        Ok(UndoSubjectModel::Reaction { activity_id: object.text_at("id"@) })
    } else if kind == Some("Block"@) {
        Ok(
            UndoSubjectModel::Block {
                blocker_uri: content::text_or_empty(activity.text_at("actor"@)),
                local_username: content::text_or_empty(
                    ap::local_username(
                        content::text_or_empty(object.text_at("object"@)),
                        local_domain,
                    ),
                ),
            },
        )
    } else if kind == Some("Announce"@) {
        Ok(UndoSubjectModel::Announce { announce_id: object.text_at("id"@) })
    } else if kind != Some("Follow"@) {
        Ok(UndoSubjectModel::Ignore)
    } else {
        match (activity.text_at("actor"@), object.text_at("object"@)) {
            (None, _) => Err("Undo: actor フィールドがありません"@),
            (_, None) => Err("Undo/Follow: object.object フィールドがありません"@),
            (Some(follower_uri), Some(target)) => match ap::local_username(target, local_domain) {
                Some(local_username) => Ok(
                    UndoSubjectModel::Follow { follower_uri, local_username },
                ),
                None => Err(
                    "Undo/Follow: object.object URI が自ドメインのアクターを指していません"@,
                ),
            },
        }
    }
}

/// An owned copy of an optional string.
fn owned(s: Option<&str>) -> (r: Option<String>)
    ensures
        text::string_view(r) == text::str_view(s),
{
    match s {
        Some(t) => Some(t.to_owned()),
        None => None,
    }
}

/// An optional string, and the empty one where there is none.
pub(crate) fn or_empty<'a>(s: Option<&'a str>) -> (r: &'a str)
    ensures
        r@ == content::text_or_empty(text::str_view(s)),
{
    proof {
        reveal_strlit("");
    }
    let r: &str = match s {
        Some(t) => t,
        None => "",
    };
    assert(r@ =~= content::text_or_empty(text::str_view(s)));
    r
}

/// What an activity takes back.
pub fn read_undo(activity: &Json, local_domain: &str) -> (r: Result<UndoSubject, String>)
    ensures
        (match r {
            Ok(q) => Ok(q@),
            Err(e) => Err(e@),
        }) == undo_subject(activity@, local_domain@),
{
    let object: &Json = match activity.get("object") {
        Some(o) => o,
        None => {
            return Ok(UndoSubject::Ignore);
        },
    };
    if object.text_is("type", "Like") || object.text_is("type", "EmojiReact") {
        return Ok(UndoSubject::Reaction { activity_id: owned(object.text_at("id")) });
    }
    if object.text_is("type", "Block") {
        let blocker: &str = or_empty(activity.text_at("actor"));
        let target: &str = or_empty(object.text_at("object"));
        let user: &str = or_empty(ap::extract_local_username(target, local_domain));
        return Ok(
            UndoSubject::Block { blocker_uri: blocker.to_owned(), local_username: user.to_owned() },
        );
    }
    if object.text_is("type", "Announce") {
        return Ok(UndoSubject::Announce { announce_id: owned(object.text_at("id")) });
    }
    if !object.text_is("type", "Follow") {
        return Ok(UndoSubject::Ignore);
    }
    let follower: &str = match activity.text_at("actor") {
        Some(a) => a,
        None => {
            return Err("Undo: actor フィールドがありません".to_owned());
        },
    };
    let target: &str = match object.text_at("object") {
        Some(t) => t,
        None => {
            return Err("Undo/Follow: object.object フィールドがありません".to_owned());
        },
    };
    match ap::extract_local_username(target, local_domain) {
        Some(u) => Ok(
            UndoSubject::Follow { follower_uri: follower.to_owned(), local_username: u.to_owned() },
        ),
        None => Err(
            "Undo/Follow: object.object URI が自ドメインのアクターを指していません".to_owned(),
        ),
    }
}

/// The two sides of the relation that is dropped: the remote actor and the local
/// one, where both are known and the second is local.
pub open spec fn dropped_pair(remote: Option<Actor>, target: Option<Actor>) -> Option<(i64, i64)> {
    match (remote, target) {
        (Some(a), Some(b)) if b.local() => Some((a.id, b.id)),
        _ => None,
    }
}

/// The two sides of the block or the follow that is dropped.
pub fn decide_dropped_pair(remote: &Option<Actor>, target: &Option<Actor>) -> (r: Option<(i64, i64)>)
    ensures
        r == dropped_pair(*remote, *target),
{
    match (remote, target) {
        (Some(a), Some(b)) => {
            if b.is_local() {
                Some((a.id, b.id))
            } else {
                None
            }
        },
        _ => None,
    }
}

/// The answers that there are about an activity that takes something back.
pub struct UndoAnswers {
    /// The post and the actor of the reaction that was dropped.
    pub dropped_reaction: Option<Option<(i64, i64)>>,
    /// The author of the post that the reaction was to.
    pub post_author: Option<Option<i64>>,
    /// The repost was dropped.
    pub dropped_repost: bool,
    /// The actor that is found under the address of the remote side.
    pub remote: Option<Option<Actor>>,
    /// The actor that is found under the name of the local user.
    pub target: Option<Option<Actor>>,
    /// The block or the follow was dropped.
    pub dropped_pair: bool,
}

/// What is done next about an activity that takes something back.
pub enum UndoStep {
    Refuse(String),
    Done,
    /// The reaction of the given activity is dropped.
    DropReaction(String),
    /// Asks for the author of a post.
    FindPostAuthor(i64),
    /// The reactions to a post are shown anew.
    ShowReactions { post_id: i64, post_actor_id: i64, actor_id: i64 },
    /// The repost of the given activity is dropped.
    DropRepost(String),
    /// Asks for the actor of the given address.
    FindRemote(String),
    /// Asks for the actor of the given name.
    FindLocal(String),
    /// The block of the second actor by the first is dropped.
    DropBlock(i64, i64),
    /// The follow of the second actor by the first is dropped.
    DropFollow(i64, i64),
}

/// What a step stands for.
pub enum UndoStepModel {
    Refuse(Seq<char>),
    Done,
    DropReaction(Seq<char>),
    FindPostAuthor(i64),
    ShowReactions { post_id: i64, post_actor_id: i64, actor_id: i64 },
    DropRepost(Seq<char>),
    FindRemote(Seq<char>),
    FindLocal(Seq<char>),
    DropBlock(i64, i64),
    DropFollow(i64, i64),
}

impl View for UndoStep {
    type V = UndoStepModel;

    open spec fn view(&self) -> UndoStepModel {
        match self {
            UndoStep::Refuse(e) => UndoStepModel::Refuse(e@),
            UndoStep::Done => UndoStepModel::Done,
            UndoStep::DropReaction(id) => UndoStepModel::DropReaction(id@),
            UndoStep::FindPostAuthor(id) => UndoStepModel::FindPostAuthor(*id),
            UndoStep::ShowReactions { post_id, post_actor_id, actor_id } => UndoStepModel::ShowReactions {
                post_id: *post_id,
                post_actor_id: *post_actor_id,
                actor_id: *actor_id,
            },
            UndoStep::DropRepost(id) => UndoStepModel::DropRepost(id@),
            UndoStep::FindRemote(u) => UndoStepModel::FindRemote(u@),
            UndoStep::FindLocal(u) => UndoStepModel::FindLocal(u@),
            UndoStep::DropBlock(x, y) => UndoStepModel::DropBlock(*x, *y),
            UndoStep::DropFollow(x, y) => UndoStepModel::DropFollow(*x, *y),
        }
    }
}

/// The steps about a reaction. One that is not named, or not there, changes
/// nothing; else the reactions to its post are shown anew.
pub open spec fn undo_reaction(activity_id: Option<Seq<char>>, a: UndoAnswers) -> UndoStepModel {
    match (activity_id, a.dropped_reaction, a.post_author) {
        (None, _, _) => UndoStepModel::Done,
        (Some(id), None, _) => UndoStepModel::DropReaction(id),
        (_, Some(None), _) => UndoStepModel::Done,
        (_, Some(Some(d)), None) => UndoStepModel::FindPostAuthor(d.0),
        (_, _, Some(None)) => UndoStepModel::Done,
        (_, Some(Some(d)), Some(Some(post_actor_id))) => UndoStepModel::ShowReactions {
            post_id: d.0,
            post_actor_id,
            actor_id: d.1,
        },
    }
}

/// The steps about a block.
pub open spec fn undo_block(blocker_uri: Seq<char>, local_username: Seq<char>, a: UndoAnswers) -> UndoStepModel {
    match (a.remote, a.target) {
        (None, _) => UndoStepModel::FindRemote(blocker_uri),
        (_, None) => UndoStepModel::FindLocal(local_username),
        (Some(remote), Some(target)) => match dropped_pair(remote, target) {
            Some(p) if !a.dropped_pair => UndoStepModel::DropBlock(p.0, p.1),
            _ => UndoStepModel::Done,
        },
    }
}

/// The steps about a follow. One of an actor that is not known is not there.
pub open spec fn undo_follow(follower_uri: Seq<char>, local_username: Seq<char>, a: UndoAnswers) -> UndoStepModel {
    match (a.remote, a.target) {
        (None, _) => UndoStepModel::FindRemote(follower_uri),
        (Some(None), _) => UndoStepModel::Done,
        (_, None) => UndoStepModel::FindLocal(local_username),
        (Some(remote), Some(target)) => match dropped_pair(remote, target) {
            Some(p) if !a.dropped_pair => UndoStepModel::DropFollow(p.0, p.1),
            _ => UndoStepModel::Done,
        },
    }
}

/// What is done next about an activity that takes something back, from the
/// answers that there are.
pub open spec fn undo_step(activity: JsonModel, local_domain: Seq<char>, a: UndoAnswers) -> UndoStepModel {
    match undo_subject(activity, local_domain) {
        Err(e) => UndoStepModel::Refuse(e),
        Ok(UndoSubjectModel::Ignore) => UndoStepModel::Done,
        Ok(UndoSubjectModel::Reaction { activity_id }) => undo_reaction(activity_id, a),
        Ok(UndoSubjectModel::Announce { announce_id }) => match announce_id {
            Some(id) if !a.dropped_repost => UndoStepModel::DropRepost(id),
            _ => UndoStepModel::Done,
        },
        Ok(UndoSubjectModel::Block { blocker_uri, local_username }) => undo_block(
            blocker_uri,
            local_username,
            a,
        ),
        Ok(UndoSubjectModel::Follow { follower_uri, local_username }) => undo_follow(
            follower_uri,
            local_username,
            a,
        ),
    }
}

fn take_undo_reaction(activity_id: Option<String>, a: &UndoAnswers) -> (r: UndoStep)
    ensures
        r@ == undo_reaction(text::string_view(activity_id), *a),
{
    let id: String = match activity_id {
        Some(id) => id,
        None => {
            return UndoStep::Done;
        },
    };
    let (post_id, actor_id): (i64, i64) = match a.dropped_reaction {
        None => {
            return UndoStep::DropReaction(id);
        },
        Some(None) => {
            return UndoStep::Done;
        },
        Some(Some(d)) => d,
    };
    match a.post_author {
        None => UndoStep::FindPostAuthor(post_id),
        Some(None) => UndoStep::Done,
        Some(Some(post_actor_id)) => UndoStep::ShowReactions { post_id, post_actor_id, actor_id },
    }
}

/// What is done next about an activity that takes something back, from the
/// answers that there are.
pub fn next_undo_step(activity: &Json, local_domain: &str, a: &UndoAnswers) -> (r: UndoStep)
    ensures
        r@ == undo_step(activity@, local_domain@, *a),
{
    match read_undo(activity, local_domain) {
        Err(e) => UndoStep::Refuse(e),
        Ok(UndoSubject::Ignore) => UndoStep::Done,
        Ok(UndoSubject::Reaction { activity_id }) => take_undo_reaction(activity_id, a),
        Ok(UndoSubject::Announce { announce_id }) => match announce_id {
            Some(id) => {
                if a.dropped_repost {
                    UndoStep::Done
                } else {
                    UndoStep::DropRepost(id)
                }
            },
            None => UndoStep::Done,
        },
        Ok(UndoSubject::Block { blocker_uri, local_username }) => match (&a.remote, &a.target) {
            (None, _) => UndoStep::FindRemote(blocker_uri),
            (_, None) => UndoStep::FindLocal(local_username),
            (Some(remote), Some(target)) => match decide_dropped_pair(remote, target) {
                Some((x, y)) => {
                    if a.dropped_pair {
                        UndoStep::Done
                    } else {
                        UndoStep::DropBlock(x, y)
                    }
                },
                None => UndoStep::Done,
            },
        },
        Ok(UndoSubject::Follow { follower_uri, local_username }) => match (&a.remote, &a.target) {
            (None, _) => UndoStep::FindRemote(follower_uri),
            (Some(None), _) => UndoStep::Done,
            (_, None) => UndoStep::FindLocal(local_username),
            (Some(remote), Some(target)) => match decide_dropped_pair(remote, target) {
                Some((x, y)) => {
                    if a.dropped_pair {
                        UndoStep::Done
                    } else {
                        UndoStep::DropFollow(x, y)
                    }
                },
                None => UndoStep::Done,
            },
        },
    }
}

// ---------------------------------------------------------------------------
// Laws.
// ---------------------------------------------------------------------------
/// The first identifier is that of the remote side as it was found, and the
/// second that of a local user.
pub open spec fn is_pair(a: UndoAnswers, x: i64, y: i64) -> bool {
    match (a.remote, a.target) {
        (Some(Some(remote)), Some(Some(target))) => remote.id == x && target.id == y
            && target.local(),
        _ => false,
    }
}

/// A block or a follow is dropped only of the actor whose address the activity
/// comes from, and only towards a local user.
pub proof fn law_only_ones_own_relation_is_dropped(
    activity: JsonModel,
    local_domain: Seq<char>,
    a: UndoAnswers,
)
    ensures
        undo_step(activity, local_domain, a) matches UndoStepModel::DropFollow(x, y)
            ==> is_pair(a, x, y),
        undo_step(activity, local_domain, a) matches UndoStepModel::DropBlock(x, y)
            ==> is_pair(a, x, y),
{
}

/// What takes back a follow that was sent here names the same follower and the same
/// local user as the follow itself did.
pub proof fn law_follow_is_taken_back(
    id: Seq<char>,
    follower_uri: Seq<char>,
    local_domain: Seq<char>,
    username: Seq<char>,
)
    ensures
        undo_subject(
            ap::undo_follow_activity(
                id,
                follower_uri,
                ap::local_actor_uri(local_domain, username),
            ),
            local_domain,
        ) == Ok::<_, Seq<char>>(UndoSubjectModel::Follow { follower_uri, local_username: username }),
{
    reveal_strlit("Like");
    reveal_strlit("EmojiReact");
    reveal_strlit("Block");
    reveal_strlit("Announce");
    reveal_strlit("Follow");
    assert("Like"@.len() == 4);
    assert("EmojiReact"@.len() == 10);
    assert("Block"@.len() == 5);
    assert("Announce"@.len() == 8);
    assert("Follow"@.len() == 6);
    let uri = ap::local_actor_uri(local_domain, username);
    ap::law_follow_names_its_parties(id, follower_uri, uri);
    ap::law_undo_takes_back_the_follow(id, follower_uri, uri);
    ap::law_local_actor_uri_names_its_user(local_domain, username);
}

/// What is taken back is told by the type of the object: a reaction and a repost by
/// their identifier, a block by its parties. Anything else is left alone.
pub proof fn law_subject_goes_by_the_type(
    activity: JsonModel,
    local_domain: Seq<char>,
    kind: Seq<char>,
    uri: Seq<char>,
    username: Seq<char>,
)
    requires
        activity.at("object"@).text_at("type"@) == Some(kind),
    ensures
        kind == "Like"@ || kind == "EmojiReact"@ ==> undo_subject(activity, local_domain)
            == Ok::<_, Seq<char>>(
            UndoSubjectModel::Reaction { activity_id: activity.at("object"@).text_at("id"@) },
        ),
        kind == "Announce"@ ==> undo_subject(activity, local_domain) == Ok::<_, Seq<char>>(
            UndoSubjectModel::Announce { announce_id: activity.at("object"@).text_at("id"@) },
        ),
        kind == "Block"@ && activity.text_at("actor"@) == Some(uri) && activity.at(
            "object"@,
        ).text_at("object"@) == Some(ap::local_actor_uri(local_domain, username))
            ==> undo_subject(activity, local_domain) == Ok::<_, Seq<char>>(
            UndoSubjectModel::Block { blocker_uri: uri, local_username: username },
        ),
        kind == "Follow"@ && activity.text_at("actor"@) == Some(uri) && activity.at(
            "object"@,
        ).text_at("object"@) == Some(ap::local_actor_uri(local_domain, username))
            ==> undo_subject(activity, local_domain) == Ok::<_, Seq<char>>(
            UndoSubjectModel::Follow { follower_uri: uri, local_username: username },
        ),
        undo_subject(activity, local_domain) == Ok::<_, Seq<char>>(UndoSubjectModel::Ignore)
            <==> kind != "Like"@ && kind != "EmojiReact"@ && kind != "Announce"@ && kind
            != "Block"@ && kind != "Follow"@,
{
    reveal_strlit("Like");
    reveal_strlit("EmojiReact");
    reveal_strlit("Block");
    reveal_strlit("Announce");
    reveal_strlit("Follow");
    assert("Like"@.len() == 4);
    assert("EmojiReact"@.len() == 10);
    assert("Block"@.len() == 5);
    assert("Announce"@.len() == 8);
    assert("Follow"@.len() == 6);
    ap::law_local_actor_uri_names_its_user(local_domain, username);
}

/// A follow that is taken back is dropped between its follower and the local user, a
/// block between the one who blocked and the local user; each of them once.
pub proof fn law_relation_is_dropped(
    activity: JsonModel,
    local_domain: Seq<char>,
    kind: Seq<char>,
    uri: Seq<char>,
    username: Seq<char>,
    remote: Actor,
    target: Actor,
    a: UndoAnswers,
)
    requires
        activity.text_at("actor"@) == Some(uri),
        activity.at("object"@).text_at("type"@) == Some(kind),
        activity.at("object"@).text_at("object"@) == Some(
            ap::local_actor_uri(local_domain, username),
        ),
        kind == "Follow"@ || kind == "Block"@,
    ensures
        a.remote is None ==> undo_step(activity, local_domain, a) == UndoStepModel::FindRemote(uri),
        a.remote == Some(Some(remote)) && a.target is None ==> undo_step(activity, local_domain, a)
            == UndoStepModel::FindLocal(username),
        a.remote == Some(Some(remote)) && a.target == Some(Some(target)) ==> {
            let step = undo_step(activity, local_domain, a);
            if target.actor_type@ == "local"@ && !a.dropped_pair {
                step == (if kind == "Follow"@ {
                    UndoStepModel::DropFollow(remote.id, target.id)
                } else {
                    UndoStepModel::DropBlock(remote.id, target.id)
                })
            } else {
                step is Done
            }
        },
{
    reveal_strlit("Like");
    reveal_strlit("EmojiReact");
    reveal_strlit("Block");
    reveal_strlit("Announce");
    reveal_strlit("Follow");
    assert("Like"@.len() == 4);
    assert("EmojiReact"@.len() == 10);
    assert("Block"@.len() == 5);
    assert("Announce"@.len() == 8);
    assert("Follow"@.len() == 6);
    law_subject_goes_by_the_type(activity, local_domain, kind, uri, username);
}

/// A reaction and a repost that are taken back are dropped under the identifier of
/// what is taken back. The reactions to the post are then shown anew to its author.
pub proof fn law_named_activity_is_dropped(
    activity: JsonModel,
    local_domain: Seq<char>,
    kind: Seq<char>,
    id: Seq<char>,
    a: UndoAnswers,
    post_id: i64,
    actor_id: i64,
    author_id: i64,
)
    requires
        activity.at("object"@).text_at("type"@) == Some(kind),
        activity.at("object"@).text_at("id"@) == Some(id),
    ensures
        kind == "Announce"@ ==> undo_step(activity, local_domain, a) == (if a.dropped_repost {
            UndoStepModel::Done
        } else {
            UndoStepModel::DropRepost(id)
        }),
        kind == "Like"@ || kind == "EmojiReact"@ ==> {
            let step = undo_step(activity, local_domain, a);
            &&& a.dropped_reaction is None ==> step == UndoStepModel::DropReaction(id)
            &&& a.dropped_reaction == Some(None::<(i64, i64)>) ==> step is Done
            &&& a.dropped_reaction == Some(Some((post_id, actor_id))) ==> {
                &&& a.post_author is None ==> step == UndoStepModel::FindPostAuthor(post_id)
                &&& a.post_author == Some(None::<i64>) ==> step is Done
                &&& a.post_author == Some(Some(author_id)) ==> step
                    == (UndoStepModel::ShowReactions {
                    post_id,
                    post_actor_id: author_id,
                    actor_id,
                })
            }
        },
{
    reveal_strlit("Like");
    reveal_strlit("EmojiReact");
    reveal_strlit("Block");
    reveal_strlit("Announce");
    reveal_strlit("Follow");
    assert("Like"@.len() == 4);
    assert("EmojiReact"@.len() == 10);
    assert("Block"@.len() == 5);
    assert("Announce"@.len() == 8);
    assert("Follow"@.len() == 6);
    law_subject_goes_by_the_type(activity, local_domain, kind, id, id);
}

/// An undone follow that cannot be read is refused with what it lacks.
pub proof fn law_refusal_names_what_is_missing(activity: JsonModel, local_domain: Seq<char>)
    requires
        activity.at("object"@).text_at("type"@) == Some("Follow"@),
    ensures
        ({
            let actor = activity.text_at("actor"@);
            let object = activity.at("object"@).text_at("object"@);
            let r = undo_subject(activity, local_domain);
            &&& actor is None ==> r == Err::<UndoSubjectModel, Seq<char>>(
                "Undo: actor フィールドがありません"@,
            )
            &&& actor is Some && object is None ==> r == Err::<UndoSubjectModel, Seq<char>>(
                "Undo/Follow: object.object フィールドがありません"@,
            )
            &&& actor is Some && object is Some && ap::local_username(object->0, local_domain)
                is None ==> r == Err::<UndoSubjectModel, Seq<char>>(
                "Undo/Follow: object.object URI が自ドメインのアクターを指していません"@,
            )
        }),
{
    reveal_strlit("Like");
    reveal_strlit("EmojiReact");
    reveal_strlit("Block");
    reveal_strlit("Announce");
    reveal_strlit("Follow");
    assert("Like"@.len() == 4);
    assert("EmojiReact"@.len() == 10);
    assert("Block"@.len() == 5);
    assert("Announce"@.len() == 8);
    assert("Follow"@.len() == 6);
}

} // verus!
