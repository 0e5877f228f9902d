//! Remote actors that move to another address.

use crate::ap;
use crate::decimal;
use crate::jobs::inbound_activity_process::actor::{Actor, RemoteActorInfo};
use crate::jobs::inbound_activity_process::create;
use crate::jobs::inbound_activity_process::follow;
use crate::jobs::inbound_activity_process::reaction;
use crate::json::{Json, JsonModel};
use crate::text;
use vstd::prelude::*;

verus! {

/// A move.
pub struct MoveRequest {
    pub old_actor_uri: String,
    pub target_uri: String,
}

/// What a move stands for.
pub struct MoveRequestModel {
    pub old_actor_uri: Seq<char>,
    pub target_uri: Seq<char>,
}

impl View for MoveRequest {
    type V = MoveRequestModel;

    open spec fn view(&self) -> MoveRequestModel {
        MoveRequestModel { old_actor_uri: self.old_actor_uri@, target_uri: self.target_uri@ }
    }
}

/// The activity names another object than its own actor.
pub open spec fn moves_another(activity: JsonModel, actor: Seq<char>) -> bool {
    reaction::object_uri(activity) matches Some(object) && object != actor
}

/// The move that an activity announces, or why it announces none. An actor can
/// only move itself.
pub open spec fn move_request(activity: JsonModel) -> Result<MoveRequestModel, Seq<char>> {
    match activity.text_at("actor"@) {
        None => Err("Move: actor フィールドがありません"@),
        Some(actor) => if moves_another(activity, actor) {
            Err(
                "Move: actor("@ + actor + ") と object("@ + reaction::object_uri(activity)->0
                    + ") が一致しません"@,
            )
        } else {
            match activity.text_at("target"@) {
                None => Err("Move: target フィールドがありません"@),
                Some(target_uri) => Ok(MoveRequestModel { old_actor_uri: actor, target_uri }),
            }
        },
    }
}

/// The move that an activity announces.
pub fn read_move(activity: &Json) -> (r: Result<MoveRequest, String>)
    ensures
        (match r {
            Ok(q) => Ok(q@),
            Err(e) => Err(e@),
        }) == move_request(activity@),
{
    let actor: &str = match activity.text_at("actor") {
        Some(t) => t,
        None => {
            return Err("Move: actor フィールドがありません".to_owned());
        },
    };
    match reaction::read_object_uri(activity) {
        Some(object) => {
            if !text::same_str(object, actor) {
                return Err(
                    text::cat5(
                        "Move: actor(",
                        actor,
                        ") と object(",
                        object,
                        ") が一致しません",
                    ),
                );
            }
        },
        None => {},
    }
    match activity.text_at("target") {
        None => Err("Move: target フィールドがありません".to_owned()),
        Some(t) => Ok(MoveRequest { old_actor_uri: actor.to_owned(), target_uri: t.to_owned() }),
    }
}

/// How far a move has come.
pub enum MoveStep {
    /// The move is ignored.
    Ignore,
    /// The new address can be resolved.
    ResolveTarget { old_actor_id: i64 },
}

/// What comes of a move, from the old actor as the database knows it and from
/// whether the document at the new address claims the old one as its own; that
/// document may be out of reach. A move that the new address does not confirm is
/// ignored.
pub fn confirm_move(old_actor_id: Option<i64>, claimed: Option<bool>) -> (r: MoveStep)
    ensures
        r == (match (old_actor_id, claimed) {
            (Some(old_actor_id), Some(true)) => MoveStep::ResolveTarget { old_actor_id },
            _ => MoveStep::Ignore,
        }),
{
    match (old_actor_id, claimed) {
        (Some(old_actor_id), Some(true)) => MoveStep::ResolveTarget { old_actor_id },
        _ => MoveStep::Ignore,
    }
}

/// Whether the followers of an actor go over to the new one: not where both are
/// one and the same.
pub open spec fn move_goes_ahead(old_actor_id: i64, new_actor: RemoteActorInfo) -> Result<
    bool,
    Seq<char>,
> {
    if new_actor.actor_id == old_actor_id {
        Ok(false)
    } else if new_actor.inbox@.len() == 0 {
        Err("Move: 移転先アクターの inbox が取得できません"@)
    } else {
        Ok(true)
    }
}

/// Whether the followers of an actor go over to the new one.
pub fn check_move(old_actor_id: i64, new_actor: &RemoteActorInfo) -> (r: Result<bool, String>)
    ensures
        crate::jobs::inbound_activity_process::actor::result_view(r) == move_goes_ahead(
            old_actor_id,
            *new_actor,
        ),
{
    if new_actor.actor_id == old_actor_id {
        Ok(false)
    } else if new_actor.inbox.as_str().is_empty() {
        Err("Move: 移転先アクターの inbox が取得できません".to_owned())
    } else {
        Ok(true)
    }
}

/// The followers that go over: all but the new actor itself.
pub fn moving_followers(followers: &Vec<i64>, new_actor_id: i64) -> (r: Vec<i64>)
    ensures
        r@ == followers@.filter(|id: i64| id != new_actor_id),
{
    let ghost keep = |id: i64| id != new_actor_id;
    let mut out: Vec<i64> = Vec::new();
    let mut i: usize = 0;
    proof {
        assert(followers@.take(0) =~= Seq::<i64>::empty());
        reveal(Seq::filter);
    }
    while i < followers.len()
        invariant
            i <= followers@.len(),
            keep == (|id: i64| id != new_actor_id),
            out@ == followers@.take(i as int).filter(keep),
        decreases followers@.len() - i,
    {
        proof {
            assert(followers@.take(i + 1) =~= followers@.take(i as int).push(followers@[i as int]));
            assert(followers@.take(i + 1).drop_last() =~= followers@.take(i as int));
            reveal(Seq::filter);
        }
        if followers[i] != new_actor_id {
            out.push(followers[i]);
        }
        i += 1;
    }
    assert(followers@.take(i as int) =~= followers@);
    out
}

/// How a follow goes over.
pub enum MigrationKind {
    /// The follower follows the new actor already: the old follow is dropped.
    AlreadyFollowing,
    /// The follower asks the new actor, and the old follow is dropped.
    Refollow { inbox: String, key_id: String, activity: Json },
}

/// How a follow goes over, and who is told.
pub struct Migration {
    pub kind: MigrationKind,
    /// The follower, where it is a person's account.
    pub notify: Option<i64>,
    /// What the follower is told.
    pub event: &'static str,
}

/// A request goes from the follower to the new actor, signed with the follower's
/// key.
pub open spec fn asks_new_actor(
    kind: MigrationKind,
    local_domain: Seq<char>,
    follower: Actor,
    follower_id: i64,
    new_actor: RemoteActorInfo,
    new_actor_uri: Seq<char>,
) -> bool {
    let uri = ap::local_actor_uri(local_domain, follower.username@);
    match kind {
        MigrationKind::AlreadyFollowing => false,
        MigrationKind::Refollow { inbox, key_id, activity } => {
            &&& inbox@ == new_actor.inbox@
            &&& key_id@ == ap::main_key_id(uri)
            &&& activity@ == ap::follow_activity(
                follow::follow_activity_id(local_domain, follower_id, new_actor.actor_id),
                uri,
                new_actor_uri,
            )
        },
    }
}

/// The follower is told only where it is a person's account.
pub open spec fn told(follower: Actor) -> Option<i64> {
    if follower.user_id is Some {
        Some(follower.id)
    } else {
        None
    }
}

/// How the follow of one local follower goes over to the new actor.
pub fn migrate_one_follow(
    local_domain: &str,
    follower_id: i64,
    found: &Option<Actor>,
    already_following: bool,
    new_actor: &RemoteActorInfo,
    new_actor_uri: &str,
) -> (r: Result<Migration, String>)
    ensures
        match *found {
            None => r matches Err(e) && e@ == "フォロワーアクター(id="@ + decimal::int_text(
                follower_id as int,
            ) + ")が見つかりません"@,
            Some(follower) => {
                &&& r matches Ok(m)
                &&& m.notify == told(follower)
                &&& if already_following {
                    m.kind is AlreadyFollowing && m.event@ == "moveAlreadyFollowing"@
                } else {
                    m.event@ == "moveRefollowed"@ && asks_new_actor(
                        m.kind,
                        local_domain@,
                        follower,
                        follower_id,
                        *new_actor,
                        new_actor_uri@,
                    )
                }
            },
        },
{
    let follower: &Actor = match found {
        Some(a) => a,
        None => {
            return Err(
                text::cat3(
                    "フォロワーアクター(id=",
                    decimal::format_i64(follower_id).as_str(),
                    ")が見つかりません",
                ),
            );
        },
    };
    let notify: Option<i64> = if follower.user_id.is_some() {
        Some(follower.id)
    } else {
        None
    };
    if already_following {
        return Ok(
            Migration {
                kind: MigrationKind::AlreadyFollowing,
                notify,
                event: "moveAlreadyFollowing",
            },
        );
    }
    let uri: String = ap::local_actor_uri_of(local_domain, follower.username.as_str());
    let id: String = follow::make_follow_activity_id(
        local_domain,
        follower_id,
        new_actor.actor_id,
    );
    let key_id: String = ap::main_key_id_of(uri.as_str());
    let activity: Json = ap::make_follow_activity(id.as_str(), uri.as_str(), new_actor_uri);
    Ok(
        Migration {
            kind: MigrationKind::Refollow { inbox: new_actor.inbox.clone(), key_id, activity },
            notify,
            event: "moveRefollowed",
        },
    )
}

/// The answers that there are about a move.
pub struct MoveAnswers {
    /// The old actor, as the database knows it.
    pub old_actor_id: Option<Option<i64>>,
    /// The document at the new address claims the old one as its own; nothing
    /// where the document is out of reach.
    pub claimed: Option<Option<bool>>,
    pub new_actor: Option<RemoteActorInfo>,
    /// The local followers of the old actor.
    pub followers: Option<Vec<i64>>,
    /// The followers went over.
    pub migrated: bool,
    /// The lists that hold the old actor.
    pub list_ids: Option<Vec<i64>>,
}

/// What is done next about a move.
pub enum MoveFlowStep {
    Refuse(String),
    Done,
    /// Asks for the actor of the given address.
    FindOldActor(String),
    /// Asks whether the document at the first address claims the second.
    FetchTarget { target_uri: String, old_actor_uri: String },
    /// Asks for the actor of the given address, who is put in where they are new.
    UpsertTarget(String),
    /// Asks for the local followers of an actor.
    FindFollowers(i64),
    /// Each of the followers goes over.
    Migrate { followers: Vec<i64>, old_actor_id: i64, target_uri: String },
    /// Asks for the lists that hold an actor.
    FindLists(i64),
    /// In each of the lists the new actor takes the place of the old one.
    ReplaceInLists { list_ids: Vec<i64>, old_actor_id: i64, new_actor_id: i64 },
}

/// What a step stands for.
pub enum MoveFlowModel {
    Refuse(Seq<char>),
    Done,
    FindOldActor(Seq<char>),
    FetchTarget { target_uri: Seq<char>, old_actor_uri: Seq<char> },
    UpsertTarget(Seq<char>),
    FindFollowers(i64),
    Migrate { followers: Seq<i64>, old_actor_id: i64, target_uri: Seq<char> },
    FindLists(i64),
    ReplaceInLists { list_ids: Seq<i64>, old_actor_id: i64, new_actor_id: i64 },
}

impl View for MoveFlowStep {
    type V = MoveFlowModel;

    open spec fn view(&self) -> MoveFlowModel {
        match self {
            MoveFlowStep::Refuse(e) => MoveFlowModel::Refuse(e@),
            MoveFlowStep::Done => MoveFlowModel::Done,
            MoveFlowStep::FindOldActor(u) => MoveFlowModel::FindOldActor(u@),
            MoveFlowStep::FetchTarget { target_uri, old_actor_uri } => MoveFlowModel::FetchTarget {
                target_uri: target_uri@,
                old_actor_uri: old_actor_uri@,
            },
            MoveFlowStep::UpsertTarget(u) => MoveFlowModel::UpsertTarget(u@),
            MoveFlowStep::FindFollowers(id) => MoveFlowModel::FindFollowers(*id),
            MoveFlowStep::Migrate { followers, old_actor_id, target_uri } => MoveFlowModel::Migrate {
                followers: followers@,
                old_actor_id: *old_actor_id,
                target_uri: target_uri@,
            },
            MoveFlowStep::FindLists(id) => MoveFlowModel::FindLists(*id),
            MoveFlowStep::ReplaceInLists { list_ids, old_actor_id, new_actor_id } => MoveFlowModel::ReplaceInLists {
                list_ids: list_ids@,
                old_actor_id: *old_actor_id,
                new_actor_id: *new_actor_id,
            },
        }
    }
}

/// The steps once both actors are known.
pub open spec fn migration_step(
    q: MoveRequestModel,
    old_actor_id: i64,
    new_actor: RemoteActorInfo,
    a: MoveAnswers,
) -> MoveFlowModel {
    match (move_goes_ahead(old_actor_id, new_actor), a.followers, a.list_ids) {
        (Err(e), _, _) => MoveFlowModel::Refuse(e),
        (Ok(false), _, _) => MoveFlowModel::Done,
        (_, None, _) => MoveFlowModel::FindFollowers(old_actor_id),
        (_, Some(followers), lists) => if !a.migrated {
            MoveFlowModel::Migrate {
                followers: followers@.filter(|id: i64| id != new_actor.actor_id),
                old_actor_id,
                target_uri: q.target_uri,
            }
        } else {
            match lists {
                None => MoveFlowModel::FindLists(old_actor_id),
                Some(list_ids) => MoveFlowModel::ReplaceInLists {
                    list_ids: list_ids@,
                    old_actor_id,
                    new_actor_id: new_actor.actor_id,
                },
            }
        },
    }
}

/// What is done next about a move, from the answers that there are.
pub open spec fn move_step(activity: JsonModel, a: MoveAnswers) -> MoveFlowModel {
    match move_request(activity) {
        Err(e) => MoveFlowModel::Refuse(e),
        Ok(q) => match (a.old_actor_id, a.claimed, a.new_actor) {
            (None, _, _) => MoveFlowModel::FindOldActor(q.old_actor_uri),
            (Some(None), _, _) => MoveFlowModel::Done,
            (_, None, _) => MoveFlowModel::FetchTarget {
                target_uri: q.target_uri,
                old_actor_uri: q.old_actor_uri,
            },
            (Some(Some(old_actor_id)), Some(Some(true)), Some(new_actor)) => migration_step(
                q,
                old_actor_id,
                new_actor,
                a,
            ),
            (_, Some(Some(true)), None) => MoveFlowModel::UpsertTarget(q.target_uri),
            _ => MoveFlowModel::Done,
        },
    }
}

/// What is done next about a move, from the answers that there are.
pub fn next_move_step(activity: &Json, a: &MoveAnswers) -> (r: MoveFlowStep)
    ensures
        r@ == move_step(activity@, *a),
{
    let q: MoveRequest = match read_move(activity) {
        Ok(q) => q,
        Err(e) => {
            return MoveFlowStep::Refuse(e);
        },
    };
    let old: Option<i64> = match a.old_actor_id {
        None => {
            return MoveFlowStep::FindOldActor(q.old_actor_uri);
        },
        Some(None) => {
            return MoveFlowStep::Done;
        },
        Some(old) => old,
    };
    let claimed: Option<bool> = match a.claimed {
        None => {
            return MoveFlowStep::FetchTarget {
                target_uri: q.target_uri,
                old_actor_uri: q.old_actor_uri,
            };
        },
        Some(c) => c,
    };
    let old_actor_id: i64 = match confirm_move(old, claimed) {
        MoveStep::Ignore => {
            return MoveFlowStep::Done;
        },
        MoveStep::ResolveTarget { old_actor_id } => old_actor_id,
    };
    let new_actor: &RemoteActorInfo = match &a.new_actor {
        Some(x) => x,
        None => {
            return MoveFlowStep::UpsertTarget(q.target_uri);
        },
    };
    match check_move(old_actor_id, new_actor) {
        Err(e) => {
            return MoveFlowStep::Refuse(e);
        },
        Ok(goes_ahead) => {
            if !goes_ahead {
                return MoveFlowStep::Done;
            }
        },
    }
    let followers: &Vec<i64> = match &a.followers {
        Some(f) => f,
        None => {
            return MoveFlowStep::FindFollowers(old_actor_id);
        },
    };
    if !a.migrated {
        return MoveFlowStep::Migrate {
            followers: moving_followers(followers, new_actor.actor_id),
            old_actor_id,
            target_uri: q.target_uri,
        };
    }
    match &a.list_ids {
        None => MoveFlowStep::FindLists(old_actor_id),
        Some(list_ids) => MoveFlowStep::ReplaceInLists {
            list_ids: create::copy_ids(list_ids),
            old_actor_id,
            new_actor_id: new_actor.actor_id,
        },
    }
}

// ---------------------------------------------------------------------------
// Laws.
// ---------------------------------------------------------------------------
/// An actor can move nobody but itself: an activity whose object is another is
/// refused.
pub proof fn law_an_actor_moves_only_itself(activity: JsonModel, object: Seq<char>)
    requires
        reaction::object_uri(activity) == Some(object),
        activity.text_at("actor"@) != Some(object),
    ensures
        move_request(activity) is Err,
{
}

/// Nobody goes over to an address that does not confirm the move, nor to one
/// that cannot be asked.
pub proof fn law_unconfirmed_move_moves_nobody(activity: JsonModel, a: MoveAnswers)
    requires
        a.claimed != Some(Some(true)),
    ensures
        !(move_step(activity, a) is UpsertTarget),
        !(move_step(activity, a) is Migrate),
        !(move_step(activity, a) is ReplaceInLists),
{
}

/// The new actor is never made to follow itself.
pub proof fn law_new_actor_follows_others_only(activity: JsonModel, a: MoveAnswers)
    ensures
        move_step(activity, a) matches MoveFlowModel::Migrate { followers, .. } ==> a.new_actor
            is Some && !followers.contains(a.new_actor->0.actor_id),
{
    match (a.followers, a.new_actor) {
        (Some(followers), Some(n)) => {
            let keep = |id: i64| id != n.actor_id;
            let kept = followers@.filter(keep);
            if kept.contains(n.actor_id) {
                let i: int = choose|i: int| 0 <= i < kept.len() && kept[i] == n.actor_id;
                broadcast use vstd::seq_lib::group_filter_ensures;

                assert(keep(kept[i]));
            }
        },
        _ => {},
    }
}

/// A move is from the actor who sends it to the target that it states. The object,
/// where there is one, is the sender; a move without a target is refused.
pub proof fn law_move_is_read(activity: JsonModel, actor: Seq<char>, target: Seq<char>)
    ensures
        activity.text_at("actor"@) == Some(actor) && activity.text_at("target"@) == Some(target)
            && (reaction::object_uri(activity) == Some(actor) || reaction::object_uri(activity)
            is None) ==> move_request(activity) == Ok::<_, Seq<char>>(
            MoveRequestModel { old_actor_uri: actor, target_uri: target },
        ),
        activity.text_at("actor"@) is None || activity.text_at("target"@) is None ==> move_request(
            activity,
        ) is Err,
{
}

/// A follower who is moved asks the new actor: the request is the follower's own,
/// goes to the new actor's inbox under the follower's key, and its identifier names
/// both sides.
pub proof fn law_moved_follower_asks_the_new_actor(
    kind: MigrationKind,
    local_domain: Seq<char>,
    follower: Actor,
    follower_id: i64,
    new_actor: RemoteActorInfo,
    new_actor_uri: Seq<char>,
)
    requires
        asks_new_actor(kind, local_domain, follower, follower_id, new_actor, new_actor_uri),
        follower_id >= 0,
    ensures
        kind matches MigrationKind::Refollow { inbox, key_id, activity } ==> {
            &&& inbox@ == new_actor.inbox@
            &&& activity@.text_at("type"@) == Some("Follow"@)
            &&& activity@.text_at("object"@) == Some(new_actor_uri)
            &&& activity@.text_at("actor"@) is Some
            &&& ap::local_username(activity@.text_at("actor"@)->0, local_domain) == Some(
                follower.username@,
            )
            &&& key_id@ == activity@.text_at("actor"@)->0 + "#main-key"@
            &&& activity@.text_at("id"@) is Some
            &&& follow::follow_activity_parties(activity@.text_at("id"@)->0, local_domain) == Some(
                (follower_id, new_actor.actor_id),
            )
        },
        kind is Refollow,
{
    let uri = ap::local_actor_uri(local_domain, follower.username@);
    let id = follow::follow_activity_id(local_domain, follower_id, new_actor.actor_id);
    ap::law_follow_names_its_parties(id, uri, new_actor_uri);
    ap::law_local_actor_uri_names_its_user(local_domain, follower.username@);
    follow::law_follow_activity_id_names_its_parties(
        local_domain,
        follower_id,
        new_actor.actor_id,
    );
}

/// A follower is told of the move where they have an account.
pub proof fn law_people_are_told(follower: Actor)
    ensures
        told(follower) is Some <==> follower.user_id is Some,
        told(follower) matches Some(id) ==> id == follower.id,
{
}

/// A confirmed move goes through in order: the followers of the old actor are found,
/// each of them but the new actor goes over, and then the new actor takes the place
/// of the old one in the lists.
pub proof fn law_confirmed_move_goes_through(
    activity: JsonModel,
    actor: Seq<char>,
    target: Seq<char>,
    a: MoveAnswers,
    old_actor_id: i64,
    new_actor: RemoteActorInfo,
)
    requires
        activity.text_at("actor"@) == Some(actor),
        activity.text_at("target"@) == Some(target),
        reaction::object_uri(activity) == Some(actor) || reaction::object_uri(activity) is None,
    ensures
        ({
            let step = move_step(activity, a);
            &&& a.old_actor_id is None ==> step == MoveFlowModel::FindOldActor(actor)
            &&& a.old_actor_id == Some(None::<i64>) ==> step is Done
            &&& a.old_actor_id == Some(Some(old_actor_id)) && a.claimed is None ==> step
                == (MoveFlowModel::FetchTarget { target_uri: target, old_actor_uri: actor })
            &&& a.old_actor_id == Some(Some(old_actor_id)) && a.claimed == Some(Some(true)) ==> {
                &&& a.new_actor is None ==> step == MoveFlowModel::UpsertTarget(target)
                &&& a.new_actor == Some(new_actor) ==> (if new_actor.actor_id == old_actor_id {
                    step is Done
                } else if new_actor.inbox@.len() == 0 {
                    step is Refuse
                } else if a.followers is None {
                    step == MoveFlowModel::FindFollowers(old_actor_id)
                } else if !a.migrated {
                    &&& step matches MoveFlowModel::Migrate {
                        followers,
                        old_actor_id: o,
                        target_uri,
                    }
                    &&& o == old_actor_id
                    &&& target_uri == target
                    &&& forall|id: i64|
                        #![trigger followers.contains(id)]
                        followers.contains(id) <==> a.followers->0@.contains(id) && id
                            != new_actor.actor_id
                } else if a.list_ids is None {
                    step == MoveFlowModel::FindLists(old_actor_id)
                } else {
                    step == (MoveFlowModel::ReplaceInLists {
                        list_ids: a.list_ids->0@,
                        old_actor_id,
                        new_actor_id: new_actor.actor_id,
                    })
                })
            }
        }),
{
    if a.followers is Some {
        let all = a.followers->0@;
        let f = |id: i64| id != new_actor.actor_id;
        let kept = all.filter(f);
        assert forall|id: i64| #![trigger kept.contains(id)]
            kept.contains(id) <==> all.contains(id) && id != new_actor.actor_id by {
            if kept.contains(id) {
                let k = choose|k: int| 0 <= k < kept.len() && kept[k] == id;
                all.lemma_filter_pred(f, k);
                all.lemma_filter_contains_rev(f, id);
            }
            if all.contains(id) && id != new_actor.actor_id {
                let k = choose|k: int| 0 <= k < all.len() && all[k] == id;
                all.lemma_filter_contains(f, k);
            }
        }
    }
}

/// A move that cannot be read is refused with what it lacks, or with the two actors
/// that it names.
pub proof fn law_refusal_names_what_is_missing(
    activity: JsonModel,
    actor: Seq<char>,
    object: Seq<char>,
)
    ensures
        activity.text_at("actor"@) is None ==> move_request(activity) == Err::<
            MoveRequestModel,
            Seq<char>,
        >("Move: actor フィールドがありません"@),
        activity.text_at("actor"@) == Some(actor) && reaction::object_uri(activity) == Some(object)
            && object != actor ==> move_request(activity) == Err::<MoveRequestModel, Seq<char>>(
            "Move: actor("@ + actor + ") と object("@ + object + ") が一致しません"@,
        ),
        activity.text_at("actor"@) == Some(actor) && reaction::object_uri(activity) is None
            && activity.text_at("target"@) is None ==> move_request(activity) == Err::<
            MoveRequestModel,
            Seq<char>,
        >("Move: target フィールドがありません"@),
{
}

} // verus!
