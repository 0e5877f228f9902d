//! Ending all follows of a user who leaves.

use crate::ap;
use crate::decimal;
use crate::jobs::proxy_follow_sync;
use crate::jobs::proxy_follow_sync::{Delivery, DeliveryModel, FollowTarget};
use crate::text;
use vstd::prelude::*;

verus! {

/// What is sent to an actor that the user followed: nothing to local actors and
/// to those of the AT network, nor where the actor's addresses are not known.
pub open spec fn unfollow(target: FollowTarget, local_domain: Seq<char>, username: Seq<char>) -> Option<
    DeliveryModel,
> {
    if target.actor_type@ == "local"@ || target.actor_type@ == "bsky"@ {
        None
    } else {
        match (target.ap_inbox_url, target.ap_uri) {
            (Some(inbox), Some(uri)) => Some(
                proxy_follow_sync::follow_delivery(
                    false,
                    "https://"@ + local_domain + "/activities/follow/"@ + decimal::int_text(
                        target.id as int,
                    ),
                    ap::local_actor_uri(local_domain, username),
                    uri@,
                    inbox@,
                ),
            ),
            _ => None,
        }
    }
}

/// What is sent to an actor that the user followed.
pub fn plan_unfollow(target: &FollowTarget, local_domain: &str, username: &str) -> (r: Option<
    Delivery,
>)
    ensures
        proxy_follow_sync::delivery_view(r) == unfollow(*target, local_domain@, username@),
{
    if text::same_str(target.actor_type.as_str(), "local") || text::same_str(
        target.actor_type.as_str(),
        "bsky",
    ) {
        return None;
    }
    match (&target.ap_inbox_url, &target.ap_uri) {
        (Some(inbox), Some(uri)) => {
            let actor_uri: String = ap::local_actor_uri_of(local_domain, username);
            let id: String = decimal::format_i64(target.id);
            let follow_id: String = text::cat4(
                "https://",
                local_domain,
                "/activities/follow/",
                id.as_str(),
            );
            Some(
                proxy_follow_sync::make_follow_delivery(
                    false,
                    follow_id.as_str(),
                    actor_uri.as_str(),
                    uri.as_str(),
                    inbox.as_str(),
                ),
            )
        },
        _ => None,
    }
}

// ---------------------------------------------------------------------------
// The order in which the follows are ended.
// ---------------------------------------------------------------------------
/// What came of looking up an actor that the user followed.
pub enum TargetLookup {
    Found(FollowTarget),
    Missing,
    /// It could not be looked up, with what went wrong.
    Failed(String),
}

/// The answers that there are about the follows of a user who leaves. Those on one
/// actor are about the first who was not dealt with.
pub struct UnfollowAnswers {
    /// The actors that the user followed.
    pub targets: Option<Result<Vec<i64>, String>>,
    /// How many of them were dealt with.
    pub settled: usize,
    pub target: Option<TargetLookup>,
    /// The key of the follow's record in the user's repository, where it has one.
    pub record_key: Option<Result<Option<String>, String>>,
    /// Whether the record could be taken out.
    pub taken_out: Option<bool>,
    /// Those who read the network were told to look again.
    pub touched: bool,
    /// The activity was sent, or it could not be.
    pub sent: bool,
}

/// What is done next about the follows of a user who leaves.
pub enum UnfollowStep {
    Refuse(String),
    Done,
    /// Asks for the actors that the user followed.
    FindTargets,
    /// Asks for one of them.
    FindTarget(i64),
    /// Asks for the record of the follow.
    FindRecord(i64),
    /// Takes the record of the follow out of the user's repository.
    TakeOut { target_id: i64, record_key: String },
    /// Tells those who read the network to look again.
    Touch,
    /// Sends the activity that ends the follow.
    Send { target_id: i64, delivery: Delivery },
    /// Deletes the follow; whatever comes of it, the actor is dealt with.
    Delete(i64),
    /// Leaves the follow as it is; the actor is dealt with.
    Skip(i64),
}

/// What a step stands for.
pub enum UnfollowStepModel {
    Refuse(Seq<char>),
    Done,
    FindTargets,
    FindTarget(i64),
    FindRecord(i64),
    TakeOut { target_id: i64, record_key: Seq<char> },
    Touch,
    Send { target_id: i64, delivery: DeliveryModel },
    Delete(i64),
    Skip(i64),
}

impl View for UnfollowStep {
    type V = UnfollowStepModel;

    open spec fn view(&self) -> UnfollowStepModel {
        match self {
            UnfollowStep::Refuse(e) => UnfollowStepModel::Refuse(e@),
            UnfollowStep::Done => UnfollowStepModel::Done,
            UnfollowStep::FindTargets => UnfollowStepModel::FindTargets,
            UnfollowStep::FindTarget(id) => UnfollowStepModel::FindTarget(*id),
            UnfollowStep::FindRecord(id) => UnfollowStepModel::FindRecord(*id),
            UnfollowStep::TakeOut { target_id, record_key } => UnfollowStepModel::TakeOut {
                target_id: *target_id,
                record_key: record_key@,
            },
            UnfollowStep::Touch => UnfollowStepModel::Touch,
            UnfollowStep::Send { target_id, delivery } => UnfollowStepModel::Send {
                target_id: *target_id,
                delivery: delivery@,
            },
            UnfollowStep::Delete(id) => UnfollowStepModel::Delete(*id),
            UnfollowStep::Skip(id) => UnfollowStepModel::Skip(*id),
        }
    }
}

/// The last steps about an actor: the activity, where there is one to send, and the
/// end of the follow.
pub open spec fn parting_step(
    target_id: i64,
    target: FollowTarget,
    local_domain: Seq<char>,
    username: Seq<char>,
    sent: bool,
) -> UnfollowStepModel {
    match unfollow(target, local_domain, username) {
        Some(delivery) if !sent => UnfollowStepModel::Send { target_id, delivery },
        _ => UnfollowStepModel::Delete(target_id),
    }
}

/// The steps about one actor. An actor that is not found, or whose record cannot be
/// looked up, keeps the follow; a record that cannot be taken out keeps nothing
/// from going on.
pub open spec fn target_step(
    target_id: i64,
    local_domain: Seq<char>,
    username: Seq<char>,
    a: UnfollowAnswers,
) -> UnfollowStepModel {
    match a.target {
        None => UnfollowStepModel::FindTarget(target_id),
        Some(TargetLookup::Missing) => UnfollowStepModel::Skip(target_id),
        Some(TargetLookup::Failed(_)) => UnfollowStepModel::Skip(target_id),
        Some(TargetLookup::Found(target)) => match (a.record_key, a.taken_out) {
            (None, _) => UnfollowStepModel::FindRecord(target_id),
            (Some(Err(_)), _) => UnfollowStepModel::Skip(target_id),
            (Some(Ok(Some(k))), None) => UnfollowStepModel::TakeOut { target_id, record_key: k@ },
            (Some(Ok(Some(_))), Some(true)) if !a.touched => UnfollowStepModel::Touch,
            _ => parting_step(target_id, target, local_domain, username, a.sent),
        },
    }
}

/// What is done next about the follows of a user who leaves, from the answers that
/// there are.
pub open spec fn unfollow_step(
    local_domain: Seq<char>,
    username: Seq<char>,
    a: UnfollowAnswers,
) -> UnfollowStepModel {
    match a.targets {
        None => UnfollowStepModel::FindTargets,
        Some(Err(e)) => UnfollowStepModel::Refuse("フォロー先一覧取得失敗: "@ + e@),
        Some(Ok(ids)) => if a.settled >= ids@.len() {
            UnfollowStepModel::Done
        } else {
            target_step(ids@[a.settled as int], local_domain, username, a)
        },
    }
}

/// What is done next about the follows of a user who leaves, from the answers that
/// there are.
pub fn next_unfollow_step(local_domain: &str, username: &str, a: &UnfollowAnswers) -> (r: UnfollowStep)
    ensures
        r@ == unfollow_step(local_domain@, username@, *a),
{
    let ids: &Vec<i64> = match &a.targets {
        None => {
            return UnfollowStep::FindTargets;
        },
        Some(Err(e)) => {
            return UnfollowStep::Refuse(text::cat("フォロー先一覧取得失敗: ", e.as_str()));
        },
        Some(Ok(ids)) => ids,
    };
    if a.settled >= ids.len() {
        return UnfollowStep::Done;
    }
    let target_id: i64 = ids[a.settled];
    let target: &FollowTarget = match &a.target {
        None => {
            return UnfollowStep::FindTarget(target_id);
        },
        Some(TargetLookup::Found(t)) => t,
        Some(_) => {
            return UnfollowStep::Skip(target_id);
        },
    };
    match (&a.record_key, a.taken_out) {
        (None, _) => {
            return UnfollowStep::FindRecord(target_id);
        },
        (Some(Err(_)), _) => {
            return UnfollowStep::Skip(target_id);
        },
        (Some(Ok(Some(k))), None) => {
            return UnfollowStep::TakeOut { target_id, record_key: k.clone() };
        },
        (Some(Ok(Some(_))), Some(true)) => {
            if !a.touched {
                return UnfollowStep::Touch;
            }
        },
        _ => {},
    }
    match plan_unfollow(target, local_domain, username) {
        Some(delivery) => {
            if a.sent {
                UnfollowStep::Delete(target_id)
            } else {
                UnfollowStep::Send { target_id, delivery }
            }
        },
        None => UnfollowStep::Delete(target_id),
    }
}

// ---------------------------------------------------------------------------
// Laws.
// ---------------------------------------------------------------------------
/// Once the list of actors is known, nothing that befalls one of them ends the work
/// on the others: the work is done exactly when all were dealt with.
pub proof fn law_one_follow_does_not_stop_the_others(
    local_domain: Seq<char>,
    username: Seq<char>,
    a: UnfollowAnswers,
)
    requires
        a.targets matches Some(t) && t is Ok,
    ensures
        !(unfollow_step(local_domain, username, a) is Refuse),
        unfollow_step(local_domain, username, a) is Done <==> a.settled >= a.targets->0->Ok_0@.len(),
{
}

/// A follow is deleted only when its record was tried to be taken out and its end
/// was told, as far as there is a record and someone to tell.
pub proof fn law_follow_is_deleted_last(
    local_domain: Seq<char>,
    username: Seq<char>,
    a: UnfollowAnswers,
)
    ensures
        unfollow_step(local_domain, username, a) is Delete ==> {
            &&& a.target matches Some(TargetLookup::Found(t)) && (a.sent || unfollow(
                t,
                local_domain,
                username,
            ) is None)
            &&& a.record_key matches Some(Ok(k)) && (k is Some ==> a.taken_out is Some)
        },
{
}

/// Whoever leaves takes each follow of a fediverse actor back: in their own name, from
/// that actor, at that actor's inbox. An actor who is local or on Bluesky, or who has
/// no inbox or address, is sent nothing.
pub proof fn law_leaving_takes_the_follow_back(
    target: FollowTarget,
    local_domain: Seq<char>,
    username: Seq<char>,
    uri: Seq<char>,
    inbox: Seq<char>,
)
    ensures
        unfollow(target, local_domain, username) is Some <==> target.actor_type@ != "local"@
            && target.actor_type@ != "bsky"@ && target.ap_uri is Some && target.ap_inbox_url
            is Some,
        unfollow(target, local_domain, username) is Some && text::string_view(target.ap_uri)
            == Some(uri) && text::string_view(target.ap_inbox_url) == Some(inbox) ==> {
            let d = unfollow(target, local_domain, username)->0;
            &&& d.inbox_url == inbox
            &&& d.activity.text_at("type"@) == Some("Undo"@)
            &&& d.activity.text_at("actor"@) is Some
            &&& ap::local_username(d.activity.text_at("actor"@)->0, local_domain) == Some(username)
            &&& d.key_id == d.activity.text_at("actor"@)->0 + "#main-key"@
            &&& d.activity.at("object"@).text_at("type"@) == Some("Follow"@)
            &&& d.activity.at("object"@).text_at("object"@) == Some(uri)
            &&& d.activity.at("object"@).text_at("id"@) == Some(
                "https://"@ + local_domain + "/activities/follow/"@ + decimal::int_text(
                    target.id as int,
                ),
            )
        },
{
    proxy_follow_sync::law_delivery_follows_or_takes_back(
        false,
        "https://"@ + local_domain + "/activities/follow/"@ + decimal::int_text(target.id as int),
        ap::local_actor_uri(local_domain, username),
        uri,
        inbox,
    );
    ap::law_local_actor_uri_names_its_user(local_domain, username);
}

/// Each actor is dealt with in turn, and everything that is done on the way is done
/// with that actor: the record is taken out under its key, the withdrawal is sent
/// once, and the follow is then deleted.
pub proof fn law_follows_are_ended_in_turn(
    local_domain: Seq<char>,
    username: Seq<char>,
    a: UnfollowAnswers,
    ids: Vec<i64>,
    t: FollowTarget,
    key: Seq<char>,
)
    requires
        a.targets == Some(Ok::<Vec<i64>, String>(ids)),
        a.settled < ids@.len(),
    ensures
        ({
            let id = ids@[a.settled as int];
            let step = unfollow_step(local_domain, username, a);
            &&& a.target is None ==> step == UnfollowStepModel::FindTarget(id)
            &&& a.target is Some && !(a.target->0 is Found) ==> step == UnfollowStepModel::Skip(id)
            &&& a.target == Some(TargetLookup::Found(t)) ==> {
                &&& a.record_key is None ==> step == UnfollowStepModel::FindRecord(id)
                &&& a.record_key is Some && a.record_key->0 is Err ==> step
                    == UnfollowStepModel::Skip(id)
                &&& a.record_key is Some && a.record_key->0 is Ok ==> {
                    let k = text::string_view(a.record_key->0->Ok_0);
                    &&& k == Some(key) && a.taken_out is None ==> step
                        == (UnfollowStepModel::TakeOut { target_id: id, record_key: key })
                    &&& k == Some(key) && a.taken_out == Some(true) && !a.touched ==> step
                        is Touch
                    &&& k is None || a.taken_out == Some(false) || a.taken_out == Some(true)
                        && a.touched ==> (if a.sent || unfollow(t, local_domain, username)
                        is None {
                        step == UnfollowStepModel::Delete(id)
                    } else {
                        step == (UnfollowStepModel::Send {
                            target_id: id,
                            delivery: unfollow(t, local_domain, username)->0,
                        })
                    })
                }
            }
        }),
{
}

} // verus!
