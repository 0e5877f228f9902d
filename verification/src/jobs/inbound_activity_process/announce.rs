//! Reposts by remote actors.

use crate::decimal;
use crate::jobs::inbound_activity_process as inbound;
use crate::jobs::inbound_activity_process::actor::RemoteActorInfo;
use crate::jobs::inbound_activity_process::content;
use crate::jobs::inbound_activity_process::create;
use crate::jobs::inbound_activity_process::note_save;
use crate::jobs::inbound_activity_process::note_save::{DeliveryMeta, Visibility};
use crate::jobs::inbound_activity_process::reference::{RefStatus, ReferenceModel, ReferenceOutcome};
use crate::json::{Json, JsonModel};
use crate::outside;
use crate::outside::Timestamp;
use crate::text;
use vstd::prelude::*;

verus! {

/// A repost.
pub struct AnnounceRequest {
    pub announce_id: String,
    pub actor_uri: String,
    pub object_uri: String,
    /// Who the repost is addressed to.
    pub to: Vec<String>,
    pub cc: Vec<String>,
}

/// What a repost stands for.
pub struct AnnounceRequestModel {
    pub announce_id: Seq<char>,
    pub actor_uri: Seq<char>,
    pub object_uri: Seq<char>,
    pub to: Seq<Seq<char>>,
    pub cc: Seq<Seq<char>>,
}

impl View for AnnounceRequest {
    type V = AnnounceRequestModel;

    open spec fn view(&self) -> AnnounceRequestModel {
        AnnounceRequestModel {
            announce_id: self.announce_id@,
            actor_uri: self.actor_uri@,
            object_uri: self.object_uri@,
            to: text::string_contents(self.to@),
            cc: text::string_contents(self.cc@),
        }
    }
}

/// The repost that an activity makes, or why it makes none.
pub open spec fn announce_request(activity: JsonModel) -> Result<AnnounceRequestModel, Seq<char>> {
    match (activity.text_at("id"@), activity.text_at("actor"@), activity.text_at("object"@)) {
        (None, _, _) => Err("Announce: id がありません"@),
        (_, None, _) => Err("Announce: actor がありません"@),
        (_, _, None) => Err("Announce: object がありません"@),
        (Some(announce_id), Some(actor_uri), Some(object_uri)) => Ok(
            AnnounceRequestModel {
                announce_id,
                actor_uri,
                object_uri,
                to: inbound::string_list(activity.at("to"@)),
                cc: inbound::string_list(activity.at("cc"@)),
            },
        ),
    }
}

/// The repost that an activity makes.
pub fn read_announce(activity: &Json) -> (r: Result<AnnounceRequest, String>)
    ensures
        (match r {
            Ok(q) => Ok(q@),
            Err(e) => Err(e@),
        }) == announce_request(activity@),
{
    let id: &str = match activity.text_at("id") {
        Some(t) => t,
        None => {
            return Err("Announce: id がありません".to_owned());
        },
    };
    let actor: &str = match activity.text_at("actor") {
        Some(t) => t,
        None => {
            return Err("Announce: actor がありません".to_owned());
        },
    };
    let object: &str = match activity.text_at("object") {
        Some(t) => t,
        None => {
            return Err("Announce: object がありません".to_owned());
        },
    };
    Ok(
        AnnounceRequest {
            announce_id: id.to_owned(),
            actor_uri: actor.to_owned(),
            object_uri: object.to_owned(),
            to: inbound::string_list_at(activity, "to"),
            cc: inbound::string_list_at(activity, "cc"),
        },
    )
}

/// Where a repost stands that is about to be kept.
#[derive(Debug, Clone, Copy, PartialEq, Eq, Structural)]
pub enum AnnounceDecision {
    /// It is there already.
    Ignore,
    /// It is kept, with the reposted post where that one is known.
    Insert { repost_of_post_id: Option<i64> },
}

/// Whether a repost is there already: under its own identifier, or as a repost
/// of the same post by the same actor, which is known only of a post that is.
pub open spec fn announce_decision(
    known: bool,
    target: Option<i64>,
    reposted_before: bool,
) -> AnnounceDecision {
    if known || (target is Some && reposted_before) {
        AnnounceDecision::Ignore
    } else {
        AnnounceDecision::Insert { repost_of_post_id: target }
    }
}

/// Whether a repost is kept.
pub fn decide_announce(known: bool, target: Option<i64>, reposted_before: bool) -> (r:
    AnnounceDecision)
    ensures
        r == announce_decision(known, target, reposted_before),
{
    if known || (target.is_some() && reposted_before) {
        AnnounceDecision::Ignore
    } else {
        AnnounceDecision::Insert { repost_of_post_id: target }
    }
}

/// The columns in which the reposted post is kept.
pub fn repost_columns(outcome: ReferenceOutcome) -> (r: (
    Option<i64>,
    Option<String>,
    Option<RefStatus>,
))
    ensures
        r == inbound::note_save::reference_columns(outcome),
{
    outcome.into_parts()
}

/// Who is told of a repost: the author of the reposted post, where that one is
/// known and its author is a local actor other than the reposting one.
pub fn repost_notice(target: Option<i64>, meta: &Option<DeliveryMeta>, actor_id: i64) -> (r: Option<i64>)
    ensures
        r == (if target is Some {
            create::notice_target(*meta, actor_id)
        } else {
            None
        }),
{
    if target.is_some() {
        create::decide_notice(meta, actor_id)
    } else {
        None
    }
}

/// A repost as it is put in.
pub struct NewRepost {
    pub id: i64,
    pub actor_id: i64,
    pub ap_object_id: String,
    pub repost_of_post_id: Option<i64>,
    pub repost_of_ap_uri: Option<String>,
    pub repost_of_ref_status: Option<RefStatus>,
    pub created_at: Timestamp,
    pub visibility: Visibility,
}

/// What a repost stands for.
pub struct NewRepostModel {
    pub id: i64,
    pub actor_id: i64,
    pub ap_object_id: Seq<char>,
    pub repost_of: (Option<i64>, Option<Seq<char>>, Option<RefStatus>),
    pub created_at: Timestamp,
    pub visibility: Visibility,
}

impl View for NewRepost {
    type V = NewRepostModel;

    open spec fn view(&self) -> NewRepostModel {
        NewRepostModel {
            id: self.id,
            actor_id: self.actor_id,
            ap_object_id: self.ap_object_id@,
            repost_of: (
                self.repost_of_post_id,
                text::string_view(self.repost_of_ap_uri),
                self.repost_of_ref_status,
            ),
            created_at: self.created_at,
            visibility: self.visibility,
        }
    }
}

/// The answers that there are about a repost.
pub struct AnnounceAnswers {
    /// The visibility that the addressees give.
    pub visibility: Option<Visibility>,
    /// A post is known under the identifier of the repost.
    pub known: Option<bool>,
    /// The identifier of the new post.
    pub post_id: Option<i64>,
    pub actor: Option<RemoteActorInfo>,
    pub target: Option<ReferenceOutcome>,
    /// The actor has reposted the post before.
    pub reposted_before: Option<bool>,
    pub inserted: bool,
    /// What is known of the post that is reposted.
    pub meta: Option<Option<DeliveryMeta>>,
}

/// What is done next about a repost.
pub enum AnnounceStep {
    Refuse(String),
    Done,
    /// Asks for the visibility that the addressees give.
    ClassifyVisibility { to: Vec<String>, cc: Vec<String> },
    /// Asks whether a post is known under the given address.
    FindPost(String),
    /// Asks for the identifier of a post of the given time.
    MakePostId(Timestamp),
    /// Asks for the actor of the given address, who is put in where they are new.
    UpsertActor(String),
    /// Asks for the post that is reposted.
    ResolveTarget(String),
    /// Asks whether the actor has reposted the post before.
    FindRepost { actor_id: i64, post_id: i64 },
    /// The repost is put in.
    Insert(NewRepost),
    /// Asks for what is known of the post that is reposted.
    FindMeta(i64),
    /// The author of the post is told.
    Tell { target_actor_id: i64, actor_id: i64, post_id: i64, event: Json },
}

/// What a step stands for.
pub enum AnnounceStepModel {
    Refuse(Seq<char>),
    Done,
    ClassifyVisibility { to: Seq<Seq<char>>, cc: Seq<Seq<char>> },
    FindPost(Seq<char>),
    MakePostId(Timestamp),
    UpsertActor(Seq<char>),
    ResolveTarget(Seq<char>),
    FindRepost { actor_id: i64, post_id: i64 },
    Insert(NewRepostModel),
    FindMeta(i64),
    Tell { target_actor_id: i64, actor_id: i64, post_id: i64, event: JsonModel },
}

impl View for AnnounceStep {
    type V = AnnounceStepModel;

    open spec fn view(&self) -> AnnounceStepModel {
        match self {
            AnnounceStep::Refuse(e) => AnnounceStepModel::Refuse(e@),
            AnnounceStep::Done => AnnounceStepModel::Done,
            AnnounceStep::ClassifyVisibility { to, cc } => AnnounceStepModel::ClassifyVisibility {
                to: text::string_contents(to@),
                cc: text::string_contents(cc@),
            },
            AnnounceStep::FindPost(u) => AnnounceStepModel::FindPost(u@),
            AnnounceStep::MakePostId(t) => AnnounceStepModel::MakePostId(*t),
            AnnounceStep::UpsertActor(u) => AnnounceStepModel::UpsertActor(u@),
            AnnounceStep::ResolveTarget(u) => AnnounceStepModel::ResolveTarget(u@),
            AnnounceStep::FindRepost { actor_id, post_id } => AnnounceStepModel::FindRepost {
                actor_id: *actor_id,
                post_id: *post_id,
            },
            AnnounceStep::Insert(p) => AnnounceStepModel::Insert(p@),
            AnnounceStep::FindMeta(id) => AnnounceStepModel::FindMeta(*id),
            AnnounceStep::Tell { target_actor_id, actor_id, post_id, event } => AnnounceStepModel::Tell {
                target_actor_id: *target_actor_id,
                actor_id: *actor_id,
                post_id: *post_id,
                event: event@,
            },
        }
    }
}

/// When the repost was made.
pub open spec fn repost_time(activity: JsonModel, now: Timestamp) -> Timestamp {
    note_save::published_or(
        outside::parsed_utc(content::text_or_empty(activity.text_at("published"@))),
        now,
    )
}

/// The steps once the repost is kept.
pub open spec fn told_step(
    target: Option<i64>,
    post_id: i64,
    actor: RemoteActorInfo,
    meta: Option<Option<DeliveryMeta>>,
) -> AnnounceStepModel {
    match (target, meta) {
        (None, _) => AnnounceStepModel::Done,
        (Some(id), None) => AnnounceStepModel::FindMeta(id),
        (Some(_), Some(m)) => match create::notice_target(m, actor.actor_id) {
            Some(target_actor_id) => AnnounceStepModel::Tell {
                target_actor_id,
                actor_id: actor.actor_id,
                post_id,
                event: create::post_event(post_id, actor),
            },
            None => AnnounceStepModel::Done,
        },
    }
}

/// The steps once the post that is reposted is resolved or not.
pub open spec fn repost_step(
    activity: JsonModel,
    now: Timestamp,
    q: AnnounceRequestModel,
    visibility: Visibility,
    post_id: i64,
    actor: RemoteActorInfo,
    outcome: ReferenceModel,
    a: AnnounceAnswers,
) -> AnnounceStepModel {
    let target = outcome.columns().0;
    if target is Some && a.reposted_before is None {
        AnnounceStepModel::FindRepost { actor_id: actor.actor_id, post_id: target->0 }
    } else if announce_decision(
        false,
        target,
        a.reposted_before == Some(true),
    ) == AnnounceDecision::Ignore {
        AnnounceStepModel::Done
    } else if !a.inserted {
        AnnounceStepModel::Insert(
            NewRepostModel {
                id: post_id,
                actor_id: actor.actor_id,
                ap_object_id: q.announce_id,
                repost_of: outcome.columns(),
                created_at: repost_time(activity, now),
                visibility,
            },
        )
    } else {
        told_step(target, post_id, actor, a.meta)
    }
}

/// What is done next about a repost, from the answers that there are.
pub open spec fn announce_step(activity: JsonModel, now: Timestamp, a: AnnounceAnswers) -> AnnounceStepModel {
    match announce_request(activity) {
        Err(e) => AnnounceStepModel::Refuse(e),
        Ok(q) => match (a.visibility, a.known, a.post_id, a.actor, a.target) {
            (None, _, _, _, _) => AnnounceStepModel::ClassifyVisibility { to: q.to, cc: q.cc },
            (_, None, _, _, _) => AnnounceStepModel::FindPost(q.announce_id),
            (_, Some(true), _, _, _) => AnnounceStepModel::Done,
            (_, _, None, _, _) => AnnounceStepModel::MakePostId(repost_time(activity, now)),
            (_, _, _, None, _) => AnnounceStepModel::UpsertActor(q.actor_uri),
            (_, _, _, _, None) => AnnounceStepModel::ResolveTarget(q.object_uri),
            (Some(visibility), _, Some(post_id), Some(actor), Some(outcome)) => repost_step(
                activity,
                now,
                q,
                visibility,
                post_id,
                actor,
                outcome@,
                a,
            ),
        },
    }
}

fn take_told_step(
    target: Option<i64>,
    post_id: i64,
    actor: &RemoteActorInfo,
    meta: &Option<Option<DeliveryMeta>>,
) -> (r: AnnounceStep)
    ensures
        r@ == told_step(target, post_id, *actor, *meta),
{
    match (target, meta) {
        (None, _) => AnnounceStep::Done,
        (Some(id), None) => AnnounceStep::FindMeta(id),
        (Some(_), Some(m)) => match repost_notice(target, m, actor.actor_id) {
            Some(target_actor_id) => AnnounceStep::Tell {
                target_actor_id,
                actor_id: actor.actor_id,
                post_id,
                event: create::make_post_event(post_id, actor),
            },
            None => AnnounceStep::Done,
        },
    }
}

/// What is done next about a repost, from the answers that there are.
pub fn next_announce_step(activity: &Json, now: Timestamp, a: &AnnounceAnswers) -> (r: AnnounceStep)
    ensures
        r@ == announce_step(activity@, now, *a),
{
    let q: AnnounceRequest = match read_announce(activity) {
        Ok(q) => q,
        Err(e) => {
            return AnnounceStep::Refuse(e);
        },
    };
    let visibility: Visibility = match a.visibility {
        Some(v) => v,
        None => {
            return AnnounceStep::ClassifyVisibility { to: q.to, cc: q.cc };
        },
    };
    match a.known {
        None => {
            return AnnounceStep::FindPost(q.announce_id);
        },
        Some(known) => {
            if known {
                return AnnounceStep::Done;
            }
        },
    }
    let post_id: i64 = match a.post_id {
        Some(id) => id,
        None => {
            return AnnounceStep::MakePostId(note_save::published_at(activity, now));
        },
    };
    let actor: &RemoteActorInfo = match &a.actor {
        Some(x) => x,
        None => {
            return AnnounceStep::UpsertActor(q.actor_uri);
        },
    };
    let outcome: ReferenceOutcome = match &a.target {
        Some(o) => o.duplicate(),
        None => {
            return AnnounceStep::ResolveTarget(q.object_uri);
        },
    };
    let (target, uri, status): (Option<i64>, Option<String>, Option<RefStatus>) = repost_columns(
        outcome,
    );
    let reposted_before: bool = match (target, a.reposted_before) {
        (Some(id), None) => {
            return AnnounceStep::FindRepost { actor_id: actor.actor_id, post_id: id };
        },
        (_, Some(b)) => b,
        (None, None) => false,
    };
    match decide_announce(false, target, reposted_before) {
        AnnounceDecision::Ignore => AnnounceStep::Done,
        AnnounceDecision::Insert { repost_of_post_id } => {
            if a.inserted {
                take_told_step(target, post_id, actor, &a.meta)
            } else {
                AnnounceStep::Insert(
                    NewRepost {
                        id: post_id,
                        actor_id: actor.actor_id,
                        ap_object_id: q.announce_id,
                        repost_of_post_id,
                        repost_of_ap_uri: uri,
                        repost_of_ref_status: status,
                        created_at: note_save::published_at(activity, now),
                        visibility,
                    },
                )
            }
        },
    }
}

// ---------------------------------------------------------------------------
// Laws.
// ---------------------------------------------------------------------------
/// A repost is kept though the reposted post is not known: nothing but its own
/// identifier can show that it is there already.
pub proof fn law_repost_of_unknown_post_is_kept(reposted_before: bool)
    ensures
        announce_decision(false, None, reposted_before) == (AnnounceDecision::Insert {
            repost_of_post_id: None,
        }),
{
}

/// Nobody is told of a repost that is not kept, nor of one of their own.
pub proof fn law_repost_is_told_once_it_is_kept(activity: JsonModel, now: Timestamp, a: AnnounceAnswers)
    ensures
        announce_step(activity, now, a) matches AnnounceStepModel::Tell {
            target_actor_id,
            actor_id,
            ..
        } ==> a.inserted && target_actor_id != actor_id,
{
}

/// A repost is read as what it says: its identifier, who reposts, what, and to whom
/// it is addressed. One without any of the first three is refused.
pub proof fn law_repost_is_read(
    activity: JsonModel,
    id: Seq<char>,
    actor: Seq<char>,
    object: Seq<char>,
    to: Seq<char>,
    cc: Seq<char>,
)
    ensures
        activity.text_at("id"@) == Some(id) && activity.text_at("actor"@) == Some(actor)
            && activity.text_at("object"@) == Some(object) ==> {
            &&& announce_request(activity) is Ok
            &&& announce_request(activity)->Ok_0.announce_id == id
            &&& announce_request(activity)->Ok_0.actor_uri == actor
            &&& announce_request(activity)->Ok_0.object_uri == object
            &&& activity.at("to"@) == JsonModel::Str(to) ==> announce_request(activity)->Ok_0.to
                == seq![to]
            &&& activity.at("cc"@) == JsonModel::Str(cc) ==> announce_request(activity)->Ok_0.cc
                == seq![cc]
        },
        announce_request(activity) is Ok <==> activity.text_at("id"@) is Some && activity.text_at(
            "actor"@,
        ) is Some && activity.text_at("object"@) is Some,
{
}

/// A repost is kept once: not where it is known already, and not where its actor has
/// reposted the same post before.
pub proof fn law_repost_is_kept_once(known: bool, target: Option<i64>, reposted_before: bool)
    ensures
        announce_decision(known, target, reposted_before) is Insert <==> !known && (target is Some
            ==> !reposted_before),
        announce_decision(known, target, reposted_before) matches AnnounceDecision::Insert {
            repost_of_post_id,
        } ==> repost_of_post_id == target,
{
}

/// A repost that is kept: it is kept under its own identifier and the identifier that
/// was made for it, as its actor's, and points at what was found of the reposted post.
pub proof fn law_kept_repost_points_at_its_post(
    activity: JsonModel,
    now: Timestamp,
    a: AnnounceAnswers,
    p: NewRepostModel,
)
    requires
        announce_step(activity, now, a) == AnnounceStepModel::Insert(p),
    ensures
        a.known == Some(false),
        !a.inserted,
        activity.text_at("id"@) == Some(p.ap_object_id),
        a.post_id == Some(p.id),
        a.actor is Some && a.actor->0.actor_id == p.actor_id,
        a.visibility == Some(p.visibility),
        a.target is Some,
        p.created_at == repost_time(activity, now),
        (match a.target->0 {
            ReferenceOutcome::Absent => p.repost_of == (
                None::<i64>,
                None::<Seq<char>>,
                None::<RefStatus>,
            ),
            ReferenceOutcome::Resolved(id) => p.repost_of == (
                Some(id),
                None::<Seq<char>>,
                None::<RefStatus>,
            ) && a.reposted_before == Some(false),
            ReferenceOutcome::Unresolved { ap_uri, status } => p.repost_of == (
                None::<i64>,
                Some(ap_uri@),
                Some(status),
            ),
        }),
{
}

/// What a repost asks for on the way, in order, and of whom.
pub proof fn law_repost_is_looked_up(
    activity: JsonModel,
    now: Timestamp,
    id: Seq<char>,
    actor_uri: Seq<char>,
    object: Seq<char>,
    a: AnnounceAnswers,
)
    requires
        activity.text_at("id"@) == Some(id),
        activity.text_at("actor"@) == Some(actor_uri),
        activity.text_at("object"@) == Some(object),
        a.visibility is Some,
    ensures
        ({
            let step = announce_step(activity, now, a);
            &&& a.known is None ==> step == AnnounceStepModel::FindPost(id)
            &&& a.known == Some(true) ==> step is Done
            &&& a.known == Some(false) && a.post_id is None ==> step
                == AnnounceStepModel::MakePostId(repost_time(activity, now))
            &&& a.known == Some(false) && a.post_id is Some && a.actor is None ==> step
                == AnnounceStepModel::UpsertActor(actor_uri)
            &&& a.known == Some(false) && a.post_id is Some && a.actor is Some && a.target is None
                ==> step == AnnounceStepModel::ResolveTarget(object)
            &&& a.known == Some(false) && a.post_id is Some && a.actor is Some && a.target is Some
                && a.inserted ==> (match a.target->0 {
                ReferenceOutcome::Resolved(post) => if a.reposted_before is None {
                    step == (AnnounceStepModel::FindRepost {
                        actor_id: a.actor->0.actor_id,
                        post_id: post,
                    })
                } else if a.reposted_before == Some(true) {
                    step is Done
                } else {
                    a.meta is None ==> step == AnnounceStepModel::FindMeta(post)
                },
                _ => step is Done,
            })
        }),
{
}

/// The author of a reposted post is told of a kept repost where they are a local user
/// and not the one who reposts; the event names the repost and its actor.
pub proof fn law_reposted_author_is_told(
    activity: JsonModel,
    now: Timestamp,
    a: AnnounceAnswers,
    post: i64,
    post_id: i64,
    actor: RemoteActorInfo,
    m: DeliveryMeta,
)
    requires
        announce_request(activity) is Ok,
        a.visibility is Some,
        a.known == Some(false),
        a.post_id == Some(post_id),
        a.actor == Some(actor),
        a.target == Some(ReferenceOutcome::Resolved(post)),
        a.reposted_before == Some(false),
        a.inserted,
        a.meta == Some(Some(m)),
    ensures
        m.actor_type@ == "local"@ && m.actor_id != actor.actor_id ==> {
            &&& announce_step(activity, now, a) matches AnnounceStepModel::Tell {
                target_actor_id,
                actor_id,
                post_id: told,
                event,
            }
            &&& target_actor_id == m.actor_id
            &&& actor_id == actor.actor_id
            &&& told == post_id
            &&& event.at("actor"@).text_at("username"@) == Some(actor.username@)
            &&& event.at("actor"@).text_at("domain"@) == Some(actor.domain@)
            &&& event.text_at("postId"@) is Some
            &&& decimal::denoted_i64(event.text_at("postId"@)->0) == Some(post_id)
        },
        m.actor_type@ != "local"@ || m.actor_id == actor.actor_id ==> announce_step(
            activity,
            now,
            a,
        ) is Done,
{
    create::law_event_tells_of_the_post(post_id, actor);
}

/// The time of a repost is the one that it states; one that states none that can be
/// read is of the time at which it comes.
pub proof fn law_repost_is_of_its_time(activity: JsonModel, now: Timestamp, stated: Seq<char>)
    ensures
        activity.text_at("published"@) == Some(stated) ==> (match outside::parsed_utc(stated) {
            Some(t) => repost_time(activity, now) == t,
            None => repost_time(activity, now) == now,
        }),
{
}

/// A repost that cannot be read is refused with what it lacks: its identifier first,
/// then its actor, then its object.
pub proof fn law_refusal_names_what_is_missing(activity: JsonModel)
    ensures
        ({
            let id = activity.text_at("id"@);
            let actor = activity.text_at("actor"@);
            let object = activity.text_at("object"@);
            let r = announce_request(activity);
            &&& id is None ==> r == Err::<AnnounceRequestModel, Seq<char>>(
                "Announce: id がありません"@,
            )
            &&& id is Some && actor is None ==> r == Err::<AnnounceRequestModel, Seq<char>>(
                "Announce: actor がありません"@,
            )
            &&& id is Some && actor is Some && object is None ==> r == Err::<
                AnnounceRequestModel,
                Seq<char>,
            >("Announce: object がありません"@)
        }),
{
}

} // verus!
