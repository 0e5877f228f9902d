//! Approving all pending requests to follow an account that is no longer locked.

use crate::decimal;
use crate::text;
use vstd::prelude::*;

verus! {

/// What came of looking an actor up.
pub enum Lookup {
    Found,
    Missing,
    /// It could not be looked up, with what went wrong.
    Failed(String),
}

/// The answers that there are about the pending requests of an account.
pub struct AcceptAnswers {
    /// The server is set up to carry out follows.
    pub configured: bool,
    /// The account.
    pub target: Option<Lookup>,
    /// Those who want to follow it.
    pub pending: Option<Result<Vec<i64>, String>>,
    /// How many of them were dealt with.
    pub settled: usize,
    /// The first of them who was not dealt with.
    pub follower: Option<Lookup>,
}

/// What is done next about the pending requests of an account.
pub enum AcceptStep {
    Refuse(String),
    Done,
    /// Asks for the account.
    FindTarget,
    /// Asks for those who want to follow it.
    FindPending,
    /// Asks for one of them.
    FindFollower(i64),
    /// Approves the request; whatever comes of it, it is dealt with.
    Approve(i64),
    /// Leaves the request as it is; it is dealt with.
    Skip(i64),
}

/// What a step stands for.
pub enum AcceptStepModel {
    Refuse(Seq<char>),
    Done,
    FindTarget,
    FindPending,
    FindFollower(i64),
    Approve(i64),
    Skip(i64),
}

impl View for AcceptStep {
    type V = AcceptStepModel;

    open spec fn view(&self) -> AcceptStepModel {
        match self {
            AcceptStep::Refuse(e) => AcceptStepModel::Refuse(e@),
            AcceptStep::Done => AcceptStepModel::Done,
            AcceptStep::FindTarget => AcceptStepModel::FindTarget,
            AcceptStep::FindPending => AcceptStepModel::FindPending,
            AcceptStep::FindFollower(id) => AcceptStepModel::FindFollower(*id),
            AcceptStep::Approve(id) => AcceptStepModel::Approve(*id),
            AcceptStep::Skip(id) => AcceptStepModel::Skip(*id),
        }
    }
}

/// The steps once the list is known: each request in turn is approved where the
/// follower is known, and left as it is where the follower is not.
pub open spec fn request_step(pending: Seq<i64>, settled: int, follower: Option<Lookup>) -> AcceptStepModel {
    if settled >= pending.len() {
        AcceptStepModel::Done
    } else {
        match follower {
            None => AcceptStepModel::FindFollower(pending[settled]),
            Some(Lookup::Found) => AcceptStepModel::Approve(pending[settled]),
            Some(_) => AcceptStepModel::Skip(pending[settled]),
        }
    }
}

/// What is done next about the pending requests of an account, from the answers
/// that there are. A server that cannot carry out follows does nothing.
pub open spec fn accept_step(actor_id: i64, a: AcceptAnswers) -> AcceptStepModel {
    match a.target {
        _ if !a.configured => AcceptStepModel::Done,
        None => AcceptStepModel::FindTarget,
        Some(Lookup::Failed(e)) => AcceptStepModel::Refuse("ターゲット取得失敗: "@ + e@),
        Some(Lookup::Missing) => AcceptStepModel::Refuse(
            "ターゲットアクター '"@ + decimal::int_text(actor_id as int) + "' が見つかりません"@,
        ),
        Some(Lookup::Found) => match a.pending {
            None => AcceptStepModel::FindPending,
            Some(Err(e)) => AcceptStepModel::Refuse("承認待ち一覧取得失敗: "@ + e@),
            Some(Ok(v)) => request_step(v@, a.settled as int, a.follower),
        },
    }
}

/// What is done next about the pending requests of an account, from the answers
/// that there are.
pub fn next_accept_step(actor_id: i64, a: &AcceptAnswers) -> (r: AcceptStep)
    ensures
        r@ == accept_step(actor_id, *a),
{
    if !a.configured {
        return AcceptStep::Done;
    }
    match &a.target {
        None => {
            return AcceptStep::FindTarget;
        },
        Some(Lookup::Failed(e)) => {
            return AcceptStep::Refuse(text::cat("ターゲット取得失敗: ", e.as_str()));
        },
        Some(Lookup::Missing) => {
            let id: String = decimal::format_i64(actor_id);
            return AcceptStep::Refuse(
                text::cat3("ターゲットアクター '", id.as_str(), "' が見つかりません"),
            );
        },
        Some(Lookup::Found) => {},
    }
    let pending: &Vec<i64> = match &a.pending {
        None => {
            return AcceptStep::FindPending;
        },
        Some(Err(e)) => {
            return AcceptStep::Refuse(text::cat("承認待ち一覧取得失敗: ", e.as_str()));
        },
        Some(Ok(v)) => v,
    };
    if a.settled >= pending.len() {
        return AcceptStep::Done;
    }
    let id: i64 = pending[a.settled];
    match &a.follower {
        None => AcceptStep::FindFollower(id),
        Some(Lookup::Found) => AcceptStep::Approve(id),
        Some(_) => AcceptStep::Skip(id),
    }
}

// ---------------------------------------------------------------------------
// Laws.
// ---------------------------------------------------------------------------
/// Once the list of requests is known, nothing that befalls one of them ends the
/// work on the others: the work is done exactly when all were dealt with.
pub proof fn law_one_request_does_not_stop_the_others(actor_id: i64, a: AcceptAnswers)
    requires
        a.configured,
        a.target matches Some(t) && t is Found,
        a.pending matches Some(p) && p is Ok,
    ensures
        !(accept_step(actor_id, a) is Refuse),
        accept_step(actor_id, a) is Done <==> a.settled >= a.pending->0->Ok_0@.len(),
{
}

/// The requests are dealt with in turn: each one is approved where its follower is
/// found and left alone where not.
pub proof fn law_requests_are_approved_in_turn(
    actor_id: i64,
    a: AcceptAnswers,
    pending: Vec<i64>,
)
    requires
        a.configured,
        a.target == Some(Lookup::Found),
        a.pending == Some(Ok::<Vec<i64>, String>(pending)),
        a.settled < pending@.len(),
    ensures
        ({
            let id = pending@[a.settled as int];
            let step = accept_step(actor_id, a);
            match a.follower {
                None => step == AcceptStepModel::FindFollower(id),
                Some(Lookup::Found) => step == AcceptStepModel::Approve(id),
                Some(_) => step == AcceptStepModel::Skip(id),
            }
        }),
{
}

/// Nothing is approved for an account that is not there, and nothing is asked of a
/// server that is not set up for it.
pub proof fn law_account_is_looked_up_first(actor_id: i64, a: AcceptAnswers)
    ensures
        !a.configured ==> accept_step(actor_id, a) is Done,
        a.configured && a.target is None ==> accept_step(actor_id, a) is FindTarget,
        a.configured && a.target is Some && !(a.target->0 is Found) ==> accept_step(actor_id, a)
            is Refuse,
        a.configured && a.target == Some(Lookup::Found) && a.pending is None ==> accept_step(
            actor_id,
            a,
        ) is FindPending,
        a.configured && a.target == Some(Lookup::Found) && a.pending is Some && a.pending->0 is Err
            ==> accept_step(actor_id, a) is Refuse,
{
}

} // verus!
