//! Following a list of accounts one after the other.

use crate::text;
use vstd::prelude::*;

verus! {

/// How long the import pauses when too many accounts were followed, in seconds.
pub const RATE_LIMIT_POLL_SECS: u64 = 300;

/// What is done after a step of an import.
#[derive(Debug, Clone, Copy, PartialEq, Eq, Structural)]
pub enum NextAction {
    /// The next step follows at once.
    Continue,
    /// The next step follows after the given number of seconds.
    RetryAfter(u64),
    /// There is no next step.
    Stop,
}

/// What a step of an import begins with.
#[derive(Debug, Clone, Copy, PartialEq, Eq, Structural)]
pub enum ImportStart {
    /// The import is not running.
    Stop,
    /// The next account is taken.
    TakeItem,
}

/// What a step of an import begins with: it goes on only while it is running.
pub fn begin_step(status: Option<&str>) -> (r: ImportStart)
    ensures
        r == (if text::str_view(status) == Some("running"@) {
            ImportStart::TakeItem
        } else {
            ImportStart::Stop
        }),
{
    match status {
        Some(s) => if text::same_str(s, "running") {
            ImportStart::TakeItem
        } else {
            ImportStart::Stop
        },
        None => ImportStart::Stop,
    }
}

/// What came of asking whether another account may be followed now.
pub enum RateCheck {
    Allowed,
    Exceeded,
    Failed(String),
}

/// What a step does with the account it took.
#[derive(Debug, Clone, Copy, PartialEq, Eq, Structural)]
pub enum ItemStep {
    /// No account is left: the import is done.
    Complete,
    /// The account is followed.
    Follow,
    /// The account waits for the next try.
    Wait,
}

/// What a step does with the account it took.
pub open spec fn item_step(has_item: bool, check: RateCheck) -> Result<ItemStep, Seq<char>> {
    if !has_item {
        Ok(ItemStep::Complete)
    } else {
        match check {
            RateCheck::Allowed => Ok(ItemStep::Follow),
            RateCheck::Exceeded => Ok(ItemStep::Wait),
            RateCheck::Failed(e) => Err(
                "[FollowImportProcess] レート制限チェック失敗: "@ + e@,
            ),
        }
    }
}

/// What a step does with the account it took. Where it took none, `check` is not
/// looked at.
pub fn decide_item(has_item: bool, check: &RateCheck) -> (r: Result<ItemStep, String>)
    ensures
        (match r {
            Ok(s) => Ok(s),
            Err(e) => Err(e@),
        }) == item_step(has_item, *check),
{
    if !has_item {
        return Ok(ItemStep::Complete);
    }
    match check {
        RateCheck::Allowed => Ok(ItemStep::Follow),
        RateCheck::Exceeded => Ok(ItemStep::Wait),
        RateCheck::Failed(e) => Err(
            text::cat("[FollowImportProcess] レート制限チェック失敗: ", e.as_str()),
        ),
    }
}

/// What is done after a step.
pub open spec fn next_action(step: ItemStep) -> NextAction {
    match step {
        ItemStep::Complete => NextAction::Stop,
        ItemStep::Follow => NextAction::Continue,
        ItemStep::Wait => NextAction::RetryAfter(RATE_LIMIT_POLL_SECS),
    }
}

/// What is done after a step. Whether the account could be followed makes no
/// difference.
pub fn after_step(step: ItemStep) -> (r: NextAction)
    ensures
        r == next_action(step),
{
    match step {
        ItemStep::Complete => NextAction::Stop,
        ItemStep::Follow => NextAction::Continue,
        ItemStep::Wait => NextAction::RetryAfter(RATE_LIMIT_POLL_SECS),
    }
}

/// What came of following an account.
#[derive(Debug, Clone, Copy, PartialEq, Eq, Structural)]
pub enum FollowOutcome {
    Accepted { already_following: bool },
    Pending { already_following: bool },
    Failed,
}

/// What goes on record of an account.
#[derive(Debug, Clone, Copy, PartialEq, Eq, Structural)]
pub enum FollowImportItemOutcome {
    Succeeded,
    AlreadyFollowing,
    Failed,
}

/// What goes on record of an account.
pub open spec fn recorded_outcome(outcome: FollowOutcome) -> FollowImportItemOutcome {
    match outcome {
        FollowOutcome::Failed => FollowImportItemOutcome::Failed,
        FollowOutcome::Accepted { already_following: true } => FollowImportItemOutcome::AlreadyFollowing,
        FollowOutcome::Pending { already_following: true } => FollowImportItemOutcome::AlreadyFollowing,
        _ => FollowImportItemOutcome::Succeeded,
    }
}

/// What goes on record of an account.
pub fn item_outcome(outcome: FollowOutcome) -> (r: FollowImportItemOutcome)
    ensures
        r == recorded_outcome(outcome),
{
    match outcome {
        FollowOutcome::Failed => FollowImportItemOutcome::Failed,
        FollowOutcome::Accepted { already_following } => {
            if already_following {
                FollowImportItemOutcome::AlreadyFollowing
            } else {
                FollowImportItemOutcome::Succeeded
            }
        },
        FollowOutcome::Pending { already_following } => {
            if already_following {
                FollowImportItemOutcome::AlreadyFollowing
            } else {
                FollowImportItemOutcome::Succeeded
            }
        },
    }
}

// ---------------------------------------------------------------------------
// The order of a round.
// ---------------------------------------------------------------------------
/// What is on record of an import.
#[derive(Debug)]
pub struct ImportRequest {
    pub status: String,
    pub actor_id: i64,
}

/// An account that is to be followed.
#[derive(Debug)]
pub struct ImportItem {
    pub id: i64,
    pub target: String,
}

/// The answers that there are in one round of an import.
pub struct RoundAnswers {
    /// The server is set up to carry out follows.
    pub configured: bool,
    /// What is on record of the import.
    pub request: Option<Option<ImportRequest>>,
    /// The next account.
    pub item: Option<Option<ImportItem>>,
    /// The end of the import went on record.
    pub completed: bool,
    pub rate: Option<RateCheck>,
    /// The name of the user whose import it is.
    pub requester: Option<Option<String>>,
    /// What came of following the account.
    pub outcome: Option<FollowOutcome>,
    /// What came of it went on record.
    pub marked: bool,
}

/// What is done next in a round of an import.
pub enum RoundStep {
    Fail(String),
    /// Asks for what is on record of the import.
    FindRequest,
    /// Asks for the next account.
    ClaimItem,
    /// The end of the import goes on record.
    MarkCompleted,
    /// Asks whether the actor may follow another account now.
    CheckRate(i64),
    /// Asks for the name of the actor.
    FindRequester(i64),
    /// The account is followed.
    Follow { target: String, actor_id: i64, username: String },
    /// What came of an account goes on record.
    MarkItem { item_id: i64, outcome: FollowImportItemOutcome },
    /// The round is over.
    Next(NextAction),
}

/// What a step stands for.
pub enum RoundStepModel {
    Fail(Seq<char>),
    FindRequest,
    ClaimItem,
    MarkCompleted,
    CheckRate(i64),
    FindRequester(i64),
    Follow { target: Seq<char>, actor_id: i64, username: Seq<char> },
    MarkItem { item_id: i64, outcome: FollowImportItemOutcome },
    Next(NextAction),
}

impl View for RoundStep {
    type V = RoundStepModel;

    open spec fn view(&self) -> RoundStepModel {
        match self {
            RoundStep::Fail(e) => RoundStepModel::Fail(e@),
            RoundStep::FindRequest => RoundStepModel::FindRequest,
            RoundStep::ClaimItem => RoundStepModel::ClaimItem,
            RoundStep::MarkCompleted => RoundStepModel::MarkCompleted,
            RoundStep::CheckRate(id) => RoundStepModel::CheckRate(*id),
            RoundStep::FindRequester(id) => RoundStepModel::FindRequester(*id),
            RoundStep::Follow { target, actor_id, username } => RoundStepModel::Follow {
                target: target@,
                actor_id: *actor_id,
                username: username@,
            },
            RoundStep::MarkItem { item_id, outcome } => RoundStepModel::MarkItem {
                item_id: *item_id,
                outcome: *outcome,
            },
            RoundStep::Next(n) => RoundStepModel::Next(*n),
        }
    }
}

/// The steps about an account that may be followed.
pub open spec fn following_step(item: ImportItem, actor_id: i64, a: RoundAnswers) -> RoundStepModel {
    match (a.requester, a.outcome) {
        (None, _) => RoundStepModel::FindRequester(actor_id),
        (Some(None), _) => RoundStepModel::Fail(
            "[FollowImportProcess] 実行者アクターが見つかりません"@,
        ),
        (Some(Some(username)), None) => RoundStepModel::Follow {
            target: item.target@,
            actor_id,
            username: username@,
        },
        (_, Some(outcome)) => if !a.marked {
            RoundStepModel::MarkItem { item_id: item.id, outcome: recorded_outcome(outcome) }
        } else {
            RoundStepModel::Next(next_action(ItemStep::Follow))
        },
    }
}

/// What is done next in a round of an import, from the answers that there are.
pub open spec fn round_step(a: RoundAnswers) -> RoundStepModel {
    match a.request {
        _ if !a.configured => RoundStepModel::Fail("[FollowImportProcess] FollowExecConfig 未設定"@),
        None => RoundStepModel::FindRequest,
        Some(None) => RoundStepModel::Next(NextAction::Stop),
        Some(Some(q)) => if q.status@ != "running"@ {
            RoundStepModel::Next(NextAction::Stop)
        } else {
            match (a.item, a.rate) {
                (None, _) => RoundStepModel::ClaimItem,
                (Some(None), _) => if !a.completed {
                    RoundStepModel::MarkCompleted
                } else {
                    RoundStepModel::Next(next_action(ItemStep::Complete))
                },
                (_, None) => RoundStepModel::CheckRate(q.actor_id),
                (Some(Some(item)), Some(rate)) => match item_step(true, rate) {
                    Err(e) => RoundStepModel::Fail(e),
                    Ok(ItemStep::Follow) => following_step(item, q.actor_id, a),
                    Ok(step) => RoundStepModel::Next(next_action(step)),
                },
            }
        },
    }
}

fn take_following_step(item: &ImportItem, actor_id: i64, a: &RoundAnswers) -> (r: RoundStep)
    ensures
        r@ == following_step(*item, actor_id, *a),
{
    match &a.requester {
        None => RoundStep::FindRequester(actor_id),
        Some(None) => RoundStep::Fail(
            "[FollowImportProcess] 実行者アクターが見つかりません".to_owned(),
        ),
        Some(Some(username)) => match a.outcome {
            None => RoundStep::Follow {
                target: item.target.clone(),
                actor_id,
                username: username.clone(),
            },
            Some(outcome) => {
                if a.marked {
                    RoundStep::Next(after_step(ItemStep::Follow))
                } else {
                    RoundStep::MarkItem { item_id: item.id, outcome: item_outcome(outcome) }
                }
            },
        },
    }
}

/// What is done next in a round of an import, from the answers that there are.
pub fn next_round_step(a: &RoundAnswers) -> (r: RoundStep)
    ensures
        r@ == round_step(*a),
{
    if !a.configured {
        return RoundStep::Fail("[FollowImportProcess] FollowExecConfig 未設定".to_owned());
    }
    let q: &ImportRequest = match &a.request {
        None => {
            return RoundStep::FindRequest;
        },
        Some(None) => {
            return RoundStep::Next(NextAction::Stop);
        },
        Some(Some(q)) => q,
    };
    match begin_step(Some(q.status.as_str())) {
        ImportStart::Stop => {
            return RoundStep::Next(NextAction::Stop);
        },
        ImportStart::TakeItem => {},
    }
    let item: &ImportItem = match &a.item {
        None => {
            return RoundStep::ClaimItem;
        },
        Some(None) => {
            if a.completed {
                return RoundStep::Next(after_step(ItemStep::Complete));
            }
            return RoundStep::MarkCompleted;
        },
        Some(Some(item)) => item,
    };
    let rate: &RateCheck = match &a.rate {
        None => {
            return RoundStep::CheckRate(q.actor_id);
        },
        Some(rate) => rate,
    };
    match decide_item(true, rate) {
        Err(e) => RoundStep::Fail(e),
        Ok(step) => match step {
            ItemStep::Follow => take_following_step(item, q.actor_id, a),
            _ => RoundStep::Next(after_step(step)),
        },
    }
}

// ---------------------------------------------------------------------------
// Laws.
// ---------------------------------------------------------------------------
/// An import goes on while an account is left, and ends when none is: reaching
/// the limit makes it pause, never stop.
pub proof fn law_import_stops_only_when_done(has_item: bool, check: RateCheck)
    ensures
        item_step(has_item, check) matches Ok(step) ==> (next_action(step) is Stop <==> !has_item),
{
}

/// An account is followed only within the limit, and the next round comes at
/// once only where what came of it is on record.
pub proof fn law_round_keeps_the_limit(a: RoundAnswers)
    ensures
        round_step(a) is Follow ==> a.rate matches Some(RateCheck::Allowed),
        round_step(a) == RoundStepModel::Next(NextAction::Continue) ==> a.outcome is Some && a.marked,
{
}

/// An account goes on record as followed already where it was, as failed where it
/// could not be followed, and as done otherwise, whether or not it has agreed yet.
pub proof fn law_outcome_goes_on_record(already: bool, outcome: FollowOutcome)
    ensures
        recorded_outcome(outcome) is Failed <==> outcome is Failed,
        recorded_outcome(FollowOutcome::Accepted { already_following: already })
            == recorded_outcome(FollowOutcome::Pending { already_following: already }),
        recorded_outcome(FollowOutcome::Accepted { already_following: already })
            is AlreadyFollowing <==> already,
        recorded_outcome(FollowOutcome::Accepted { already_following: already }) is Succeeded
            <==> !already,
{
}

/// An import that has to wait is tried again after five minutes.
pub proof fn law_limited_import_waits(check: RateCheck)
    ensures
        check is Exceeded ==> item_step(true, check) is Ok && next_action(
            item_step(true, check)->Ok_0,
        ) == NextAction::RetryAfter(300),
        check is Allowed ==> item_step(true, check) is Ok && next_action(
            item_step(true, check)->Ok_0,
        ) is Continue,
        check is Failed ==> item_step(true, check) is Err,
{
}

/// A round goes through in order: the next account is taken, the limit of the user is
/// asked for, the account is followed in the user's name, and what came of it goes on
/// record for that account. Where no account is left the end goes on record.
pub proof fn law_round_goes_through(
    a: RoundAnswers,
    q: ImportRequest,
    item: ImportItem,
    username: String,
    outcome: FollowOutcome,
)
    requires
        a.configured,
        a.request == Some(Some(q)),
        q.status@ == "running"@,
    ensures
        a.item is None ==> round_step(a) is ClaimItem,
        a.item == Some(None::<ImportItem>) ==> round_step(a) == (if a.completed {
            RoundStepModel::Next(NextAction::Stop)
        } else {
            RoundStepModel::MarkCompleted
        }),
        a.item == Some(Some(item)) ==> {
            &&& a.rate is None ==> round_step(a) == RoundStepModel::CheckRate(q.actor_id)
            &&& a.rate is Some && a.rate->0 is Failed ==> round_step(a) is Fail
            &&& a.rate is Some && a.rate->0 is Exceeded ==> round_step(a) == RoundStepModel::Next(
                NextAction::RetryAfter(300),
            )
            &&& a.rate is Some && a.rate->0 is Allowed ==> {
                &&& a.requester is None ==> round_step(a) == RoundStepModel::FindRequester(
                    q.actor_id,
                )
                &&& a.requester == Some(None::<String>) ==> round_step(a) is Fail
                &&& a.requester == Some(Some(username)) && a.outcome is None ==> round_step(a)
                    == (RoundStepModel::Follow {
                    target: item.target@,
                    actor_id: q.actor_id,
                    username: username@,
                })
                &&& a.requester == Some(Some(username)) && a.outcome == Some(outcome) ==> (if
                    a.marked {
                    round_step(a) == RoundStepModel::Next(NextAction::Continue)
                } else {
                    round_step(a) == (RoundStepModel::MarkItem {
                        item_id: item.id,
                        outcome: recorded_outcome(outcome),
                    })
                })
            }
        },
{
}

/// A round does nothing where the import is not there or not running.
pub proof fn law_stopped_import_stays_stopped(a: RoundAnswers, q: ImportRequest)
    ensures
        !a.configured ==> round_step(a) is Fail,
        a.configured && a.request is None ==> round_step(a) is FindRequest,
        a.configured && a.request == Some(None::<ImportRequest>) ==> round_step(a)
            == RoundStepModel::Next(NextAction::Stop),
        a.configured && a.request == Some(Some(q)) && q.status@ != "running"@ ==> round_step(a)
            == RoundStepModel::Next(NextAction::Stop),
{
}

} // verus!
