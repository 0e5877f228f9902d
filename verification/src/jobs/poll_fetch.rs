//! Fetching the results of remote polls anew.

use crate::jobs::inbound_activity_process::note_input;
use crate::json::{Json, JsonModel};
use crate::text;
use vstd::prelude::*;

verus! {

/// A post with a poll, as the database knows it.
pub struct PolledPost {
    pub ap_object_id: Option<String>,
    pub author_id: i64,
    /// The author's server sends changes by itself.
    pub poll_update_received: bool,
}

/// The address at which a poll is fetched: none where its changes come by
/// themselves.
pub fn poll_address(post: Option<PolledPost>) -> (r: Option<String>)
    ensures
        r == (match post {
            Some(p) if !p.poll_update_received => p.ap_object_id,
            _ => None,
        }),
{
    match post {
        Some(p) => {
            if p.poll_update_received {
                None
            } else {
                p.ap_object_id
            }
        },
        None => None,
    }
}

/// What came of fetching something from its server.
pub enum FetchedObject {
    Found(Json),
    /// Its server says that it is not there.
    Gone,
    Failed(String),
}

/// What is done with a poll.
#[derive(Debug)]
pub enum PollFetchAction {
    /// Nothing.
    Leave,
    /// It is noted that it was looked at.
    Touch,
    /// The new results are kept and shown.
    Update(Json),
}

/// What is done with a poll.
pub enum PollFetchModel {
    Leave,
    Touch,
    Update(JsonModel),
}

impl View for PollFetchAction {
    type V = PollFetchModel;

    open spec fn view(&self) -> PollFetchModel {
        match self {
            PollFetchAction::Leave => PollFetchModel::Leave,
            PollFetchAction::Touch => PollFetchModel::Touch,
            PollFetchAction::Update(p) => PollFetchModel::Update(p@),
        }
    }
}

/// What is done with a poll that was fetched. One that is gone is left; one that
/// is no longer a poll is noted, so that it is not fetched again and again.
pub open spec fn poll_action(uri: Seq<char>, fetched: FetchedObject) -> Result<PollFetchModel, Seq<char>> {
    match fetched {
        FetchedObject::Gone => Ok(PollFetchModel::Leave),
        FetchedObject::Failed(e) => Err(
            "PollFetch: 再フェッチ失敗（リトライ対象） uri="@ + uri + ": "@ + e@,
        ),
        FetchedObject::Found(o) => match note_input::poll_of(o@) {
            Some(p) => Ok(PollFetchModel::Update(p)),
            None => Ok(PollFetchModel::Touch),
        },
    }
}

/// What is done with a poll that was fetched.
pub fn decide_poll_action(uri: &str, fetched: &FetchedObject) -> (r: Result<PollFetchAction, String>)
    ensures
        (match r {
            Ok(a) => Ok(a@),
            Err(e) => Err(e@),
        }) == poll_action(uri@, *fetched),
{
    match fetched {
        FetchedObject::Gone => Ok(PollFetchAction::Leave),
        FetchedObject::Failed(e) => Err(
            text::cat4(
                "PollFetch: 再フェッチ失敗（リトライ対象） uri=",
                uri,
                ": ",
                e.as_str(),
            ),
        ),
        FetchedObject::Found(o) => match note_input::normalize_ap_poll(o) {
            Some(p) => Ok(PollFetchAction::Update(p)),
            None => Ok(PollFetchAction::Touch),
        },
    }
}

// ---------------------------------------------------------------------------
// Laws.
// ---------------------------------------------------------------------------

/// A poll that is looked at again is brought up to date with what its server states;
/// an object that is no poll is noted as looked at, and one that is gone is left. A
/// fetch that failed is tried again.
pub proof fn law_poll_is_brought_up_to_date(uri: Seq<char>, object: Json, fetched: FetchedObject)
    ensures
        (match note_input::poll_of(object@) {
            Some(p) => poll_action(uri, FetchedObject::Found(object)) == Ok::<
                PollFetchModel,
                Seq<char>,
            >(PollFetchModel::Update(p)),
            None => poll_action(uri, FetchedObject::Found(object)) == Ok::<
                PollFetchModel,
                Seq<char>,
            >(PollFetchModel::Touch),
        }),
        fetched is Gone ==> poll_action(uri, fetched) == Ok::<PollFetchModel, Seq<char>>(
            PollFetchModel::Leave,
        ),
        poll_action(uri, fetched) is Err <==> fetched is Failed,
{
}

} // verus!
