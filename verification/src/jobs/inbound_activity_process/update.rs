//! Changes of polls, and matching posts of one author on two networks.

use crate::jobs::inbound_activity_process::content;
use crate::jobs::inbound_activity_process::delete;
use crate::jobs::inbound_activity_process::note_input;
use crate::jobs::inbound_activity_process::note_save::SeiranPost;
use crate::jobs::inbound_activity_process::undo;
use crate::json::{Json, JsonModel};
use crate::text;
use vstd::prelude::*;

verus! {

/// What an activity changes.
pub enum UpdateSubject {
    /// Nothing that is handled.
    Ignore,
    /// A note, which may state its matching post.
    Note { ap_object_id: String, actor_uri: String },
    /// The result of a poll.
    Poll { question_id: String, poll: Json, actor_uri: String },
}

/// What the subject stands for.
pub enum UpdateSubjectModel {
    Ignore,
    Note { ap_object_id: Seq<char>, actor_uri: Seq<char> },
    Poll { question_id: Seq<char>, poll: JsonModel, actor_uri: Seq<char> },
}

impl View for UpdateSubject {
    type V = UpdateSubjectModel;

    open spec fn view(&self) -> UpdateSubjectModel {
        match self {
            UpdateSubject::Ignore => UpdateSubjectModel::Ignore,
            UpdateSubject::Note { ap_object_id, actor_uri } => UpdateSubjectModel::Note {
                ap_object_id: ap_object_id@,
                actor_uri: actor_uri@,
            },
            UpdateSubject::Poll { question_id, poll, actor_uri } => UpdateSubjectModel::Poll {
                question_id: question_id@,
                poll: poll@,
                actor_uri: actor_uri@,
            },
        }
    }
}

/// What an activity changes: the note or the poll that its object names.
pub open spec fn update_subject(activity: JsonModel) -> UpdateSubjectModel {
    let object = activity.at("object"@);
    let actor_uri = content::text_or_empty(activity.text_at("actor"@));
    match object.text_at("id"@) {
        None => UpdateSubjectModel::Ignore,
        Some(id) => if object.text_at("type"@) == Some("Note"@) {
            UpdateSubjectModel::Note { ap_object_id: id, actor_uri }
        } else {
            match note_input::poll_of(object) {
                Some(poll) => UpdateSubjectModel::Poll { question_id: id, poll, actor_uri },
                None => UpdateSubjectModel::Ignore,
            }
        },
    }
}

/// What an activity changes.
pub fn read_update(activity: &Json) -> (r: UpdateSubject)
    ensures
        r@ == update_subject(activity@),
{
    let object: &Json = match activity.get("object") {
        Some(o) => o,
        None => {
            return UpdateSubject::Ignore;
        },
    };
    let id: &str = match object.text_at("id") {
        Some(t) => t,
        None => {
            return UpdateSubject::Ignore;
        },
    };
    let actor_uri: String = undo::or_empty(activity.text_at("actor")).to_owned();
    if object.text_is("type", "Note") {
        return UpdateSubject::Note { ap_object_id: id.to_owned(), actor_uri };
    }
    match note_input::normalize_ap_poll(object) {
        Some(poll) => UpdateSubject::Poll { question_id: id.to_owned(), poll, actor_uri },
        None => UpdateSubject::Ignore,
    }
}

/// The post whose poll is changed: the one that was found, where the activity
/// comes from its author.
pub fn decide_poll_update(found: Option<(i64, i64)>, sender: Option<i64>) -> (r: Option<i64>)
    ensures
        r == (match found {
            Some(p) if delete::comes_from_author(sender, p.1) => Some(p.0),
            _ => None,
        }),
{
    delete::decide_delete(found, sender)
}

/// A post that was found under the identifier of a changed note.
pub struct ClaimingPost {
    pub post_id: i64,
    pub author_id: i64,
    /// The matching post, where it is settled already.
    pub at_uri: Option<String>,
}

/// The matching post that a changed note states, where it is taken up: the note
/// is known, the activity comes from its author, and no match is settled yet.
pub open spec fn claim_taken_up(
    stated: Option<SeiranPost>,
    found: Option<ClaimingPost>,
    sender: Option<i64>,
) -> Option<Seq<char>> {
    match (stated, found) {
        (Some(s), Some(p)) if delete::comes_from_author(sender, p.author_id) && p.at_uri is None => {
            text::string_view(s.counterpart_post_id)
        },
        _ => None,
    }
}

/// The matching post that a changed note states, where it is taken up.
pub fn decide_claim(
    stated: &Option<SeiranPost>,
    found: &Option<ClaimingPost>,
    sender: Option<i64>,
) -> (r: Option<String>)
    ensures
        text::string_view(r) == claim_taken_up(*stated, *found, sender),
{
    match (stated, found) {
        (Some(s), Some(p)) => {
            if delete::is_from_author(sender, p.author_id) && p.at_uri.is_none() {
                match &s.counterpart_post_id {
                    Some(t) => Some(t.clone()),
                    None => None,
                }
            } else {
                None
            }
        },
        _ => None,
    }
}

/// A post that was found under the address that another one states as its match.
pub struct MergeCandidate {
    pub post_id: i64,
    pub author_id: i64,
    /// The identifier that this post states as its own match.
    pub claimed_ap_object_id: Option<String>,
}

/// The post that is merged into the one that states it as its match: the two
/// state each other, and are of one author.
pub open spec fn merge_target(
    candidate: Option<MergeCandidate>,
    ap_object_id: Seq<char>,
    author_id: i64,
) -> Option<i64> {
    match candidate {
        Some(c) if text::string_view(c.claimed_ap_object_id) == Some(ap_object_id) && c.author_id
            == author_id => Some(c.post_id),
        _ => None,
    }
}

/// The post that is merged into the one that states it as its match.
pub fn decide_merge(candidate: &Option<MergeCandidate>, ap_object_id: &str, author_id: i64) -> (r: Option<
    i64,
>)
    ensures
        r == merge_target(*candidate, ap_object_id@, author_id),
{
    match candidate {
        Some(c) => {
            let mutual: bool = match &c.claimed_ap_object_id {
                Some(id) => text::same_str(id.as_str(), ap_object_id),
                None => false,
            };
            if mutual && c.author_id == author_id {
                Some(c.post_id)
            } else {
                None
            }
        },
        None => None,
    }
}

// ---------------------------------------------------------------------------
// The order in which a change is handled.
// ---------------------------------------------------------------------------
/// The answers that there are about a change.
pub struct UpdateAnswers {
    /// The post of the poll, and its author.
    pub found_poll: Option<Option<(i64, i64)>>,
    /// The post that is known under the identifier of the note.
    pub found_note: Option<Option<ClaimingPost>>,
    /// The actor that is found under the address of the sender.
    pub sender: Option<Option<i64>>,
    /// The result of the poll went on record.
    pub updated: bool,
    /// The result was shown anew.
    pub shown: bool,
    /// The statement went on record; the post that is known under the address
    /// that it states.
    pub candidate: Option<Option<MergeCandidate>>,
    /// The posts were merged.
    pub merged: bool,
    /// The removal of what is left was queued.
    pub queued: bool,
}

/// What is done next about a change.
pub enum UpdateStep {
    Done,
    /// Asks for the post of the given identifier, and its author.
    FindPost(String),
    /// Asks for the post of the given identifier, and its match.
    FindNote(String),
    /// Asks for the actor of the given address.
    FindSender(String),
    /// The result of a poll goes on record.
    UpdatePoll { post_id: i64, poll: Json },
    /// The result is shown anew.
    ShowPoll { post_id: i64, author_id: i64, poll: Json },
    /// What the post states as its match goes on record, and asks for the post
    /// that is known there.
    RecordClaim { post_id: i64, ap_object_id: String, at_uri: String },
    /// The second post is merged into the first.
    Merge { survivor_id: i64, doomed_id: i64, ap_object_id: String, at_uri: String },
    /// The removal of what is left of the second post is queued.
    QueueCleanup { survivor_id: i64, doomed_id: i64 },
}

/// What a step stands for.
pub enum UpdateStepModel {
    Done,
    FindPost(Seq<char>),
    FindNote(Seq<char>),
    FindSender(Seq<char>),
    UpdatePoll { post_id: i64, poll: JsonModel },
    ShowPoll { post_id: i64, author_id: i64, poll: JsonModel },
    RecordClaim { post_id: i64, ap_object_id: Seq<char>, at_uri: Seq<char> },
    Merge { survivor_id: i64, doomed_id: i64, ap_object_id: Seq<char>, at_uri: Seq<char> },
    QueueCleanup { survivor_id: i64, doomed_id: i64 },
}

impl View for UpdateStep {
    type V = UpdateStepModel;

    open spec fn view(&self) -> UpdateStepModel {
        match self {
            UpdateStep::Done => UpdateStepModel::Done,
            UpdateStep::FindPost(u) => UpdateStepModel::FindPost(u@),
            UpdateStep::FindNote(u) => UpdateStepModel::FindNote(u@),
            UpdateStep::FindSender(u) => UpdateStepModel::FindSender(u@),
            UpdateStep::UpdatePoll { post_id, poll } => UpdateStepModel::UpdatePoll {
                post_id: *post_id,
                poll: poll@,
            },
            UpdateStep::ShowPoll { post_id, author_id, poll } => UpdateStepModel::ShowPoll {
                post_id: *post_id,
                author_id: *author_id,
                poll: poll@,
            },
            UpdateStep::RecordClaim { post_id, ap_object_id, at_uri } => UpdateStepModel::RecordClaim {
                post_id: *post_id,
                ap_object_id: ap_object_id@,
                at_uri: at_uri@,
            },
            UpdateStep::Merge { survivor_id, doomed_id, ap_object_id, at_uri } => UpdateStepModel::Merge {
                survivor_id: *survivor_id,
                doomed_id: *doomed_id,
                ap_object_id: ap_object_id@,
                at_uri: at_uri@,
            },
            UpdateStep::QueueCleanup { survivor_id, doomed_id } => UpdateStepModel::QueueCleanup {
                survivor_id: *survivor_id,
                doomed_id: *doomed_id,
            },
        }
    }
}

/// The steps about the result of a poll, which only the author of the poll
/// changes.
pub open spec fn poll_step(
    question_id: Seq<char>,
    poll: JsonModel,
    actor_uri: Seq<char>,
    a: UpdateAnswers,
) -> UpdateStepModel {
    match (a.found_poll, a.sender) {
        (None, _) => UpdateStepModel::FindPost(question_id),
        (Some(None), _) => UpdateStepModel::Done,
        (_, None) => UpdateStepModel::FindSender(actor_uri),
        (Some(Some(p)), Some(sender)) => if !delete::comes_from_author(sender, p.1) {
            UpdateStepModel::Done
        } else if !a.updated {
            UpdateStepModel::UpdatePoll { post_id: p.0, poll }
        } else if !a.shown {
            UpdateStepModel::ShowPoll { post_id: p.0, author_id: p.1, poll }
        } else {
            UpdateStepModel::Done
        },
    }
}

/// The steps about a note, which changes nothing but the match that it states.
pub open spec fn note_step(
    ap_object_id: Seq<char>,
    actor_uri: Seq<char>,
    stated: Option<SeiranPost>,
    a: UpdateAnswers,
) -> UpdateStepModel {
    if stated is None || stated->0.counterpart_post_id is None {
        UpdateStepModel::Done
    } else {
        match (a.found_note, a.sender) {
            (None, _) => UpdateStepModel::FindNote(ap_object_id),
            (Some(None), _) => UpdateStepModel::Done,
            (_, None) => UpdateStepModel::FindSender(actor_uri),
            (Some(Some(p)), Some(sender)) => match claim_taken_up(stated, Some(p), sender) {
                None => UpdateStepModel::Done,
                Some(at_uri) => match a.candidate {
                    None => UpdateStepModel::RecordClaim {
                        post_id: p.post_id,
                        ap_object_id,
                        at_uri,
                    },
                    Some(candidate) => match merge_target(candidate, ap_object_id, p.author_id) {
                        None => UpdateStepModel::Done,
                        Some(doomed_id) => if !a.merged {
                            UpdateStepModel::Merge {
                                survivor_id: p.post_id,
                                doomed_id,
                                ap_object_id,
                                at_uri,
                            }
                        } else if !a.queued {
                            UpdateStepModel::QueueCleanup { survivor_id: p.post_id, doomed_id }
                        } else {
                            UpdateStepModel::Done
                        },
                    },
                },
            },
        }
    }
}

/// What is done next about a change, from the answers that there are. `stated` is
/// what the author's server states of the post beyond the standard fields.
pub open spec fn update_step(activity: JsonModel, stated: Option<SeiranPost>, a: UpdateAnswers) -> UpdateStepModel {
    match update_subject(activity) {
        UpdateSubjectModel::Ignore => UpdateStepModel::Done,
        UpdateSubjectModel::Poll { question_id, poll, actor_uri } => poll_step(
            question_id,
            poll,
            actor_uri,
            a,
        ),
        UpdateSubjectModel::Note { ap_object_id, actor_uri } => note_step(
            ap_object_id,
            actor_uri,
            stated,
            a,
        ),
    }
}

fn take_poll_step(question_id: String, poll: Json, actor_uri: String, a: &UpdateAnswers) -> (r: UpdateStep)
    ensures
        r@ == poll_step(question_id@, poll@, actor_uri@, *a),
{
    let (post_id, author_id): (i64, i64) = match a.found_poll {
        None => {
            return UpdateStep::FindPost(question_id);
        },
        Some(None) => {
            return UpdateStep::Done;
        },
        Some(Some(p)) => p,
    };
    let sender: Option<i64> = match a.sender {
        Some(s) => s,
        None => {
            return UpdateStep::FindSender(actor_uri);
        },
    };
    if decide_poll_update(Some((post_id, author_id)), sender).is_none() {
        UpdateStep::Done
    } else if !a.updated {
        UpdateStep::UpdatePoll { post_id, poll }
    } else if !a.shown {
        UpdateStep::ShowPoll { post_id, author_id, poll }
    } else {
        UpdateStep::Done
    }
}

fn take_note_step(
    ap_object_id: String,
    actor_uri: String,
    stated: &Option<SeiranPost>,
    a: &UpdateAnswers,
) -> (r: UpdateStep)
    ensures
        r@ == note_step(ap_object_id@, actor_uri@, *stated, *a),
{
    match stated {
        Some(sp) => {
            if sp.counterpart_post_id.is_none() {
                return UpdateStep::Done;
            }
        },
        None => {
            return UpdateStep::Done;
        },
    }
    let found: &Option<ClaimingPost> = match &a.found_note {
        None => {
            return UpdateStep::FindNote(ap_object_id);
        },
        Some(f) => f,
    };
    let post: &ClaimingPost = match found {
        Some(p) => p,
        None => {
            return UpdateStep::Done;
        },
    };
    let sender: Option<i64> = match a.sender {
        Some(s) => s,
        None => {
            return UpdateStep::FindSender(actor_uri);
        },
    };
    let at_uri: String = match decide_claim(stated, found, sender) {
        Some(u) => u,
        None => {
            return UpdateStep::Done;
        },
    };
    let candidate: &Option<MergeCandidate> = match &a.candidate {
        None => {
            return UpdateStep::RecordClaim { post_id: post.post_id, ap_object_id, at_uri };
        },
        Some(c) => c,
    };
    match decide_merge(candidate, ap_object_id.as_str(), post.author_id) {
        None => UpdateStep::Done,
        Some(doomed_id) => {
            if !a.merged {
                UpdateStep::Merge { survivor_id: post.post_id, doomed_id, ap_object_id, at_uri }
            } else if !a.queued {
                UpdateStep::QueueCleanup { survivor_id: post.post_id, doomed_id }
            } else {
                UpdateStep::Done
            }
        },
    }
}

/// What is done next about a change, from the answers that there are. `stated` is
/// what the author's server states of the post beyond the standard fields.
pub fn next_update_step(activity: &Json, stated: &Option<SeiranPost>, a: &UpdateAnswers) -> (r:
    UpdateStep)
    ensures
        r@ == update_step(activity@, *stated, *a),
{
    match read_update(activity) {
        UpdateSubject::Ignore => UpdateStep::Done,
        UpdateSubject::Poll { question_id, poll, actor_uri } => take_poll_step(
            question_id,
            poll,
            actor_uri,
            a,
        ),
        UpdateSubject::Note { ap_object_id, actor_uri } => take_note_step(
            ap_object_id,
            actor_uri,
            stated,
            a,
        ),
    }
}

// ---------------------------------------------------------------------------
// Laws.
// ---------------------------------------------------------------------------
/// A match that is settled is not taken up again, whatever a changed note
/// states.
pub proof fn law_settled_match_stands(stated: Option<SeiranPost>, p: ClaimingPost, sender: Option<i64>)
    requires
        p.at_uri is Some,
    ensures
        claim_taken_up(stated, Some(p), sender) is None,
{
}

/// No post of another author is ever merged, whatever it states.
pub proof fn law_posts_of_others_are_not_merged(
    c: MergeCandidate,
    ap_object_id: Seq<char>,
    author_id: i64,
)
    requires
        c.author_id != author_id,
    ensures
        merge_target(Some(c), ap_object_id, author_id) is None,
{
}

/// A post that does not state the other as its match is never merged into it.
pub proof fn law_merging_needs_both_sides(
    c: MergeCandidate,
    ap_object_id: Seq<char>,
    author_id: i64,
)
    requires
        text::string_view(c.claimed_ap_object_id) != Some(ap_object_id),
    ensures
        merge_target(Some(c), ap_object_id, author_id) is None,
{
}

/// The result of a poll is changed only by its author.
pub proof fn law_only_the_author_changes_a_poll(
    activity: JsonModel,
    stated: Option<SeiranPost>,
    a: UpdateAnswers,
)
    ensures
        update_step(activity, stated, a) is UpdatePoll ==> a.sender == Some(
            Some((a.found_poll->0->0).1),
        ),
{
}

/// What a post states as its match goes on record only where its author says so,
/// and a merge comes only after it went on record.
pub proof fn law_only_the_author_states_a_match(
    activity: JsonModel,
    stated: Option<SeiranPost>,
    a: UpdateAnswers,
)
    ensures
        update_step(activity, stated, a) is RecordClaim || update_step(activity, stated, a) is Merge
            ==> a.sender == Some(Some(a.found_note->0->0.author_id)),
        update_step(activity, stated, a) is Merge ==> a.candidate is Some,
{
}

/// A change is of the object that it names: a note by its type, and a poll by what it
/// offers. It is told with its sender.
pub proof fn law_changed_object_is_named(activity: JsonModel, id: Seq<char>, actor: Seq<char>)
    requires
        activity.at("object"@).text_at("id"@) == Some(id),
        activity.text_at("actor"@) == Some(actor),
    ensures
        activity.at("object"@).text_at("type"@) == Some("Note"@) ==> update_subject(activity)
            == (UpdateSubjectModel::Note { ap_object_id: id, actor_uri: actor }),
        activity.at("object"@).text_at("type"@) != Some("Note"@) ==> (match note_input::poll_of(
            activity.at("object"@),
        ) {
            Some(poll) => update_subject(activity) == (UpdateSubjectModel::Poll {
                question_id: id,
                poll,
                actor_uri: actor,
            }),
            None => update_subject(activity) is Ignore,
        }),
{
}

/// What the author of a post states as its match is taken up as long as the match is
/// not settled.
pub proof fn law_author_states_the_match(
    s: SeiranPost,
    at_uri: Seq<char>,
    p: ClaimingPost,
    sender: i64,
)
    requires
        text::string_view(s.counterpart_post_id) == Some(at_uri),
    ensures
        claim_taken_up(Some(s), Some(p), Some(sender)) is Some <==> sender == p.author_id
            && p.at_uri is None,
        claim_taken_up(Some(s), Some(p), Some(sender)) matches Some(u) ==> u == at_uri,
        claim_taken_up(Some(s), Some(p), None) is None,
        claim_taken_up(Some(s), None, Some(sender)) is None,
{
}

/// Two posts are merged where each names the other and both have one author: the
/// candidate is the one that goes.
pub proof fn law_posts_that_name_each_other_are_merged(
    c: MergeCandidate,
    ap_object_id: Seq<char>,
    author_id: i64,
)
    ensures
        merge_target(Some(c), ap_object_id, author_id) is Some <==> text::string_view(
            c.claimed_ap_object_id,
        ) == Some(ap_object_id) && c.author_id == author_id,
        merge_target(Some(c), ap_object_id, author_id) matches Some(id) ==> id == c.post_id,
        merge_target(None, ap_object_id, author_id) is None,
{
}

/// A new result of a poll by its author goes on record for the post of the poll, and
/// is then shown; a result by anybody else is left alone.
pub proof fn law_result_goes_on_record(
    activity: JsonModel,
    stated: Option<SeiranPost>,
    id: Seq<char>,
    actor: Seq<char>,
    result: JsonModel,
    a: UpdateAnswers,
    post_id: i64,
    author_id: i64,
)
    requires
        activity.at("object"@).text_at("id"@) == Some(id),
        activity.text_at("actor"@) == Some(actor),
        activity.at("object"@).text_at("type"@) != Some("Note"@),
        note_input::poll_of(activity.at("object"@)) == Some(result),
    ensures
        ({
            let step = update_step(activity, stated, a);
            &&& a.found_poll is None ==> step == UpdateStepModel::FindPost(id)
            &&& a.found_poll == Some(None::<(i64, i64)>) ==> step is Done
            &&& a.found_poll == Some(Some((post_id, author_id))) ==> (if a.sender is None {
                step == UpdateStepModel::FindSender(actor)
            } else if a.sender != Some(Some(author_id)) {
                step is Done
            } else if !a.updated {
                step == (UpdateStepModel::UpdatePoll { post_id, poll: result })
            } else if !a.shown {
                step == (UpdateStepModel::ShowPoll { post_id, author_id, poll: result })
            } else {
                step is Done
            })
        }),
{
}

/// A note that states its match goes through in order: the statement goes on record,
/// the post that states the note in turn is merged into the note's, and the removal
/// of what is left is queued.
pub proof fn law_match_goes_through(
    activity: JsonModel,
    s: SeiranPost,
    at_uri: Seq<char>,
    id: Seq<char>,
    actor: Seq<char>,
    a: UpdateAnswers,
    p: ClaimingPost,
    c: MergeCandidate,
)
    requires
        activity.at("object"@).text_at("id"@) == Some(id),
        activity.text_at("actor"@) == Some(actor),
        activity.at("object"@).text_at("type"@) == Some("Note"@),
        text::string_view(s.counterpart_post_id) == Some(at_uri),
    ensures
        ({
            let step = update_step(activity, Some(s), a);
            &&& a.found_note is None ==> step == UpdateStepModel::FindNote(id)
            &&& a.found_note == Some(None::<ClaimingPost>) ==> step is Done
            &&& a.found_note == Some(Some(p)) ==> (if a.sender is None {
                step == UpdateStepModel::FindSender(actor)
            } else if a.sender != Some(Some(p.author_id)) || p.at_uri is Some {
                step is Done
            } else {
                &&& a.candidate is None ==> step == (UpdateStepModel::RecordClaim {
                    post_id: p.post_id,
                    ap_object_id: id,
                    at_uri,
                })
                &&& a.candidate == Some(None::<MergeCandidate>) ==> step is Done
                &&& a.candidate == Some(Some(c)) ==> (if text::string_view(c.claimed_ap_object_id)
                    != Some(id) || c.author_id != p.author_id {
                    step is Done
                } else if !a.merged {
                    step == (UpdateStepModel::Merge {
                        survivor_id: p.post_id,
                        doomed_id: c.post_id,
                        ap_object_id: id,
                        at_uri,
                    })
                } else if !a.queued {
                    step == (UpdateStepModel::QueueCleanup {
                        survivor_id: p.post_id,
                        doomed_id: c.post_id,
                    })
                } else {
                    step is Done
                })
            })
        }),
        update_step(activity, None, a) is Done,
{
}

} // verus!
