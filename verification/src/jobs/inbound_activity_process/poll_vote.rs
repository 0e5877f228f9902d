//! Votes of remote actors in local polls.

use crate::decimal;
use crate::jobs::inbound_activity_process::actor::RemoteActorInfo;
use crate::json;
use crate::json::{Json, JsonModel};
use crate::text;
use vstd::prelude::*;

verus! {

/// A vote.
pub struct PollVote {
    pub actor_uri: String,
    pub question_id: String,
    pub option_name: String,
    pub activity_id: Option<String>,
}

/// What a vote stands for.
pub struct PollVoteModel {
    pub actor_uri: Seq<char>,
    pub question_id: Seq<char>,
    pub option_name: Seq<char>,
    pub activity_id: Option<Seq<char>>,
}

impl View for PollVote {
    type V = PollVoteModel;

    open spec fn view(&self) -> PollVoteModel {
        PollVoteModel {
            actor_uri: self.actor_uri@,
            question_id: self.question_id@,
            option_name: self.option_name@,
            activity_id: text::string_view(self.activity_id),
        }
    }
}

/// The vote that an activity casts, or why it casts none. The vote goes by the
/// identifier of the activity, else by that of its object.
pub open spec fn poll_vote(activity: JsonModel) -> Result<PollVoteModel, Seq<char>> {
    let object = activity.at("object"@);
    match (activity.text_at("actor"@), object.text_at("inReplyTo"@), object.text_at("name"@)) {
        (None, _, _) => Err("PollVote: actor がありません"@),
        (_, None, _) => Err("PollVote: inReplyTo がありません"@),
        (_, _, None) => Err("PollVote: name がありません"@),
        (Some(actor_uri), Some(question_id), Some(option_name)) => Ok(
            PollVoteModel {
                actor_uri,
                question_id,
                option_name,
                activity_id: if activity.text_at("id"@) is Some {
                    activity.text_at("id"@)
                } else {
                    object.text_at("id"@)
                },
            },
        ),
    }
}

/// The vote that an activity casts.
pub fn read_poll_vote(activity: &Json) -> (r: Result<PollVote, String>)
    ensures
        (match r {
            Ok(q) => Ok(q@),
            Err(e) => Err(e@),
        }) == poll_vote(activity@),
{
    let actor: &str = match activity.text_at("actor") {
        Some(t) => t,
        None => {
            return Err("PollVote: actor がありません".to_owned());
        },
    };
    let object: &Json = match activity.get("object") {
        Some(o) => o,
        None => {
            return Err("PollVote: inReplyTo がありません".to_owned());
        },
    };
    let question: &str = match object.text_at("inReplyTo") {
        Some(t) => t,
        None => {
            return Err("PollVote: inReplyTo がありません".to_owned());
        },
    };
    let name: &str = match object.text_at("name") {
        Some(t) => t,
        None => {
            return Err("PollVote: name がありません".to_owned());
        },
    };
    let id: Option<&str> = match activity.text_at("id") {
        Some(t) => Some(t),
        None => object.text_at("id"),
    };
    Ok(
        PollVote {
            actor_uri: actor.to_owned(),
            question_id: question.to_owned(),
            option_name: name.to_owned(),
            activity_id: match id {
                Some(t) => Some(t.to_owned()),
                None => None,
            },
        },
    )
}

/// The first option from index `i` on that has the name.
pub open spec fn option_from(options: Seq<JsonModel>, name: Seq<char>, i: int) -> Option<int>
    decreases options.len() - i,
{
    if i < 0 || i >= options.len() {
        None
    } else if options[i].text_at("name"@) == Some(name) {
        Some(i)
    } else {
        option_from(options, name, i + 1)
    }
}

/// The option of a poll that has the name.
pub open spec fn option_index(poll: JsonModel, name: Seq<char>) -> Option<int> {
    option_from(poll.at("options"@).items(), name, 0)
}

/// The option of a poll that has the name.
pub fn find_option(poll: &Json, name: &str) -> (r: Option<usize>)
    ensures
        (match r {
            Some(i) => Some(i as int),
            None => None,
        }) == option_index(poll@, name@),
{
    let options: &Vec<Json> = match poll.arr_at("options") {
        Some(v) => v,
        None => {
            return None;
        },
    };
    let ghost all = poll@.at("options"@).items();
    let mut i: usize = 0;
    while i < options.len()
        invariant
            i <= options@.len(),
            all == json::models(options@),
            all == poll@.at("options"@).items(),
            option_from(all, name@, 0) == option_from(all, name@, i as int),
        decreases options@.len() - i,
    {
        assert(all[i as int] == options@[i as int]@);
        if options[i].text_is("name", name) {
            return Some(i);
        }
        i += 1;
    }
    None
}

/// The votes that an option has.
pub open spec fn votes_of(option: JsonModel) -> int {
    match option.at("votes"@).as_int() {
        Some(n) => n,
        None => 0,
    }
}

/// The option with one vote more.
pub open spec fn with_vote(option: JsonModel) -> JsonModel {
    match option {
        JsonModel::Obj(ms) => JsonModel::Obj(
            json::with_member(ms, "votes"@, JsonModel::Int(votes_of(option) + 1)),
        ),
        _ => option,
    }
}

/// The poll with one vote more for the option at `index`, and otherwise as it
/// was.
pub open spec fn poll_with_vote(poll: JsonModel, index: int) -> JsonModel {
    let options = poll.at("options"@).items();
    match poll {
        JsonModel::Obj(ms) if 0 <= index < options.len() => JsonModel::Obj(
            json::with_member(
                ms,
                "options"@,
                JsonModel::Arr(options.update(index, with_vote(options[index]))),
            ),
        ),
        _ => poll,
    }
}

/// Gives an option one vote more.
fn add_vote(option: &Json) -> (r: Json)
    requires
        votes_of(option@) < i64::MAX,
    ensures
        r@ == with_vote(option@),
{
    let votes: i64 = match option.int_at("votes") {
        Some(n) => n,
        None => 0,
    };
    let copy: Json = option.duplicate();
    match copy {
        Json::Obj(ms) => {
            let mut changed: Vec<json::Member> = ms;
            proof {
                json::lemma_object_view(copy);
            }
            json::put_member(&mut changed, "votes", Json::Int(votes + 1));
            json::object(changed)
        },
        other => other,
    }
}

/// The poll with one vote more for the option at `index`.
pub fn count_vote(poll: &Json, index: usize) -> (r: Json)
    requires
        index < poll@.at("options"@).items().len() ==> votes_of(
            poll@.at("options"@).items()[index as int],
        ) < i64::MAX,
    ensures
        r@ == poll_with_vote(poll@, index as int),
{
    let options: &Vec<Json> = match poll.arr_at("options") {
        Some(v) => v,
        None => {
            return poll.duplicate();
        },
    };
    let ghost all = poll@.at("options"@).items();
    assert(all == json::models(options@));
    if index >= options.len() {
        return poll.duplicate();
    }
    assert(all[index as int] == options@[index as int]@);
    let mut changed: Vec<Json> = Vec::new();
    let mut i: usize = 0;
    let ghost wanted = all.update(index as int, with_vote(all[index as int]));
    while i < options.len()
        invariant
            i <= options@.len(),
            index < options@.len(),
            all == json::models(options@),
            votes_of(all[index as int]) < i64::MAX,
            wanted == all.update(index as int, with_vote(all[index as int])),
            json::models(changed@) == wanted.take(i as int),
        decreases options@.len() - i,
    {
        assert(all[i as int] == options@[i as int]@);
        let ghost before = json::models(changed@);
        let next: Json = if i == index {
            add_vote(&options[i])
        } else {
            options[i].duplicate()
        };
        changed.push(next);
        assert(json::models(changed@) =~= before.push(next@));
        assert(wanted.take(i + 1) =~= wanted.take(i as int).push(wanted[i as int]));
        i += 1;
    }
    assert(json::models(changed@) =~= wanted);
    let copy: Json = poll.duplicate();
    match copy {
        Json::Obj(ms) => {
            let mut members: Vec<json::Member> = ms;
            proof {
                json::lemma_object_view(copy);
            }
            json::put_member(&mut members, "options", json::array(changed));
            json::object(members)
        },
        other => other,
    }
}

/// The event that tells the author of a poll of a vote.
pub open spec fn vote_event(post_id: i64, actor_id: i64) -> JsonModel {
    JsonModel::Obj(
        seq![
            json::member_of("postId"@, JsonModel::Str(decimal::int_text(post_id as int))),
            json::member_of("actorId"@, JsonModel::Str(decimal::int_text(actor_id as int))),
        ],
    )
}

/// The event that tells the author of a poll of a vote; none where the author
/// votes.
pub fn make_vote_event(post_id: i64, author_id: i64, actor_id: i64) -> (r: Option<Json>)
    ensures
        json::opt_model(r) == (if author_id == actor_id {
            None
        } else {
            Some(vote_event(post_id, actor_id))
        }),
{
    if author_id == actor_id {
        return None;
    }
    let post: String = decimal::format_i64(post_id);
    let actor: String = decimal::format_i64(actor_id);
    let ms: Vec<json::Member> = vec![
        json::member("postId", json::text_json(post.as_str())),
        json::member("actorId", json::text_json(actor.as_str())),
    ];
    assert(json::member_models(ms@) =~= vote_event(post_id, actor_id)->Obj_0);
    Some(json::object(ms))
}

// ---------------------------------------------------------------------------
// The order in which a vote is handled.
// ---------------------------------------------------------------------------
/// The answers that there are about a vote.
pub struct VoteAnswers {
    /// The post of the poll, and its author.
    pub found: Option<Option<(i64, i64)>>,
    /// The actor who votes.
    pub actor: Option<RemoteActorInfo>,
    /// The poll, where the post has one.
    pub poll: Option<Option<Json>>,
    /// How many votes were put in.
    pub inserted_rows: Option<u64>,
    /// The result went on record.
    pub counted: bool,
    /// The result was shown anew.
    pub shown: bool,
    /// The author was told.
    pub told: bool,
}

/// What is done next about a vote.
pub enum VoteStep {
    Refuse(String),
    Done,
    /// Asks for the post of the given identifier, and its author.
    FindPost(String),
    /// Asks for the actor of the given address, who is put in where they are new.
    UpsertActor(String),
    /// Asks for the poll of a post.
    FindPoll(i64),
    /// The vote is put in, where the actor has not voted so before.
    Insert { post_id: i64, actor_id: i64, option_index: usize, activity_id: Option<String> },
    /// The result goes on record.
    Count { post_id: i64, poll: Json },
    /// The result is shown anew.
    Show { post_id: i64, author_id: i64, poll: Json },
    /// The author is told.
    Tell { author_id: i64, event: Json },
}

/// What a step stands for.
pub enum VoteStepModel {
    Refuse(Seq<char>),
    Done,
    FindPost(Seq<char>),
    UpsertActor(Seq<char>),
    FindPoll(i64),
    Insert { post_id: i64, actor_id: i64, option_index: int, activity_id: Option<Seq<char>> },
    Count { post_id: i64, poll: JsonModel },
    Show { post_id: i64, author_id: i64, poll: JsonModel },
    Tell { author_id: i64, event: JsonModel },
}

impl View for VoteStep {
    type V = VoteStepModel;

    open spec fn view(&self) -> VoteStepModel {
        match self {
            VoteStep::Refuse(e) => VoteStepModel::Refuse(e@),
            VoteStep::Done => VoteStepModel::Done,
            VoteStep::FindPost(u) => VoteStepModel::FindPost(u@),
            VoteStep::UpsertActor(u) => VoteStepModel::UpsertActor(u@),
            VoteStep::FindPoll(id) => VoteStepModel::FindPoll(*id),
            VoteStep::Insert { post_id, actor_id, option_index, activity_id } => VoteStepModel::Insert {
                post_id: *post_id,
                actor_id: *actor_id,
                option_index: *option_index as int,
                activity_id: text::string_view(*activity_id),
            },
            VoteStep::Count { post_id, poll } => VoteStepModel::Count {
                post_id: *post_id,
                poll: poll@,
            },
            VoteStep::Show { post_id, author_id, poll } => VoteStepModel::Show {
                post_id: *post_id,
                author_id: *author_id,
                poll: poll@,
            },
            VoteStep::Tell { author_id, event } => VoteStepModel::Tell {
                author_id: *author_id,
                event: event@,
            },
        }
    }
}

/// The option that the activity votes for does not have so many votes that
/// another one does not fit.
pub open spec fn has_room(activity: JsonModel, poll: JsonModel) -> bool {
    match poll_vote(activity) {
        Ok(q) => match option_index(poll, q.option_name) {
            Some(k) => votes_of(poll.at("options"@).items()[k]) < i64::MAX,
            None => true,
        },
        Err(_) => true,
    }
}

/// Whether the option that the activity votes for can take another vote.
pub fn can_count(activity: &Json, poll: &Json) -> (r: bool)
    ensures
        r == has_room(activity@, poll@),
{
    let q: PollVote = match read_poll_vote(activity) {
        Ok(q) => q,
        Err(_) => {
            return true;
        },
    };
    let k: usize = match find_option(poll, q.option_name.as_str()) {
        Some(k) => k,
        None => {
            return true;
        },
    };
    proof {
        lemma_option_from(poll@.at("options"@).items(), q.option_name@, 0);
    }
    match poll.arr_at("options") {
        Some(options) => {
            assert(json::models(options@)[k as int] == options@[k as int]@);
            match options[k].int_at("votes") {
                Some(n) => n < i64::MAX,
                None => true,
            }
        },
        None => true,
    }
}

/// The steps once the vote was put in or not: one that was put in is counted and
/// the result shown; the author is told either way.
pub open spec fn cast_step(
    post_id: i64,
    author_id: i64,
    actor_id: i64,
    poll: JsonModel,
    index: int,
    rows: u64,
    a: VoteAnswers,
) -> VoteStepModel {
    if rows > 0 && !a.counted {
        VoteStepModel::Count { post_id, poll: poll_with_vote(poll, index) }
    } else if rows > 0 && !a.shown {
        VoteStepModel::Show { post_id, author_id, poll: poll_with_vote(poll, index) }
    } else if author_id != actor_id && !a.told {
        VoteStepModel::Tell { author_id, event: vote_event(post_id, actor_id) }
    } else {
        VoteStepModel::Done
    }
}

/// The steps once the post and the actor are known. A poll that is not there, or
/// has no option of the name, takes no vote.
pub open spec fn known_vote_step(
    q: PollVoteModel,
    post_id: i64,
    author_id: i64,
    actor_id: i64,
    a: VoteAnswers,
) -> VoteStepModel {
    match a.poll {
        None => VoteStepModel::FindPoll(post_id),
        Some(None) => VoteStepModel::Done,
        Some(Some(poll)) => match (option_index(poll@, q.option_name), a.inserted_rows) {
            (None, _) => VoteStepModel::Done,
            (Some(index), None) => VoteStepModel::Insert {
                post_id,
                actor_id,
                option_index: index,
                activity_id: q.activity_id,
            },
            (Some(index), Some(rows)) => cast_step(
                post_id,
                author_id,
                actor_id,
                poll@,
                index,
                rows,
                a,
            ),
        },
    }
}

/// What is done next about a vote, from the answers that there are.
pub open spec fn vote_step(activity: JsonModel, a: VoteAnswers) -> VoteStepModel {
    match poll_vote(activity) {
        Err(e) => VoteStepModel::Refuse(e),
        Ok(q) => match (a.found, a.actor) {
            (None, _) => VoteStepModel::FindPost(q.question_id),
            (Some(None), _) => VoteStepModel::Done,
            (_, None) => VoteStepModel::UpsertActor(q.actor_uri),
            (Some(Some(p)), Some(actor)) => known_vote_step(q, p.0, p.1, actor.actor_id, a),
        },
    }
}

/// What is done next about a vote, from the answers that there are.
pub fn next_vote_step(activity: &Json, a: &VoteAnswers) -> (r: VoteStep)
    requires
        a.poll matches Some(Some(p)) ==> (a.inserted_rows matches Some(n) ==> (n > 0 ==> has_room(
            activity@,
            p@,
        ))),
    ensures
        r@ == vote_step(activity@, *a),
{
    let q: PollVote = match read_poll_vote(activity) {
        Ok(q) => q,
        Err(e) => {
            return VoteStep::Refuse(e);
        },
    };
    let (post_id, author_id): (i64, i64) = match a.found {
        None => {
            return VoteStep::FindPost(q.question_id);
        },
        Some(None) => {
            return VoteStep::Done;
        },
        Some(Some(p)) => p,
    };
    let actor_id: i64 = match &a.actor {
        Some(x) => x.actor_id,
        None => {
            return VoteStep::UpsertActor(q.actor_uri);
        },
    };
    let poll: &Json = match &a.poll {
        None => {
            return VoteStep::FindPoll(post_id);
        },
        Some(None) => {
            return VoteStep::Done;
        },
        Some(Some(p)) => p,
    };
    let index: usize = match find_option(poll, q.option_name.as_str()) {
        Some(i) => i,
        None => {
            return VoteStep::Done;
        },
    };
    let rows: u64 = match a.inserted_rows {
        Some(n) => n,
        None => {
            return VoteStep::Insert {
                post_id,
                actor_id,
                option_index: index,
                activity_id: q.activity_id,
            };
        },
    };
    if rows > 0 && !a.counted {
        return VoteStep::Count { post_id, poll: count_vote(poll, index) };
    }
    if rows > 0 && !a.shown {
        return VoteStep::Show { post_id, author_id, poll: count_vote(poll, index) };
    }
    match make_vote_event(post_id, author_id, actor_id) {
        Some(event) => {
            if a.told {
                VoteStep::Done
            } else {
                VoteStep::Tell { author_id, event }
            }
        },
        None => VoteStep::Done,
    }
}

// ---------------------------------------------------------------------------
// Laws.
// ---------------------------------------------------------------------------
proof fn lemma_option_from(options: Seq<JsonModel>, name: Seq<char>, i: int)
    requires
        0 <= i <= options.len(),
    ensures
        option_from(options, name, i) matches Some(k) ==> i <= k < options.len()
            && options[k].text_at("name"@) == Some(name),
    decreases options.len() - i,
{
    if i < options.len() && options[i].text_at("name"@) != Some(name) {
        lemma_option_from(options, name, i + 1);
    }
}

/// A vote for a name adds one to the votes of the option with that name, and
/// changes no other option.
pub proof fn law_vote_counts_for_its_option(poll: JsonModel, name: Seq<char>)
    requires
        option_index(poll, name) is Some,
    ensures
        ({
            let k = option_index(poll, name)->0;
            let before = poll.at("options"@).items();
            let after = poll_with_vote(poll, k).at("options"@).items();
            &&& after.len() == before.len()
            &&& before[k].text_at("name"@) == Some(name)
            &&& votes_of(after[k]) == votes_of(before[k]) + 1
            &&& forall|j: int| 0 <= j < before.len() && j != k ==> after[j] == before[j]
        }),
{
    let k = option_index(poll, name)->0;
    let before = poll.at("options"@).items();
    lemma_option_from(before, name, 0);
    let ms = poll->Obj_0;
    let changed = before.update(k, with_vote(before[k]));
    json::law_put_is_read(ms, "options"@, JsonModel::Arr(changed), "options"@);
    json::law_put_is_read(
        before[k]->Obj_0,
        "votes"@,
        JsonModel::Int(votes_of(before[k]) + 1),
        "votes"@,
    );
}

/// A vote that was cast before is not counted again, and the result is not shown
/// anew.
pub proof fn law_vote_counts_once(activity: JsonModel, a: VoteAnswers)
    requires
        a.inserted_rows == Some(0u64),
    ensures
        !(vote_step(activity, a) is Count),
        !(vote_step(activity, a) is Show),
{
}

/// The author of a poll is not told of their own vote.
pub proof fn law_own_vote_is_not_told(activity: JsonModel, a: VoteAnswers)
    ensures
        a.found matches Some(Some(p)) ==> (a.actor matches Some(x) ==> (p.1 == x.actor_id
            ==> !(vote_step(activity, a) is Tell))),
{
}

/// A vote is read as what it says: who votes, in which poll and for which option.
/// Its identifier is that of the activity, else that of the note that carries it.
pub proof fn law_vote_is_read(
    activity: JsonModel,
    actor: Seq<char>,
    question: Seq<char>,
    name: Seq<char>,
)
    ensures
        activity.text_at("actor"@) == Some(actor) && activity.at("object"@).text_at("inReplyTo"@)
            == Some(question) && activity.at("object"@).text_at("name"@) == Some(name) ==> {
            &&& poll_vote(activity) is Ok
            &&& poll_vote(activity)->Ok_0.actor_uri == actor
            &&& poll_vote(activity)->Ok_0.question_id == question
            &&& poll_vote(activity)->Ok_0.option_name == name
            &&& activity.text_at("id"@) is Some ==> poll_vote(activity)->Ok_0.activity_id
                == activity.text_at("id"@)
            &&& activity.text_at("id"@) is None ==> poll_vote(activity)->Ok_0.activity_id
                == activity.at("object"@).text_at("id"@)
        },
        poll_vote(activity) is Ok <==> activity.text_at("actor"@) is Some && activity.at(
            "object"@,
        ).text_at("inReplyTo"@) is Some && activity.at("object"@).text_at("name"@) is Some,
{
}

proof fn lemma_first_option(options: Seq<JsonModel>, name: Seq<char>, i: int)
    requires
        0 <= i,
    ensures
        option_from(options, name, i) matches Some(k) ==> i <= k < options.len()
            && options[k].text_at("name"@) == Some(name) && forall|j: int|
            i <= j < k ==> (#[trigger] options[j]).text_at("name"@) != Some(name),
        option_from(options, name, i) is None ==> forall|j: int|
            i <= j < options.len() ==> (#[trigger] options[j]).text_at("name"@) != Some(name),
    decreases options.len() - i,
{
    if i < options.len() && options[i].text_at("name"@) != Some(name) {
        lemma_first_option(options, name, i + 1);
    }
}

/// The option that a vote is for is the first of its name; a vote for a name that is
/// not offered is for none.
pub proof fn law_option_is_found_by_name(poll: JsonModel, name: Seq<char>, k: int)
    ensures
        option_index(poll, name) == Some(k) <==> 0 <= k < poll.at("options"@).items().len()
            && poll.at("options"@).items()[k].text_at("name"@) == Some(name) && forall|j: int|
            0 <= j < k ==> (#[trigger] poll.at("options"@).items()[j]).text_at("name"@) != Some(
                name,
            ),
{
    let options = poll.at("options"@).items();
    lemma_first_option(options, name, 0);
    if option_index(poll, name) is Some {
        let f = option_index(poll, name)->0;
        if 0 <= k < options.len() && options[k].text_at("name"@) == Some(name) && (forall|j: int|
            0 <= j < k ==> (#[trigger] options[j]).text_at("name"@) != Some(name)) {
            assert(options[f].text_at("name"@) == Some(name));
            assert(options[k].text_at("name"@) == Some(name));
        }
    }
}

/// The event of a vote names the poll and the voter.
pub proof fn law_event_tells_of_the_vote(post_id: i64, actor_id: i64)
    ensures
        ({
            let e = vote_event(post_id, actor_id);
            &&& e.text_at("postId"@) is Some
            &&& decimal::denoted_i64(e.text_at("postId"@)->0) == Some(post_id)
            &&& e.text_at("actorId"@) is Some
            &&& decimal::denoted_i64(e.text_at("actorId"@)->0) == Some(actor_id)
        }),
{
    reveal_strlit("postId");
    reveal_strlit("actorId");
    assert("postId"@.len() == 6);
    assert("actorId"@.len() == 7);
    decimal::law_notation_denotes(post_id as int);
    decimal::law_notation_denotes(actor_id as int);
    reveal_with_fuel(json::first_member, 3);
}

/// A vote goes through in order: it is put in for its option, the count goes on
/// record, the result is shown, and the author is told where they did not vote
/// themselves.
pub proof fn law_vote_goes_through(
    activity: JsonModel,
    actor: Seq<char>,
    question: Seq<char>,
    name: Seq<char>,
    a: VoteAnswers,
    post_id: i64,
    author_id: i64,
    voter: RemoteActorInfo,
    poll: Json,
    k: int,
)
    requires
        activity.text_at("actor"@) == Some(actor),
        activity.at("object"@).text_at("inReplyTo"@) == Some(question),
        activity.at("object"@).text_at("name"@) == Some(name),
    ensures
        ({
            let step = vote_step(activity, a);
            &&& a.found is None ==> step == VoteStepModel::FindPost(question)
            &&& a.found == Some(Some((post_id, author_id))) && a.actor is None ==> step
                == VoteStepModel::UpsertActor(actor)
            &&& a.found == Some(Some((post_id, author_id))) && a.actor == Some(voter) ==> {
                &&& a.poll is None ==> step == VoteStepModel::FindPoll(post_id)
                &&& a.poll == Some(None::<Json>) ==> step is Done
                &&& a.poll == Some(Some(poll)) && option_index(poll@, name) is None ==> step
                    is Done
                &&& a.poll == Some(Some(poll)) && option_index(poll@, name) == Some(k) ==> (
                match a.inserted_rows {
                    None => {
                        &&& step matches VoteStepModel::Insert {
                            post_id: p,
                            actor_id,
                            option_index,
                            activity_id,
                        }
                        &&& p == post_id
                        &&& actor_id == voter.actor_id
                        &&& option_index == k
                        &&& activity_id == poll_vote(activity)->Ok_0.activity_id
                    },
                    Some(rows) => if rows > 0 && !a.counted {
                        step == (VoteStepModel::Count {
                            post_id,
                            poll: poll_with_vote(poll@, k),
                        })
                    } else if rows > 0 && !a.shown {
                        step == (VoteStepModel::Show {
                            post_id,
                            author_id,
                            poll: poll_with_vote(poll@, k),
                        })
                    } else if a.told || author_id == voter.actor_id {
                        step is Done
                    } else {
                        step == (VoteStepModel::Tell {
                            author_id,
                            event: vote_event(post_id, voter.actor_id),
                        })
                    },
                })
            }
        }),
{
}

/// A poll that counts a vote keeps everything but its options, and the option keeps
/// everything but its votes.
pub proof fn law_counted_poll_keeps_the_rest(poll: JsonModel, k: int, key: Seq<char>)
    requires
        poll is Obj,
        0 <= k < poll.at("options"@).items().len(),
        poll.at("options"@).items()[k] is Obj,
    ensures
        key != "options"@ ==> poll_with_vote(poll, k).at(key) == poll.at(key),
        key != "votes"@ ==> poll_with_vote(poll, k).at("options"@).items()[k].at(key) == poll.at(
            "options"@,
        ).items()[k].at(key),
{
    let options = poll.at("options"@).items();
    let o = options[k];
    let after = options.update(k, with_vote(o));
    json::law_put_is_read(poll->Obj_0, "options"@, JsonModel::Arr(after), key);
    json::law_put_is_read(o->Obj_0, "votes"@, JsonModel::Int(votes_of(o) + 1), key);
}

/// A vote that cannot be read is refused with what it lacks: its actor first, then the
/// poll, then the option.
pub proof fn law_refusal_names_what_is_missing(activity: JsonModel)
    ensures
        ({
            let actor = activity.text_at("actor"@);
            let poll = activity.at("object"@).text_at("inReplyTo"@);
            let name = activity.at("object"@).text_at("name"@);
            let r = poll_vote(activity);
            &&& actor is None ==> r == Err::<PollVoteModel, Seq<char>>(
                "PollVote: actor がありません"@,
            )
            &&& actor is Some && poll is None ==> r == Err::<PollVoteModel, Seq<char>>(
                "PollVote: inReplyTo がありません"@,
            )
            &&& actor is Some && poll is Some && name is None ==> r == Err::<
                PollVoteModel,
                Seq<char>,
            >("PollVote: name がありません"@)
        }),
{
}

} // verus!
