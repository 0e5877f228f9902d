//! Activities that other servers deliver: which handler takes an activity, and
//! the rules that each handler decides by.

pub mod actor;
pub mod announce;
pub mod block;
pub mod content;
pub mod create;
pub mod create_flow;
pub mod delete;
pub mod emoji;
pub mod flag;
pub mod follow;
pub mod move_actor;
pub mod note_flow;
pub mod note_input;
pub mod note_save;
pub mod poll_vote;
pub mod reaction;
pub mod reference;
pub mod relay;
pub mod undo;
pub mod update;

use crate::json;
use crate::json::{Json, JsonModel};
use crate::text;
use vstd::prelude::*;

verus! {

/// Which handler takes an activity.
#[derive(Debug, Clone, Copy, PartialEq, Eq, Structural)]
pub enum Route {
    Follow,
    Block,
    PollVote,
    CreateNote,
    Accept,
    Reject,
    Undo,
    Delete,
    Update,
    Move,
    Announce,
    Flag,
    Reaction,
    /// The activity is of no kind that is handled.
    Ignore,
}

/// The object of the activity answers a poll: a note with a name that replies to
/// something.
pub open spec fn is_poll_vote(object: JsonModel) -> bool {
    object.text_at("type"@) == Some("Note"@) && object.text_at("name"@) is Some && object.text_at(
        "inReplyTo"@,
    ) is Some
}

/// The object is a note or a poll.
pub open spec fn is_note(object: JsonModel) -> bool {
    object.text_at("type"@) == Some("Note"@) || object.text_at("type"@) == Some("Question"@)
}

/// Which handler takes an activity: by its type, and where it creates something
/// by what it creates.
pub open spec fn route(activity: JsonModel) -> Route {
    let kind = activity.text_at("type"@);
    let object = activity.at("object"@);
    if kind == Some("Follow"@) {
        Route::Follow
    } else if kind == Some("Block"@) {
        Route::Block
    } else if kind == Some("Create"@) {
        if is_poll_vote(object) {
            Route::PollVote
        } else if is_note(object) {
            Route::CreateNote
        } else {
            Route::Ignore
        }
    } else if kind == Some("Accept"@) {
        Route::Accept
    } else if kind == Some("Reject"@) {
        Route::Reject
    } else if kind == Some("Undo"@) {
        Route::Undo
    } else if kind == Some("Delete"@) {
        Route::Delete
    } else if kind == Some("Update"@) {
        Route::Update
    } else if kind == Some("Move"@) {
        Route::Move
    } else if kind == Some("Announce"@) {
        Route::Announce
    } else if kind == Some("Flag"@) {
        Route::Flag
    } else if kind == Some("Like"@) || kind == Some("EmojiReact"@) {
        Route::Reaction
    } else {
        Route::Ignore
    }
}

/// Which handler takes an activity.
pub fn route_activity(activity: &Json) -> (r: Route)
    ensures
        r == route(activity@),
{
    let kind: &str = match activity.text_at("type") {
        Some(t) => t,
        None => {
            return Route::Ignore;
        },
    };
    if text::same_str(kind, "Follow") {
        Route::Follow
    } else if text::same_str(kind, "Block") {
        Route::Block
    } else if text::same_str(kind, "Create") {
        match activity.get("object") {
            Some(object) => {
                if object.text_is("type", "Note") && object.text_at("name").is_some()
                    && object.text_at("inReplyTo").is_some() {
                    Route::PollVote
                } else if object.text_is("type", "Note") || object.text_is("type", "Question") {
                    Route::CreateNote
                } else {
                    Route::Ignore
                }
            },
            None => Route::Ignore,
        }
    } else if text::same_str(kind, "Accept") {
        Route::Accept
    } else if text::same_str(kind, "Reject") {
        Route::Reject
    } else if text::same_str(kind, "Undo") {
        Route::Undo
    } else if text::same_str(kind, "Delete") {
        Route::Delete
    } else if text::same_str(kind, "Update") {
        Route::Update
    } else if text::same_str(kind, "Move") {
        Route::Move
    } else if text::same_str(kind, "Announce") {
        Route::Announce
    } else if text::same_str(kind, "Flag") {
        Route::Flag
    } else if text::same_str(kind, "Like") || text::same_str(kind, "EmojiReact") {
        Route::Reaction
    } else {
        Route::Ignore
    }
}

/// The texts of a list, in order.
pub open spec fn list_texts(vs: Seq<JsonModel>) -> Seq<Seq<char>>
    decreases vs.len(),
{
    if vs.len() == 0 {
        seq![]
    } else {
        match vs.last().as_str() {
            Some(t) => list_texts(vs.drop_last()).push(t),
            None => list_texts(vs.drop_last()),
        }
    }
}

/// The texts that a field holds, be it one text or a list.
pub open spec fn string_list(v: JsonModel) -> Seq<Seq<char>> {
    match v {
        JsonModel::Str(t) => seq![t],
        JsonModel::Arr(vs) => list_texts(vs),
        _ => seq![],
    }
}

/// The texts that a field holds, be it one text or a list.
pub fn as_string_list(v: &Json) -> (r: Vec<String>)
    ensures
        text::string_contents(r@) == string_list(v@),
{
    let mut out: Vec<String> = Vec::new();
    assert(text::string_contents(out@) =~= seq![]);
    match v {
        Json::Str(t) => {
            out.push(t.clone());
            assert(text::string_contents(out@) =~= seq![t@]);
        },
        Json::Arr(list) => {
            proof {
                json::lemma_array_view(*v);
            }
            let ghost vs = json::models(list@);
            let mut i: usize = 0;
            while i < list.len()
                invariant
                    i <= list@.len(),
                    vs == json::models(list@),
                    text::string_contents(out@) == list_texts(vs.take(i as int)),
                decreases list@.len() - i,
            {
                proof {
                    assert(vs.take(i + 1).drop_last() =~= vs.take(i as int));
                    assert(vs.take(i + 1).last() == list@[i as int]@);
                }
                let ghost before = text::string_contents(out@);
                match list[i].as_str() {
                    Some(t) => {
                        out.push(t.to_owned());
                        assert(text::string_contents(out@) =~= before.push(t@));
                    },
                    None => {},
                }
                i += 1;
            }
            assert(vs.take(i as int) =~= vs);
        },
        _ => {},
    }
    out
}

/// The texts that a field of an object holds.
pub fn string_list_at(v: &Json, key: &str) -> (r: Vec<String>)
    ensures
        text::string_contents(r@) == string_list(v@.at(key@)),
{
    match v.get(key) {
        Some(f) => as_string_list(f),
        None => {
            let out: Vec<String> = Vec::new();
            assert(text::string_contents(out@) =~= seq![]);
            out
        },
    }
}

// ---------------------------------------------------------------------------
// Laws.
// ---------------------------------------------------------------------------
/// Each kind of activity has one handler, which takes that kind alone.
pub proof fn law_kind_decides_the_handler(activity: JsonModel)
    ensures
        ({
            let kind = activity.text_at("type"@);
            let object = activity.at("object"@);
            let r = route(activity);
            &&& r == Route::Follow <==> kind == Some("Follow"@)
            &&& r == Route::Block <==> kind == Some("Block"@)
            &&& r == Route::Accept <==> kind == Some("Accept"@)
            &&& r == Route::Reject <==> kind == Some("Reject"@)
            &&& r == Route::Undo <==> kind == Some("Undo"@)
            &&& r == Route::Delete <==> kind == Some("Delete"@)
            &&& r == Route::Update <==> kind == Some("Update"@)
            &&& r == Route::Move <==> kind == Some("Move"@)
            &&& r == Route::Announce <==> kind == Some("Announce"@)
            &&& r == Route::Flag <==> kind == Some("Flag"@)
            &&& r == Route::Reaction <==> kind == Some("Like"@) || kind == Some("EmojiReact"@)
            &&& r == Route::PollVote || r == Route::CreateNote ==> kind == Some("Create"@)
            &&& kind is None ==> r == Route::Ignore
        }),
{
    reveal_strlit("Follow");
    reveal_strlit("Block");
    reveal_strlit("Create");
    reveal_strlit("Accept");
    reveal_strlit("Reject");
    reveal_strlit("Undo");
    reveal_strlit("Delete");
    reveal_strlit("Update");
    reveal_strlit("Move");
    reveal_strlit("Announce");
    reveal_strlit("Flag");
    reveal_strlit("Like");
    reveal_strlit("EmojiReact");
    assert("Follow"@.len() == 6);
    assert("Block"@.len() == 5);
    assert("Create"@.len() == 6);
    assert("Accept"@.len() == 6);
    assert("Reject"@.len() == 6);
    assert("Undo"@.len() == 4);
    assert("Delete"@.len() == 6);
    assert("Update"@.len() == 6);
    assert("Move"@.len() == 4);
    assert("Announce"@.len() == 8);
    assert("Flag"@.len() == 4);
    assert("Like"@.len() == 4);
    assert("EmojiReact"@.len() == 10);
    assert("Follow"@[0] != "Create"@[0]);
    assert("Follow"@[0] != "Accept"@[0]);
    assert("Follow"@[0] != "Reject"@[0]);
    assert("Follow"@[0] != "Delete"@[0]);
    assert("Follow"@[0] != "Update"@[0]);
    assert("Create"@[0] != "Accept"@[0]);
    assert("Create"@[0] != "Reject"@[0]);
    assert("Create"@[0] != "Delete"@[0]);
    assert("Create"@[0] != "Update"@[0]);
    assert("Accept"@[0] != "Reject"@[0]);
    assert("Accept"@[0] != "Delete"@[0]);
    assert("Accept"@[0] != "Update"@[0]);
    assert("Reject"@[0] != "Delete"@[0]);
    assert("Reject"@[0] != "Update"@[0]);
    assert("Undo"@[0] != "Move"@[0]);
    assert("Undo"@[0] != "Flag"@[0]);
    assert("Undo"@[0] != "Like"@[0]);
    assert("Delete"@[0] != "Update"@[0]);
    assert("Move"@[0] != "Flag"@[0]);
    assert("Move"@[0] != "Like"@[0]);
    assert("Flag"@[0] != "Like"@[0]);
}

/// What another server creates is a vote where it answers a post by a name alone, a
/// note where it is a note or a poll, and else nothing.
pub proof fn law_created_object_decides(activity: JsonModel)
    requires
        activity.text_at("type"@) == Some("Create"@),
    ensures
        ({
            let object = activity.at("object"@);
            let kind = object.text_at("type"@);
            let names = object.text_at("name"@) is Some && object.text_at("inReplyTo"@) is Some;
            &&& kind == Some("Note"@) && names ==> route(activity) == Route::PollVote
            &&& kind == Some("Note"@) && !names ==> route(activity) == Route::CreateNote
            &&& kind == Some("Question"@) ==> route(activity) == Route::CreateNote
            &&& kind != Some("Note"@) && kind != Some("Question"@) ==> route(activity)
                == Route::Ignore
        }),
{
    reveal_strlit("Follow");
    reveal_strlit("Block");
    reveal_strlit("Create");
    reveal_strlit("Note");
    reveal_strlit("Question");
    assert("Follow"@.len() == 6);
    assert("Block"@.len() == 5);
    assert("Create"@.len() == 6);
    assert("Note"@.len() == 4);
    assert("Question"@.len() == 8);
    assert("Follow"@[0] != "Create"@[0]);
}

proof fn lemma_list_texts(vs: Seq<JsonModel>)
    ensures
        forall|t: Seq<char>| #[trigger]
            list_texts(vs).contains(t) <==> vs.contains(JsonModel::Str(t)),
        (forall|i: int| 0 <= i < vs.len() ==> #[trigger] vs[i] is Str) ==> list_texts(vs).len()
            == vs.len() && forall|i: int|
            0 <= i < vs.len() ==> JsonModel::Str(#[trigger] list_texts(vs)[i]) == vs[i],
    decreases vs.len(),
{
    if vs.len() > 0 {
        let front = vs.drop_last();
        lemma_list_texts(front);
        let all = list_texts(vs);
        let old_all = list_texts(front);
        assert forall|t: Seq<char>| #[trigger] all.contains(t) <==> vs.contains(
            JsonModel::Str(t),
        ) by {
            if all.contains(t) {
                let k: int = choose|k: int| 0 <= k < all.len() && all[k] == t;
                if k < old_all.len() {
                    assert(old_all[k] == t);
                    assert(old_all.contains(t));
                    let j: int = choose|j: int|
                        0 <= j < front.len() && front[j] == JsonModel::Str(t);
                    assert(vs[j] == JsonModel::Str(t));
                } else {
                    assert(vs[vs.len() - 1] == JsonModel::Str(t));
                }
            }
            if vs.contains(JsonModel::Str(t)) {
                let j: int = choose|j: int| 0 <= j < vs.len() && vs[j] == JsonModel::Str(t);
                if j < front.len() {
                    assert(front[j] == JsonModel::Str(t));
                    assert(old_all.contains(t));
                    let k: int = choose|k: int| 0 <= k < old_all.len() && old_all[k] == t;
                    assert(all[k] == t);
                } else {
                    assert(all[all.len() - 1] == t);
                }
            }
        }
        if forall|i: int| 0 <= i < vs.len() ==> #[trigger] vs[i] is Str {
            assert forall|i: int| 0 <= i < front.len() implies #[trigger] front[i] is Str by {
                assert(vs[i] is Str);
            }
            assert(vs[vs.len() - 1] is Str);
            assert forall|i: int| 0 <= i < vs.len() implies JsonModel::Str(#[trigger] all[i])
                == vs[i] by {
                if i < front.len() {
                    assert(all[i] == old_all[i]);
                    assert(front[i] == vs[i]);
                }
            }
        }
    }
}

/// A list of addressees is read whether it is a single text or an array: no text is
/// lost, nothing is made up, and the texts of an array keep their order.
pub proof fn law_addressees_are_read(v: JsonModel, t: Seq<char>)
    ensures
        v matches JsonModel::Str(one) ==> string_list(v) == seq![one],
        v matches JsonModel::Arr(vs) ==> (string_list(v).contains(t) <==> vs.contains(
            JsonModel::Str(t),
        )),
        v matches JsonModel::Arr(vs) ==> ((forall|i: int|
            0 <= i < vs.len() ==> #[trigger] vs[i] is Str) ==> string_list(v).len() == vs.len()
            && forall|i: int|
            0 <= i < vs.len() ==> JsonModel::Str(#[trigger] string_list(v)[i]) == vs[i]),
        !(v is Str) && !(v is Arr) ==> string_list(v).len() == 0,
{
    if let JsonModel::Arr(vs) = v {
        lemma_list_texts(vs);
    }
}

} // verus!
