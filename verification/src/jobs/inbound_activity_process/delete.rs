//! Deletion of remote posts.

use crate::json::{Json, JsonModel};
use crate::text;
use vstd::prelude::*;

verus! {

/// What an activity deletes: the text `object`, or the `id` of an object.
pub open spec fn deleted_object(activity: JsonModel) -> Option<Seq<char>> {
    match activity.at("object"@) {
        JsonModel::Str(t) => Some(t),
        JsonModel::Obj(_) => activity.at("object"@).text_at("id"@),
        _ => None,
    }
}

/// What an activity deletes.
pub fn read_delete(activity: &Json) -> (r: Option<String>)
    ensures
        text::string_view(r) == deleted_object(activity@),
{
    match activity.get("object") {
        Some(o) => match o {
            Json::Str(t) => Some(t.clone()),
            Json::Obj(_) => match o.text_at("id") {
                Some(t) => Some(t.to_owned()),
                None => None,
            },
            _ => None,
        },
        None => None,
    }
}

/// An activity about a post counts only where it comes from the post's author.
pub open spec fn comes_from_author(sender: Option<i64>, author_id: i64) -> bool {
    sender == Some(author_id)
}

/// Whether an activity about a post comes from the post's author. `sender` is
/// the actor that was found under the address of the activity's actor.
pub fn is_from_author(sender: Option<i64>, author_id: i64) -> (r: bool)
    ensures
        r == comes_from_author(sender, author_id),
{
    match sender {
        Some(id) => id == author_id,
        None => false,
    }
}

/// The post that is deleted: the one that was found, where the activity comes
/// from its author.
pub fn decide_delete(found: Option<(i64, i64)>, sender: Option<i64>) -> (r: Option<i64>)
    ensures
        r == (match found {
            Some(p) if comes_from_author(sender, p.1) => Some(p.0),
            _ => None,
        }),
{
    match found {
        Some((post_id, author_id)) => {
            if is_from_author(sender, author_id) {
                Some(post_id)
            } else {
                None
            }
        },
        None => None,
    }
}

// ---------------------------------------------------------------------------
// Laws.
// ---------------------------------------------------------------------------

/// What is deleted is named by its address, or by the identifier of the object that
/// stands for it.
pub proof fn law_deleted_object_is_named_either_way(activity: JsonModel, uri: Seq<char>)
    ensures
        activity.at("object"@) == JsonModel::Str(uri) ==> deleted_object(activity) == Some(uri),
        activity.at("object"@).text_at("id"@) == Some(uri) ==> deleted_object(activity) == Some(
            uri,
        ),
        deleted_object(activity) is Some <==> activity.at("object"@).as_str() is Some
            || activity.at("object"@).text_at("id"@) is Some,
{
}

/// A post is deleted by its author and by nobody else: a sender who is not known is
/// not the author.
pub proof fn law_only_the_author_deletes(sender: i64, author_id: i64)
    ensures
        comes_from_author(Some(sender), author_id) <==> sender == author_id,
        !comes_from_author(None, author_id),
{
}

} // verus!
