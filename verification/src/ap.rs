//! Addresses of this server's own actors, and the activities by which they
//! follow others.

use crate::json;
use crate::json::{Json, JsonModel};
use crate::text;
use vstd::prelude::*;

verus! {

/// What the addresses of this server's actors start with.
pub open spec fn local_users_prefix(local_domain: Seq<char>) -> Seq<char> {
    "https://"@ + local_domain + "/users/"@
}

/// The address of the actor of a local user.
pub open spec fn local_actor_uri(local_domain: Seq<char>, username: Seq<char>) -> Seq<char> {
    local_users_prefix(local_domain) + username
}

/// The key with which an actor signs.
pub open spec fn main_key_id(actor_uri: Seq<char>) -> Seq<char> {
    actor_uri + "#main-key"@
}

/// The local user whose actor is at the address; nothing where the address is
/// another server's.
pub open spec fn local_username(uri: Seq<char>, local_domain: Seq<char>) -> Option<Seq<char>> {
    text::strip_prefix(uri, local_users_prefix(local_domain))
}

/// The part of `uri` behind `prefix`, where it starts with it.
pub fn strip_prefix_str<'a>(uri: &'a str, prefix: &str) -> (r: Option<&'a str>)
    ensures
        text::str_view(r) == text::strip_prefix(uri@, prefix@),
{
    let chars: Vec<char> = text::chars_of(uri);
    if !text::has_prefix(chars.as_slice(), prefix) {
        return None;
    }
    let n: usize = text::chars_of(prefix).len();
    Some(uri.substring_char(n, chars.len()))
}

/// The local user whose actor is at the address.
pub fn extract_local_username<'a>(uri: &'a str, local_domain: &str) -> (r: Option<&'a str>)
    ensures
        text::str_view(r) == local_username(uri@, local_domain@),
{
    let prefix: String = text::cat3("https://", local_domain, "/users/");
    strip_prefix_str(uri, prefix.as_str())
}

/// The address of the actor of a local user.
pub fn local_actor_uri_of(local_domain: &str, username: &str) -> (r: String)
    ensures
        r@ == local_actor_uri(local_domain@, username@),
{
    text::cat4("https://", local_domain, "/users/", username)
}

/// The key with which an actor signs.
pub fn main_key_id_of(actor_uri: &str) -> (r: String)
    ensures
        r@ == main_key_id(actor_uri@),
{
    text::cat(actor_uri, "#main-key")
}

/// A request to follow.
pub open spec fn follow_activity(id: Seq<char>, actor: Seq<char>, object: Seq<char>) -> JsonModel {
    JsonModel::Obj(
        seq![
            json::member_of("@context"@, JsonModel::Str("https://www.w3.org/ns/activitystreams"@)),
            json::member_of("type"@, JsonModel::Str("Follow"@)),
            json::member_of("id"@, JsonModel::Str(id)),
            json::member_of("actor"@, JsonModel::Str(actor)),
            json::member_of("object"@, JsonModel::Str(object)),
        ],
    )
}

/// A request to follow.
pub fn make_follow_activity(id: &str, actor: &str, object: &str) -> (r: Json)
    ensures
        r@ == follow_activity(id@, actor@, object@),
{
    let ms: Vec<json::Member> = vec![
        json::member("@context", json::text_json("https://www.w3.org/ns/activitystreams")),
        json::member("type", json::text_json("Follow")),
        json::member("id", json::text_json(id)),
        json::member("actor", json::text_json(actor)),
        json::member("object", json::text_json(object)),
    ];
    assert(json::member_models(ms@) =~= follow_activity(id@, actor@, object@)->Obj_0);
    json::object(ms)
}

/// The request that is taken back, as it stands in the activity that does so.
pub open spec fn followed_object(id: Seq<char>, actor: Seq<char>, object: Seq<char>) -> JsonModel {
    JsonModel::Obj(
        seq![
            json::member_of("type"@, JsonModel::Str("Follow"@)),
            json::member_of("id"@, JsonModel::Str(id)),
            json::member_of("actor"@, JsonModel::Str(actor)),
            json::member_of("object"@, JsonModel::Str(object)),
        ],
    )
}

/// The activity that takes a request to follow back.
pub open spec fn undo_follow_activity(id: Seq<char>, actor: Seq<char>, object: Seq<char>) -> JsonModel {
    JsonModel::Obj(
        seq![
            json::member_of("@context"@, JsonModel::Str("https://www.w3.org/ns/activitystreams"@)),
            json::member_of("type"@, JsonModel::Str("Undo"@)),
            json::member_of("id"@, JsonModel::Str(id + "/undo"@)),
            json::member_of("actor"@, JsonModel::Str(actor)),
            json::member_of("object"@, followed_object(id, actor, object)),
        ],
    )
}

/// The activity that takes a request to follow back.
pub fn make_undo_follow_activity(id: &str, actor: &str, object: &str) -> (r: Json)
    ensures
        r@ == undo_follow_activity(id@, actor@, object@),
{
    let inner: Vec<json::Member> = vec![
        json::member("type", json::text_json("Follow")),
        json::member("id", json::text_json(id)),
        json::member("actor", json::text_json(actor)),
        json::member("object", json::text_json(object)),
    ];
    assert(json::member_models(inner@) =~= followed_object(id@, actor@, object@)->Obj_0);
    let ms: Vec<json::Member> = vec![
        json::member("@context", json::text_json("https://www.w3.org/ns/activitystreams")),
        json::member("type", json::text_json("Undo")),
        json::member("id", json::text_json(text::cat(id, "/undo").as_str())),
        json::member("actor", json::text_json(actor)),
        json::member("object", json::object(inner)),
    ];
    assert(json::member_models(ms@) =~= undo_follow_activity(id@, actor@, object@)->Obj_0);
    json::object(ms)
}

// ---------------------------------------------------------------------------
// Laws.
// ---------------------------------------------------------------------------
/// The user at the address of a local user's actor is that user.
pub proof fn law_local_actor_uri_names_its_user(local_domain: Seq<char>, username: Seq<char>)
    ensures
        local_username(local_actor_uri(local_domain, username), local_domain) == Some(username),
{
    let p = local_users_prefix(local_domain);
    let uri = local_actor_uri(local_domain, username);
    assert(uri.subrange(0, p.len() as int) =~= p);
    assert(uri.subrange(p.len() as int, uri.len() as int) =~= username);
}

/// A local user is known by one address alone: what reads as the address of a user
/// is `https://`, the domain, `/users/` and that user.
pub proof fn law_local_user_has_one_address(uri: Seq<char>, local_domain: Seq<char>)
    ensures
        local_username(uri, local_domain) matches Some(u) ==> uri == "https://"@ + local_domain
            + "/users/"@ + u && uri == local_actor_uri(local_domain, u),
{
    let p = local_users_prefix(local_domain);
    if text::starts_with(uri, p) {
        let u = uri.subrange(p.len() as int, uri.len() as int);
        assert(uri =~= p + u);
    }
}

/// The key of an actor is found in the actor's document: its name is the actor's
/// address and the fragment `main-key`.
pub proof fn law_key_belongs_to_its_actor(actor_uri: Seq<char>)
    ensures
        text::strip_prefix(main_key_id(actor_uri), actor_uri) == Some("#main-key"@),
        text::strip_suffix(main_key_id(actor_uri), "#main-key"@) == Some(actor_uri),
{
    let k = main_key_id(actor_uri);
    assert(k.subrange(0, actor_uri.len() as int) =~= actor_uri);
    assert(k.subrange(actor_uri.len() as int, k.len() as int) =~= "#main-key"@);
}

/// A request to follow says who wants to follow whom, under its identifier.
pub proof fn law_follow_names_its_parties(id: Seq<char>, actor: Seq<char>, object: Seq<char>)
    ensures
        ({
            let f = follow_activity(id, actor, object);
            &&& f.text_at("@context"@) == Some("https://www.w3.org/ns/activitystreams"@)
            &&& f.text_at("type"@) == Some("Follow"@)
            &&& f.text_at("id"@) == Some(id)
            &&& f.text_at("actor"@) == Some(actor)
            &&& f.text_at("object"@) == Some(object)
        }),
{
    reveal_strlit("@context");
    reveal_strlit("type");
    reveal_strlit("id");
    reveal_strlit("actor");
    reveal_strlit("object");
    assert("@context"@.len() == 8);
    assert("type"@.len() == 4);
    assert("id"@.len() == 2);
    assert("actor"@.len() == 5);
    assert("object"@.len() == 6);
    reveal_with_fuel(json::first_member, 6);
}

/// The end of a follow is told by the one who followed, under an identifier of its
/// own, and what it takes back is the request as it was made.
pub proof fn law_undo_takes_back_the_follow(id: Seq<char>, actor: Seq<char>, object: Seq<char>)
    ensures
        ({
            let f = follow_activity(id, actor, object);
            let u = undo_follow_activity(id, actor, object);
            &&& u.text_at("@context"@) == f.text_at("@context"@)
            &&& u.text_at("type"@) == Some("Undo"@)
            &&& u.text_at("actor"@) == f.text_at("actor"@)
            &&& u.text_at("id"@) == Some(id + "/undo"@)
            &&& u.text_at("id"@) != f.text_at("id"@)
            &&& u.at("object"@).text_at("type"@) == f.text_at("type"@)
            &&& u.at("object"@).text_at("id"@) == f.text_at("id"@)
            &&& u.at("object"@).text_at("actor"@) == f.text_at("actor"@)
            &&& u.at("object"@).text_at("object"@) == f.text_at("object"@)
        }),
{
    law_follow_names_its_parties(id, actor, object);
    reveal_strlit("@context");
    reveal_strlit("type");
    reveal_strlit("id");
    reveal_strlit("actor");
    reveal_strlit("object");
    reveal_strlit("/undo");
    assert("@context"@.len() == 8);
    assert("type"@.len() == 4);
    assert("id"@.len() == 2);
    assert("actor"@.len() == 5);
    assert("object"@.len() == 6);
    assert("/undo"@.len() == 5);
    assert("actor"@[0] != "/undo"@[0]);
    reveal_with_fuel(json::first_member, 6);
    let u = undo_follow_activity(id, actor, object);
    assert(json::first_member(u->Obj_0, "object"@, 0) == Some(followed_object(id, actor, object)));
    let o = u.at("object"@);
    assert(json::first_member(o->Obj_0, "object"@, 0) == Some(JsonModel::Str(object)));
    assert((id + "/undo"@).len() != id.len());
}

} // verus!
