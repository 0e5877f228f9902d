//! Replies of relays to this server's requests to follow them.

use crate::jobs::inbound_activity_process::reaction;
use crate::jobs::inbound_activity_process::Route;
use crate::json::Json;
use crate::origin;
use crate::outside::{Origin, OriginModel};
use crate::text;
use vstd::prelude::*;

verus! {

/// The request to follow that a reply is about.
pub fn follow_object_id_of(activity: &Json) -> (r: Option<String>)
    ensures
        text::string_view(r) == reaction::object_uri(activity@),
{
    match reaction::read_object_uri(activity) {
        Some(t) => Some(t.to_owned()),
        None => None,
    }
}

/// A relay that this server asked to follow.
pub struct Relay {
    pub id: i64,
    pub inbox_url: String,
}

/// The relay that a reply comes from, from the origin of the reply's actor and of
/// the relay's inbox: the two must be the same.
pub open spec fn relay_reply(
    relay_id: i64,
    actor: Option<Seq<char>>,
    actor_origin: Option<OriginModel>,
    inbox_origin: Option<OriginModel>,
) -> Result<i64, Seq<char>> {
    match actor {
        None => Err("リレー応答にactorがありません"@),
        Some(a) => if actor_origin is None {
            Err("リレー応答actorが不正なURLです"@)
        } else if inbox_origin is None {
            Err("登録リレーURLが不正です"@)
        } else if origin::same_origin(actor_origin, inbox_origin) {
            Ok(relay_id)
        } else {
            Err("リレー応答actorが登録inboxと同一originではありません: "@ + a)
        },
    }
}

/// The relay that a reply comes from, from the two origins.
pub fn check_relay_reply(
    relay_id: i64,
    actor: Option<&str>,
    actor_origin: &Option<Origin>,
    inbox_origin: &Option<Origin>,
) -> (r: Result<i64, String>)
    ensures
        crate::jobs::inbound_activity_process::actor::result_view(r) == relay_reply(
            relay_id,
            text::str_view(actor),
            origin::origin_view(*actor_origin),
            origin::origin_view(*inbox_origin),
        ),
{
    let a: &str = match actor {
        Some(a) => a,
        None => {
            return Err("リレー応答にactorがありません".to_owned());
        },
    };
    if actor_origin.is_none() {
        return Err("リレー応答actorが不正なURLです".to_owned());
    }
    if inbox_origin.is_none() {
        return Err("登録リレーURLが不正です".to_owned());
    }
    if origin::origins_agree(actor_origin, inbox_origin) {
        Ok(relay_id)
    } else {
        Err(text::cat("リレー応答actorが登録inboxと同一originではありません: ", a))
    }
}

/// The relay that a reply comes from; none where the reply is about no request
/// to a relay. `relay` is the one whose request it is about.
pub fn relay_id_for_follow_object(activity: &Json, relay: Option<Relay>) -> (r: Result<
    Option<i64>,
    String,
>)
    ensures
        match relay {
            None => r matches Ok(None),
            Some(k) => match relay_reply(
                k.id,
                activity@.text_at("actor"@),
                origin::origin_of(match activity@.text_at("actor"@) {
                    Some(a) => a,
                    None => seq![],
                }),
                origin::origin_of(k.inbox_url@),
            ) {
                Ok(id) => r matches Ok(Some(i)) && i == id,
                Err(e) => r matches Err(m) && m@ == e,
            },
        },
{
    let k: Relay = match relay {
        Some(k) => k,
        None => {
            return Ok(None);
        },
    };
    let actor: Option<&str> = activity.text_at("actor");
    let actor_origin: Option<Origin> = match actor {
        Some(a) => origin::read_origin(a),
        None => None,
    };
    let inbox_origin: Option<Origin> = origin::read_origin(k.inbox_url.as_str());
    match check_relay_reply(k.id, actor, &actor_origin, &inbox_origin) {
        Ok(id) => Ok(Some(id)),
        Err(e) => Err(e),
    }
}

/// What is done with an answer to a request to follow, or with the end of a
/// follow.
#[derive(Debug, Clone, Copy, PartialEq, Eq, Structural)]
pub enum ReplyAction {
    /// The relay delivers from now on.
    RelayAccepted(i64),
    /// The relay does not deliver, or no longer.
    RelayRejected(i64),
    /// A user accepted a follow.
    Accept,
    /// A user takes something back.
    Undo,
    Ignore,
}

/// What is done with an activity that may be a relay's. A user's refusal is
/// ignored.
pub open spec fn reply_action(route: Route, relay_id: Option<i64>) -> ReplyAction {
    match (route, relay_id) {
        (Route::Accept, Some(id)) => ReplyAction::RelayAccepted(id),
        (Route::Accept, None) => ReplyAction::Accept,
        (Route::Reject, Some(id)) => ReplyAction::RelayRejected(id),
        (Route::Undo, Some(id)) => ReplyAction::RelayRejected(id),
        (Route::Undo, None) => ReplyAction::Undo,
        _ => ReplyAction::Ignore,
    }
}

/// What is done with an activity that may be a relay's.
pub fn decide_reply(route: Route, relay_id: Option<i64>) -> (r: ReplyAction)
    ensures
        r == reply_action(route, relay_id),
{
    match (route, relay_id) {
        (Route::Accept, Some(id)) => ReplyAction::RelayAccepted(id),
        (Route::Accept, None) => ReplyAction::Accept,
        (Route::Reject, Some(id)) => ReplyAction::RelayRejected(id),
        (Route::Undo, Some(id)) => ReplyAction::RelayRejected(id),
        (Route::Undo, None) => ReplyAction::Undo,
        _ => ReplyAction::Ignore,
    }
}

// ---------------------------------------------------------------------------
// Laws.
// ---------------------------------------------------------------------------

/// A reply counts as the relay's exactly where its actor and the relay's inbox are
/// addresses of the same origin; it then stands for that relay.
pub proof fn law_relay_answers_from_its_origin(
    relay_id: i64,
    actor: Option<Seq<char>>,
    actor_origin: Option<OriginModel>,
    inbox_origin: Option<OriginModel>,
)
    ensures
        relay_reply(relay_id, actor, actor_origin, inbox_origin) is Ok <==> actor is Some
            && actor_origin is Some && actor_origin == inbox_origin && actor_origin->0 is Tuple,
        relay_reply(relay_id, actor, actor_origin, inbox_origin) matches Ok(id) ==> id == relay_id,
{
}

/// What answers a relay's request changes the relay alone, and what answers a user's
/// request no relay: an acceptance has the relay deliver, a refusal and an undo end
/// that.
pub proof fn law_relay_and_user_are_told_apart(route: Route, id: i64)
    ensures
        reply_action(Route::Accept, Some(id)) == ReplyAction::RelayAccepted(id),
        reply_action(Route::Reject, Some(id)) == ReplyAction::RelayRejected(id),
        reply_action(Route::Undo, Some(id)) == ReplyAction::RelayRejected(id),
        !(reply_action(route, None) is RelayAccepted),
        !(reply_action(route, None) is RelayRejected),
        reply_action(route, None) is Accept <==> route is Accept,
        reply_action(route, None) is Undo <==> route is Undo,
        !(reply_action(route, Some(id)) is Accept),
        !(reply_action(route, Some(id)) is Undo),
        reply_action(route, Some(id)) is RelayAccepted <==> route is Accept,
        reply_action(route, Some(id)) is RelayRejected <==> route is Reject || route is Undo,
{
}

/// A reply that is not the relay's is refused as such: without an actor, with an actor
/// that is no address, for a relay whose address is none, or from elsewhere.
pub proof fn law_refused_reply_names_the_reason(
    relay_id: i64,
    actor: Seq<char>,
    actor_origin: Option<OriginModel>,
    inbox_origin: Option<OriginModel>,
)
    ensures
        relay_reply(relay_id, None, actor_origin, inbox_origin) == Err::<i64, Seq<char>>(
            "リレー応答にactorがありません"@,
        ),
        actor_origin is None ==> relay_reply(relay_id, Some(actor), actor_origin, inbox_origin)
            == Err::<i64, Seq<char>>("リレー応答actorが不正なURLです"@),
        actor_origin is Some && inbox_origin is None ==> relay_reply(
            relay_id,
            Some(actor),
            actor_origin,
            inbox_origin,
        ) == Err::<i64, Seq<char>>("登録リレーURLが不正です"@),
        actor_origin is Some && inbox_origin is Some && actor_origin != inbox_origin
            ==> relay_reply(relay_id, Some(actor), actor_origin, inbox_origin) == Err::<
            i64,
            Seq<char>,
        >("リレー応答actorが登録inboxと同一originではありません: "@ + actor),
{
}

} // verus!
