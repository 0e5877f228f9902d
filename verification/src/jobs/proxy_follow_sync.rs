//! Following remote actors on behalf of lists, through a system actor.

use crate::ap;
use crate::decimal;
use crate::json::{Json, JsonModel};
use crate::text;
use vstd::prelude::*;

verus! {

/// A private key that can be used: one that is not empty.
pub fn usable_key<'a>(pem: Option<&'a str>) -> (r: Option<&'a str>)
    ensures
        text::str_view(r) == usable(text::str_view(pem)),
{
    match pem {
        Some(p) => if p.is_empty() {
            None
        } else {
            Some(p)
        },
        None => None,
    }
}

/// A key that can be used: one that is not empty.
pub open spec fn usable(pem: Option<Seq<char>>) -> Option<Seq<char>> {
    match pem {
        Some(p) if p.len() > 0 => Some(p),
        _ => None,
    }
}

/// An actor that is to be followed.
pub struct FollowTarget {
    pub id: i64,
    pub actor_type: String,
    pub ap_uri: Option<String>,
    pub ap_inbox_url: Option<String>,
}

/// An activity that is sent.
#[derive(Debug)]
pub struct Delivery {
    pub inbox_url: String,
    pub activity: Json,
    pub key_id: String,
}

/// What an activity that is sent stands for.
pub struct DeliveryModel {
    pub inbox_url: Seq<char>,
    pub activity: JsonModel,
    pub key_id: Seq<char>,
}

impl View for Delivery {
    type V = DeliveryModel;

    open spec fn view(&self) -> DeliveryModel {
        DeliveryModel {
            inbox_url: self.inbox_url@,
            activity: self.activity@,
            key_id: self.key_id@,
        }
    }
}

/// What an optional activity stands for.
pub open spec fn delivery_view(d: Option<Delivery>) -> Option<DeliveryModel> {
    match d {
        Some(d) => Some(d@),
        None => None,
    }
}

/// What a result stands for that may hold an activity.
pub open spec fn delivery_result(r: Result<Option<Delivery>, String>) -> Result<
    Option<DeliveryModel>,
    Seq<char>,
> {
    match r {
        Ok(d) => Ok(delivery_view(d)),
        Err(e) => Err(e@),
    }
}

/// The activity by which an actor of this server follows another, or stops doing
/// so.
pub open spec fn follow_delivery(
    want_follow: bool,
    follow_id: Seq<char>,
    actor_uri: Seq<char>,
    object: Seq<char>,
    inbox_url: Seq<char>,
) -> DeliveryModel {
    DeliveryModel {
        inbox_url,
        activity: if want_follow {
            ap::follow_activity(follow_id, actor_uri, object)
        } else {
            ap::undo_follow_activity(follow_id, actor_uri, object)
        },
        key_id: ap::main_key_id(actor_uri),
    }
}

/// The activity by which an actor of this server follows another, or stops doing
/// so.
pub(crate) fn make_follow_delivery(
    want_follow: bool,
    follow_id: &str,
    actor_uri: &str,
    object: &str,
    inbox_url: &str,
) -> (r: Delivery)
    ensures
        r@ == follow_delivery(want_follow, follow_id@, actor_uri@, object@, inbox_url@),
{
    let activity: Json = if want_follow {
        ap::make_follow_activity(follow_id, actor_uri, object)
    } else {
        ap::make_undo_follow_activity(follow_id, actor_uri, object)
    };
    Delivery { inbox_url: inbox_url.to_owned(), activity, key_id: ap::main_key_id_of(actor_uri) }
}

/// The identifier of the system actor's request to follow.
pub open spec fn proxy_follow_id(local_domain: Seq<char>, target_id: i64) -> Seq<char> {
    "https://"@ + local_domain + "/activities/follow/list-relay-"@ + decimal::int_text(
        target_id as int,
    )
}

/// What is sent so that the system actor follows the target or stops doing so.
/// Nothing where it is so already, and for targets outside the Fediverse.
pub open spec fn proxy_follow(
    target_id: i64,
    found: Option<FollowTarget>,
    follows_already: bool,
    want_follow: bool,
    local_domain: Seq<char>,
) -> Result<Option<DeliveryModel>, Seq<char>> {
    match found {
        None => Err(
            "ターゲットアクター(id="@ + decimal::int_text(target_id as int)
                + ")が見つかりません"@,
        ),
        Some(t) => if t.actor_type@ != "fedi"@ {
            Ok(None)
        } else {
            match (t.ap_uri, t.ap_inbox_url) {
                (Some(uri), Some(inbox)) => if want_follow == follows_already {
                    Ok(None)
                } else {
                    Ok(
                        Some(
                            follow_delivery(
                                want_follow,
                                proxy_follow_id(local_domain, target_id),
                                ap::local_actor_uri(local_domain, "list-relay"@),
                                uri@,
                                inbox@,
                            ),
                        ),
                    )
                },
                _ => Err(
                    "ターゲットアクター(id="@ + decimal::int_text(target_id as int)
                        + ")にap_uri/ap_inbox_urlがありません"@,
                ),
            }
        },
    }
}

/// What is sent so that the system actor follows the target or stops doing so.
pub fn plan_proxy_follow(
    target_id: i64,
    found: &Option<FollowTarget>,
    follows_already: bool,
    want_follow: bool,
    local_domain: &str,
) -> (r: Result<Option<Delivery>, String>)
    ensures
        delivery_result(r) == proxy_follow(
            target_id,
            *found,
            follows_already,
            want_follow,
            local_domain@,
        ),
{
    let id: String = decimal::format_i64(target_id);
    let t: &FollowTarget = match found {
        Some(t) => t,
        None => {
            return Err(
                text::cat3("ターゲットアクター(id=", id.as_str(), ")が見つかりません"),
            );
        },
    };
    if !text::same_str(t.actor_type.as_str(), "fedi") {
        return Ok(None);
    }
    match (&t.ap_uri, &t.ap_inbox_url) {
        (Some(uri), Some(inbox)) => {
            if want_follow == follows_already {
                return Ok(None);
            }
            let actor_uri: String = ap::local_actor_uri_of(local_domain, "list-relay");
            let follow_id: String = text::cat4(
                "https://",
                local_domain,
                "/activities/follow/list-relay-",
                id.as_str(),
            );
            Ok(
                Some(
                    make_follow_delivery(
                        want_follow,
                        follow_id.as_str(),
                        actor_uri.as_str(),
                        uri.as_str(),
                        inbox.as_str(),
                    ),
                ),
            )
        },
        _ => Err(
            text::cat3(
                "ターゲットアクター(id=",
                id.as_str(),
                ")にap_uri/ap_inbox_urlがありません",
            ),
        ),
    }
}

// ---------------------------------------------------------------------------
// Laws.
// ---------------------------------------------------------------------------
/// Nothing is sent to an actor that is followed already, nor to one that is no
/// longer followed: asking again for the same changes nothing.
pub proof fn law_proxy_follow_is_sent_once(
    target_id: i64,
    found: Option<FollowTarget>,
    want_follow: bool,
    local_domain: Seq<char>,
)
    ensures
        proxy_follow(target_id, found, want_follow, want_follow, local_domain) matches Ok(d)
            ==> d is None,
{
}

/// A delivery goes to the inbox it is meant for, under the key of the actor that it
/// comes from. It asks the object to be followed or takes that very request back.
pub proof fn law_delivery_follows_or_takes_back(
    want_follow: bool,
    follow_id: Seq<char>,
    actor_uri: Seq<char>,
    object: Seq<char>,
    inbox_url: Seq<char>,
)
    ensures
        ({
            let d = follow_delivery(want_follow, follow_id, actor_uri, object, inbox_url);
            let follow = if want_follow {
                d.activity
            } else {
                d.activity.at("object"@)
            };
            &&& d.inbox_url == inbox_url
            &&& d.key_id == actor_uri + "#main-key"@
            &&& d.activity.text_at("actor"@) == Some(actor_uri)
            &&& d.activity.text_at("type"@) == (if want_follow {
                Some("Follow"@)
            } else {
                Some("Undo"@)
            })
            &&& follow.text_at("type"@) == Some("Follow"@)
            &&& follow.text_at("id"@) == Some(follow_id)
            &&& follow.text_at("actor"@) == Some(actor_uri)
            &&& follow.text_at("object"@) == Some(object)
        }),
{
    ap::law_follow_names_its_parties(follow_id, actor_uri, object);
    ap::law_undo_takes_back_the_follow(follow_id, actor_uri, object);
}

/// A key is usable where it is there and not empty.
pub proof fn law_empty_key_is_none(pem: Seq<char>)
    ensures
        usable(Some(pem)) is Some <==> pem.len() > 0,
        usable(Some(pem)) matches Some(p) ==> p == pem,
        usable(None) is None,
{
}

/// Each actor is followed for the lists under an identifier of its own, which the
/// withdrawal of the follow names again.
pub proof fn law_proxy_follows_are_told_apart(local_domain: Seq<char>, a: i64, b: i64)
    ensures
        proxy_follow_id(local_domain, a) == proxy_follow_id(local_domain, b) <==> a == b,
        text::strip_prefix(
            proxy_follow_id(local_domain, a),
            "https://"@ + local_domain + "/activities/follow/list-relay-"@,
        ) == Some(decimal::int_text(a as int)),
{
    let p = "https://"@ + local_domain + "/activities/follow/list-relay-"@;
    let x = p + decimal::int_text(a as int);
    let y = p + decimal::int_text(b as int);
    assert(x.subrange(0, p.len() as int) =~= p);
    assert(x.subrange(p.len() as int, x.len() as int) =~= decimal::int_text(a as int));
    assert(y.subrange(p.len() as int, y.len() as int) =~= decimal::int_text(b as int));
    decimal::law_notation_denotes(a as int);
    decimal::law_notation_denotes(b as int);
}

/// An actor of the fediverse is asked where the follow is wanted and not there, and
/// given up where it is there and not wanted; in the name of the server's own actor
/// for lists. Other actors are left alone, and one without an address is refused.
pub proof fn law_proxy_follow_is_brought_in_line(
    target_id: i64,
    t: FollowTarget,
    follows_already: bool,
    want_follow: bool,
    local_domain: Seq<char>,
    uri: Seq<char>,
    inbox: Seq<char>,
)
    ensures
        t.actor_type@ != "fedi"@ ==> proxy_follow(
            target_id,
            Some(t),
            follows_already,
            want_follow,
            local_domain,
        ) == Ok::<Option<DeliveryModel>, Seq<char>>(None),
        t.actor_type@ == "fedi"@ && (t.ap_uri is None || t.ap_inbox_url is None) ==> proxy_follow(
            target_id,
            Some(t),
            follows_already,
            want_follow,
            local_domain,
        ) is Err,
        t.actor_type@ == "fedi"@ && text::string_view(t.ap_uri) == Some(uri) && text::string_view(
            t.ap_inbox_url,
        ) == Some(inbox) ==> {
            let r = proxy_follow(target_id, Some(t), follows_already, want_follow, local_domain);
            &&& r is Ok
            &&& r->Ok_0 is Some <==> want_follow != follows_already
            &&& r->Ok_0 is Some ==> {
                let d = r->Ok_0->0;
                &&& d.inbox_url == inbox
                &&& d.activity.text_at("actor"@) is Some
                &&& ap::local_username(d.activity.text_at("actor"@)->0, local_domain) == Some(
                    "list-relay"@,
                )
                &&& d.activity.text_at("type"@) == (if want_follow {
                    Some("Follow"@)
                } else {
                    Some("Undo"@)
                })
                &&& want_follow ==> d.activity.text_at("object"@) == Some(uri)
                &&& !want_follow ==> d.activity.at("object"@).text_at("object"@) == Some(uri)
            }
        },
        proxy_follow(target_id, None, follows_already, want_follow, local_domain) is Err,
{
    let actor = ap::local_actor_uri(local_domain, "list-relay"@);
    law_delivery_follows_or_takes_back(
        want_follow,
        proxy_follow_id(local_domain, target_id),
        actor,
        uri,
        inbox,
    );
    ap::law_local_actor_uri_names_its_user(local_domain, "list-relay"@);
}

} // verus!
