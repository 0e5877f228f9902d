//! Joining and leaving relays, through a system actor.

use crate::ap;
use crate::jobs::proxy_follow_sync;
use crate::jobs::proxy_follow_sync::Delivery;
use vstd::prelude::*;

verus! {

/// What is sent to a relay so that this server joins or leaves it. The request
/// goes by the identifier that is on record for the relay.
pub fn plan_relay_follow(
    inbox_url: &str,
    follow_activity_id: &str,
    want_follow: bool,
    local_domain: &str,
) -> (r: Delivery)
    ensures
        r@ == proxy_follow_sync::follow_delivery(
            want_follow,
            follow_activity_id@,
            ap::local_actor_uri(local_domain@, "relay-agent"@),
            inbox_url@,
            inbox_url@,
        ),
{
    let actor_uri: String = ap::local_actor_uri_of(local_domain, "relay-agent");
    proxy_follow_sync::make_follow_delivery(
        want_follow,
        follow_activity_id,
        actor_uri.as_str(),
        inbox_url,
        inbox_url,
    )
}

} // verus!
