//! Looking for the other account of an actor that states one.

use crate::jobs::inbound_activity_process::actor;
use crate::jobs::inbound_activity_process::actor::{ActorDocument, RemoteProfile};
use crate::text;
use vstd::prelude::*;

verus! {

/// An actor, with the accounts that it states as its own.
pub struct ClaimingActor {
    pub actor_type: String,
    pub claimed_at_did: Option<String>,
    pub claimed_ap_uri: Option<String>,
}

/// Where the other account is looked for.
pub enum Counterpart {
    Nowhere,
    /// On the AT network.
    Did(String),
    /// In the Fediverse.
    ApUri(String),
}

/// Where the other account of an actor is looked for: on the network that the
/// actor itself is not of.
pub fn counterpart_of(a: ClaimingActor) -> (r: Counterpart)
    ensures
        r == (if a.actor_type@ == "fedi"@ && a.claimed_at_did is Some {
            Counterpart::Did(a.claimed_at_did->0)
        } else if a.actor_type@ == "bsky"@ && a.claimed_ap_uri is Some {
            Counterpart::ApUri(a.claimed_ap_uri->0)
        } else {
            Counterpart::Nowhere
        }),
{
    proof {
        reveal_strlit("fedi");
        reveal_strlit("bsky");
        assert("fedi"@[0] != "bsky"@[0]);
    }
    if text::same_str(a.actor_type.as_str(), "fedi") {
        return match a.claimed_at_did {
            Some(did) => Counterpart::Did(did),
            None => Counterpart::Nowhere,
        };
    }
    if text::same_str(a.actor_type.as_str(), "bsky") {
        return match a.claimed_ap_uri {
            Some(uri) => Counterpart::ApUri(uri),
            None => Counterpart::Nowhere,
        };
    }
    Counterpart::Nowhere
}

/// What is kept of the document of the other account: nothing where it names no
/// inbox, and an error where it names no user.
pub fn counterpart_profile(ap_uri: &str, doc: ActorDocument) -> (r: Result<
    Option<RemoteProfile>,
    String,
>)
    ensures
        match (doc.inbox, doc.preferred_username) {
            (None, _) => r matches Ok(None),
            (Some(_), None) => r matches Err(e) && e@ == "リモートアクター '"@ + ap_uri@
                + "' に preferredUsername がありません"@,
            (Some(inbox), Some(username)) => {
                &&& r matches Ok(Some(p))
                &&& p.username@ == username@
                &&& p.display_name@ == (match doc.name {
                    Some(n) => n@,
                    None => username@,
                })
                &&& p.domain@ == actor::actor_domain(ap_uri@)
                &&& p.inbox@ == inbox@
                &&& p.avatar_url == doc.avatar_url
                &&& text::string_view(p.bio) == (match doc.summary {
                    Some(s) => Some(
                        crate::jobs::inbound_activity_process::content::stripped_html(s@),
                    ),
                    None => None,
                })
            },
        },
{
    if doc.inbox.is_none() {
        return Ok(None);
    }
    match actor::remote_profile(ap_uri, doc) {
        Ok(p) => Ok(Some(p)),
        Err(e) => Err(e),
    }
}

} // verus!
