//! Fetching the profiles of remote actors anew.

use crate::jobs::inbound_activity_process::actor::{ActorDocument, RemoteProfile};
use crate::jobs::remote_actor_resolve;
use crate::text;
use vstd::prelude::*;

verus! {

/// The domain of a web address; a text that is none has no known one.
pub open spec fn known_domain(uri: Seq<char>) -> Seq<char> {
    match remote_actor_resolve::behind_scheme(uri) {
        Some(rest) => text::before_any(rest, text::just('/')),
        None => "unknown"@,
    }
}

/// The domain of a web address; a text that is none has no known one.
pub fn extract_domain(uri: &str) -> (r: String)
    ensures
        r@ == known_domain(uri@),
{
    match remote_actor_resolve::strip_scheme(uri) {
        Some(rest) => remote_actor_resolve::first_segment(rest, '/'),
        None => "unknown".to_owned(),
    }
}

/// What is kept of an actor's document when it is fetched anew.
pub fn refreshed_profile(uri: &str, doc: ActorDocument) -> (r: Result<RemoteProfile, String>)
    ensures
        match doc.inbox {
            None => r matches Err(e) && e@ == "inboxがありません"@,
            Some(inbox) => r matches Ok(p) && remote_actor_resolve::profile_matches(
                p,
                uri@,
                known_domain(uri@),
                inbox,
                doc,
            ),
        },
{
    match remote_actor_resolve::profile_of_document(uri, extract_domain(uri), doc) {
        Some(p) => Ok(p),
        None => Err("inboxがありません".to_owned()),
    }
}

// ---------------------------------------------------------------------------
// Laws.
// ---------------------------------------------------------------------------

/// The domain of an actor's address is the one that the address is looked up under;
/// what is no web address has none.
pub proof fn law_known_domain_is_that_of_the_address(uri: Seq<char>)
    ensures
        text::starts_with(uri, "https://"@) || text::starts_with(uri, "http://"@) ==> known_domain(
            uri,
        ) == remote_actor_resolve::domain_of(uri),
        !text::starts_with(uri, "https://"@) && !text::starts_with(uri, "http://"@)
            ==> known_domain(uri) == "unknown"@,
{
}

} // verus!
