//! Bringing in what an actor posted before it was followed.

use crate::jobs::remote_actor_resolve;
use crate::text;
use vstd::prelude::*;

verus! {

/// How many notes are brought in at most.
pub const AP_HISTORY_LIMIT: usize = 30;

/// How many posts of the AT network are brought in at most.
pub const ATP_HISTORY_LIMIT: usize = 300;

/// How many days back is looked.
pub const HISTORY_DAYS: i64 = 30;

/// Whether there is anything to bring in: an address or a DID has to be given.
pub fn check_history_request(ap_uri: &Option<String>, at_did: &Option<String>) -> (r: Result<
    (),
    String,
>)
    ensures
        match r {
            Ok(_) => *ap_uri is Some || *at_did is Some,
            Err(e) => *ap_uri is None && *at_did is None && e@
                == "ap_uri または at_did のどちらかは必須です"@,
        },
{
    if ap_uri.is_none() && at_did.is_none() {
        return Err("ap_uri または at_did のどちらかは必須です".to_owned());
    }
    Ok(())
}

/// The domain of a web address; a text that is none is taken whole.
pub fn extract_domain(uri: &str) -> (r: String)
    ensures
        r@ == remote_actor_resolve::domain_of(uri@),
{
    remote_actor_resolve::extract_domain(uri)
}

/// The server that a DID is looked up at.
pub open spec fn did_domain(did: Seq<char>) -> Seq<char> {
    if text::starts_with(did, "did:plc:"@) {
        "plc.directory"@
    } else {
        match text::strip_prefix(did, "did:web:"@) {
            Some(rest) => text::before_any(rest, text::just(':')),
            None => "unknown"@,
        }
    }
}

/// The server that a DID is looked up at.
pub fn extract_did_domain(did: &str) -> (r: String)
    ensures
        r@ == did_domain(did@),
{
    let chars: Vec<char> = text::chars_of(did);
    if text::has_prefix(chars.as_slice(), "did:plc:") {
        return "plc.directory".to_owned();
    }
    match crate::ap::strip_prefix_str(did, "did:web:") {
        Some(rest) => remote_actor_resolve::first_segment(rest, ':'),
        None => "unknown".to_owned(),
    }
}

// ---------------------------------------------------------------------------
// Laws.
// ---------------------------------------------------------------------------

/// The server of an account on the AT network: a `did:web` account is known at the
/// host that it names, whatever path follows, and a `did:plc` account at the directory.
pub proof fn law_did_names_its_server(host: Seq<char>, path: Seq<char>, did: Seq<char>)
    requires
        !host.contains(':'),
    ensures
        did_domain("did:web:"@ + host) == host,
        did_domain("did:web:"@ + host + ":"@ + path) == host,
        did_domain("did:plc:"@ + path) == "plc.directory"@,
        !text::starts_with(did, "did:plc:"@) && !text::starts_with(did, "did:web:"@) ==> did_domain(
            did,
        ) == "unknown"@,
{
    reveal_strlit("did:web:");
    reveal_strlit("did:plc:");
    reveal_strlit(":");
    assert("did:web:"@.len() == 8);
    assert("did:plc:"@.len() == 8);
    assert(":"@.len() == 1);
    assert("did:web:"@[4] != "did:plc:"@[4]);
    let f = text::just(':');
    let a = "did:web:"@ + host;
    let b = "did:web:"@ + host + ":"@ + path;
    let c = "did:plc:"@ + path;
    assert(a[4] == 'w' && b[4] == 'w');
    assert(!text::starts_with(a, "did:plc:"@)) by {
        if text::starts_with(a, "did:plc:"@) {
            assert(a.subrange(0, 8)[4] == 'p');
        }
    }
    assert(!text::starts_with(b, "did:plc:"@)) by {
        if text::starts_with(b, "did:plc:"@) {
            assert(b.subrange(0, 8)[4] == 'p');
        }
    }
    assert(a.subrange(0, 8) =~= "did:web:"@);
    assert(a.subrange(8, a.len() as int) =~= host);
    assert(b.subrange(0, 8) =~= "did:web:"@);
    assert(c.subrange(0, 8) =~= "did:plc:"@);
    let rest = b.subrange(8, b.len() as int);
    assert(rest =~= host + ":"@ + path);
    text::lemma_next_index(host, f, 0);
    text::lemma_next_index(rest, f, 0);
    let n = text::next_index(host, f, 0);
    if n < host.len() {
        assert(host.contains(host[n]));
    }
    assert(host.subrange(0, host.len() as int) =~= host);
    let m = text::next_index(rest, f, 0);
    assert(rest[host.len() as int] == ':');
    if m < host.len() {
        assert(rest[m] == host[m]);
        assert(host.contains(host[m]));
    }
    assert(rest.subrange(0, host.len() as int) =~= host);
}

} // verus!
