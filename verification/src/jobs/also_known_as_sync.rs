//! Taking over the other accounts that a remote actor states.

use crate::ap;
use crate::jobs::inbound_activity_process::actor;
use crate::jobs::inbound_activity_process::actor::{ActorDocument, RemoteProfile};
use crate::jobs::inbound_activity_process::content;
use crate::text;
use vstd::prelude::*;

verus! {

/// The actor whose other accounts are taken over: one of the Fediverse that has
/// an address.
pub fn syncable_owner(actor_type: &str, ap_uri: Option<String>) -> (r: Option<String>)
    ensures
        r == (if actor_type@ == "fedi"@ {
            ap_uri
        } else {
            None
        }),
{
    if text::same_str(actor_type, "fedi") {
        ap_uri
    } else {
        None
    }
}

/// How a stated account is looked up.
#[derive(Debug)]
pub enum AliasLookup {
    /// Not at all.
    Ignore,
    /// As a local user.
    Local(String),
    /// As an account of the AT network.
    Did,
    /// As an actor of the Fediverse.
    Fedi,
}

/// How a stated account is looked up.
pub enum AliasLookupModel {
    Ignore,
    Local(Seq<char>),
    Did,
    Fedi,
}

impl View for AliasLookup {
    type V = AliasLookupModel;

    open spec fn view(&self) -> AliasLookupModel {
        match self {
            AliasLookup::Ignore => AliasLookupModel::Ignore,
            AliasLookup::Local(u) => AliasLookupModel::Local(u@),
            AliasLookup::Did => AliasLookupModel::Did,
            AliasLookup::Fedi => AliasLookupModel::Fedi,
        }
    }
}

/// The local user that an address names, where this server has a domain.
pub open spec fn local_alias(uri: Seq<char>, local_domain: Option<Seq<char>>) -> Option<Seq<char>> {
    match local_domain {
        Some(d) => ap::local_username(uri, d),
        None => None,
    }
}

/// How a stated account is looked up, by its address.
pub open spec fn alias_lookup(uri: Seq<char>, local_domain: Option<Seq<char>>) -> AliasLookupModel {
    if local_alias(uri, local_domain) is Some {
        AliasLookupModel::Local(local_alias(uri, local_domain)->0)
    } else if text::starts_with(uri, "did:"@) {
        AliasLookupModel::Did
    } else if text::starts_with(uri, "https://"@) || text::starts_with(uri, "http://"@) {
        AliasLookupModel::Fedi
    } else {
        AliasLookupModel::Ignore
    }
}

/// How a stated account is looked up.
pub fn classify_alias(uri: &str, local_domain: Option<&str>) -> (r: AliasLookup)
    ensures
        r@ == alias_lookup(uri@, text::str_view(local_domain)),
{
    match local_domain {
        Some(d) => match ap::extract_local_username(uri, d) {
            Some(u) => {
                return AliasLookup::Local(u.to_owned());
            },
            None => {},
        },
        None => {},
    }
    let chars: Vec<char> = text::chars_of(uri);
    if text::has_prefix(chars.as_slice(), "did:") {
        AliasLookup::Did
    } else if text::has_prefix(chars.as_slice(), "https://") || text::has_prefix(
        chars.as_slice(),
        "http://",
    ) {
        AliasLookup::Fedi
    } else {
        AliasLookup::Ignore
    }
}

/// What is kept of the document of a stated account.
pub fn alias_profile(uri: &str, doc: ActorDocument) -> (r: Result<Option<RemoteProfile>, String>)
    ensures
        match (doc.inbox, doc.preferred_username) {
            (None, _) => r matches Ok(None),
            (Some(_), None) => r matches Err(e) && e@ == "preferredUsernameがありません"@,
            (Some(inbox), Some(username)) => {
                &&& r matches Ok(Some(p))
                &&& p.username@ == username@
                &&& p.display_name@ == (match doc.name {
                    Some(n) => n@,
                    None => username@,
                })
                &&& p.domain@ == actor::actor_domain(uri@)
                &&& p.inbox@ == inbox@
                &&& p.avatar_url == doc.avatar_url
                &&& text::string_view(p.bio) == (match doc.summary {
                    Some(s) => Some(content::stripped_html(s@)),
                    None => None,
                })
            },
        },
{
    if doc.inbox.is_none() {
        return Ok(None);
    }
    match actor::remote_profile(uri, doc) {
        Ok(p) => Ok(Some(p)),
        Err(_) => Err("preferredUsernameがありません".to_owned()),
    }
}

// ---------------------------------------------------------------------------
// The accounts that are taken over.
// ---------------------------------------------------------------------------
/// Each is less than the next.
pub open spec fn increasing(v: Seq<i64>) -> bool {
    forall|i: int, j: int| 0 <= i < j < v.len() ==> v[i] < v[j]
}

/// Puts a number where it belongs, unless it is there.
fn insert_sorted(v: &mut Vec<i64>, id: i64)
    requires
        increasing(old(v)@),
    ensures
        increasing(final(v)@),
        forall|x: i64| final(v)@.contains(x) <==> old(v)@.contains(x) || x == id,
{
    let mut i: usize = 0;
    while i < v.len() && v[i] < id
        invariant
            i <= v@.len(),
            v@ == old(v)@,
            increasing(v@),
            forall|j: int| 0 <= j < i ==> v@[j] < id,
        decreases v@.len() - i,
    {
        i += 1;
    }
    if i < v.len() && v[i] == id {
        assert(v@.contains(id));
        return ;
    }
    let ghost before = v@;
    v.insert(i, id);
    proof {
        assert(v@ == before.insert(i as int, id));
        assert(v@[i as int] == id);
        assert forall|a: int, b: int| 0 <= a < b < v@.len() implies v@[a] < v@[b] by {
            if b < i {
                assert(v@[a] == before[a] && v@[b] == before[b]);
            } else if b == i {
                assert(v@[a] == before[a]);
            } else if a < i {
                assert(v@[a] == before[a] && v@[b] == before[b - 1]);
            } else if a == i {
                assert(v@[b] == before[b - 1]);
                assert(before[i as int] <= before[b - 1]);
            } else {
                assert(v@[a] == before[a - 1] && v@[b] == before[b - 1]);
            }
        }
        assert forall|x: i64| v@.contains(x) <==> before.contains(x) || x == id by {
            if before.contains(x) {
                let k = before.index_of(x);
                assert(v@[if k < i {
                    k
                } else {
                    k + 1
                }] == x);
            }
            if v@.contains(x) && x != id {
                let k = v@.index_of(x);
                assert(before[if k < i {
                    k
                } else {
                    k - 1
                }] == x);
            }
        }
    }
}

/// The accounts that are taken over, in order and each once: those that were
/// found, without the owner.
pub fn alias_targets(found: &Vec<Option<i64>>, owner_actor_id: i64) -> (r: Vec<i64>)
    ensures
        increasing(r@),
        forall|x: i64| #[trigger] r@.contains(x) <==> x != owner_actor_id && found@.contains(Some(x)),
{
    let mut out: Vec<i64> = Vec::new();
    let mut i: usize = 0;
    while i < found.len()
        invariant
            i <= found@.len(),
            increasing(out@),
            forall|x: i64| #[trigger]
                out@.contains(x) <==> x != owner_actor_id && found@.take(i as int).contains(Some(x)),
        decreases found@.len() - i,
    {
        let ghost before = out@;
        let ghost seen = found@.take(i as int);
        let ghost next = found@.take(i + 1);
        proof {
            assert(next =~= seen.push(found@[i as int]));
        }
        match found[i] {
            Some(id) => {
                if id != owner_actor_id {
                    insert_sorted(&mut out, id);
                }
            },
            None => {},
        }
        proof {
            assert forall|x: i64| #[trigger]
                out@.contains(x) <==> x != owner_actor_id && next.contains(Some(x)) by {
                if next.contains(Some(x)) {
                    let k = next.index_of(Some(x));
                    if k < seen.len() {
                        assert(seen[k] == Some(x));
                        assert(seen.contains(Some(x)));
                        assert(before.contains(x) || x == owner_actor_id);
                    }
                }
                if before.contains(x) {
                    let k = seen.index_of(Some(x));
                    assert(next[k] == Some(x));
                }
                assert(next[seen.len() as int] == found@[i as int]);
            }
        }
        i += 1;
    }
    assert(found@.take(i as int) =~= found@);
    out
}

// ---------------------------------------------------------------------------
// Laws.
// ---------------------------------------------------------------------------

/// How an alias is looked up: the address of a local user as that user, a DID on the
/// AT network, any other web address in the fediverse, and nothing else at all.
pub proof fn law_alias_goes_by_its_form(
    uri: Seq<char>,
    local_domain: Seq<char>,
    username: Seq<char>,
)
    ensures
        alias_lookup(ap::local_actor_uri(local_domain, username), Some(local_domain))
            == AliasLookupModel::Local(username),
        alias_lookup(uri, None) is Did <==> text::starts_with(uri, "did:"@),
        alias_lookup(uri, None) is Fedi <==> text::starts_with(uri, "https://"@)
            || text::starts_with(uri, "http://"@),
        !(alias_lookup(uri, None) is Local),
        alias_lookup(uri, Some(local_domain)) matches AliasLookupModel::Local(u) ==> uri
            == ap::local_actor_uri(local_domain, u),
        !(alias_lookup(uri, Some(local_domain)) is Local) ==> alias_lookup(uri, Some(local_domain))
            == alias_lookup(uri, None),
{
    reveal_strlit("did:");
    reveal_strlit("https://");
    reveal_strlit("http://");
    assert("did:"@.len() == 4);
    assert("https://"@.len() == 8);
    assert("http://"@.len() == 7);
    ap::law_local_actor_uri_names_its_user(local_domain, username);
    ap::law_local_user_has_one_address(uri, local_domain);
    if text::starts_with(uri, "did:"@) {
        assert(uri.subrange(0, 4)[0] == 'd');
        assert(uri[0] == 'd');
        if text::starts_with(uri, "https://"@) {
            assert(uri.subrange(0, 8)[0] == 'h');
        }
        if text::starts_with(uri, "http://"@) {
            assert(uri.subrange(0, 7)[0] == 'h');
        }
    }
}

} // verus!
