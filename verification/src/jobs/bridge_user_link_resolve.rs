//! Finding the person behind an account that the bridge between the networks
//! made.

use crate::cooldown;
use crate::cooldown::RecentIds;
use crate::mention;
use crate::text;
use vstd::prelude::*;
use vstd::slice::slice_subrange;

verus! {

/// How long the same account is not looked at again: an hour.
pub const BRIDGE_USER_LINK_RESOLVE_COOLDOWN: u64 = 3_600_000_000_000;

/// Whether the account is looked at now.
pub fn should_enqueue(recent: &mut RecentIds, actor_id: i64, now: u64) -> (r: bool)
    ensures
        r == cooldown::admits(old(recent)@, actor_id, now, BRIDGE_USER_LINK_RESOLVE_COOLDOWN),
        final(recent)@ == cooldown::after_asking(
            old(recent)@,
            actor_id,
            now,
            BRIDGE_USER_LINK_RESOLVE_COOLDOWN,
        ),
{
    recent.ask(actor_id, now, BRIDGE_USER_LINK_RESOLVE_COOLDOWN)
}

/// An account that the bridge may have made.
pub struct BridgedAccount {
    pub username: String,
    pub domain: String,
    pub ap_uri: Option<String>,
    /// The person behind it is known.
    pub resolved: bool,
}

/// Whom a bridged account stands for.
pub enum BridgeSource {
    /// Nobody who can be looked for.
    Unknown,
    /// Somebody of the AT network.
    Did(String),
    /// Somebody of the Fediverse.
    Account { username: String, domain: String },
}

/// Whom a source stands for.
pub enum BridgeSourceModel {
    Unknown,
    Did(Seq<char>),
    Account { username: Seq<char>, domain: Seq<char> },
}

impl View for BridgeSource {
    type V = BridgeSourceModel;

    open spec fn view(&self) -> BridgeSourceModel {
        match self {
            BridgeSource::Unknown => BridgeSourceModel::Unknown,
            BridgeSource::Did(d) => BridgeSourceModel::Did(d@),
            BridgeSource::Account { username, domain } => BridgeSourceModel::Account {
                username: username@,
                domain: domain@,
            },
        }
    }
}

/// Somebody of the AT network, by the DID in the address that the bridge gave.
pub open spec fn did_behind(ap_uri: Option<Seq<char>>) -> BridgeSourceModel {
    match ap_uri {
        None => BridgeSourceModel::Unknown,
        Some(uri) => match text::strip_prefix(uri, "https://bsky.brid.gy/ap/"@) {
            Some(did) => BridgeSourceModel::Did(did),
            None => BridgeSourceModel::Unknown,
        },
    }
}

/// Somebody of the Fediverse, by the handle that the bridge gave: the name up to
/// the first dot, and the domain behind it.
pub open spec fn account_behind(handle: Seq<char>) -> BridgeSourceModel {
    match text::strip_suffix(handle, ".ap.brid.gy"@) {
        None => BridgeSourceModel::Unknown,
        Some(rest) => match text::after_text(rest, "."@) {
            None => BridgeSourceModel::Unknown,
            Some(domain) => BridgeSourceModel::Account {
                username: text::before_text(rest, "."@),
                domain,
            },
        },
    }
}

/// Whom a bridged account stands for, where that is not known yet.
pub open spec fn bridge_source(a: BridgedAccount) -> BridgeSourceModel {
    if a.resolved {
        BridgeSourceModel::Unknown
    } else if a.domain@ == "bsky.brid.gy"@ {
        did_behind(text::string_view(a.ap_uri))
    } else {
        account_behind(a.username@)
    }
}

/// Somebody of the Fediverse, by the handle that the bridge gave.
fn read_account(handle: &str) -> (r: BridgeSource)
    ensures
        r@ == account_behind(handle@),
{
    let chars: Vec<char> = text::chars_of(handle);
    if !text::has_suffix(chars.as_slice(), ".ap.brid.gy") {
        return BridgeSource::Unknown;
    }
    let n: usize = text::chars_of(".ap.brid.gy").len();
    let rest: &[char] = slice_subrange(chars.as_slice(), 0, chars.len() - n);
    let dot: Vec<char> = text::chars_of(".");
    match text::find(rest, dot.as_slice(), 0) {
        None => BridgeSource::Unknown,
        Some(k) => BridgeSource::Account {
            username: text::string_of(slice_subrange(rest, 0, k)),
            domain: text::string_of(slice_subrange(rest, k + dot.len(), rest.len())),
        },
    }
}

/// Whom a bridged account stands for.
pub fn find_bridge_source(a: &BridgedAccount) -> (r: BridgeSource)
    ensures
        r@ == bridge_source(*a),
{
    if a.resolved {
        return BridgeSource::Unknown;
    }
    if !text::same_str(a.domain.as_str(), "bsky.brid.gy") {
        return read_account(a.username.as_str());
    }
    match &a.ap_uri {
        None => BridgeSource::Unknown,
        Some(uri) => match crate::ap::strip_prefix_str(uri.as_str(), "https://bsky.brid.gy/ap/") {
            Some(did) => BridgeSource::Did(did.to_owned()),
            None => BridgeSource::Unknown,
        },
    }
}

// ---------------------------------------------------------------------------
// Laws.
// ---------------------------------------------------------------------------
/// The handle that stands for a Fediverse user in posts to the AT network leads
/// back to that user, where the name has no dot.
pub proof fn law_bridge_handle_leads_back(username: Seq<char>, domain: Seq<char>)
    requires
        !username.contains('.'),
    ensures
        account_behind(mention::bridge_handle(username, domain)) == (BridgeSourceModel::Account {
            username,
            domain,
        }),
{
    reveal_strlit(".");
    let handle = mention::bridge_handle(username, domain);
    let rest = mention::bridge_user(username, domain);
    let suffix = ".ap.brid.gy"@;
    assert(handle.subrange(handle.len() - suffix.len(), handle.len() as int) =~= suffix);
    assert(handle.subrange(0, handle.len() - suffix.len()) =~= rest);
    let n: int = username.len() as int;
    let dot = "."@;
    assert(dot =~= seq!['.']);
    text::lemma_find_from(rest, dot, 0);
    assert(rest.subrange(n, n + 1) =~= dot);
    assert(text::occurs_at(rest, dot, n));
    assert forall|j: int| 0 <= j < n implies !text::occurs_at(rest, dot, j) by {
        if text::occurs_at(rest, dot, j) {
            assert(rest.subrange(j, j + 1)[0] == '.');
            assert(rest[j] == username[j]);
            assert(username.contains(username[j]));
        }
    }
    assert(text::find_from(rest, dot, 0) == Some(n));
    assert(rest.subrange(0, n) =~= username);
    assert(rest.subrange(n + 1, rest.len() as int) =~= domain);
}

/// The person behind an account of the bridge: on Bluesky under the DID that its
/// address ends in, or in the fediverse under its handle. Once they are known nobody
/// is looked for.
pub proof fn law_bridged_account_leads_to_its_person(
    a: BridgedAccount,
    did: Seq<char>,
    username: Seq<char>,
    domain: Seq<char>,
)
    requires
        !username.contains('.'),
    ensures
        a.resolved ==> bridge_source(a) is Unknown,
        !a.resolved && a.domain@ == "bsky.brid.gy"@ && text::string_view(a.ap_uri) == Some(
            "https://bsky.brid.gy/ap/"@ + did,
        ) ==> bridge_source(a) == BridgeSourceModel::Did(did),
        !a.resolved && a.domain@ == "bsky.brid.gy"@ && a.ap_uri is None ==> bridge_source(a)
            is Unknown,
        !a.resolved && a.domain@ != "bsky.brid.gy"@ && a.username@ == mention::bridge_handle(
            username,
            domain,
        ) ==> bridge_source(a) == (BridgeSourceModel::Account { username, domain }),
{
    let p = "https://bsky.brid.gy/ap/"@;
    let uri = p + did;
    assert(uri.subrange(0, p.len() as int) =~= p);
    assert(uri.subrange(p.len() as int, uri.len() as int) =~= did);
    law_bridge_handle_leads_back(username, domain);
}

} // verus!
