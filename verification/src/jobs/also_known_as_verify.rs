//! Checking whether another account states the same person in return.

use crate::ap;
use crate::text;
use vstd::prelude::*;

verus! {

/// An account, as the check sees it.
pub struct CheckedActor {
    pub username: String,
    pub actor_type: String,
    pub ap_uri: Option<String>,
}

/// How another account is checked.
pub enum AliasCheck {
    /// It cannot be checked now; what is on record stays.
    Leave,
    /// It can never state anything in return.
    Unverified,
    /// By what this server's own users have entered.
    OwnRecords,
    /// By whether the document at `target_uri` states `owner_uri`.
    Document { target_uri: String, owner_uri: String },
}

/// What a check stands for.
pub enum AliasCheckModel {
    Leave,
    Unverified,
    OwnRecords,
    Document { target_uri: Seq<char>, owner_uri: Seq<char> },
}

impl View for AliasCheck {
    type V = AliasCheckModel;

    open spec fn view(&self) -> AliasCheckModel {
        match self {
            AliasCheck::Leave => AliasCheckModel::Leave,
            AliasCheck::Unverified => AliasCheckModel::Unverified,
            AliasCheck::OwnRecords => AliasCheckModel::OwnRecords,
            AliasCheck::Document { target_uri, owner_uri } => AliasCheckModel::Document {
                target_uri: target_uri@,
                owner_uri: owner_uri@,
            },
        }
    }
}

/// The address of the owner: its own, or for a local user the one on this server.
pub open spec fn owner_address(owner: CheckedActor, local_domain: Option<Seq<char>>) -> Option<
    Seq<char>,
> {
    match (owner.ap_uri, local_domain) {
        (Some(uri), _) => Some(uri@),
        (None, Some(d)) => Some(ap::local_actor_uri(d, owner.username@)),
        (None, None) => None,
    }
}

/// How another account is checked, by its kind.
pub open spec fn alias_check(
    owner: CheckedActor,
    target: CheckedActor,
    local_domain: Option<Seq<char>>,
) -> AliasCheckModel {
    if target.actor_type@ == "bsky"@ {
        AliasCheckModel::Unverified
    } else if target.actor_type@ == "local"@ {
        AliasCheckModel::OwnRecords
    } else {
        match (target.ap_uri, owner_address(owner, local_domain)) {
            (Some(target_uri), Some(owner_uri)) => AliasCheckModel::Document {
                target_uri: target_uri@,
                owner_uri,
            },
            _ => AliasCheckModel::Leave,
        }
    }
}

/// How another account is checked.
pub fn plan_alias_check(
    owner: &CheckedActor,
    target: &CheckedActor,
    local_domain: Option<&str>,
) -> (r: AliasCheck)
    ensures
        r@ == alias_check(*owner, *target, text::str_view(local_domain)),
{
    if text::same_str(target.actor_type.as_str(), "bsky") {
        return AliasCheck::Unverified;
    }
    if text::same_str(target.actor_type.as_str(), "local") {
        return AliasCheck::OwnRecords;
    }
    let target_uri: String = match &target.ap_uri {
        Some(u) => u.clone(),
        None => {
            return AliasCheck::Leave;
        },
    };
    let owner_uri: String = match &owner.ap_uri {
        Some(u) => u.clone(),
        None => match local_domain {
            Some(d) => ap::local_actor_uri_of(d, owner.username.as_str()),
            None => {
                return AliasCheck::Leave;
            },
        },
    };
    AliasCheck::Document { target_uri, owner_uri }
}

/// What goes on record of a check. `answer` is what came of asking; a document
/// that could not be fetched gives none.
pub fn verification(check: &AliasCheck, answer: Option<bool>) -> (r: Option<bool>)
    ensures
        r == (match *check {
            AliasCheck::Leave => None,
            AliasCheck::Unverified => Some(false),
            _ => Some(answer == Some(true)),
        }),
{
    match check {
        AliasCheck::Leave => None,
        AliasCheck::Unverified => Some(false),
        _ => match answer {
            Some(b) => Some(b),
            None => Some(false),
        },
    }
}

// ---------------------------------------------------------------------------
// Laws.
// ---------------------------------------------------------------------------

/// An alias in the fediverse is checked by whether its document states the owner, at
/// the owner's address: the address that is on record, else the local one. An account
/// on Bluesky states nothing, and a local user is checked by what is on record here.
pub proof fn law_alias_is_checked_where_it_lives(
    owner: CheckedActor,
    target: CheckedActor,
    local_domain: Seq<char>,
    target_uri: Seq<char>,
)
    ensures
        alias_check(owner, target, Some(local_domain)) is Unverified <==> target.actor_type@
            == "bsky"@,
        alias_check(owner, target, Some(local_domain)) is OwnRecords <==> target.actor_type@
            == "local"@,
        target.actor_type@ != "bsky"@ && target.actor_type@ != "local"@ && text::string_view(
            target.ap_uri,
        ) == Some(target_uri) ==> {
            &&& alias_check(owner, target, Some(local_domain)) matches AliasCheckModel::Document {
                target_uri: t,
                owner_uri,
            }
            &&& t == target_uri
            &&& owner.ap_uri is None ==> ap::local_username(owner_uri, local_domain) == Some(
                owner.username@,
            )
            &&& owner.ap_uri is Some ==> owner_uri == owner.ap_uri->0@
        },
        target.actor_type@ != "bsky"@ && target.actor_type@ != "local"@ && target.ap_uri is None
            ==> alias_check(owner, target, Some(local_domain)) is Leave,
        owner.ap_uri is None ==> !(alias_check(owner, target, None) is Document),
{
    reveal_strlit("bsky");
    reveal_strlit("local");
    assert("bsky"@.len() == 4);
    assert("local"@.len() == 5);
    ap::law_local_actor_uri_names_its_user(local_domain, owner.username@);
}

} // verus!
