//! Blocks of local users by remote actors.

use crate::ap;
use crate::json::{Json, JsonModel};
use vstd::prelude::*;

verus! {

/// A block of a local user.
pub struct BlockRequest {
    pub blocker_uri: String,
    pub local_username: String,
}

/// What a block stands for.
pub struct BlockRequestModel {
    pub blocker_uri: Seq<char>,
    pub local_username: Seq<char>,
}

impl View for BlockRequest {
    type V = BlockRequestModel;

    open spec fn view(&self) -> BlockRequestModel {
        BlockRequestModel { blocker_uri: self.blocker_uri@, local_username: self.local_username@ }
    }
}

/// The block that an activity makes, or why it makes none.
pub open spec fn block_request(activity: JsonModel, local_domain: Seq<char>) -> Result<
    BlockRequestModel,
    Seq<char>,
> {
    match (activity.text_at("actor"@), activity.text_at("object"@)) {
        (None, _) => Err("Block: actor フィールドがありません"@),
        (_, None) => Err("Block: object フィールドがありません"@),
        (Some(blocker_uri), Some(target)) => match ap::local_username(target, local_domain) {
            Some(local_username) => Ok(BlockRequestModel { blocker_uri, local_username }),
            None => Err("Block: object URI が自ドメインのアクターを指していません"@),
        },
    }
}

/// The block that an activity makes.
pub fn read_block(activity: &Json, local_domain: &str) -> (r: Result<BlockRequest, String>)
    ensures
        (match r {
            Ok(q) => Ok(q@),
            Err(e) => Err(e@),
        }) == block_request(activity@, local_domain@),
{
    let blocker: &str = match activity.text_at("actor") {
        Some(a) => a,
        None => {
            return Err("Block: actor フィールドがありません".to_owned());
        },
    };
    let target: &str = match activity.text_at("object") {
        Some(o) => o,
        None => {
            return Err("Block: object フィールドがありません".to_owned());
        },
    };
    match ap::extract_local_username(target, local_domain) {
        Some(u) => Ok(
            BlockRequest { blocker_uri: blocker.to_owned(), local_username: u.to_owned() },
        ),
        None => Err("Block: object URI が自ドメインのアクターを指していません".to_owned()),
    }
}

/// What a block does: it is kept, and the blocked user's own follow of the
/// blocker is dropped.
#[derive(Debug, Clone, Copy, PartialEq, Eq)]
pub struct BlockEffects {
    /// Who blocks whom.
    pub block: (i64, i64),
    /// Whose follow of whom is dropped.
    pub dropped_follow: (i64, i64),
}

/// What a block of a local user by a remote actor does.
pub fn block_effects(remote_actor_id: i64, local_actor_id: i64) -> (r: BlockEffects)
    ensures
        r.block == (remote_actor_id, local_actor_id),
        r.dropped_follow == (local_actor_id, remote_actor_id),
{
    BlockEffects {
        block: (remote_actor_id, local_actor_id),
        dropped_follow: (local_actor_id, remote_actor_id),
    }
}

// ---------------------------------------------------------------------------
// Laws.
// ---------------------------------------------------------------------------

/// A block of a local user is read as what it says: who blocks whom. A block of
/// anybody else, or by nobody, is refused.
pub proof fn law_block_names_its_parties(
    activity: JsonModel,
    local_domain: Seq<char>,
    blocker_uri: Seq<char>,
    username: Seq<char>,
)
    ensures
        activity.text_at("actor"@) == Some(blocker_uri) && activity.text_at("object"@) == Some(
            ap::local_actor_uri(local_domain, username),
        ) ==> block_request(activity, local_domain) == Ok::<_, Seq<char>>(
            BlockRequestModel { blocker_uri, local_username: username },
        ),
        activity.text_at("actor"@) is None || activity.text_at("object"@) is None
            ==> block_request(activity, local_domain) is Err,
        block_request(activity, local_domain) matches Ok(q) ==> activity.text_at("actor"@) == Some(
            q.blocker_uri,
        ) && activity.text_at("object"@) == Some(
            ap::local_actor_uri(local_domain, q.local_username),
        ),
{
    ap::law_local_actor_uri_names_its_user(local_domain, username);
    if activity.text_at("object"@) is Some {
        ap::law_local_user_has_one_address(activity.text_at("object"@)->0, local_domain);
    }
}

/// A block that cannot be read is refused with what it lacks.
pub proof fn law_refusal_names_what_is_missing(activity: JsonModel, local_domain: Seq<char>)
    ensures
        ({
            let actor = activity.text_at("actor"@);
            let object = activity.text_at("object"@);
            let r = block_request(activity, local_domain);
            &&& actor is None ==> r == Err::<BlockRequestModel, Seq<char>>(
                "Block: actor フィールドがありません"@,
            )
            &&& actor is Some && object is None ==> r == Err::<BlockRequestModel, Seq<char>>(
                "Block: object フィールドがありません"@,
            )
            &&& actor is Some && object is Some && ap::local_username(object->0, local_domain)
                is None ==> r == Err::<BlockRequestModel, Seq<char>>(
                "Block: object URI が自ドメインのアクターを指していません"@,
            )
        }),
{
}

} // verus!
