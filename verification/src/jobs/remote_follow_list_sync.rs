//! Fetching whom a remote actor follows, and who follows it.

use crate::jobs::remote_actor_resolve;
use crate::text;
use vstd::prelude::*;

verus! {

/// How many actors are fetched at most.
pub const MAX_ITEMS: usize = 5000;

/// Which of an actor's lists is fetched.
#[derive(Debug, Clone, Copy, PartialEq, Eq, Structural)]
pub enum FollowDirection {
    Following,
    Followers,
}

/// The list that a word names, or why it names none.
pub open spec fn direction_of(word: Seq<char>) -> Result<FollowDirection, Seq<char>> {
    if word == "following"@ {
        Ok(FollowDirection::Following)
    } else if word == "followers"@ {
        Ok(FollowDirection::Followers)
    } else {
        Err("不正な direction です: "@ + word)
    }
}

/// The list that a word names.
pub fn parse_direction(word: &str) -> (r: Result<FollowDirection, String>)
    ensures
        (match r {
            Ok(d) => Ok(d),
            Err(e) => Err(e@),
        }) == direction_of(word@),
{
    if text::same_str(word, "following") {
        Ok(FollowDirection::Following)
    } else if text::same_str(word, "followers") {
        Ok(FollowDirection::Followers)
    } else {
        Err(text::cat("不正な direction です: ", word))
    }
}

/// The address of the list, of those that an actor's document states.
pub fn collection_url(
    direction: FollowDirection,
    following: Option<String>,
    followers: Option<String>,
) -> (r: Option<String>)
    ensures
        r == (match direction {
            FollowDirection::Following => following,
            FollowDirection::Followers => followers,
        }),
{
    match direction {
        FollowDirection::Following => following,
        FollowDirection::Followers => followers,
    }
}

/// The domain of a web address; a text that is none is taken whole.
pub fn extract_domain(uri: &str) -> (r: String)
    ensures
        r@ == remote_actor_resolve::domain_of(uri@),
{
    remote_actor_resolve::extract_domain(uri)
}

// ---------------------------------------------------------------------------
// Laws.
// ---------------------------------------------------------------------------

/// A list is asked for by its name; any other word is refused.
pub proof fn law_direction_is_named(word: Seq<char>)
    ensures
        direction_of(word) == Ok::<FollowDirection, Seq<char>>(FollowDirection::Following) <==> word
            == "following"@,
        direction_of(word) == Ok::<FollowDirection, Seq<char>>(FollowDirection::Followers) <==> word
            == "followers"@,
        direction_of(word) is Err <==> word != "following"@ && word != "followers"@,
{
    reveal_strlit("following");
    reveal_strlit("followers");
    assert("following"@.len() == 9);
    assert("followers"@.len() == 9);
    assert("following"@[6] != "followers"@[6]);
}

} // verus!
