//! Fetching the post that a bridged one was made from.

use crate::jobs::poll_fetch::FetchedObject;
use crate::json::Json;
use crate::text;
use vstd::prelude::*;

verus! {

/// The network that the original is on.
#[derive(Debug, Clone, Copy, PartialEq, Eq, Structural)]
pub enum OriginalNetwork {
    Atp,
    Ap,
}

/// The network that a word names.
pub fn parse_protocol(word: &str) -> (r: Option<OriginalNetwork>)
    ensures
        r == (if word@ == "atp"@ {
            Some(OriginalNetwork::Atp)
        } else if word@ == "ap"@ {
            Some(OriginalNetwork::Ap)
        } else {
            None
        }),
{
    if text::same_str(word, "atp") {
        Some(OriginalNetwork::Atp)
    } else if text::same_str(word, "ap") {
        Some(OriginalNetwork::Ap)
    } else {
        None
    }
}

/// The note that is kept: what was fetched, nothing where it is gone, and an
/// error where it could not be fetched, after which it is tried again.
pub fn original_note(fetched: FetchedObject) -> (r: Result<Option<Json>, String>)
    ensures
        match fetched {
            FetchedObject::Found(o) => r == Ok::<Option<Json>, String>(Some(o)),
            FetchedObject::Gone => r == Ok::<Option<Json>, String>(None),
            FetchedObject::Failed(e) => r matches Err(m) && m@ == "元AP投稿の取得失敗: "@ + e@,
        },
{
    match fetched {
        FetchedObject::Found(o) => Ok(Some(o)),
        FetchedObject::Gone => Ok(None),
        FetchedObject::Failed(e) => Err(text::cat("元AP投稿の取得失敗: ", e.as_str())),
    }
}

} // verus!
