//! Finding the player that a link card shows.

use crate::jobs::ogp_fetch;
use crate::jobs::ogp_fetch::{FetchFailure, OgpData};
use vstd::prelude::*;

verus! {

/// What the page of a link card says of itself; nothing where it says nothing.
pub fn page_for_embed(fetched: Result<Option<OgpData>, FetchFailure>, url: &str) -> (r: Result<
    Option<OgpData>,
    String,
>)
    ensures
        (match r {
            Ok(v) => Ok(v),
            Err(e) => Err(e@),
        }) == ogp_fetch::fetched_for_job(
            fetched,
            "embed解決失敗（リトライ対象）: url="@,
            url@,
        ),
{
    ogp_fetch::judge_fetch(fetched, "embed解決失敗（リトライ対象）: url=", url)
}

} // verus!
