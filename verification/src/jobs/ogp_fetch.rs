//! Fetching what a link card shows.

use crate::text;
use vstd::prelude::*;

verus! {

/// Why something could not be fetched.
#[derive(Debug, Clone, Copy, PartialEq, Eq, Structural)]
pub enum FetchFailure {
    FetchFailed,
    UpstreamError,
    DnsFailed,
    /// It is of a kind that is not read.
    UnsupportedType,
    /// It is not to be fetched at all.
    Refused,
}

impl FetchFailure {
    /// It may work another time.
    pub open spec fn transient(self) -> bool {
        self is FetchFailed || self is UpstreamError || self is DnsFailed
    }

    /// Whether it may work another time.
    pub fn is_transient(self) -> (r: bool)
        ensures
            r == self.transient(),
    {
        match self {
            FetchFailure::FetchFailed => true,
            FetchFailure::UpstreamError => true,
            FetchFailure::DnsFailed => true,
            FetchFailure::UnsupportedType => false,
            FetchFailure::Refused => false,
        }
    }
}

/// What came of fetching something for a job: it, nothing, or an error after
/// which the job is tried again. A failure that will not pass gives nothing.
pub open spec fn fetched_for_job<T>(
    fetched: Result<Option<T>, FetchFailure>,
    what: Seq<char>,
    subject: Seq<char>,
) -> Result<Option<T>, Seq<char>> {
    match fetched {
        Ok(v) => Ok(v),
        Err(f) => if f.transient() {
            Err(what + subject)
        } else {
            Ok(None)
        },
    }
}

/// What came of fetching something for a job.
pub(crate) fn judge_fetch<T>(
    fetched: Result<Option<T>, FetchFailure>,
    what: &str,
    subject: &str,
) -> (r: Result<Option<T>, String>)
    ensures
        (match r {
            Ok(v) => Ok(v),
            Err(e) => Err(e@),
        }) == fetched_for_job(fetched, what@, subject@),
{
    match fetched {
        Ok(v) => Ok(v),
        Err(f) => {
            if f.is_transient() {
                Err(text::cat(what, subject))
            } else {
                Ok(None)
            }
        },
    }
}

/// What a page says of itself for a link card.
#[derive(Debug)]
pub struct OgpData {
    pub title: String,
    pub description: Option<String>,
    pub thumbnail_url: Option<String>,
    pub embed_src: Option<String>,
    pub embed_type: Option<String>,
}

/// The card that a link gets; none where the page says nothing of itself.
pub fn card_for_link(fetched: Result<Option<OgpData>, FetchFailure>, url: &str) -> (r: Result<
    Option<OgpData>,
    String,
>)
    ensures
        (match r {
            Ok(v) => Ok(v),
            Err(e) => Err(e@),
        }) == fetched_for_job(fetched, "OGP取得失敗（リトライ対象）: url="@, url@),
{
    judge_fetch(fetched, "OGP取得失敗（リトライ対象）: url=", url)
}

// ---------------------------------------------------------------------------
// Laws.
// ---------------------------------------------------------------------------

/// A page that could not be had may be had another time, so the job fails and is
/// tried again; one that is not to be read is settled as having nothing.
pub proof fn law_passing_failures_are_tried_again<T>(
    failure: FetchFailure,
    page: Option<T>,
    what: Seq<char>,
    subject: Seq<char>,
)
    ensures
        fetched_for_job(Ok(page), what, subject) == Ok::<Option<T>, Seq<char>>(page),
        fetched_for_job(Err::<Option<T>, FetchFailure>(failure), what, subject) is Err
            <==> failure is FetchFailed || failure is UpstreamError || failure is DnsFailed,
        failure is UnsupportedType || failure is Refused ==> fetched_for_job(
            Err::<Option<T>, FetchFailure>(failure),
            what,
            subject,
        ) == Ok::<Option<T>, Seq<char>>(None),
{
}

} // verus!
