//! Waiting for the AT network to take a video.

use crate::json::{Json, JsonModel};
use crate::text;
use vstd::prelude::*;

verus! {

/// The video service.
pub const VIDEO_SERVICE_HOST: &'static str = "https://video.bsky.app";

/// What asking for the state of a video takes.
pub struct VideoJob {
    pub job_id: String,
    pub did: String,
    pub pem: String,
}

/// What asking for the state of a video takes, where it is all there.
pub fn video_job(job_id: Option<String>, did: Option<String>, pem: Option<String>) -> (r: Option<
    VideoJob,
>)
    ensures
        r == (match (job_id, did, pem) {
            (Some(job_id), Some(did), Some(pem)) => Some(VideoJob { job_id, did, pem }),
            _ => None,
        }),
{
    match (job_id, did, pem) {
        (Some(job_id), Some(did), Some(pem)) => Some(VideoJob { job_id, did, pem }),
        _ => None,
    }
}

/// The address at which the state of a video is asked for.
pub fn poll_url(job_id: &str) -> (r: String)
    ensures
        r@ == VIDEO_SERVICE_HOST@ + "/xrpc/app.bsky.video.getJobStatus?jobId="@ + job_id@,
{
    text::cat3(VIDEO_SERVICE_HOST, "/xrpc/app.bsky.video.getJobStatus?jobId=", job_id)
}

/// The DID of this server, for which the request is signed.
pub fn own_pds_did(local_domain: &str) -> (r: String)
    ensures
        r@ == "did:web:"@ + local_domain@,
{
    text::cat("did:web:", local_domain)
}

/// What became of a video.
#[derive(Debug)]
pub enum VideoOutcome {
    /// It was taken, under the CID, and has the size where that is stated.
    Ready { cid: String, size: Option<i64> },
    Failed,
}

/// What became of a video.
pub enum VideoOutcomeModel {
    Ready { cid: Seq<char>, size: Option<int> },
    Failed,
}

impl View for VideoOutcome {
    type V = VideoOutcomeModel;

    open spec fn view(&self) -> VideoOutcomeModel {
        match self {
            VideoOutcome::Ready { cid, size } => VideoOutcomeModel::Ready {
                cid: cid@,
                size: match size {
                    Some(n) => Some(*n as int),
                    None => None,
                },
            },
            VideoOutcome::Failed => VideoOutcomeModel::Failed,
        }
    }
}

/// The part of the answer that tells the state: `jobStatus` where it is there,
/// else the whole.
pub open spec fn job_status(answer: JsonModel) -> JsonModel {
    match answer.member("jobStatus"@) {
        Some(s) => s,
        None => answer,
    }
}

/// The state that an answer tells.
pub open spec fn job_state(answer: JsonModel) -> Seq<char> {
    match job_status(answer).text_at("state"@) {
        Some(s) => s,
        None => seq![],
    }
}

/// A video that was taken.
pub open spec fn completed(status: JsonModel) -> VideoOutcomeModel {
    let blob = status.at("blob"@);
    match blob.at("ref"@).text_at("$link"@) {
        Some(cid) => VideoOutcomeModel::Ready { cid, size: blob.at("size"@).as_int() },
        None => VideoOutcomeModel::Failed,
    }
}

/// What became of a video, by the answer. Where the state is neither of the two
/// final ones it is still being worked on, which is an error: the question is
/// asked again later.
pub open spec fn video_outcome(answer: JsonModel) -> Result<VideoOutcomeModel, Seq<char>> {
    let state = job_state(answer);
    if state == "JOB_STATE_COMPLETED"@ {
        Ok(completed(job_status(answer)))
    } else if state == "JOB_STATE_FAILED"@ {
        Ok(VideoOutcomeModel::Failed)
    } else {
        Err("処理中(state="@ + state + ")"@)
    }
}

/// A video that was taken.
fn read_completed(status: &Json) -> (r: VideoOutcome)
    ensures
        r@ == completed(status@),
{
    let blob: &Json = match status.get("blob") {
        Some(b) => b,
        None => {
            return VideoOutcome::Failed;
        },
    };
    let link: Option<&str> = match blob.get("ref") {
        Some(l) => l.text_at("$link"),
        None => None,
    };
    match link {
        Some(cid) => VideoOutcome::Ready { cid: cid.to_owned(), size: blob.int_at("size") },
        None => VideoOutcome::Failed,
    }
}

/// What became of a video, by the answer.
pub fn read_video_outcome(answer: &Json) -> (r: Result<VideoOutcome, String>)
    ensures
        (match r {
            Ok(o) => Ok(o@),
            Err(e) => Err(e@),
        }) == video_outcome(answer@),
{
    let status: &Json = match answer.get("jobStatus") {
        Some(s) => s,
        None => answer,
    };
    proof {
        reveal_strlit("");
        assert(""@ =~= seq![]);
    }
    let state: &str = match status.text_at("state") {
        Some(s) => s,
        None => "",
    };
    if text::same_str(state, "JOB_STATE_COMPLETED") {
        Ok(read_completed(status))
    } else if text::same_str(state, "JOB_STATE_FAILED") {
        Ok(VideoOutcome::Failed)
    } else {
        Err(text::cat3("処理中(state=", state, ")"))
    }
}

/// What became of a video, where `ok` tells whether the service answered with
/// success at all.
pub fn judge_video_reply(ok: bool, answer: &Json) -> (r: Result<VideoOutcome, String>)
    ensures
        (match r {
            Ok(o) => Ok(o@),
            Err(e) => Err(e@),
        }) == (if ok {
            video_outcome(answer@)
        } else {
            Ok(VideoOutcomeModel::Failed)
        }),
{
    if ok {
        read_video_outcome(answer)
    } else {
        Ok(VideoOutcome::Failed)
    }
}

// ---------------------------------------------------------------------------
// Laws.
// ---------------------------------------------------------------------------

/// A job that is done gives the CID and the size of its file; one that is done
/// without a file, or that failed, failed; any other is still at work. It makes no
/// difference whether the answer wraps the status.
pub proof fn law_state_decides(answer: JsonModel, status: JsonModel, cid: Seq<char>)
    requires
        answer.member("jobStatus"@) == Some(status) || answer.member("jobStatus"@) is None
            && answer == status,
    ensures
        status.text_at("state"@) == Some("JOB_STATE_COMPLETED"@) && status.at("blob"@).at(
            "ref"@,
        ).text_at("$link"@) == Some(cid) ==> {
            &&& video_outcome(answer) is Ok
            &&& video_outcome(answer)->Ok_0 matches VideoOutcomeModel::Ready { cid: c, size }
            &&& c == cid
            &&& size == status.at("blob"@).at("size"@).as_int()
        },
        status.text_at("state"@) == Some("JOB_STATE_COMPLETED"@) && status.at("blob"@).at(
            "ref"@,
        ).text_at("$link"@) is None ==> video_outcome(answer) == Ok::<
            VideoOutcomeModel,
            Seq<char>,
        >(VideoOutcomeModel::Failed),
        status.text_at("state"@) == Some("JOB_STATE_FAILED"@) ==> video_outcome(answer) == Ok::<
            VideoOutcomeModel,
            Seq<char>,
        >(VideoOutcomeModel::Failed),
        status.text_at("state"@) != Some("JOB_STATE_COMPLETED"@) && status.text_at("state"@)
            != Some("JOB_STATE_FAILED"@) ==> video_outcome(answer) is Err,
{
    reveal_strlit("JOB_STATE_COMPLETED");
    reveal_strlit("JOB_STATE_FAILED");
    assert("JOB_STATE_COMPLETED"@.len() == 19);
    assert("JOB_STATE_FAILED"@.len() == 16);
}

} // verus!
