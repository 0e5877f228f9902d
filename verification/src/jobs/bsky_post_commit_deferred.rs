//! Putting a post with a video on the AT network once the video is there.

use crate::decimal;
use crate::outside::Timestamp;
use crate::text;
use vstd::prelude::*;

verus! {

/// How long a post waits for its video, in seconds.
pub const SETTLE_TIMEOUT_SECS: i64 = 70;

/// What a post on the AT network shows beside its text.
#[derive(Debug)]
pub enum BskyEmbed {
    External { url: String, title: String, description: String },
    Video { cid: String, mime_type: String, size: i64, width: i32, height: i32 },
}

/// What a post shows.
pub enum EmbedModel {
    External { url: Seq<char>, title: Seq<char>, description: Seq<char> },
    Video { cid: Seq<char>, mime_type: Seq<char>, size: i64, width: i32, height: i32 },
}

impl View for BskyEmbed {
    type V = EmbedModel;

    open spec fn view(&self) -> EmbedModel {
        match self {
            BskyEmbed::External { url, title, description } => EmbedModel::External {
                url: url@,
                title: title@,
                description: description@,
            },
            BskyEmbed::Video { cid, mime_type, size, width, height } => EmbedModel::Video {
                cid: cid@,
                mime_type: mime_type@,
                size: *size,
                width: *width,
                height: *height,
            },
        }
    }
}

/// A link to the page on which this server plays the file.
pub open spec fn watch_page(local_domain: Seq<char>, media_file_id: i64) -> EmbedModel {
    EmbedModel::External {
        url: "https://"@ + local_domain + "/api/media/"@ + decimal::int_text(media_file_id as int)
            + "/watch"@,
        title: seq![],
        description: seq![],
    }
}

/// A link to the page on which this server plays the file.
pub fn watch_page_fallback_embed(local_domain: &str, media_file_id: i64) -> (r: BskyEmbed)
    ensures
        r@ == watch_page(local_domain@, media_file_id),
{
    let id: String = decimal::format_i64(media_file_id);
    let title: String = String::new();
    let description: String = String::new();
    assert(title@ =~= seq![]);
    assert(description@ =~= seq![]);
    BskyEmbed::External {
        url: text::cat5("https://", local_domain, "/api/media/", id.as_str(), "/watch"),
        title,
        description,
    }
}

/// A file, as the database knows it.
pub struct MediaFile {
    pub mime_type: String,
    pub width: Option<i32>,
    pub height: Option<i32>,
    pub size: i64,
    pub bsky_video_cid: Option<String>,
    pub bsky_video_status: Option<String>,
    pub bsky_video_size: Option<i64>,
}

/// The size of the picture that stands in for one where a file is only sound.
#[derive(Debug, Clone, Copy, PartialEq, Eq, Structural)]
pub struct AudioFrame {
    pub width: i32,
    pub height: i32,
}

/// The AT network has finished with the file, either way.
pub open spec fn settled(f: MediaFile) -> bool {
    text::string_view(f.bsky_video_status) == Some("ready"@) || text::string_view(
        f.bsky_video_status,
    ) == Some("failed"@)
}

/// The value, or zero.
pub open spec fn or_zero(v: Option<i32>) -> i32 {
    match v {
        Some(n) => n,
        None => 0,
    }
}

/// The video on the AT network.
pub open spec fn video_embed(f: MediaFile, cid: Seq<char>, frame: AudioFrame) -> EmbedModel {
    let audio = text::starts_with(f.mime_type@, "audio/"@);
    EmbedModel::Video {
        cid,
        mime_type: "video/mp4"@,
        size: match f.bsky_video_size {
            Some(n) => n,
            None => f.size,
        },
        width: if audio {
            frame.width
        } else {
            or_zero(f.width)
        },
        height: if audio {
            frame.height
        } else {
            or_zero(f.height)
        },
    }
}

/// What the post shows: the video where the AT network has it, else a link to
/// this server. While the network has not finished, and the wait is not over,
/// the post is put off, which is an error: the job is tried again.
pub open spec fn chosen_embed(
    file: Option<MediaFile>,
    media_file_id: i64,
    elapsed_secs: i64,
    local_domain: Seq<char>,
    frame: AudioFrame,
) -> Result<EmbedModel, Seq<char>> {
    match file {
        None => Ok(watch_page(local_domain, media_file_id)),
        Some(f) => if !settled(f) && elapsed_secs < SETTLE_TIMEOUT_SECS {
            Err(
                "動画パイプライン結合待ち（経過"@ + decimal::int_text(elapsed_secs as int)
                    + "秒）"@,
            )
        } else {
            match f.bsky_video_cid {
                Some(cid) if text::string_view(f.bsky_video_status) == Some("ready"@) => Ok(
                    video_embed(f, cid@, frame),
                ),
                _ => Ok(watch_page(local_domain, media_file_id)),
            }
        },
    }
}

/// The video on the AT network.
fn make_video_embed(f: &MediaFile, cid: &str, frame: AudioFrame) -> (r: BskyEmbed)
    ensures
        r@ == video_embed(*f, cid@, frame),
{
    let chars: Vec<char> = text::chars_of(f.mime_type.as_str());
    let audio: bool = text::has_prefix(chars.as_slice(), "audio/");
    let size: i64 = match f.bsky_video_size {
        Some(n) => n,
        None => f.size,
    };
    let width: i32 = match f.width {
        Some(n) => n,
        None => 0,
    };
    let height: i32 = match f.height {
        Some(n) => n,
        None => 0,
    };
    BskyEmbed::Video {
        cid: cid.to_owned(),
        mime_type: "video/mp4".to_owned(),
        size,
        width: if audio {
            frame.width
        } else {
            width
        },
        height: if audio {
            frame.height
        } else {
            height
        },
    }
}

/// What the post shows.
pub fn choose_embed(
    file: &Option<MediaFile>,
    media_file_id: i64,
    elapsed_secs: i64,
    local_domain: &str,
    frame: AudioFrame,
) -> (r: Result<BskyEmbed, String>)
    ensures
        (match r {
            Ok(e) => Ok(e@),
            Err(m) => Err(m@),
        }) == chosen_embed(*file, media_file_id, elapsed_secs, local_domain@, frame),
{
    let f: &MediaFile = match file {
        Some(f) => f,
        None => {
            return Ok(watch_page_fallback_embed(local_domain, media_file_id));
        },
    };
    let (ready, failed): (bool, bool) = match &f.bsky_video_status {
        Some(s) => (text::same_str(s.as_str(), "ready"), text::same_str(s.as_str(), "failed")),
        None => (false, false),
    };
    if !ready && !failed && elapsed_secs < SETTLE_TIMEOUT_SECS {
        return Err(
            text::cat3(
                "動画パイプライン結合待ち（経過",
                decimal::format_i64(elapsed_secs).as_str(),
                "秒）",
            ),
        );
    }
    if ready {
        match &f.bsky_video_cid {
            Some(cid) => {
                return Ok(make_video_embed(f, cid.as_str(), frame));
            },
            None => {},
        }
    }
    Ok(watch_page_fallback_embed(local_domain, media_file_id))
}

/// The nanoseconds from the start of 1970 to a point in time.
pub open spec fn nanos_of(t: Timestamp) -> int {
    t.secs * 1_000_000_000 + t.nanos
}

/// The whole seconds from one point in time to another, without the fraction.
pub open spec fn whole_seconds(from: Timestamp, to: Timestamp) -> int {
    let d = nanos_of(to) - nanos_of(from);
    if d >= 0 {
        d / 1_000_000_000
    } else {
        -((-d) / 1_000_000_000)
    }
}

/// The whole seconds from one point in time to another; the times have to be
/// such that they can be counted.
pub fn elapsed_seconds(from: Timestamp, to: Timestamp) -> (r: i64)
    requires
        i64::MIN <= whole_seconds(from, to) <= i64::MAX,
    ensures
        r == whole_seconds(from, to),
{
    let a: i128 = from.secs as i128 * 1_000_000_000 + from.nanos as i128;
    let b: i128 = to.secs as i128 * 1_000_000_000 + to.nanos as i128;
    let d: i128 = b - a;
    if d >= 0 {
        (d / 1_000_000_000) as i64
    } else {
        let back: i128 = (-d) / 1_000_000_000;
        (-back) as i64
    }
}

/// A reference to a post on the AT network.
#[derive(Debug)]
pub struct BskyRefRecord {
    pub uri: String,
    pub cid: String,
}

/// What a reply replies to: the start of the thread, and the post itself.
#[derive(Debug)]
pub struct BskyPostReply {
    pub root: BskyRefRecord,
    pub parent: BskyRefRecord,
}

/// What a reply replies to, by the address and the CID of the post it replies to;
/// nothing where that one is not on the AT network. The post counts as the start
/// of the thread too.
pub fn reply_reference(at_uri: Option<String>, at_cid: Option<String>) -> (r: Option<BskyPostReply>)
    ensures
        match (at_uri, at_cid) {
            (Some(uri), Some(cid)) => {
                &&& r matches Some(p)
                &&& p.root.uri@ == uri@ && p.root.cid@ == cid@
                &&& p.parent.uri@ == uri@ && p.parent.cid@ == cid@
            },
            _ => r is None,
        },
{
    match (at_uri, at_cid) {
        (Some(uri), Some(cid)) => Some(
            BskyPostReply {
                root: BskyRefRecord { uri: uri.clone(), cid: cid.clone() },
                parent: BskyRefRecord { uri, cid },
            },
        ),
        _ => None,
    }
}

// ---------------------------------------------------------------------------
// Laws.
// ---------------------------------------------------------------------------
/// No post waits for its video for ever: once the wait is over it is put on the
/// AT network, whatever became of the video.
pub proof fn law_no_post_waits_for_ever(
    file: Option<MediaFile>,
    media_file_id: i64,
    elapsed_secs: i64,
    local_domain: Seq<char>,
    frame: AudioFrame,
)
    requires
        elapsed_secs >= SETTLE_TIMEOUT_SECS,
    ensures
        chosen_embed(file, media_file_id, elapsed_secs, local_domain, frame) is Ok,
{
}

/// A post without a video that could be used links to the page where the file can be
/// watched; the page is told by the file's number.
pub proof fn law_watch_page_names_the_file(local_domain: Seq<char>, a: i64, b: i64)
    ensures
        watch_page(local_domain, a) == watch_page(local_domain, b) <==> a == b,
        watch_page(local_domain, a) matches EmbedModel::External { url, title, description }
            && url == "https://"@ + local_domain + "/api/media/"@ + decimal::int_text(a as int)
            + "/watch"@ && title.len() == 0 && description.len() == 0,
{
    let p = "https://"@ + local_domain + "/api/media/"@;
    let w = "/watch"@;
    let x = decimal::int_text(a as int);
    let y = decimal::int_text(b as int);
    if p + x + w == p + y + w {
        assert((p + x + w).len() == (p + y + w).len());
        assert((p + x + w).subrange(p.len() as int, (p.len() + x.len()) as int) =~= x);
        assert((p + y + w).subrange(p.len() as int, (p.len() + y.len()) as int) =~= y);
    }
    decimal::law_notation_denotes(a as int);
    decimal::law_notation_denotes(b as int);
}

/// A file whose video is ready is embedded as that video: under its CID, with the
/// video's size where it is known, and in the file's own measures, or those of the
/// frame where it is sound. Anything else that is settled, or waited for in vain,
/// links to the page.
pub proof fn law_ready_video_is_embedded(
    f: MediaFile,
    cid: String,
    media_file_id: i64,
    elapsed_secs: i64,
    local_domain: Seq<char>,
    frame: AudioFrame,
)
    requires
        f.bsky_video_cid == Some(cid),
    ensures
        text::string_view(f.bsky_video_status) == Some("ready"@) ==> {
            &&& chosen_embed(Some(f), media_file_id, elapsed_secs, local_domain, frame) is Ok
            &&& chosen_embed(
                Some(f),
                media_file_id,
                elapsed_secs,
                local_domain,
                frame,
            )->Ok_0 matches EmbedModel::Video { cid: c, mime_type, size, width, height }
            &&& c == cid@
            &&& mime_type == "video/mp4"@
            &&& f.bsky_video_size is Some ==> size == f.bsky_video_size->0
            &&& f.bsky_video_size is None ==> size == f.size
            &&& text::starts_with(f.mime_type@, "audio/"@) ==> width == frame.width && height
                == frame.height
            &&& !text::starts_with(f.mime_type@, "audio/"@) ==> (f.width is Some ==> width
                == f.width->0) && (f.width is None ==> width == 0) && (f.height is Some ==> height
                == f.height->0) && (f.height is None ==> height == 0)
        },
        text::string_view(f.bsky_video_status) == Some("failed"@) ==> chosen_embed(
            Some(f),
            media_file_id,
            elapsed_secs,
            local_domain,
            frame,
        ) == Ok::<EmbedModel, Seq<char>>(watch_page(local_domain, media_file_id)),
        text::string_view(f.bsky_video_status) != Some("ready"@) && text::string_view(
            f.bsky_video_status,
        ) != Some("failed"@) ==> (chosen_embed(
            Some(f),
            media_file_id,
            elapsed_secs,
            local_domain,
            frame,
        ) is Err <==> elapsed_secs < 70),
        text::string_view(f.bsky_video_status) != Some("ready"@) && elapsed_secs >= 70
            ==> chosen_embed(Some(f), media_file_id, elapsed_secs, local_domain, frame) == Ok::<
            EmbedModel,
            Seq<char>,
        >(watch_page(local_domain, media_file_id)),
{
    reveal_strlit("ready");
    reveal_strlit("failed");
    assert("ready"@.len() == 5);
    assert("failed"@.len() == 6);
}

/// A file that is gone, or whose video has no CID, links to the page.
pub proof fn law_missing_video_links_to_the_page(
    f: MediaFile,
    media_file_id: i64,
    elapsed_secs: i64,
    local_domain: Seq<char>,
    frame: AudioFrame,
)
    ensures
        chosen_embed(None, media_file_id, elapsed_secs, local_domain, frame) == Ok::<
            EmbedModel,
            Seq<char>,
        >(watch_page(local_domain, media_file_id)),
        f.bsky_video_cid is None && text::string_view(f.bsky_video_status) == Some("ready"@)
            ==> chosen_embed(Some(f), media_file_id, elapsed_secs, local_domain, frame) == Ok::<
            EmbedModel,
            Seq<char>,
        >(watch_page(local_domain, media_file_id)),
{
}

/// The seconds between two times are whole ones, counted towards zero, and counted
/// backwards they are the same.
pub proof fn law_seconds_are_counted_towards_zero(from: Timestamp, to: Timestamp)
    ensures
        whole_seconds(from, to) == -whole_seconds(to, from),
        nanos_of(from) <= nanos_of(to) ==> 0 <= whole_seconds(from, to) && whole_seconds(from, to)
            * 1_000_000_000 <= nanos_of(to) - nanos_of(from) < (whole_seconds(from, to) + 1)
            * 1_000_000_000,
        from.nanos == to.nanos ==> whole_seconds(from, to) == to.secs - from.secs,
{
}

} // verus!
