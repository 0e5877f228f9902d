//! Moving an account of the AT network to this server, step by step.

use crate::decimal;
use crate::jobs::inbound_activity_process::note_input;
use crate::json::{Json, JsonModel};
use crate::outside;
use crate::outside::Timestamp;
use crate::text;
use vstd::prelude::*;

verus! {

/// Why a job did not finish.
#[derive(Debug)]
pub enum JobError {
    /// It may work another time.
    Transient(String),
    /// It will never work.
    Permanent(String),
}

/// Where a move stands.
#[derive(Debug, Clone, Copy, PartialEq, Eq, Structural)]
pub enum MigrationStatus {
    FetchingRepo,
    AwaitingSeiranEmail,
    RequestingPlcSignature,
    AwaitingPlcToken,
    ImportingData,
    DeactivatingSource,
    Completed,
    Failed,
}

impl MigrationStatus {
    /// The word under which a status is kept.
    pub open spec fn word(self) -> Seq<char> {
        match self {
            MigrationStatus::FetchingRepo => "fetching_repo"@,
            MigrationStatus::AwaitingSeiranEmail => "awaiting_seiran_email"@,
            MigrationStatus::RequestingPlcSignature => "requesting_plc_signature"@,
            MigrationStatus::AwaitingPlcToken => "awaiting_plc_token"@,
            MigrationStatus::ImportingData => "importing_data"@,
            MigrationStatus::DeactivatingSource => "deactivating_source"@,
            MigrationStatus::Completed => "completed"@,
            MigrationStatus::Failed => "failed"@,
        }
    }

    /// The word under which a status is kept.
    pub fn as_db_str(self) -> (r: &'static str)
        ensures
            r@ == self.word(),
    {
        match self {
            MigrationStatus::FetchingRepo => "fetching_repo",
            MigrationStatus::AwaitingSeiranEmail => "awaiting_seiran_email",
            MigrationStatus::RequestingPlcSignature => "requesting_plc_signature",
            MigrationStatus::AwaitingPlcToken => "awaiting_plc_token",
            MigrationStatus::ImportingData => "importing_data",
            MigrationStatus::DeactivatingSource => "deactivating_source",
            MigrationStatus::Completed => "completed",
            MigrationStatus::Failed => "failed",
        }
    }

    /// How far a move has come.
    pub open spec fn rank(self) -> int {
        match self {
            MigrationStatus::FetchingRepo => 0,
            MigrationStatus::AwaitingSeiranEmail => 1,
            MigrationStatus::RequestingPlcSignature => 2,
            MigrationStatus::AwaitingPlcToken => 3,
            MigrationStatus::ImportingData => 4,
            MigrationStatus::DeactivatingSource => 5,
            MigrationStatus::Completed => 6,
            MigrationStatus::Failed => 7,
        }
    }
}

/// How soon a job that is queued gets its turn.
#[derive(Debug, Clone, Copy, PartialEq, Eq, Structural)]
pub enum JobPriority {
    Normal,
    Low,
}

/// A job of a move.
#[derive(Debug, Clone, Copy, PartialEq, Eq, Structural)]
pub enum MigrationJob {
    FetchRepo,
    RequestPlcSignature,
    ImportProcess,
    DeactivateSource,
}

impl MigrationJob {
    /// The status in which the job has something to do.
    pub open spec fn stage(self) -> MigrationStatus {
        match self {
            MigrationJob::FetchRepo => MigrationStatus::FetchingRepo,
            MigrationJob::RequestPlcSignature => MigrationStatus::RequestingPlcSignature,
            MigrationJob::ImportProcess => MigrationStatus::ImportingData,
            MigrationJob::DeactivateSource => MigrationStatus::DeactivatingSource,
        }
    }

    /// The priority with which the job is queued by a job of the move. The first job
    /// is queued by none.
    pub open spec fn turn(self) -> Option<JobPriority> {
        match self {
            MigrationJob::FetchRepo => None,
            MigrationJob::RequestPlcSignature => Some(JobPriority::Normal),
            MigrationJob::ImportProcess => Some(JobPriority::Low),
            MigrationJob::DeactivateSource => Some(JobPriority::Low),
        }
    }

    /// The priority with which the job is queued by a job of the move.
    pub fn priority(self) -> (r: Option<JobPriority>)
        ensures
            r == self.turn(),
    {
        match self {
            MigrationJob::FetchRepo => None,
            MigrationJob::RequestPlcSignature => Some(JobPriority::Normal),
            MigrationJob::ImportProcess => Some(JobPriority::Low),
            MigrationJob::DeactivateSource => Some(JobPriority::Low),
        }
    }

    /// Whether the job has something to do, by the status that is on record.
    pub fn starts(self, status: Option<&str>) -> (r: bool)
        ensures
            r == (text::str_view(status) == Some(self.stage().word())),
    {
        let wanted: MigrationStatus = match self {
            MigrationJob::FetchRepo => MigrationStatus::FetchingRepo,
            MigrationJob::RequestPlcSignature => MigrationStatus::RequestingPlcSignature,
            MigrationJob::ImportProcess => MigrationStatus::ImportingData,
            MigrationJob::DeactivateSource => MigrationStatus::DeactivatingSource,
        };
        match status {
            Some(s) => text::same_str(s, wanted.as_db_str()),
            None => false,
        }
    }
}

/// What is done once a job is through.
#[derive(Debug, Clone, Copy, PartialEq, Eq, Structural)]
pub struct JobStep {
    /// The status that goes on record.
    pub status: MigrationStatus,
    /// The job that follows at once.
    pub enqueue: Option<MigrationJob>,
}

// ---------------------------------------------------------------------------
// Fetching the repository.
// ---------------------------------------------------------------------------
/// What is done once the repository is fetched: where the site wants addresses
/// confirmed, the user has to do that first.
pub open spec fn fetched_step(require_email_verification: Option<Seq<char>>) -> JobStep {
    if require_email_verification == Some("true"@) {
        JobStep { status: MigrationStatus::AwaitingSeiranEmail, enqueue: None }
    } else {
        JobStep {
            status: MigrationStatus::RequestingPlcSignature,
            enqueue: Some(MigrationJob::RequestPlcSignature),
        }
    }
}

/// What is done once the repository is fetched, by the site's setting.
pub fn after_fetch(require_email_verification: Option<&str>) -> (r: JobStep)
    ensures
        r == fetched_step(text::str_view(require_email_verification)),
{
    let wanted: bool = match require_email_verification {
        Some(v) => text::same_str(v, "true"),
        None => false,
    };
    if wanted {
        JobStep { status: MigrationStatus::AwaitingSeiranEmail, enqueue: None }
    } else {
        JobStep {
            status: MigrationStatus::RequestingPlcSignature,
            enqueue: Some(MigrationJob::RequestPlcSignature),
        }
    }
}

/// What is done where the repository cannot be read: the move fails for good.
pub fn after_unreadable_repo(reason: &str) -> (r: (JobStep, JobError))
    ensures
        r.0 == (JobStep { status: MigrationStatus::Failed, enqueue: None }),
        r.1 matches JobError::Permanent(m) && m@
            == "[MigrationFetchRepo] CARデコード失敗（不正なリポジトリデータ）: "@ + reason@,
{
    (
        JobStep { status: MigrationStatus::Failed, enqueue: None },
        JobError::Permanent(
            text::cat(
                "[MigrationFetchRepo] CARデコード失敗（不正なリポジトリデータ）: ",
                reason,
            ),
        ),
    )
}

/// The session at the server that the account comes from.
#[derive(Debug)]
pub struct AtpSession {
    pub did: String,
    pub handle: String,
    pub access_jwt: String,
    pub refresh_jwt: String,
}

/// The session, by what is on record of the move. A token that is not there is
/// empty.
pub fn source_session(
    did: String,
    handle: String,
    access_jwt: Option<String>,
    refresh_jwt: Option<String>,
) -> (r: AtpSession)
    ensures
        r.did == did,
        r.handle == handle,
        r.access_jwt@ == (match access_jwt {
            Some(t) => t@,
            None => Seq::<char>::empty(),
        }),
        r.refresh_jwt@ == (match refresh_jwt {
            Some(t) => t@,
            None => Seq::<char>::empty(),
        }),
{
    let access: String = match access_jwt {
        Some(t) => t,
        None => String::new(),
    };
    let refresh: String = match refresh_jwt {
        Some(t) => t,
        None => String::new(),
    };
    AtpSession { did, handle, access_jwt: access, refresh_jwt: refresh }
}

/// What is done once the confirmation is asked for.
pub fn after_signature_request() -> (r: JobStep)
    ensures
        r == (JobStep { status: MigrationStatus::AwaitingPlcToken, enqueue: None }),
{
    JobStep { status: MigrationStatus::AwaitingPlcToken, enqueue: None }
}

// ---------------------------------------------------------------------------
// Importing what was fetched.
// ---------------------------------------------------------------------------
/// The actor that the data is imported for; the move has to have one by then.
pub fn import_actor(actor_id: Option<i64>) -> (r: Result<i64, JobError>)
    ensures
        match actor_id {
            Some(id) => r == Ok::<i64, JobError>(id),
            None => r matches Err(JobError::Permanent(m)) && m@
                == "[MigrationImportProcess] actor_id が未確定です"@,
        },
{
    match actor_id {
        Some(id) => Ok(id),
        None => Err(
            JobError::Permanent("[MigrationImportProcess] actor_id が未確定です".to_owned()),
        ),
    }
}

/// What a step of the import does.
#[derive(Debug, Clone, Copy, PartialEq, Eq, Structural)]
pub enum ImportStep {
    /// A record is imported, and another step follows.
    Record,
    /// A file is imported, and another step follows.
    Blob,
    /// All is imported.
    Done(JobStep),
}

/// What a step of the import does: records come first, then files.
pub open spec fn import_step(has_record: bool, has_blob: bool) -> ImportStep {
    if has_record {
        ImportStep::Record
    } else if has_blob {
        ImportStep::Blob
    } else {
        ImportStep::Done(
            JobStep {
                status: MigrationStatus::DeactivatingSource,
                enqueue: Some(MigrationJob::DeactivateSource),
            },
        )
    }
}

/// What a step of the import does. Whether a file is left is asked only where no
/// record is.
pub fn next_import_step(has_record: bool, has_blob: bool) -> (r: ImportStep)
    ensures
        r == import_step(has_record, has_blob),
{
    if has_record {
        ImportStep::Record
    } else if has_blob {
        ImportStep::Blob
    } else {
        ImportStep::Done(
            JobStep {
                status: MigrationStatus::DeactivatingSource,
                enqueue: Some(MigrationJob::DeactivateSource),
            },
        )
    }
}

/// Whether a record becomes a post; every other record is kept as it is.
pub fn is_post_collection(collection: &str) -> (r: bool)
    ensures
        r == (collection@ == "app.bsky.feed.post"@),
{
    text::same_str(collection, "app.bsky.feed.post")
}

/// A post that is imported. It is public, and sent to nobody: it was posted
/// before.
#[derive(Debug)]
pub struct ImportedPost {
    pub id: i64,
    pub actor_id: i64,
    pub body: String,
    pub ap_object_id: String,
    pub created_at: Timestamp,
    pub visibility: &'static str,
    pub deliver_fedi: bool,
    pub deliver_bsky: bool,
}

/// What an imported post stands for.
pub struct ImportedPostModel {
    pub id: i64,
    pub actor_id: i64,
    pub body: Seq<char>,
    pub ap_object_id: Seq<char>,
    pub created_at: Timestamp,
    pub visibility: Seq<char>,
    pub deliver_fedi: bool,
    pub deliver_bsky: bool,
}

impl View for ImportedPost {
    type V = ImportedPostModel;

    open spec fn view(&self) -> ImportedPostModel {
        ImportedPostModel {
            id: self.id,
            actor_id: self.actor_id,
            body: self.body@,
            ap_object_id: self.ap_object_id@,
            created_at: self.created_at,
            visibility: self.visibility@,
            deliver_fedi: self.deliver_fedi,
            deliver_bsky: self.deliver_bsky,
        }
    }
}

/// When a record was made: as it states, else now. `parsed` is what the stated
/// time denotes.
pub fn created_at_or(parsed: Option<Timestamp>, now: Timestamp) -> (r: Timestamp)
    ensures
        r == (match parsed {
            Some(t) => t,
            None => now,
        }),
{
    match parsed {
        Some(t) => t,
        None => now,
    }
}

/// What the time that a record states denotes.
pub open spec fn stated_time(record: JsonModel) -> Option<Timestamp> {
    match record.text_at("createdAt"@) {
        Some(t) => outside::parsed_rfc3339(t),
        None => None,
    }
}

/// The post that a record becomes.
pub open spec fn post_of_record(
    record: JsonModel,
    id: i64,
    actor_id: i64,
    local_domain: Seq<char>,
    now: Timestamp,
) -> ImportedPostModel {
    ImportedPostModel {
        id,
        actor_id,
        body: match record.text_at("text"@) {
            Some(t) => t,
            None => seq![],
        },
        ap_object_id: "https://"@ + local_domain + "/notes/"@ + decimal::int_text(id as int),
        created_at: match stated_time(record) {
            Some(t) => t,
            None => now,
        },
        visibility: "public"@,
        deliver_fedi: false,
        deliver_bsky: false,
    }
}

/// The post that a record becomes.
pub fn imported_post(record: &Json, id: i64, actor_id: i64, local_domain: &str, now: Timestamp) -> (r:
    ImportedPost)
    ensures
        r@ == post_of_record(record@, id, actor_id, local_domain@, now),
{
    let body: String = match record.text_at("text") {
        Some(t) => t.to_owned(),
        None => String::new(),
    };
    assert(record@.text_at("text"@) is None ==> body@ =~= seq![]);
    let parsed: Option<Timestamp> = match record.text_at("createdAt") {
        Some(t) => outside::parse_rfc3339(t),
        None => None,
    };
    ImportedPost {
        id,
        actor_id,
        body,
        ap_object_id: text::cat4(
            "https://",
            local_domain,
            "/notes/",
            decimal::format_i64(id).as_str(),
        ),
        created_at: created_at_or(parsed, now),
        visibility: "public",
        deliver_fedi: false,
        deliver_bsky: false,
    }
}

/// The key by which a file is found again: its digest in hexadecimal.
pub open spec fn blob_key(bytes: Seq<u8>) -> Seq<char> {
    outside::hex_text(outside::sha256_digest(bytes))
}

/// The key by which a file is found again.
pub fn blob_key_of(bytes: &[u8]) -> (r: String)
    ensures
        r@ == blob_key(bytes@),
{
    outside::hex_encode(outside::sha256(bytes).as_slice())
}

/// The name under which a file is stored.
pub fn blob_storage_key(unique: &str, extension: &str) -> (r: String)
    ensures
        r@ == "blobs/"@ + unique@ + "."@ + extension@,
{
    text::cat4("blobs/", unique, ".", extension)
}

// ---------------------------------------------------------------------------
// The order of the import.
// ---------------------------------------------------------------------------
/// What is on record of a move.
#[derive(Debug)]
pub struct MigrationRequest {
    pub status: String,
    pub actor_id: Option<i64>,
    pub source_did: String,
    pub source_handle: String,
    pub source_access_jwt: Option<String>,
    pub source_refresh_jwt: Option<String>,
    pub source_pds_endpoint: String,
}

/// What a session stands for.
pub struct AtpSessionModel {
    pub did: Seq<char>,
    pub handle: Seq<char>,
    pub access_jwt: Seq<char>,
    pub refresh_jwt: Seq<char>,
}

impl View for AtpSession {
    type V = AtpSessionModel;

    open spec fn view(&self) -> AtpSessionModel {
        AtpSessionModel {
            did: self.did@,
            handle: self.handle@,
            access_jwt: self.access_jwt@,
            refresh_jwt: self.refresh_jwt@,
        }
    }
}

/// An optional text, and the empty one where there is none.
pub open spec fn token_or_empty(t: Option<String>) -> Seq<char> {
    match t {
        Some(t) => t@,
        None => seq![],
    }
}

impl MigrationRequest {
    /// The session at the server that the account comes from.
    pub open spec fn session_model(self) -> AtpSessionModel {
        AtpSessionModel {
            did: self.source_did@,
            handle: self.source_handle@,
            access_jwt: token_or_empty(self.source_access_jwt),
            refresh_jwt: token_or_empty(self.source_refresh_jwt),
        }
    }

    /// The session at the server that the account comes from.
    pub fn session(&self) -> (r: AtpSession)
        ensures
            r@ == self.session_model(),
    {
        let r: AtpSession = source_session(
            self.source_did.clone(),
            self.source_handle.clone(),
            self.source_access_jwt.clone(),
            self.source_refresh_jwt.clone(),
        );
        assert(r.access_jwt@ =~= token_or_empty(self.source_access_jwt));
        assert(r.refresh_jwt@ =~= token_or_empty(self.source_refresh_jwt));
        r
    }
}

/// A record that is to be imported.
#[derive(Debug)]
pub struct ClaimedRecord {
    pub id: i64,
    pub collection: String,
    pub rkey: String,
}

/// A file that is to be imported.
#[derive(Debug)]
pub struct ClaimedBlob {
    pub id: i64,
    pub cid: String,
}

/// The answers that there are in one round of the import.
pub struct ImportAnswers {
    /// The server is set up to put records into repositories.
    pub configured: bool,
    /// What is on record of the move.
    pub request: Option<Option<MigrationRequest>>,
    /// The next record that is to be imported.
    pub record: Option<Option<ClaimedRecord>>,
    /// What the record holds, or why it cannot be read.
    pub value: Option<Result<Json, String>>,
    /// The identifier of the new post.
    pub post_id: Option<i64>,
    /// The post was put in.
    pub inserted: bool,
    /// The record was put into the repository.
    pub committed: bool,
    /// The record is marked as imported.
    pub marked_record: bool,
    /// The next file that is to be imported.
    pub blob: Option<Option<ClaimedBlob>>,
    /// The file was stored.
    pub stored: bool,
    /// The file is marked as imported.
    pub marked_blob: bool,
    /// The end of the import went on record.
    pub closed: bool,
}

/// What is done next in a round of the import.
pub enum ImportAction {
    /// The move fails.
    Fail(JobError),
    /// Asks for what is on record of the move.
    FindRequest,
    /// Asks for the next record.
    ClaimRecord,
    /// Asks for what the record holds.
    DecodeRecord,
    /// Asks for the identifier of a new post.
    MakePostId,
    /// The post is put in, with the files that the record embeds.
    InsertPost(ImportedPost),
    /// The record of a post is put into the repository.
    CommitPost { actor_id: i64, post_id: i64, rkey: String },
    /// The record is put into the repository as it is.
    CommitRecord { actor_id: i64, collection: String, rkey: String },
    /// The record is marked as imported.
    MarkRecord(i64),
    /// Asks for the next file.
    ClaimBlob,
    /// The file is fetched from the old server and stored.
    ImportBlob { endpoint: String, session: AtpSession, actor_id: i64, cid: String },
    /// The file is marked as imported.
    MarkBlob(i64),
    /// The end of the import goes on record.
    Close(JobStep),
    /// Another round follows.
    Continue,
    Stop,
}

/// What an action stands for.
pub enum ImportActionModel {
    Fail { permanent: bool, message: Seq<char> },
    FindRequest,
    ClaimRecord,
    DecodeRecord,
    MakePostId,
    InsertPost(ImportedPostModel),
    CommitPost { actor_id: i64, post_id: i64, rkey: Seq<char> },
    CommitRecord { actor_id: i64, collection: Seq<char>, rkey: Seq<char> },
    MarkRecord(i64),
    ClaimBlob,
    ImportBlob { endpoint: Seq<char>, session: AtpSessionModel, actor_id: i64, cid: Seq<char> },
    MarkBlob(i64),
    Close(JobStep),
    Continue,
    Stop,
}

impl View for ImportAction {
    type V = ImportActionModel;

    open spec fn view(&self) -> ImportActionModel {
        match self {
            ImportAction::Fail(JobError::Permanent(m)) => ImportActionModel::Fail {
                permanent: true,
                message: m@,
            },
            ImportAction::Fail(JobError::Transient(m)) => ImportActionModel::Fail {
                permanent: false,
                message: m@,
            },
            ImportAction::FindRequest => ImportActionModel::FindRequest,
            ImportAction::ClaimRecord => ImportActionModel::ClaimRecord,
            ImportAction::DecodeRecord => ImportActionModel::DecodeRecord,
            ImportAction::MakePostId => ImportActionModel::MakePostId,
            ImportAction::InsertPost(p) => ImportActionModel::InsertPost(p@),
            ImportAction::CommitPost { actor_id, post_id, rkey } => ImportActionModel::CommitPost {
                actor_id: *actor_id,
                post_id: *post_id,
                rkey: rkey@,
            },
            ImportAction::CommitRecord { actor_id, collection, rkey } => ImportActionModel::CommitRecord {
                actor_id: *actor_id,
                collection: collection@,
                rkey: rkey@,
            },
            ImportAction::MarkRecord(id) => ImportActionModel::MarkRecord(*id),
            ImportAction::ClaimBlob => ImportActionModel::ClaimBlob,
            ImportAction::ImportBlob { endpoint, session, actor_id, cid } => ImportActionModel::ImportBlob {
                endpoint: endpoint@,
                session: session@,
                actor_id: *actor_id,
                cid: cid@,
            },
            ImportAction::MarkBlob(id) => ImportActionModel::MarkBlob(*id),
            ImportAction::Close(s) => ImportActionModel::Close(*s),
            ImportAction::Continue => ImportActionModel::Continue,
            ImportAction::Stop => ImportActionModel::Stop,
        }
    }
}

/// The actions about a record. One of a post becomes a post and goes into the
/// repository; any other goes into the repository as it is.
pub open spec fn record_action(
    record: ClaimedRecord,
    actor_id: i64,
    local_domain: Seq<char>,
    now: Timestamp,
    a: ImportAnswers,
) -> ImportActionModel {
    let is_post = record.collection@ == "app.bsky.feed.post"@;
    match (a.value, a.post_id) {
        (None, _) => ImportActionModel::DecodeRecord,
        (Some(Err(e)), _) => ImportActionModel::Fail {
            permanent: true,
            message: "[MigrationImportProcess] レコードのCBORデコード失敗 (id="@ + decimal::int_text(
                record.id as int,
            ) + "): "@ + e@,
        },
        (Some(Ok(value)), post_id) => if is_post && post_id is None {
            ImportActionModel::MakePostId
        } else if is_post && !a.inserted {
            ImportActionModel::InsertPost(
                post_of_record(value@, post_id->0, actor_id, local_domain, now),
            )
        } else if !a.committed {
            if is_post {
                ImportActionModel::CommitPost { actor_id, post_id: post_id->0, rkey: record.rkey@ }
            } else {
                ImportActionModel::CommitRecord {
                    actor_id,
                    collection: record.collection@,
                    rkey: record.rkey@,
                }
            }
        } else if !a.marked_record {
            ImportActionModel::MarkRecord(record.id)
        } else {
            ImportActionModel::Continue
        },
    }
}

/// The actions about a file, and about the end where none is left.
pub open spec fn blob_action(q: MigrationRequest, actor_id: i64, a: ImportAnswers) -> ImportActionModel {
    match a.blob {
        None => ImportActionModel::ClaimBlob,
        Some(Some(b)) => if !a.stored {
            ImportActionModel::ImportBlob {
                endpoint: q.source_pds_endpoint@,
                session: q.session_model(),
                actor_id,
                cid: b.cid@,
            }
        } else if !a.marked_blob {
            ImportActionModel::MarkBlob(b.id)
        } else {
            ImportActionModel::Continue
        },
        Some(None) => if !a.closed {
            ImportActionModel::Close(import_step(false, false)->Done_0)
        } else {
            ImportActionModel::Stop
        },
    }
}

/// What is done next in a round of the import, from the answers that there are.
pub open spec fn import_action(local_domain: Seq<char>, now: Timestamp, a: ImportAnswers) -> ImportActionModel {
    match a.request {
        None => ImportActionModel::FindRequest,
        Some(None) => ImportActionModel::Stop,
        Some(Some(q)) => if q.status@ != MigrationJob::ImportProcess.stage().word() {
            ImportActionModel::Stop
        } else {
            match q.actor_id {
                None => ImportActionModel::Fail {
                    permanent: true,
                    message: "[MigrationImportProcess] actor_id が未確定です"@,
                },
                Some(actor_id) => if !a.configured {
                    ImportActionModel::Fail {
                        permanent: false,
                        message: "[MigrationImportProcess] FollowExecConfig 未設定"@,
                    }
                } else {
                    match a.record {
                        None => ImportActionModel::ClaimRecord,
                        Some(Some(record)) => record_action(record, actor_id, local_domain, now, a),
                        Some(None) => blob_action(q, actor_id, a),
                    }
                },
            }
        },
    }
}

fn take_record_action(
    record: &ClaimedRecord,
    actor_id: i64,
    local_domain: &str,
    now: Timestamp,
    a: &ImportAnswers,
) -> (r: ImportAction)
    ensures
        r@ == record_action(*record, actor_id, local_domain@, now, *a),
{
    let value: &Json = match &a.value {
        None => {
            return ImportAction::DecodeRecord;
        },
        Some(Err(e)) => {
            return ImportAction::Fail(
                JobError::Permanent(
                    text::cat4(
                        "[MigrationImportProcess] レコードのCBORデコード失敗 (id=",
                        decimal::format_i64(record.id).as_str(),
                        "): ",
                        e.as_str(),
                    ),
                ),
            );
        },
        Some(Ok(v)) => v,
    };
    if is_post_collection(record.collection.as_str()) {
        let post_id: i64 = match a.post_id {
            Some(id) => id,
            None => {
                return ImportAction::MakePostId;
            },
        };
        if !a.inserted {
            return ImportAction::InsertPost(
                imported_post(value, post_id, actor_id, local_domain, now),
            );
        }
        if !a.committed {
            return ImportAction::CommitPost { actor_id, post_id, rkey: record.rkey.clone() };
        }
    } else if !a.committed {
        return ImportAction::CommitRecord {
            actor_id,
            collection: record.collection.clone(),
            rkey: record.rkey.clone(),
        };
    }
    if !a.marked_record {
        ImportAction::MarkRecord(record.id)
    } else {
        ImportAction::Continue
    }
}

/// What is done next in a round of the import, from the answers that there are.
pub fn next_import_action(local_domain: &str, now: Timestamp, a: &ImportAnswers) -> (r: ImportAction)
    ensures
        r@ == import_action(local_domain@, now, *a),
{
    let q: &MigrationRequest = match &a.request {
        None => {
            return ImportAction::FindRequest;
        },
        Some(None) => {
            return ImportAction::Stop;
        },
        Some(Some(q)) => q,
    };
    if !MigrationJob::ImportProcess.starts(Some(q.status.as_str())) {
        return ImportAction::Stop;
    }
    let actor_id: i64 = match import_actor(q.actor_id) {
        Ok(id) => id,
        Err(e) => {
            return ImportAction::Fail(e);
        },
    };
    if !a.configured {
        return ImportAction::Fail(
            JobError::Transient("[MigrationImportProcess] FollowExecConfig 未設定".to_owned()),
        );
    }
    match &a.record {
        None => {
            return ImportAction::ClaimRecord;
        },
        Some(Some(record)) => {
            return take_record_action(record, actor_id, local_domain, now, a);
        },
        Some(None) => {},
    }
    let has_blob: bool = match &a.blob {
        None => {
            return ImportAction::ClaimBlob;
        },
        Some(b) => b.is_some(),
    };
    match (next_import_step(false, has_blob), &a.blob) {
        (ImportStep::Done(step), _) => {
            if a.closed {
                ImportAction::Stop
            } else {
                ImportAction::Close(step)
            }
        },
        (_, Some(Some(b))) => {
            if !a.stored {
                ImportAction::ImportBlob {
                    endpoint: q.source_pds_endpoint.clone(),
                    session: q.session(),
                    actor_id,
                    cid: b.cid.clone(),
                }
            } else if !a.marked_blob {
                ImportAction::MarkBlob(b.id)
            } else {
                ImportAction::Continue
            }
        },
        _ => ImportAction::Stop,
    }
}

// ---------------------------------------------------------------------------
// The end.
// ---------------------------------------------------------------------------
/// What is done once the old account was asked to go, whatever came of that.
pub fn after_deactivation() -> (r: JobStep)
    ensures
        r == (JobStep { status: MigrationStatus::Completed, enqueue: None }),
{
    JobStep { status: MigrationStatus::Completed, enqueue: None }
}

// ---------------------------------------------------------------------------
// Laws.
// ---------------------------------------------------------------------------
/// A move only goes forward: what a job puts on record comes behind the status
/// in which the job runs, so that no job does its work twice.
pub proof fn law_a_move_goes_forward(setting: Option<Seq<char>>)
    ensures
        fetched_step(setting).status.rank() > MigrationJob::FetchRepo.stage().rank(),
        MigrationStatus::AwaitingPlcToken.rank() > MigrationJob::RequestPlcSignature.stage().rank(),
        import_step(false, false) matches ImportStep::Done(s) ==> s.status.rank()
            > MigrationJob::ImportProcess.stage().rank(),
        MigrationStatus::Completed.rank() > MigrationJob::DeactivateSource.stage().rank(),
{
}

/// A job that is queued finds the status that it runs in.
pub proof fn law_queued_job_has_something_to_do(setting: Option<Seq<char>>)
    ensures
        fetched_step(setting).enqueue matches Some(j) ==> j.stage() == fetched_step(setting).status,
        import_step(false, false) matches ImportStep::Done(s) && s.enqueue matches Some(j)
            && j.stage() == s.status,
{
}

/// The import is done only when neither a record nor a file is left.
pub proof fn law_import_leaves_nothing(has_record: bool, has_blob: bool)
    ensures
        import_step(has_record, has_blob) is Done <==> !has_record && !has_blob,
{
}

/// The words under which the statuses are kept tell them apart.
pub proof fn law_status_words_differ(a: MigrationStatus, b: MigrationStatus)
    ensures
        a.word() == b.word() ==> a == b,
{
    reveal_strlit("fetching_repo");
    reveal_strlit("awaiting_seiran_email");
    reveal_strlit("requesting_plc_signature");
    reveal_strlit("awaiting_plc_token");
    reveal_strlit("importing_data");
    reveal_strlit("deactivating_source");
    reveal_strlit("completed");
    reveal_strlit("failed");
    assert("fetching_repo"@.len() == 13);
    assert("awaiting_seiran_email"@.len() == 21);
    assert("requesting_plc_signature"@.len() == 24);
    assert("awaiting_plc_token"@.len() == 18);
    assert("importing_data"@.len() == 14);
    assert("deactivating_source"@.len() == 19);
    assert("completed"@.len() == 9);
    assert("failed"@.len() == 6);
}

/// A record is marked as imported only once it is in the repository, and the
/// record of a post only once the post is put in.
pub proof fn law_marked_record_is_in_the_repository(
    local_domain: Seq<char>,
    now: Timestamp,
    a: ImportAnswers,
    record: ClaimedRecord,
)
    requires
        a.record == Some(Some(record)),
        import_action(local_domain, now, a) is MarkRecord || import_action(local_domain, now, a)
            is Continue,
    ensures
        a.committed,
        record.collection@ == "app.bsky.feed.post"@ ==> a.inserted,
{
}

/// The import ends only where neither a record nor a file is left.
pub proof fn law_import_ends_when_nothing_is_left(
    local_domain: Seq<char>,
    now: Timestamp,
    a: ImportAnswers,
)
    requires
        import_action(local_domain, now, a) is Close,
    ensures
        a.record matches Some(None),
        a.blob matches Some(None),
{
}

/// A server that has its users confirm their address waits for that; any other goes
/// on to ask for the signature at once.
pub proof fn law_email_is_waited_for(setting: Option<Seq<char>>)
    ensures
        fetched_step(setting).status is AwaitingSeiranEmail <==> setting == Some("true"@),
        fetched_step(setting).enqueue is None <==> setting == Some("true"@),
        setting != Some("true"@) ==> fetched_step(setting).enqueue == Some(
            MigrationJob::RequestPlcSignature,
        ),
{
}

/// A post that is imported is the record's: its text, its time, and a local address
/// that names it. It is public, and is delivered nowhere again.
pub proof fn law_imported_post_is_the_record(
    record: JsonModel,
    id: i64,
    actor_id: i64,
    local_domain: Seq<char>,
    now: Timestamp,
)
    ensures
        ({
            let p = post_of_record(record, id, actor_id, local_domain, now);
            &&& p.id == id
            &&& p.actor_id == actor_id
            &&& record.text_at("text"@) is Some ==> p.body == record.text_at("text"@)->0
            &&& record.text_at("text"@) is None ==> p.body.len() == 0
            &&& note_input::local_note_id(p.ap_object_id, local_domain) == Some(id)
            &&& p.visibility == "public"@
            &&& !p.deliver_fedi && !p.deliver_bsky
            &&& record.text_at("createdAt"@) is None ==> p.created_at == now
            &&& record.text_at("createdAt"@) is Some ==> (match outside::parsed_rfc3339(
                record.text_at("createdAt"@)->0,
            ) {
                Some(t) => p.created_at == t,
                None => p.created_at == now,
            })
        }),
{
    note_input::law_own_addresses_are_known(local_domain, id, local_domain);
}

/// The session of a move is that of the account that moves.
pub proof fn law_session_is_that_of_the_source(q: MigrationRequest)
    ensures
        q.session_model().did == q.source_did@,
        q.session_model().handle == q.source_handle@,
        q.source_access_jwt is Some ==> q.session_model().access_jwt == q.source_access_jwt->0@,
        q.source_refresh_jwt is Some ==> q.session_model().refresh_jwt == q.source_refresh_jwt->0@,
        q.source_access_jwt is None ==> q.session_model().access_jwt.len() == 0,
        q.source_refresh_jwt is None ==> q.session_model().refresh_jwt.len() == 0,
{
}

/// A record is imported for the actor of the move: a post as a post with an
/// identifier of its own and under the record's key, any other record as it is.
pub proof fn law_record_is_imported(
    local_domain: Seq<char>,
    now: Timestamp,
    a: ImportAnswers,
    q: MigrationRequest,
    actor_id: i64,
    record: ClaimedRecord,
    value: Json,
    post_id: i64,
)
    requires
        a.request == Some(Some(q)),
        q.status@ == "importing_data"@,
        q.actor_id == Some(actor_id),
        a.configured,
        a.record == Some(Some(record)),
        a.value == Some(Ok::<Json, String>(value)),
    ensures
        ({
            let act = import_action(local_domain, now, a);
            let is_post = record.collection@ == "app.bsky.feed.post"@;
            &&& is_post && a.post_id is None ==> act is MakePostId
            &&& is_post && a.post_id == Some(post_id) && !a.inserted ==> {
                &&& act matches ImportActionModel::InsertPost(p)
                &&& p.id == post_id
                &&& p.actor_id == actor_id
                &&& value@.text_at("text"@) is Some ==> p.body == value@.text_at("text"@)->0
            }
            &&& is_post && a.post_id == Some(post_id) && a.inserted && !a.committed ==> act
                == (ImportActionModel::CommitPost { actor_id, post_id, rkey: record.rkey@ })
            &&& !is_post && !a.committed ==> act == (ImportActionModel::CommitRecord {
                actor_id,
                collection: record.collection@,
                rkey: record.rkey@,
            })
            &&& (is_post ==> a.post_id is Some && a.inserted) && a.committed ==> (if
                a.marked_record {
                act is Continue
            } else {
                act == ImportActionModel::MarkRecord(record.id)
            })
        }),
{
}

/// A file is fetched from the old server with the session of the move, for its actor
/// and under its CID, and is then marked.
pub proof fn law_file_is_imported(
    local_domain: Seq<char>,
    now: Timestamp,
    a: ImportAnswers,
    q: MigrationRequest,
    actor_id: i64,
    b: ClaimedBlob,
)
    requires
        a.request == Some(Some(q)),
        q.status@ == "importing_data"@,
        q.actor_id == Some(actor_id),
        a.configured,
        a.record == Some(None::<ClaimedRecord>),
    ensures
        a.blob is None ==> import_action(local_domain, now, a) is ClaimBlob,
        a.blob == Some(Some(b)) && !a.stored ==> import_action(local_domain, now, a)
            == (ImportActionModel::ImportBlob {
            endpoint: q.source_pds_endpoint@,
            session: q.session_model(),
            actor_id,
            cid: b.cid@,
        }),
        a.blob == Some(Some(b)) && a.stored && !a.marked_blob ==> import_action(
            local_domain,
            now,
            a,
        ) == ImportActionModel::MarkBlob(b.id),
        a.blob == Some(None::<ClaimedBlob>) && !a.closed ==> import_action(local_domain, now, a)
            is Close,
        a.blob == Some(None::<ClaimedBlob>) && a.closed ==> import_action(local_domain, now, a)
            is Stop,
{
}

/// An import goes on only in its own stage, for a known actor and on a server that is
/// set up for it. A record that cannot be read ends it for good; a server that is not
/// set up may be another time.
pub proof fn law_import_goes_on_in_its_stage(
    local_domain: Seq<char>,
    now: Timestamp,
    a: ImportAnswers,
    q: MigrationRequest,
)
    ensures
        a.request is None ==> import_action(local_domain, now, a) is FindRequest,
        a.request == Some(None::<MigrationRequest>) ==> import_action(local_domain, now, a) is Stop,
        a.request == Some(Some(q)) && q.status@ != "importing_data"@ ==> import_action(
            local_domain,
            now,
            a,
        ) is Stop,
        a.request == Some(Some(q)) && q.status@ == "importing_data"@ && q.actor_id is None ==> (
        import_action(local_domain, now, a) matches ImportActionModel::Fail { permanent, .. }
            && permanent),
        a.request == Some(Some(q)) && q.status@ == "importing_data"@ && q.actor_id is Some
            && !a.configured ==> (import_action(local_domain, now, a) matches
            ImportActionModel::Fail { permanent, .. } && !permanent),
        a.request == Some(Some(q)) && q.status@ == "importing_data"@ && q.actor_id is Some
            && a.configured && a.record is None ==> import_action(local_domain, now, a)
            is ClaimRecord,
        a.request == Some(Some(q)) && q.status@ == "importing_data"@ && q.actor_id is Some
            && a.configured && a.record is Some && a.record->0 is Some && a.value is None
            ==> import_action(local_domain, now, a) is DecodeRecord,
        a.request == Some(Some(q)) && q.status@ == "importing_data"@ && q.actor_id is Some
            && a.configured && a.record is Some && a.record->0 is Some && a.value is Some
            && a.value->0 is Err ==> (import_action(local_domain, now, a) matches
            ImportActionModel::Fail { permanent, .. } && permanent),
{
}

/// Each job belongs to the stage of its name, and the long ones wait behind others.
pub proof fn law_jobs_have_their_stages(job: MigrationJob)
    ensures
        job.stage().word() == (match job {
            MigrationJob::FetchRepo => "fetching_repo"@,
            MigrationJob::RequestPlcSignature => "requesting_plc_signature"@,
            MigrationJob::ImportProcess => "importing_data"@,
            MigrationJob::DeactivateSource => "deactivating_source"@,
        }),
        job is ImportProcess || job is DeactivateSource ==> job.turn() == Some(JobPriority::Low),
        job is RequestPlcSignature ==> job.turn() == Some(JobPriority::Normal),
        job is FetchRepo ==> job.turn() is None,
{
}

} // verus!
