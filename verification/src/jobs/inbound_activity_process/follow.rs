//! Requests to follow local users, and answers to requests that local users
//! made.

use crate::ap;
use crate::decimal;
use crate::jobs::inbound_activity_process::actor;
use crate::jobs::inbound_activity_process::actor::{Actor, RemoteActorInfo};
use crate::jobs::inbound_activity_process::create;
use crate::json;
use crate::json::{Json, JsonModel};
use crate::text;
use vstd::prelude::*;
use vstd::slice::slice_subrange;

verus! {

// ---------------------------------------------------------------------------
// Requests to follow a local user.
// ---------------------------------------------------------------------------
/// A request to follow a local user.
pub struct FollowRequest {
    pub follower_uri: String,
    pub local_username: String,
}

/// What a request stands for.
pub struct FollowRequestModel {
    pub follower_uri: Seq<char>,
    pub local_username: Seq<char>,
}

impl View for FollowRequest {
    type V = FollowRequestModel;

    open spec fn view(&self) -> FollowRequestModel {
        FollowRequestModel {
            follower_uri: self.follower_uri@,
            local_username: self.local_username@,
        }
    }
}

/// The request that an activity makes, or why it makes none.
pub open spec fn follow_request(activity: JsonModel, local_domain: Seq<char>) -> Result<
    FollowRequestModel,
    Seq<char>,
> {
    match (activity.text_at("actor"@), activity.text_at("object"@)) {
        (None, _) => Err("Follow: actor フィールドがありません"@),
        (_, None) => Err("Follow: object フィールドがありません"@),
        (Some(follower_uri), Some(target)) => match ap::local_username(target, local_domain) {
            Some(local_username) => Ok(FollowRequestModel { follower_uri, local_username }),
            None => Err("Follow: object URI が自ドメインのアクターを指していません"@),
        },
    }
}

/// The request that an activity makes.
pub fn read_follow(activity: &Json, local_domain: &str) -> (r: Result<FollowRequest, String>)
    ensures
        (match r {
            Ok(q) => Ok(q@),
            Err(e) => Err(e@),
        }) == follow_request(activity@, local_domain@),
{
    let follower: &str = match activity.text_at("actor") {
        Some(a) => a,
        None => {
            return Err("Follow: actor フィールドがありません".to_owned());
        },
    };
    let target: &str = match activity.text_at("object") {
        Some(o) => o,
        None => {
            return Err("Follow: object フィールドがありません".to_owned());
        },
    };
    match ap::extract_local_username(target, local_domain) {
        Some(u) => Ok(
            FollowRequest { follower_uri: follower.to_owned(), local_username: u.to_owned() },
        ),
        None => Err("Follow: object URI が自ドメインのアクターを指していません".to_owned()),
    }
}

/// The actor who asks can be answered.
pub fn check_follower(remote: &RemoteActorInfo) -> (r: Result<(), String>)
    ensures
        r is Ok <==> remote.inbox@.len() > 0,
        r matches Err(e) ==> e@ == "Follow: リモートアクターの inbox が取得できません"@,
{
    if remote.inbox.as_str().is_empty() {
        Err("Follow: リモートアクターの inbox が取得できません".to_owned())
    } else {
        Ok(())
    }
}

/// What is done with a request: nothing, silently, where the local user blocks
/// the one who asks; else the follow is kept and the request accepted.
#[derive(Debug, Clone, Copy, PartialEq, Eq, Structural)]
pub enum FollowDecision {
    Ignore,
    Accept { follower_actor_id: i64, local_actor_id: i64 },
}

/// What is done with a request.
pub fn decide_follow(local_actor_id: i64, follower_actor_id: i64, is_blocking: bool) -> (r:
    FollowDecision)
    ensures
        is_blocking ==> r == FollowDecision::Ignore,
        !is_blocking ==> r == (FollowDecision::Accept { follower_actor_id, local_actor_id }),
{
    if is_blocking {
        FollowDecision::Ignore
    } else {
        FollowDecision::Accept { follower_actor_id, local_actor_id }
    }
}

/// The activity that accepts a request.
pub open spec fn accept_activity(
    local_domain: Seq<char>,
    local_username: Seq<char>,
    serial: i64,
    request: JsonModel,
) -> JsonModel {
    JsonModel::Obj(
        seq![
            json::member_of("@context"@, JsonModel::Str("https://www.w3.org/ns/activitystreams"@)),
            json::member_of("type"@, JsonModel::Str("Accept"@)),
            json::member_of(
                "id"@,
                JsonModel::Str(
                    "https://"@ + local_domain + "/accepts/"@ + decimal::int_text(serial as int),
                ),
            ),
            json::member_of(
                "actor"@,
                JsonModel::Str(ap::local_actor_uri(local_domain, local_username)),
            ),
            json::member_of("object"@, request),
        ],
    )
}

/// The activity that accepts a request, under the given serial number.
pub fn make_accept_activity(
    local_domain: &str,
    local_username: &str,
    serial: i64,
    request: &Json,
) -> (r: Json)
    ensures
        r@ == accept_activity(local_domain@, local_username@, serial, request@),
{
    let number: String = decimal::format_i64(serial);
    let id: String = text::cat4("https://", local_domain, "/accepts/", number.as_str());
    let actor: String = ap::local_actor_uri_of(local_domain, local_username);
    let ms: Vec<json::Member> = vec![
        json::member("@context", json::text_json("https://www.w3.org/ns/activitystreams")),
        json::member("type", json::text_json("Accept")),
        json::member("id", json::text_json(id.as_str())),
        json::member("actor", json::text_json(actor.as_str())),
        json::member("object", request.duplicate()),
    ];
    assert(json::member_models(ms@) =~= accept_activity(
        local_domain@,
        local_username@,
        serial,
        request@,
    )->Obj_0);
    json::object(ms)
}

/// The event that tells of a follow: the actor.
pub open spec fn follow_event(username: Seq<char>, domain: Seq<char>, display_name: JsonModel) -> JsonModel {
    JsonModel::Obj(
        seq![json::member_of("actor"@, create::actor_object(username, domain, display_name))],
    )
}

/// The event that tells of a follow.
pub fn make_follow_event(username: &str, domain: &str, display_name: Option<&str>) -> (r: Json)
    ensures
        r@ == follow_event(
            username@,
            domain@,
            json::text_or_null(text::str_view(display_name)),
        ),
{
    let shown: Json = json::opt_text_json(display_name);
    let ms: Vec<json::Member> = vec![
        json::member("actor", create::make_actor_object(username, domain, shown)),
    ];
    assert(json::member_models(ms@) =~= follow_event(
        username@,
        domain@,
        json::text_or_null(text::str_view(display_name)),
    )->Obj_0);
    json::object(ms)
}

// ---------------------------------------------------------------------------
// The order in which a request to follow is handled.
// ---------------------------------------------------------------------------
/// The answers that there are about a request to follow.
pub struct FollowAnswers {
    /// The actor that is found under the name of the local user.
    pub local: Option<Option<Actor>>,
    /// The actor who asks.
    pub follower: Option<RemoteActorInfo>,
    /// The local user blocks the one who asks.
    pub is_blocking: Option<bool>,
}

/// What is done next about a request to follow.
pub enum FollowStep {
    Refuse(String),
    /// The request is left without an answer.
    Ignore,
    /// Asks for the actor of the given name.
    FindLocal(String),
    /// Asks for the actor of the given address, who is put in where they are new.
    UpsertFollower(String),
    /// Asks whether the first actor blocks the second.
    FindBlock { local_actor_id: i64, follower_actor_id: i64 },
    /// The follow is kept, the local user is told, and the request is accepted.
    Accept {
        follower_actor_id: i64,
        local_actor_id: i64,
        local_username: String,
        event: Json,
        inbox: String,
        key_id: String,
    },
}

/// What a step stands for.
pub enum FollowStepModel {
    Refuse(Seq<char>),
    Ignore,
    FindLocal(Seq<char>),
    UpsertFollower(Seq<char>),
    FindBlock { local_actor_id: i64, follower_actor_id: i64 },
    Accept {
        follower_actor_id: i64,
        local_actor_id: i64,
        local_username: Seq<char>,
        event: JsonModel,
        inbox: Seq<char>,
        key_id: Seq<char>,
    },
}

impl View for FollowStep {
    type V = FollowStepModel;

    open spec fn view(&self) -> FollowStepModel {
        match self {
            FollowStep::Refuse(e) => FollowStepModel::Refuse(e@),
            FollowStep::Ignore => FollowStepModel::Ignore,
            FollowStep::FindLocal(u) => FollowStepModel::FindLocal(u@),
            FollowStep::UpsertFollower(u) => FollowStepModel::UpsertFollower(u@),
            FollowStep::FindBlock { local_actor_id, follower_actor_id } => FollowStepModel::FindBlock {
                local_actor_id: *local_actor_id,
                follower_actor_id: *follower_actor_id,
            },
            FollowStep::Accept {
                follower_actor_id,
                local_actor_id,
                local_username,
                event,
                inbox,
                key_id,
            } => FollowStepModel::Accept {
                follower_actor_id: *follower_actor_id,
                local_actor_id: *local_actor_id,
                local_username: local_username@,
                event: event@,
                inbox: inbox@,
                key_id: key_id@,
            },
        }
    }
}

/// The steps once the local user is known.
pub open spec fn follower_step(
    q: FollowRequestModel,
    local_domain: Seq<char>,
    local_actor_id: i64,
    a: FollowAnswers,
) -> FollowStepModel {
    match (a.follower, a.is_blocking) {
        (None, _) => FollowStepModel::UpsertFollower(q.follower_uri),
        (Some(f), blocking) => if f.inbox@.len() == 0 {
            FollowStepModel::Refuse("Follow: リモートアクターの inbox が取得できません"@)
        } else {
            match blocking {
                None => FollowStepModel::FindBlock {
                    local_actor_id,
                    follower_actor_id: f.actor_id,
                },
                Some(true) => FollowStepModel::Ignore,
                Some(false) => FollowStepModel::Accept {
                    follower_actor_id: f.actor_id,
                    local_actor_id,
                    local_username: q.local_username,
                    event: follow_event(
                        f.username@,
                        f.domain@,
                        JsonModel::Str(f.display_name@),
                    ),
                    inbox: f.inbox@,
                    key_id: ap::main_key_id(ap::local_actor_uri(local_domain, q.local_username)),
                },
            }
        },
    }
}

/// What is done next about a request to follow, from the answers that there are.
pub open spec fn follow_step(activity: JsonModel, local_domain: Seq<char>, a: FollowAnswers) -> FollowStepModel {
    match follow_request(activity, local_domain) {
        Err(e) => FollowStepModel::Refuse(e),
        Ok(q) => match a.local {
            None => FollowStepModel::FindLocal(q.local_username),
            Some(found) => match actor::admitted_local(found, q.local_username) {
                Err(e) => FollowStepModel::Refuse(e),
                Ok(local_actor_id) => follower_step(q, local_domain, local_actor_id, a),
            },
        },
    }
}

/// What is done next about a request to follow, from the answers that there are.
pub fn next_follow_step(activity: &Json, local_domain: &str, a: &FollowAnswers) -> (r: FollowStep)
    ensures
        r@ == follow_step(activity@, local_domain@, *a),
{
    let q: FollowRequest = match read_follow(activity, local_domain) {
        Ok(q) => q,
        Err(e) => {
            return FollowStep::Refuse(e);
        },
    };
    let found: &Option<Actor> = match &a.local {
        Some(f) => f,
        None => {
            return FollowStep::FindLocal(q.local_username);
        },
    };
    let local_actor_id: i64 = match actor::admit_local_actor(found, q.local_username.as_str()) {
        Ok(id) => id,
        Err(e) => {
            return FollowStep::Refuse(e);
        },
    };
    let f: &RemoteActorInfo = match &a.follower {
        Some(f) => f,
        None => {
            return FollowStep::UpsertFollower(q.follower_uri);
        },
    };
    match check_follower(f) {
        Ok(()) => {},
        Err(e) => {
            return FollowStep::Refuse(e);
        },
    }
    let is_blocking: bool = match a.is_blocking {
        Some(b) => b,
        None => {
            return FollowStep::FindBlock { local_actor_id, follower_actor_id: f.actor_id };
        },
    };
    match decide_follow(local_actor_id, f.actor_id, is_blocking) {
        FollowDecision::Ignore => FollowStep::Ignore,
        FollowDecision::Accept { follower_actor_id, local_actor_id } => {
            let uri: String = ap::local_actor_uri_of(local_domain, q.local_username.as_str());
            FollowStep::Accept {
                follower_actor_id,
                local_actor_id,
                event: make_follow_event(
                    f.username.as_str(),
                    f.domain.as_str(),
                    Some(f.display_name.as_str()),
                ),
                inbox: f.inbox.clone(),
                key_id: ap::main_key_id_of(uri.as_str()),
                local_username: q.local_username,
            }
        },
    }
}

// ---------------------------------------------------------------------------
// Requests that local users made.
// ---------------------------------------------------------------------------
/// The identifier of a local user's request to follow a remote actor.
pub open spec fn follow_activity_id(local_domain: Seq<char>, local_id: i64, remote_id: i64) -> Seq<char> {
    "https://"@ + local_domain + "/activities/follow/"@ + decimal::int_text(local_id as int) + "-"@
        + decimal::int_text(remote_id as int)
}

/// The identifier of a local user's request to follow a remote actor.
pub fn make_follow_activity_id(local_domain: &str, local_id: i64, remote_id: i64) -> (r: String)
    ensures
        r@ == follow_activity_id(local_domain@, local_id, remote_id),
{
    text::cat6(
        "https://",
        local_domain,
        "/activities/follow/",
        decimal::format_i64(local_id).as_str(),
        "-",
        decimal::format_i64(remote_id).as_str(),
    )
}

/// The local user and the remote actor that the identifier of a request names:
/// two numbers, the first up to the first hyphen.
pub open spec fn follow_activity_parties(uri: Seq<char>, local_domain: Seq<char>) -> Option<(i64, i64)> {
    match text::strip_prefix(uri, "https://"@ + local_domain + "/activities/follow/"@) {
        None => None,
        Some(ids) => match text::after_text(ids, "-"@) {
            None => None,
            Some(second) => match (
                decimal::denoted_i64(text::before_text(ids, "-"@)),
                decimal::denoted_i64(second),
            ) {
                (Some(a), Some(b)) => Some((a, b)),
                _ => None,
            },
        },
    }
}

/// The local user and the remote actor that the identifier of a request names.
pub fn parse_local_follow_activity_id(uri: &str, local_domain: &str) -> (r: Option<(i64, i64)>)
    ensures
        r == follow_activity_parties(uri@, local_domain@),
{
    let prefix: String = text::cat3("https://", local_domain, "/activities/follow/");
    let ids: &str = match ap::strip_prefix_str(uri, prefix.as_str()) {
        Some(t) => t,
        None => {
            return None;
        },
    };
    let chars: Vec<char> = text::chars_of(ids);
    let hyphen: Vec<char> = text::chars_of("-");
    match text::find(chars.as_slice(), hyphen.as_slice(), 0) {
        None => None,
        Some(k) => {
            let first: Option<i64> = decimal::parse_i64(slice_subrange(chars.as_slice(), 0, k));
            let second: Option<i64> = decimal::parse_i64(
                slice_subrange(chars.as_slice(), k + hyphen.len(), chars.len()),
            );
            match (first, second) {
                (Some(a), Some(b)) => Some((a, b)),
                _ => None,
            }
        },
    }
}

/// What an acceptance is about.
pub enum AcceptSubject {
    /// It is about no request to follow.
    Ignore,
    /// The request is named by its identifier, which names both sides.
    ByIds { remote_uri: String, local_actor_id: i64, remote_actor_id: i64 },
    /// The request is given whole, by the local user's name.
    ByName { remote_uri: String, local_username: String },
}

/// What the subject of an acceptance stands for.
pub enum AcceptSubjectModel {
    Ignore,
    ByIds { remote_uri: Seq<char>, local_actor_id: i64, remote_actor_id: i64 },
    ByName { remote_uri: Seq<char>, local_username: Seq<char> },
}

impl View for AcceptSubject {
    type V = AcceptSubjectModel;

    open spec fn view(&self) -> AcceptSubjectModel {
        match self {
            AcceptSubject::Ignore => AcceptSubjectModel::Ignore,
            AcceptSubject::ByIds { remote_uri, local_actor_id, remote_actor_id } => AcceptSubjectModel::ByIds {
                remote_uri: remote_uri@,
                local_actor_id: *local_actor_id,
                remote_actor_id: *remote_actor_id,
            },
            AcceptSubject::ByName { remote_uri, local_username } => AcceptSubjectModel::ByName {
                remote_uri: remote_uri@,
                local_username: local_username@,
            },
        }
    }
}

/// The two sides that the object of an acceptance names, where it is the
/// identifier of a local user's request.
pub open spec fn named_parties(object: JsonModel, local_domain: Seq<char>) -> Option<(i64, i64)> {
    match object.as_str() {
        Some(uri) => follow_activity_parties(uri, local_domain),
        None => None,
    }
}

/// What an acceptance is about.
pub open spec fn accept_subject(activity: JsonModel, local_domain: Seq<char>) -> Result<
    AcceptSubjectModel,
    Seq<char>,
> {
    let object = activity.at("object"@);
    match activity.text_at("actor"@) {
        None => Err("Accept: actor がありません"@),
        Some(remote_uri) => match named_parties(object, local_domain) {
            Some(p) => Ok(
                AcceptSubjectModel::ByIds {
                    remote_uri,
                    local_actor_id: p.0,
                    remote_actor_id: p.1,
                },
            ),
            None => if object.text_at("type"@) != Some("Follow"@) {
                Ok(AcceptSubjectModel::Ignore)
            } else {
                match object.text_at("actor"@) {
                    None => Err("Accept/Follow: object.actor がありません"@),
                    Some(uri) => match ap::local_username(uri, local_domain) {
                        None => Err("Accept: object.actor がローカルアクターではありません"@),
                        Some(local_username) => Ok(
                            AcceptSubjectModel::ByName { remote_uri, local_username },
                        ),
                    },
                }
            },
        },
    }
}

/// What an acceptance is about.
pub fn read_accept(activity: &Json, local_domain: &str) -> (r: Result<AcceptSubject, String>)
    ensures
        (match r {
            Ok(q) => Ok(q@),
            Err(e) => Err(e@),
        }) == accept_subject(activity@, local_domain@),
{
    let remote: &str = match activity.text_at("actor") {
        Some(a) => a,
        None => {
            return Err("Accept: actor がありません".to_owned());
        },
    };
    let object: &Json = match activity.get("object") {
        Some(o) => o,
        None => {
            return Ok(AcceptSubject::Ignore);
        },
    };
    let named: Option<(i64, i64)> = match object.as_str() {
        Some(uri) => parse_local_follow_activity_id(uri, local_domain),
        None => None,
    };
    match named {
        Some((local_actor_id, remote_actor_id)) => {
            return Ok(
                AcceptSubject::ByIds {
                    remote_uri: remote.to_owned(),
                    local_actor_id,
                    remote_actor_id,
                },
            );
        },
        None => {},
    }
    if !object.text_is("type", "Follow") {
        return Ok(AcceptSubject::Ignore);
    }
    let uri: &str = match object.text_at("actor") {
        Some(u) => u,
        None => {
            return Err("Accept/Follow: object.actor がありません".to_owned());
        },
    };
    match ap::extract_local_username(uri, local_domain) {
        Some(u) => Ok(
            AcceptSubject::ByName {
                remote_uri: remote.to_owned(),
                local_username: u.to_owned(),
            },
        ),
        None => Err("Accept: object.actor がローカルアクターではありません".to_owned()),
    }
}

/// The actor that accepts, as it is found under its address, is the one whom the
/// identifier of the request names.
pub open spec fn accepting_actor(found: Option<Actor>, remote_uri: Seq<char>, expected: Option<i64>) -> Result<
    i64,
    Seq<char>,
> {
    match found {
        None => Err("リモートアクター '"@ + remote_uri + "' が DB に見つかりません"@),
        Some(a) => if expected is Some && expected->0 != a.id {
            Err("Accept: actor が Follow Activity の送信先と一致しません"@)
        } else {
            Ok(a.id)
        },
    }
}

/// Checks the actor that accepts.
pub fn check_accepting_actor(found: &Option<Actor>, remote_uri: &str, expected: Option<i64>) -> (r:
    Result<i64, String>)
    ensures
        actor::result_view(r) == accepting_actor(
            *found,
            remote_uri@,
            expected,
        ),
{
    match found {
        None => Err(text::cat3("リモートアクター '", remote_uri, "' が DB に見つかりません")),
        Some(a) => {
            match expected {
                Some(id) => {
                    if id != a.id {
                        return Err(
                            "Accept: actor が Follow Activity の送信先と一致しません".to_owned(),
                        );
                    }
                },
                None => {},
            }
            Ok(a.id)
        },
    }
}

/// The local user who asked, as they were found, or why there is none.
pub open spec fn asking_actor(found: Option<Actor>, subject: AcceptSubjectModel) -> Result<i64, Seq<char>> {
    match found {
        None => match subject {
            AcceptSubjectModel::ByIds { local_actor_id, .. } => Err(
                "ローカルアクター ID '"@ + decimal::int_text(local_actor_id as int)
                    + "' が見つかりません"@,
            ),
            AcceptSubjectModel::ByName { local_username, .. } => Err(
                "ローカルアクター '"@ + local_username + "' が見つかりません"@,
            ),
            AcceptSubjectModel::Ignore => Err(Seq::empty()),
        },
        Some(a) => if a.local() {
            Ok(a.id)
        } else {
            Err(
                "actor ID '"@ + decimal::int_text(a.id as int)
                    + "' はローカルアクターではありません"@,
            )
        },
    }
}

/// Checks the local user who asked.
pub fn check_asking_actor(found: &Option<Actor>, subject: &AcceptSubject) -> (r: Result<i64, String>)
    ensures
        actor::result_view(r) == asking_actor(
            *found,
            subject@,
        ),
{
    match found {
        None => match subject {
            AcceptSubject::ByIds { local_actor_id, .. } => Err(
                text::cat3(
                    "ローカルアクター ID '",
                    decimal::format_i64(*local_actor_id).as_str(),
                    "' が見つかりません",
                ),
            ),
            AcceptSubject::ByName { local_username, .. } => Err(
                text::cat3("ローカルアクター '", local_username.as_str(), "' が見つかりません"),
            ),
            AcceptSubject::Ignore => Err(String::new()),
        },
        Some(a) => {
            if a.is_local() {
                Ok(a.id)
            } else {
                Err(
                    text::cat3(
                        "actor ID '",
                        decimal::format_i64(a.id).as_str(),
                        "' はローカルアクターではありません",
                    ),
                )
            }
        },
    }
}

/// Whether the local user is told that the request was accepted: only where it
/// was not accepted before.
pub fn tells_of_acceptance(changed_rows: u64) -> (r: bool)
    ensures
        r == (changed_rows > 0),
{
    changed_rows > 0
}

/// The answers that there are about an acceptance.
pub struct AcceptAnswers {
    /// The actor that is found under the address of the one who accepts.
    pub remote: Option<Option<Actor>>,
    /// The actor that is found for the local user who asked.
    pub local: Option<Option<Actor>>,
    /// How many follows were changed.
    pub changed_rows: Option<u64>,
}

/// What is done next about an acceptance.
pub enum AcceptStep {
    Refuse(String),
    Done,
    /// Asks for the actor of the given address.
    FindRemote(String),
    /// Asks for the actor of the given identifier.
    FindLocalById(i64),
    /// Asks for the actor of the given name.
    FindLocalByName(String),
    /// The follow is accepted.
    Accept { local_actor_id: i64, remote_actor_id: i64 },
    /// The local user is told.
    Tell { local_actor_id: i64, remote_actor_id: i64, event: Json },
}

/// What a step stands for.
pub enum AcceptStepModel {
    Refuse(Seq<char>),
    Done,
    FindRemote(Seq<char>),
    FindLocalById(i64),
    FindLocalByName(Seq<char>),
    Accept { local_actor_id: i64, remote_actor_id: i64 },
    Tell { local_actor_id: i64, remote_actor_id: i64, event: JsonModel },
}

impl View for AcceptStep {
    type V = AcceptStepModel;

    open spec fn view(&self) -> AcceptStepModel {
        match self {
            AcceptStep::Refuse(e) => AcceptStepModel::Refuse(e@),
            AcceptStep::Done => AcceptStepModel::Done,
            AcceptStep::FindRemote(u) => AcceptStepModel::FindRemote(u@),
            AcceptStep::FindLocalById(id) => AcceptStepModel::FindLocalById(*id),
            AcceptStep::FindLocalByName(u) => AcceptStepModel::FindLocalByName(u@),
            AcceptStep::Accept { local_actor_id, remote_actor_id } => AcceptStepModel::Accept {
                local_actor_id: *local_actor_id,
                remote_actor_id: *remote_actor_id,
            },
            AcceptStep::Tell { local_actor_id, remote_actor_id, event } => AcceptStepModel::Tell {
                local_actor_id: *local_actor_id,
                remote_actor_id: *remote_actor_id,
                event: event@,
            },
        }
    }
}

/// The last steps about an acceptance: the follow is accepted, and the local user
/// is told where it was not accepted before.
pub open spec fn accepted_step(local_actor_id: i64, remote: Actor, changed_rows: Option<u64>) -> AcceptStepModel {
    match changed_rows {
        None => AcceptStepModel::Accept { local_actor_id, remote_actor_id: remote.id },
        Some(rows) => if rows > 0 {
            AcceptStepModel::Tell {
                local_actor_id,
                remote_actor_id: remote.id,
                event: follow_event(
                    remote.username@,
                    remote.domain@,
                    json::text_or_null(text::string_view(remote.display_name)),
                ),
            }
        } else {
            AcceptStepModel::Done
        },
    }
}

/// The steps about an acceptance that names the request by its identifier: first
/// the one who accepts must be the one who was asked.
pub open spec fn accept_by_ids(
    subject: AcceptSubjectModel,
    remote_uri: Seq<char>,
    local_actor_id: i64,
    remote_actor_id: i64,
    a: AcceptAnswers,
) -> AcceptStepModel {
    match a.remote {
        None => AcceptStepModel::FindRemote(remote_uri),
        Some(remote) => match accepting_actor(remote, remote_uri, Some(remote_actor_id)) {
            Err(e) => AcceptStepModel::Refuse(e),
            Ok(_) => match a.local {
                None => AcceptStepModel::FindLocalById(local_actor_id),
                Some(local) => match asking_actor(local, subject) {
                    Err(e) => AcceptStepModel::Refuse(e),
                    Ok(id) => accepted_step(id, remote->0, a.changed_rows),
                },
            },
        },
    }
}

/// The steps about an acceptance that gives the request whole.
pub open spec fn accept_by_name(
    subject: AcceptSubjectModel,
    remote_uri: Seq<char>,
    local_username: Seq<char>,
    a: AcceptAnswers,
) -> AcceptStepModel {
    match a.local {
        None => AcceptStepModel::FindLocalByName(local_username),
        Some(local) => match asking_actor(local, subject) {
            Err(e) => AcceptStepModel::Refuse(e),
            Ok(id) => match a.remote {
                None => AcceptStepModel::FindRemote(remote_uri),
                Some(remote) => match accepting_actor(remote, remote_uri, None) {
                    Err(e) => AcceptStepModel::Refuse(e),
                    Ok(_) => accepted_step(id, remote->0, a.changed_rows),
                },
            },
        },
    }
}

/// What is done next about an acceptance, from the answers that there are.
pub open spec fn accept_step(activity: JsonModel, local_domain: Seq<char>, a: AcceptAnswers) -> AcceptStepModel {
    match accept_subject(activity, local_domain) {
        Err(e) => AcceptStepModel::Refuse(e),
        Ok(subject) => match subject {
            AcceptSubjectModel::Ignore => AcceptStepModel::Done,
            AcceptSubjectModel::ByIds { remote_uri, local_actor_id, remote_actor_id } => accept_by_ids(
                subject,
                remote_uri,
                local_actor_id,
                remote_actor_id,
                a,
            ),
            AcceptSubjectModel::ByName { remote_uri, local_username } => accept_by_name(
                subject,
                remote_uri,
                local_username,
                a,
            ),
        },
    }
}

fn take_accepted_step(local_actor_id: i64, remote: &Actor, changed_rows: Option<u64>) -> (r: AcceptStep)
    ensures
        r@ == accepted_step(local_actor_id, *remote, changed_rows),
{
    match changed_rows {
        None => AcceptStep::Accept { local_actor_id, remote_actor_id: remote.id },
        Some(rows) => {
            if tells_of_acceptance(rows) {
                let shown: Option<&str> = match &remote.display_name {
                    Some(d) => Some(d.as_str()),
                    None => None,
                };
                AcceptStep::Tell {
                    local_actor_id,
                    remote_actor_id: remote.id,
                    event: make_follow_event(
                        remote.username.as_str(),
                        remote.domain.as_str(),
                        shown,
                    ),
                }
            } else {
                AcceptStep::Done
            }
        },
    }
}

/// The one who accepts, checked, or the step that comes before.
fn take_remote_step<'a>(
    remote: &'a Option<Option<Actor>>,
    remote_uri: &str,
    expected: Option<i64>,
) -> (r: Result<&'a Actor, AcceptStep>)
    ensures
        match *remote {
            None => r matches Err(s) && s@ == AcceptStepModel::FindRemote(remote_uri@),
            Some(found) => match accepting_actor(found, remote_uri@, expected) {
                Err(e) => r matches Err(s) && s@ == AcceptStepModel::Refuse(e),
                Ok(_) => r matches Ok(x) && *x == found->0,
            },
        },
{
    match remote {
        None => Err(AcceptStep::FindRemote(remote_uri.to_owned())),
        Some(found) => match check_accepting_actor(found, remote_uri, expected) {
            Err(e) => Err(AcceptStep::Refuse(e)),
            Ok(_) => match found {
                Some(x) => Ok(x),
                None => Err(AcceptStep::Done),
            },
        },
    }
}

/// What is done next about an acceptance, from the answers that there are.
pub fn next_accept_step(activity: &Json, local_domain: &str, a: &AcceptAnswers) -> (r: AcceptStep)
    ensures
        r@ == accept_step(activity@, local_domain@, *a),
{
    let subject: AcceptSubject = match read_accept(activity, local_domain) {
        Ok(s) => s,
        Err(e) => {
            return AcceptStep::Refuse(e);
        },
    };
    match &subject {
        AcceptSubject::Ignore => AcceptStep::Done,
        AcceptSubject::ByIds { remote_uri, local_actor_id, remote_actor_id } => {
            let remote: &Actor = match take_remote_step(
                &a.remote,
                remote_uri.as_str(),
                Some(*remote_actor_id),
            ) {
                Ok(x) => x,
                Err(s) => {
                    return s;
                },
            };
            match &a.local {
                None => AcceptStep::FindLocalById(*local_actor_id),
                Some(found) => match check_asking_actor(found, &subject) {
                    Err(e) => AcceptStep::Refuse(e),
                    Ok(id) => take_accepted_step(id, remote, a.changed_rows),
                },
            }
        },
        AcceptSubject::ByName { remote_uri, local_username } => {
            let id: i64 = match &a.local {
                None => {
                    return AcceptStep::FindLocalByName(local_username.clone());
                },
                Some(found) => match check_asking_actor(found, &subject) {
                    Err(e) => {
                        return AcceptStep::Refuse(e);
                    },
                    Ok(id) => id,
                },
            };
            match take_remote_step(&a.remote, remote_uri.as_str(), None) {
                Ok(remote) => take_accepted_step(id, remote, a.changed_rows),
                Err(s) => s,
            }
        },
    }
}

// ---------------------------------------------------------------------------
// Laws.
// ---------------------------------------------------------------------------
proof fn lemma_digits_no_hyphen(n: nat)
    ensures
        !decimal::nat_text(n).contains('-'),
    decreases n,
{
    if n >= 10 {
        lemma_digits_no_hyphen(n / 10);
        let s = decimal::nat_text(n / 10);
        assert forall|i: int| 0 <= i < decimal::nat_text(n).len() implies decimal::nat_text(n)[i]
            != '-' by {
            if i < s.len() {
                assert(s.contains(s[i]));
            }
        }
    }
}

/// The identifier of a request names the two sides that it was made for. A
/// negative identifier of a local user is the exception: its sign would be taken
/// for the hyphen.
pub proof fn law_follow_activity_id_names_its_parties(
    local_domain: Seq<char>,
    local_id: i64,
    remote_id: i64,
)
    requires
        local_id >= 0,
    ensures
        follow_activity_parties(
            follow_activity_id(local_domain, local_id, remote_id),
            local_domain,
        ) == Some((local_id, remote_id)),
{
    reveal_strlit("-");
    let p = "https://"@ + local_domain + "/activities/follow/"@;
    let a = decimal::int_text(local_id as int);
    let b = decimal::int_text(remote_id as int);
    let uri = follow_activity_id(local_domain, local_id, remote_id);
    let ids = a + "-"@ + b;
    assert(uri.subrange(0, p.len() as int) =~= p);
    assert(uri.subrange(p.len() as int, uri.len() as int) =~= ids);
    lemma_digits_no_hyphen(local_id as nat);
    text::lemma_find_from(ids, "-"@, 0);
    assert(ids.subrange(a.len() as int, a.len() as int + 1) =~= "-"@);
    assert(text::occurs_at(ids, "-"@, a.len() as int));
    assert forall|j: int| 0 <= j < a.len() implies !text::occurs_at(ids, "-"@, j) by {
        if text::occurs_at(ids, "-"@, j) {
            assert(ids.subrange(j, j + 1)[0] == '-');
            assert(ids[j] == a[j]);
            assert(a.contains(a[j]));
        }
    }
    assert(text::find_from(ids, "-"@, 0) == Some(a.len() as int));
    assert(ids.subrange(0, a.len() as int) =~= a);
    assert(ids.subrange(a.len() as int + 1, ids.len() as int) =~= b);
    decimal::law_notation_denotes(local_id as int);
    decimal::law_notation_denotes(remote_id as int);
}

/// An acceptance that names a request by its identifier counts only where it
/// comes from the actor whom the identifier names.
pub proof fn law_only_the_asked_actor_accepts(a: Actor, remote_uri: Seq<char>, expected: i64)
    ensures
        accepting_actor(Some(a), remote_uri, Some(expected)) is Ok <==> a.id == expected,
{
}

/// A local user who blocks the one who asks gives no sign of it: the request is
/// neither kept nor answered.
pub proof fn law_blocked_follower_gets_no_answer(
    activity: JsonModel,
    local_domain: Seq<char>,
    a: FollowAnswers,
)
    requires
        a.is_blocking == Some(true),
    ensures
        !(follow_step(activity, local_domain, a) is Accept),
{
}

/// A follow that is named by its identifier is accepted only by the actor whom
/// the identifier names.
pub proof fn law_named_follow_is_accepted_by_its_target(
    activity: JsonModel,
    local_domain: Seq<char>,
    a: AcceptAnswers,
    local_id: i64,
    remote_id: i64,
)
    requires
        named_parties(activity.at("object"@), local_domain) == Some((local_id, remote_id)),
    ensures
        accept_step(activity, local_domain, a) matches AcceptStepModel::Accept {
            remote_actor_id,
            ..
        } ==> remote_actor_id == remote_id,
{
}

/// The acceptance of a request comes from the local user and carries the request
/// whole. Two acceptances with different numbers have different identifiers.
pub proof fn law_acceptance_carries_the_request(
    local_domain: Seq<char>,
    local_username: Seq<char>,
    serial: i64,
    other: i64,
    request: JsonModel,
)
    ensures
        ({
            let a = accept_activity(local_domain, local_username, serial, request);
            let b = accept_activity(local_domain, local_username, other, request);
            &&& a.text_at("@context"@) == Some("https://www.w3.org/ns/activitystreams"@)
            &&& a.text_at("type"@) == Some("Accept"@)
            &&& a.at("object"@) == request
            &&& a.text_at("actor"@) is Some
            &&& ap::local_username(a.text_at("actor"@)->0, local_domain) == Some(local_username)
            &&& a.text_at("id"@) is Some
            &&& text::strip_prefix(
                a.text_at("id"@)->0,
                "https://"@ + local_domain + "/accepts/"@,
            ) == Some(decimal::int_text(serial as int))
            &&& a.text_at("id"@) == b.text_at("id"@) ==> serial == other
        }),
{
    reveal_strlit("@context");
    reveal_strlit("type");
    reveal_strlit("id");
    reveal_strlit("actor");
    reveal_strlit("object");
    assert("@context"@.len() == 8);
    assert("type"@.len() == 4);
    assert("id"@.len() == 2);
    assert("actor"@.len() == 5);
    assert("object"@.len() == 6);
    reveal_with_fuel(json::first_member, 6);
    ap::law_local_actor_uri_names_its_user(local_domain, local_username);
    let p = "https://"@ + local_domain + "/accepts/"@;
    let x = decimal::int_text(serial as int);
    let y = decimal::int_text(other as int);
    assert((p + x).subrange(0, p.len() as int) =~= p);
    assert((p + x).subrange(p.len() as int, (p + x).len() as int) =~= x);
    assert((p + y).subrange(0, p.len() as int) =~= p);
    assert((p + y).subrange(p.len() as int, (p + y).len() as int) =~= y);
    decimal::law_notation_denotes(serial as int);
    decimal::law_notation_denotes(other as int);
}

/// The event of a new follower names the follower.
pub proof fn law_follow_event_names_the_actor(
    username: Seq<char>,
    domain: Seq<char>,
    display_name: JsonModel,
)
    ensures
        ({
            let who = follow_event(username, domain, display_name).at("actor"@);
            &&& who.text_at("username"@) == Some(username)
            &&& who.text_at("domain"@) == Some(domain)
            &&& who.at("displayName"@) == display_name
        }),
{
    reveal_strlit("actor");
    reveal_strlit("username");
    reveal_strlit("domain");
    reveal_strlit("displayName");
    assert("actor"@.len() == 5);
    assert("username"@.len() == 8);
    assert("domain"@.len() == 6);
    assert("displayName"@.len() == 11);
    reveal_with_fuel(json::first_member, 4);
}

/// A request to follow a local user is read as what it says, under any identifier;
/// one to follow anybody else is refused.
pub proof fn law_request_is_read(
    id: Seq<char>,
    follower_uri: Seq<char>,
    local_domain: Seq<char>,
    username: Seq<char>,
    target: Seq<char>,
)
    ensures
        follow_request(
            ap::follow_activity(id, follower_uri, ap::local_actor_uri(local_domain, username)),
            local_domain,
        ) == Ok::<_, Seq<char>>(FollowRequestModel { follower_uri, local_username: username }),
        follow_request(ap::follow_activity(id, follower_uri, target), local_domain) is Ok
            <==> exists|u: Seq<char>| target == #[trigger] ap::local_actor_uri(local_domain, u),
{
    let uri = ap::local_actor_uri(local_domain, username);
    ap::law_follow_names_its_parties(id, follower_uri, uri);
    ap::law_follow_names_its_parties(id, follower_uri, target);
    ap::law_local_actor_uri_names_its_user(local_domain, username);
    ap::law_local_user_has_one_address(target, local_domain);
    if exists|u: Seq<char>| target == #[trigger] ap::local_actor_uri(local_domain, u) {
        let u = choose|u: Seq<char>| target == #[trigger] ap::local_actor_uri(local_domain, u);
        ap::law_local_actor_uri_names_its_user(local_domain, u);
    }
}

/// A request to follow a local user is accepted once it is known that the user does
/// not block the follower: the follow is kept from the follower to the user, the
/// answer goes to the follower's inbox, and it is signed with the user's key.
pub proof fn law_follow_is_accepted(
    activity: JsonModel,
    local_domain: Seq<char>,
    follower_uri: Seq<char>,
    username: Seq<char>,
    a: FollowAnswers,
    local: Actor,
    f: RemoteActorInfo,
)
    requires
        activity.text_at("actor"@) == Some(follower_uri),
        activity.text_at("object"@) == Some(ap::local_actor_uri(local_domain, username)),
        a.local == Some(Some(local)),
        local.actor_type@ == "local"@,
        a.follower == Some(f),
        f.inbox@.len() > 0,
    ensures
        a.is_blocking is None ==> follow_step(activity, local_domain, a)
            == (FollowStepModel::FindBlock {
            local_actor_id: local.id,
            follower_actor_id: f.actor_id,
        }),
        a.is_blocking == Some(true) ==> follow_step(activity, local_domain, a) is Ignore,
        a.is_blocking == Some(false) ==> {
            &&& follow_step(activity, local_domain, a) matches FollowStepModel::Accept {
                follower_actor_id,
                local_actor_id,
                local_username,
                event,
                inbox,
                key_id,
            }
            &&& follower_actor_id == f.actor_id
            &&& local_actor_id == local.id
            &&& local_username == username
            &&& inbox == f.inbox@
            &&& key_id == activity.text_at("object"@)->0 + "#main-key"@
            &&& event.at("actor"@).text_at("username"@) == Some(f.username@)
            &&& event.at("actor"@).text_at("domain"@) == Some(f.domain@)
            &&& event.at("actor"@).text_at("displayName"@) == Some(f.display_name@)
        },
{
    ap::law_local_actor_uri_names_its_user(local_domain, username);
    law_follow_event_names_the_actor(f.username@, f.domain@, JsonModel::Str(f.display_name@));
}

/// What a request to follow asks for on the way: the local user by name, then the
/// follower by address. A user who is not there or not local, and a follower without
/// an inbox, are refused.
pub proof fn law_parties_are_looked_up(
    activity: JsonModel,
    local_domain: Seq<char>,
    follower_uri: Seq<char>,
    username: Seq<char>,
    a: FollowAnswers,
)
    requires
        activity.text_at("actor"@) == Some(follower_uri),
        activity.text_at("object"@) == Some(ap::local_actor_uri(local_domain, username)),
    ensures
        a.local is None ==> follow_step(activity, local_domain, a) == FollowStepModel::FindLocal(
            username,
        ),
        a.local == Some(None::<Actor>) ==> follow_step(activity, local_domain, a) is Refuse,
        a.local is Some && a.local->0 is Some ==> {
            let local = a.local->0->0;
            if local.actor_type@ != "local"@ {
                follow_step(activity, local_domain, a) is Refuse
            } else if a.follower is None {
                follow_step(activity, local_domain, a) == FollowStepModel::UpsertFollower(
                    follower_uri,
                )
            } else {
                follow_step(activity, local_domain, a) is Refuse <==> a.follower->0.inbox@.len()
                    == 0
            }
        },
{
    ap::law_local_actor_uri_names_its_user(local_domain, username);
}

/// What a local user sent to follow somebody, and its acceptance: the identifier
/// alone names both sides, and the request given whole names the user.
pub proof fn law_acceptance_of_the_own_request_is_read(
    activity: JsonModel,
    local_domain: Seq<char>,
    local_id: i64,
    remote_id: i64,
    remote_uri: Seq<char>,
    username: Seq<char>,
    target: Seq<char>,
)
    requires
        local_id >= 0,
        activity.text_at("actor"@) == Some(remote_uri),
    ensures
        activity.at("object"@) == JsonModel::Str(
            follow_activity_id(local_domain, local_id, remote_id),
        ) ==> accept_subject(activity, local_domain) == Ok::<_, Seq<char>>(
            AcceptSubjectModel::ByIds {
                remote_uri,
                local_actor_id: local_id,
                remote_actor_id: remote_id,
            },
        ),
        activity.at("object"@) == ap::follow_activity(
            follow_activity_id(local_domain, local_id, remote_id),
            ap::local_actor_uri(local_domain, username),
            target,
        ) ==> accept_subject(activity, local_domain) == Ok::<_, Seq<char>>(
            AcceptSubjectModel::ByName { remote_uri, local_username: username },
        ),
{
    law_follow_activity_id_names_its_parties(local_domain, local_id, remote_id);
    ap::law_follow_names_its_parties(
        follow_activity_id(local_domain, local_id, remote_id),
        ap::local_actor_uri(local_domain, username),
        target,
    );
    ap::law_local_actor_uri_names_its_user(local_domain, username);
}

/// An acceptance counts between the actor who sent it and the local user who asked:
/// the follow is accepted, and the user is told of it where that changed anything.
pub proof fn law_acceptance_is_told_where_it_changes_anything(
    activity: JsonModel,
    local_domain: Seq<char>,
    username: Seq<char>,
    target: Seq<char>,
    local_id: i64,
    remote_id: i64,
    a: AcceptAnswers,
    remote: Actor,
    local: Actor,
)
    requires
        local_id >= 0,
        activity.text_at("actor"@) is Some,
        activity.at("object"@) == JsonModel::Str(
            follow_activity_id(local_domain, local_id, remote_id),
        ) && remote.id == remote_id || activity.at("object"@) == ap::follow_activity(
            follow_activity_id(local_domain, local_id, remote_id),
            ap::local_actor_uri(local_domain, username),
            target,
        ),
        a.remote == Some(Some(remote)),
        a.local == Some(Some(local)),
        local.actor_type@ == "local"@,
    ensures
        ({
            let step = accept_step(activity, local_domain, a);
            match a.changed_rows {
                None => step == (AcceptStepModel::Accept {
                    local_actor_id: local.id,
                    remote_actor_id: remote.id,
                }),
                Some(rows) => if rows == 0 {
                    step is Done
                } else {
                    &&& step matches AcceptStepModel::Tell {
                        local_actor_id,
                        remote_actor_id,
                        event,
                    }
                    &&& local_actor_id == local.id
                    &&& remote_actor_id == remote.id
                    &&& event.at("actor"@).text_at("username"@) == Some(remote.username@)
                    &&& event.at("actor"@).text_at("domain"@) == Some(remote.domain@)
                    &&& event.at("actor"@).text_at("displayName"@) == text::string_view(
                        remote.display_name,
                    )
                },
            }
        }),
{
    law_acceptance_of_the_own_request_is_read(
        activity,
        local_domain,
        local_id,
        remote_id,
        activity.text_at("actor"@)->0,
        username,
        target,
    );
    law_follow_event_names_the_actor(
        remote.username@,
        remote.domain@,
        json::text_or_null(text::string_view(remote.display_name)),
    );
}

/// What an acceptance asks for on the way. The request that is named by its
/// identifier goes by the numbers in it, the request that is given whole by name.
pub proof fn law_accepted_request_is_looked_up(
    activity: JsonModel,
    local_domain: Seq<char>,
    remote_uri: Seq<char>,
    username: Seq<char>,
    target: Seq<char>,
    local_id: i64,
    remote_id: i64,
    a: AcceptAnswers,
)
    requires
        local_id >= 0,
        activity.text_at("actor"@) == Some(remote_uri),
    ensures
        activity.at("object"@) == JsonModel::Str(
            follow_activity_id(local_domain, local_id, remote_id),
        ) ==> {
            let step = accept_step(activity, local_domain, a);
            &&& a.remote is None ==> step == AcceptStepModel::FindRemote(remote_uri)
            &&& a.remote == Some(None::<Actor>) ==> step is Refuse
            &&& a.remote is Some && a.remote->0 is Some ==> (if a.remote->0->0.id != remote_id {
                step is Refuse
            } else {
                a.local is None ==> step == AcceptStepModel::FindLocalById(local_id)
            })
        },
        activity.at("object"@) == ap::follow_activity(
            follow_activity_id(local_domain, local_id, remote_id),
            ap::local_actor_uri(local_domain, username),
            target,
        ) ==> {
            let step = accept_step(activity, local_domain, a);
            &&& a.local is None ==> step == AcceptStepModel::FindLocalByName(username)
            &&& a.local == Some(None::<Actor>) ==> step is Refuse
            &&& a.local is Some && a.local->0 is Some ==> (if a.local->0->0.actor_type@
                != "local"@ {
                step is Refuse
            } else {
                a.remote is None ==> step == AcceptStepModel::FindRemote(remote_uri)
            })
        },
{
    law_acceptance_of_the_own_request_is_read(
        activity,
        local_domain,
        local_id,
        remote_id,
        remote_uri,
        username,
        target,
    );
}

/// A request or an acceptance that cannot be read is refused with what it lacks: its
/// actor first, then its object, then a local user in it.
pub proof fn law_refusal_names_what_is_missing(activity: JsonModel, local_domain: Seq<char>)
    ensures
        ({
            let actor = activity.text_at("actor"@);
            let object = activity.text_at("object"@);
            let r = follow_request(activity, local_domain);
            &&& actor is None <==> r == Err::<FollowRequestModel, Seq<char>>(
                "Follow: actor フィールドがありません"@,
            )
            &&& actor is Some && object is None <==> r == Err::<FollowRequestModel, Seq<char>>(
                "Follow: object フィールドがありません"@,
            )
            &&& actor is Some && object is Some && ap::local_username(object->0, local_domain)
                is None <==> r == Err::<FollowRequestModel, Seq<char>>(
                "Follow: object URI が自ドメインのアクターを指していません"@,
            )
        }),
        activity.text_at("actor"@) is None ==> accept_subject(activity, local_domain) == Err::<
            AcceptSubjectModel,
            Seq<char>,
        >("Accept: actor がありません"@),
        activity.text_at("actor"@) is Some && activity.at("object"@).text_at("type"@) == Some(
            "Follow"@,
        ) && activity.at("object"@).as_str() is None && activity.at("object"@).text_at("actor"@)
            is None ==> accept_subject(activity, local_domain) == Err::<
            AcceptSubjectModel,
            Seq<char>,
        >("Accept/Follow: object.actor がありません"@),
        activity.text_at("actor"@) is Some && activity.at("object"@).text_at("type"@) == Some(
            "Follow"@,
        ) && activity.at("object"@).as_str() is None && activity.at("object"@).text_at("actor"@)
            is Some && ap::local_username(
            activity.at("object"@).text_at("actor"@)->0,
            local_domain,
        ) is None ==> accept_subject(activity, local_domain) == Err::<
            AcceptSubjectModel,
            Seq<char>,
        >("Accept: object.actor がローカルアクターではありません"@),
        activity.text_at("actor"@) is Some && activity.at("object"@).as_str() is None
            && activity.at("object"@).text_at("type"@) != Some("Follow"@) ==> accept_subject(
            activity,
            local_domain,
        ) == Ok::<AcceptSubjectModel, Seq<char>>(AcceptSubjectModel::Ignore),
{
    reveal_strlit("Follow: actor フィールドがありません");
    reveal_strlit("Follow: object フィールドがありません");
    reveal_strlit("Follow: object URI が自ドメインのアクターを指していません");
    assert("Follow: actor フィールドがありません"@.len() == 25);
    assert("Follow: object フィールドがありません"@.len() == 26);
    assert("Follow: object URI が自ドメインのアクターを指していません"@.len() == 38);
}

/// An acceptance by an actor who is not known, or not the one who was asked, is
/// refused as such, and so is one of somebody who is no local user.
pub proof fn law_refused_acceptance_names_the_reason(
    remote_uri: Seq<char>,
    expected: i64,
    a: Actor,
    username: Seq<char>,
    id: i64,
)
    ensures
        accepting_actor(None, remote_uri, Some(expected)) == Err::<i64, Seq<char>>(
            "リモートアクター '"@ + remote_uri + "' が DB に見つかりません"@,
        ),
        a.id != expected ==> accepting_actor(Some(a), remote_uri, Some(expected)) == Err::<
            i64,
            Seq<char>,
        >("Accept: actor が Follow Activity の送信先と一致しません"@),
        accepting_actor(Some(a), remote_uri, None) == Ok::<i64, Seq<char>>(a.id),
        asking_actor(None, AcceptSubjectModel::ByName { remote_uri, local_username: username })
            == Err::<i64, Seq<char>>("ローカルアクター '"@ + username + "' が見つかりません"@),
        asking_actor(
            None,
            AcceptSubjectModel::ByIds { remote_uri, local_actor_id: id, remote_actor_id: expected },
        ) == Err::<i64, Seq<char>>(
            "ローカルアクター ID '"@ + decimal::int_text(id as int) + "' が見つかりません"@,
        ),
        a.actor_type@ != "local"@ ==> asking_actor(
            Some(a),
            AcceptSubjectModel::ByName { remote_uri, local_username: username },
        ) == Err::<i64, Seq<char>>(
            "actor ID '"@ + decimal::int_text(a.id as int) + "' はローカルアクターではありません"@,
        ),
        a.actor_type@ == "local"@ ==> asking_actor(
            Some(a),
            AcceptSubjectModel::ByName { remote_uri, local_username: username },
        ) == Ok::<i64, Seq<char>>(a.id),
{
}

} // verus!
