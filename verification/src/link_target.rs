//! Addresses and names that a reader can open: what they name, and how what they
//! name is brought in.

use crate::jobs::inbound_activity_process as inbound;
use crate::jobs::inbound_activity_process::actor::Actor;
use crate::json;
use crate::json::{Json, JsonModel};
use crate::origin;
use crate::outside;
use crate::outside::{GroupMatch, GroupModel, UrlModel, UrlParts};
use crate::text;
use vstd::prelude::*;

verus! {

/// What an address or a name stands for.
#[derive(Debug, Clone, PartialEq, Eq)]
pub enum ParsedTarget {
    /// A post of the AT network, by its address.
    BskyPost(String),
    /// An actor, by a handle, a DID or an account name.
    Actor(String),
    /// Something that another server has to be asked for.
    ActivityPubUrl(String),
}

/// What a target stands for.
pub enum TargetModel {
    BskyPost(Seq<char>),
    Actor(Seq<char>),
    ActivityPubUrl(Seq<char>),
}

impl View for ParsedTarget {
    type V = TargetModel;

    open spec fn view(&self) -> TargetModel {
        match self {
            ParsedTarget::BskyPost(u) => TargetModel::BskyPost(u@),
            ParsedTarget::Actor(a) => TargetModel::Actor(a@),
            ParsedTarget::ActivityPubUrl(u) => TargetModel::ActivityPubUrl(u@),
        }
    }
}

/// What an optional target stands for.
pub open spec fn target_view(t: Option<ParsedTarget>) -> Option<TargetModel> {
    match t {
        Some(t) => Some(t@),
        None => None,
    }
}

/// What a target was resolved to.
pub enum ResolvedTarget {
    Actor(Box<Actor>),
    Post(i64),
}

/// Why a target was not resolved.
#[derive(Debug)]
pub enum ResolveError {
    /// It names nothing that can be opened.
    Invalid,
    /// The other server did not answer.
    Upstream(String),
    /// Something failed on this server.
    Internal(String),
    /// What it names is still being brought in.
    ImportPending,
}

// ---------------------------------------------------------------------------
// What an address or a name stands for.
// ---------------------------------------------------------------------------
/// The parts of an `at://` address that are not empty.
pub open spec fn at_parts(target: Seq<char>) -> Seq<Seq<char>> {
    text::non_empty(text::split(text::without_repeated(target, "at://"@), '/'))
}

/// An address of a post: an authority, the collection of posts, a key.
pub open spec fn is_at_post_uri(target: Seq<char>) -> bool {
    at_parts(target).len() == 3 && at_parts(target)[1] == "app.bsky.feed.post"@
}

/// Whether the address is one of a post.
pub fn parse_at_post_uri(target: &str) -> (r: bool)
    ensures
        r == is_at_post_uri(target@),
{
    let chars: Vec<char> = text::chars_of(target);
    let parts: Vec<Vec<char>> = text::split_non_empty(
        text::trim_start_text(chars.as_slice(), "at://"),
        '/',
    );
    let ghost all = text::contents(parts@);
    if parts.len() != 3 {
        return false;
    }
    assert(all[1] == parts@[1]@);
    text::is_text(parts[1].as_slice(), "app.bsky.feed.post")
}

/// The address of a post, of an authority and a key.
pub open spec fn at_post_uri(authority: Seq<char>, rkey: Seq<char>) -> Seq<char> {
    "at://"@ + authority + "/app.bsky.feed.post/"@ + rkey
}

/// What a web address on `bsky.app` stands for: a profile, or a post of one.
pub open spec fn bsky_app_target(segments: Seq<Seq<char>>) -> Option<TargetModel> {
    let parts = text::non_empty(segments);
    if parts.len() == 4 && parts[0] == "profile"@ && parts[2] == "post"@ {
        Some(TargetModel::BskyPost(at_post_uri(parts[1], parts[3])))
    } else if parts.len() == 2 && parts[0] == "profile"@ {
        Some(TargetModel::Actor(parts[1]))
    } else {
        None
    }
}

/// What a web address stands for, by its parts.
pub open spec fn url_target(target: Seq<char>, url: Option<UrlModel>) -> Option<TargetModel> {
    match url {
        None => None,
        Some(u) => if u.scheme != "http"@ && u.scheme != "https"@ {
            None
        } else if u.host == Some("bsky.app"@) {
            match u.segments {
                Some(segments) => bsky_app_target(segments),
                None => None,
            }
        } else {
            Some(TargetModel::ActivityPubUrl(target))
        },
    }
}

/// What a trimmed text stands for. `url` is what it is as a web address.
pub open spec fn target_of(target: Seq<char>, url: Option<UrlModel>) -> Option<TargetModel> {
    if text::starts_with(target, "at://"@) {
        if is_at_post_uri(target) {
            Some(TargetModel::BskyPost(target))
        } else {
            None
        }
    } else if text::starts_with(target, "did:plc:"@) {
        Some(TargetModel::Actor(target))
    } else if text::starts_with(target, "@"@) {
        if text::without_leading(target, '@').len() > 0 {
            Some(TargetModel::Actor(target))
        } else {
            None
        }
    } else {
        url_target(target, url)
    }
}

/// Copies of the texts that are not empty.
fn keep_non_empty(v: &Vec<String>) -> (r: Vec<String>)
    ensures
        text::string_contents(r@) == text::non_empty(text::string_contents(v@)),
{
    let ghost all = text::string_contents(v@);
    let ghost keep = |p: Seq<char>| p.len() > 0;
    let mut out: Vec<String> = Vec::new();
    let mut i: usize = 0;
    proof {
        reveal(Seq::filter);
        assert(all.take(0) =~= seq![]);
        assert(text::string_contents(out@) =~= seq![]);
    }
    while i < v.len()
        invariant
            i <= v@.len(),
            all == text::string_contents(v@),
            keep == (|p: Seq<char>| p.len() > 0),
            text::string_contents(out@) == all.take(i as int).filter(keep),
        decreases v@.len() - i,
    {
        proof {
            reveal(Seq::filter);
            assert(all[i as int] == v@[i as int]@);
            assert(all.take(i + 1).drop_last() =~= all.take(i as int));
            assert(all.take(i + 1).last() == all[i as int]);
        }
        if !v[i].as_str().is_empty() {
            let ghost before = text::string_contents(out@);
            out.push(v[i].clone());
            assert(text::string_contents(out@) =~= before.push(v@[i as int]@));
        }
        i += 1;
    }
    assert(all.take(i as int) =~= all);
    out
}

/// What a web address on `bsky.app` stands for.
fn classify_bsky_app(segments: &Vec<String>) -> (r: Option<ParsedTarget>)
    ensures
        target_view(r) == bsky_app_target(text::string_contents(segments@)),
{
    let parts: Vec<String> = keep_non_empty(segments);
    let ghost all = text::string_contents(parts@);
    assert(all.len() == parts@.len());
    assert(forall|i: int| 0 <= i < parts@.len() ==> all[i] == (#[trigger] parts@[i])@);
    if parts.len() == 4 && text::same_str(parts[0].as_str(), "profile") && text::same_str(
        parts[2].as_str(),
        "post",
    ) {
        return Some(
            ParsedTarget::BskyPost(
                text::cat4("at://", parts[1].as_str(), "/app.bsky.feed.post/", parts[3].as_str()),
            ),
        );
    }
    if parts.len() == 2 && text::same_str(parts[0].as_str(), "profile") {
        return Some(ParsedTarget::Actor(parts[1].clone()));
    }
    None
}

/// What a trimmed text stands for. `url` is what it is as a web address.
pub fn classify_target(target: &str, url: &Option<UrlParts>) -> (r: Option<ParsedTarget>)
    ensures
        target_view(r) == target_of(target@, origin::url_view(*url)),
{
    let chars: Vec<char> = text::chars_of(target);
    if text::has_prefix(chars.as_slice(), "at://") {
        return if parse_at_post_uri(target) {
            Some(ParsedTarget::BskyPost(target.to_owned()))
        } else {
            None
        };
    }
    if text::has_prefix(chars.as_slice(), "did:plc:") {
        return Some(ParsedTarget::Actor(target.to_owned()));
    }
    if text::has_prefix(chars.as_slice(), "@") {
        return if text::trim_start_char(chars.as_slice(), '@').len() > 0 {
            Some(ParsedTarget::Actor(target.to_owned()))
        } else {
            None
        };
    }
    let u: &UrlParts = match url {
        Some(u) => u,
        None => {
            return None;
        },
    };
    if !text::same_str(u.scheme.as_str(), "http") && !text::same_str(u.scheme.as_str(), "https") {
        return None;
    }
    let on_bsky: bool = match &u.host {
        Some(h) => text::same_str(h.as_str(), "bsky.app"),
        None => false,
    };
    if on_bsky {
        return match &u.segments {
            Some(s) => classify_bsky_app(s),
            None => None,
        };
    }
    Some(ParsedTarget::ActivityPubUrl(target.to_owned()))
}

/// What an address or a name stands for: the address of a post of the AT
/// network, a DID, an account name behind `@`, or a web address.
pub fn parse_target(raw: &str) -> (r: Option<ParsedTarget>)
    ensures
        target_view(r) == target_of(
            text::trimmed(raw@),
            outside::parsed_url(text::trimmed(raw@)),
        ),
{
    let chars: Vec<char> = text::chars_of(raw);
    let target: String = text::string_of(text::trim(chars.as_slice()));
    classify_target(target.as_str(), &outside::parse_url(target.as_str()))
}

// ---------------------------------------------------------------------------
// The addresses and names in a text.
// ---------------------------------------------------------------------------
/// Web addresses, and account names behind `@` that no letter, digit, underscore
/// or `@` stands in front of.
pub open spec fn target_pattern() -> Seq<char> {
    "(?P<url>https?://[^\\s\"'<>]+)|(?:^|[^A-Za-z0-9_@])@(?P<mention>[A-Za-z0-9_-]+(?:\\.[A-Za-z0-9-]+)*(?:@[A-Za-z0-9.-]+)?)"@
}

/// What a group of a match holds.
pub open spec fn group_text(m: Seq<Option<GroupModel>>, k: int) -> Option<Seq<char>> {
    if 0 <= k < m.len() {
        match m[k] {
            Some(g) => Some(g.text),
            None => None,
        }
    } else {
        None
    }
}

/// What a match gives: the web address, or the account name with its `@`.
pub open spec fn match_target(m: Seq<Option<GroupModel>>) -> Option<Seq<char>> {
    match (group_text(m, 1), group_text(m, 2)) {
        (Some(url), _) => Some(url),
        (None, Some(name)) => Some("@"@ + name),
        (None, None) => None,
    }
}

/// What the matches give, in order.
pub open spec fn match_targets(ms: Seq<Seq<Option<GroupModel>>>) -> Seq<Seq<char>>
    decreases ms.len(),
{
    if ms.len() == 0 {
        seq![]
    } else {
        match match_target(ms.last()) {
            Some(t) => match_targets(ms.drop_last()).push(t),
            None => match_targets(ms.drop_last()),
        }
    }
}

/// What a group of a match holds.
pub(crate) fn read_group<'a>(m: &'a Vec<Option<GroupMatch>>, k: usize) -> (r: Option<&'a str>)
    ensures
        text::str_view(r) == group_text(outside::groups_view(m@), k as int),
{
    if k >= m.len() {
        return None;
    }
    match &m[k] {
        Some(g) => Some(g.text.as_str()),
        None => None,
    }
}

/// What a match gives.
fn read_match(m: &Vec<Option<GroupMatch>>) -> (r: Option<String>)
    ensures
        text::string_view(r) == match_target(outside::groups_view(m@)),
{
    match (read_group(m, 1), read_group(m, 2)) {
        (Some(url), _) => Some(url.to_owned()),
        (None, Some(name)) => Some(text::cat("@", name)),
        (None, None) => None,
    }
}

/// The different addresses and names that the matches give.
pub fn select_link_targets(matches: &Vec<Vec<Option<GroupMatch>>>) -> (r: Vec<String>)
    ensures
        text::string_contents(r@) == text::distinct(match_targets(outside::matches_view(matches@))),
{
    let ghost ms = outside::matches_view(matches@);
    let mut out: Vec<String> = Vec::new();
    let mut i: usize = 0;
    proof {
        assert(ms.take(0) =~= seq![]);
        assert(text::string_contents(out@) =~= seq![]);
    }
    while i < matches.len()
        invariant
            i <= matches@.len(),
            ms == outside::matches_view(matches@),
            text::string_contents(out@) == text::distinct(match_targets(ms.take(i as int))),
        decreases matches@.len() - i,
    {
        let ghost part = match_targets(ms.take(i as int));
        proof {
            assert(ms.take(i + 1).drop_last() =~= ms.take(i as int));
            assert(ms.take(i + 1).last() == outside::groups_view(matches@[i as int]@));
        }
        match read_match(&matches[i]) {
            Some(t) => {
                assert(part.push(t@).drop_last() =~= part);
                if !text::holds(&out, t.as_str()) {
                    let ghost before = text::string_contents(out@);
                    out.push(t);
                    assert(text::string_contents(out@) =~= before.push(t@));
                }
            },
            None => {},
        }
        i += 1;
    }
    assert(ms.take(i as int) =~= ms);
    out
}

/// The different addresses and names in a text, in order.
pub fn extract_link_targets(body: &str) -> (r: Vec<String>)
    ensures
        text::string_contents(r@) == (match outside::regex_matches(target_pattern(), body@) {
            Some(ms) => text::distinct(match_targets(ms)),
            None => seq![],
        }),
{
    match outside::find_matches(
        "(?P<url>https?://[^\\s\"'<>]+)|(?:^|[^A-Za-z0-9_@])@(?P<mention>[A-Za-z0-9_-]+(?:\\.[A-Za-z0-9-]+)*(?:@[A-Za-z0-9.-]+)?)",
        body,
    ) {
        Some(ms) => select_link_targets(&ms),
        None => {
            let out: Vec<String> = Vec::new();
            assert(text::string_contents(out@) =~= seq![]);
            out
        },
    }
}

// ---------------------------------------------------------------------------
// Bringing in what a target names.
// ---------------------------------------------------------------------------
/// The authority and the key of an address of a post: its first and its third
/// part, where it has them.
pub open spec fn post_uri_parts(at_uri: Seq<char>) -> Option<(Seq<char>, Seq<char>)> {
    let parts = text::split(text::without_repeated(at_uri, "at://"@), '/');
    if parts.len() >= 3 {
        Some((parts[0], parts[2]))
    } else {
        None
    }
}

/// The authority and the key of an address of a post. The authority can be a
/// handle, which is looked up before the post is.
pub fn split_post_uri(at_uri: &str) -> (r: Option<(String, String)>)
    ensures
        (match r {
            Some(p) => Some((p.0@, p.1@)),
            None => None,
        }) == post_uri_parts(at_uri@),
{
    let chars: Vec<char> = text::chars_of(at_uri);
    let parts: Vec<Vec<char>> = text::split_at_char(
        text::trim_start_text(chars.as_slice(), "at://"),
        '/',
    );
    let ghost all = text::contents(parts@);
    assert(all.len() == parts@.len());
    if parts.len() < 3 {
        return None;
    }
    assert(all[0] == parts@[0]@ && all[2] == parts@[2]@);
    Some((text::string_of(parts[0].as_slice()), text::string_of(parts[2].as_slice())))
}

/// The address under which a post is kept, by the author's DID.
pub fn canonical_post_uri(did: &str, rkey: &str) -> (r: String)
    ensures
        r@ == at_post_uri(did@, rkey@),
{
    text::cat4("at://", did, "/app.bsky.feed.post/", rkey)
}

/// How something that was fetched from another server is brought in.
#[derive(Debug)]
pub enum ObjectPlan {
    /// It is nothing that can be opened.
    Invalid,
    /// It is an actor, at the address.
    Actor(String),
    /// The activity is handled as one that was delivered; what it brings is found
    /// under the address afterwards.
    Import { activity: Json, dedup_uri: String },
}

/// What a plan stands for.
pub enum PlanModel {
    Invalid,
    Actor(Seq<char>),
    Import { activity: JsonModel, dedup_uri: Seq<char> },
}

impl View for ObjectPlan {
    type V = PlanModel;

    open spec fn view(&self) -> PlanModel {
        match self {
            ObjectPlan::Invalid => PlanModel::Invalid,
            ObjectPlan::Actor(uri) => PlanModel::Actor(uri@),
            ObjectPlan::Import { activity, dedup_uri } => PlanModel::Import {
                activity: activity@,
                dedup_uri: dedup_uri@,
            },
        }
    }
}

/// The address that an object states, else the one it was fetched from.
pub open spec fn id_or(object: JsonModel, url: Seq<char>) -> Seq<char> {
    match object.text_at("id"@) {
        Some(id) => id,
        None => url,
    }
}

/// The author that a note states: a text, or the first of a list.
pub open spec fn stated_author(object: JsonModel) -> Option<Seq<char>> {
    let author = object.at("attributedTo"@);
    if author.as_str() is Some {
        author.as_str()
    } else if author.items().len() > 0 {
        author.items()[0].as_str()
    } else {
        None
    }
}

/// The type is one of actors.
pub open spec fn is_actor_type(kind: Option<Seq<char>>) -> bool {
    ||| kind == Some("Person"@)
    ||| kind == Some("Service"@)
    ||| kind == Some("Application"@)
    ||| kind == Some("Organization"@)
    ||| kind == Some("Group"@)
}

/// The type is one of notes.
pub open spec fn is_note_type(kind: Option<Seq<char>>) -> bool {
    ||| kind == Some("Note"@)
    ||| kind == Some("Article"@)
    ||| kind == Some("Question"@)
    ||| kind == Some("Page"@)
}

/// The activity by which a fetched note is brought in.
pub open spec fn open_activity(note_id: Seq<char>, actor: Seq<char>, object: JsonModel) -> JsonModel {
    JsonModel::Obj(
        seq![
            json::member_of("@context"@, JsonModel::Str("https://www.w3.org/ns/activitystreams"@)),
            json::member_of("id"@, JsonModel::Str(note_id + "#seiran-open"@)),
            json::member_of("type"@, JsonModel::Str("Create"@)),
            json::member_of("actor"@, JsonModel::Str(actor)),
            json::member_of("object"@, object),
        ],
    )
}

/// How a fetched note is brought in.
pub open spec fn note_plan(url: Seq<char>, object: JsonModel) -> PlanModel {
    match stated_author(object) {
        None => PlanModel::Invalid,
        Some(actor) => PlanModel::Import {
            activity: open_activity(id_or(object, url), actor, object),
            dedup_uri: id_or(object, url),
        },
    }
}

/// How a fetched repost is brought in: as it is, where it says who reposts what.
pub open spec fn announce_plan(url: Seq<char>, object: JsonModel) -> PlanModel {
    if object.text_at("actor"@) is None || object.text_at("object"@) is None {
        PlanModel::Invalid
    } else {
        PlanModel::Import { activity: object, dedup_uri: id_or(object, url) }
    }
}

/// How something that was fetched is brought in, by its type.
pub open spec fn object_plan(url: Seq<char>, object: JsonModel) -> PlanModel {
    let kind = object.text_at("type"@);
    if is_actor_type(kind) {
        PlanModel::Actor(id_or(object, url))
    } else if kind == Some("Announce"@) {
        announce_plan(url, object)
    } else if is_note_type(kind) {
        note_plan(url, object)
    } else {
        PlanModel::Invalid
    }
}

/// The address that an object states, else the one it was fetched from.
fn read_id<'a>(object: &'a Json, url: &'a str) -> (r: &'a str)
    ensures
        r@ == id_or(object@, url@),
{
    match object.text_at("id") {
        Some(id) => id,
        None => url,
    }
}

/// The author that a note states.
fn read_author<'a>(object: &'a Json) -> (r: Option<&'a str>)
    ensures
        text::str_view(r) == stated_author(object@),
{
    match object.text_at("attributedTo") {
        Some(a) => Some(a),
        None => match object.arr_at("attributedTo") {
            Some(v) => {
                assert(json::models(v@) == object@.at("attributedTo"@).items());
                if v.len() > 0 {
                    assert(json::models(v@)[0] == v@[0]@);
                    v[0].as_str()
                } else {
                    None
                }
            },
            None => None,
        },
    }
}

/// How a fetched note is brought in.
fn plan_note(url: &str, object: &Json) -> (r: ObjectPlan)
    ensures
        r@ == note_plan(url@, object@),
{
    let actor: &str = match read_author(object) {
        Some(a) => a,
        None => {
            return ObjectPlan::Invalid;
        },
    };
    let note_id: &str = read_id(object, url);
    let ms: Vec<json::Member> = vec![
        json::member("@context", json::text_json("https://www.w3.org/ns/activitystreams")),
        json::member("id", json::text_json(text::cat(note_id, "#seiran-open").as_str())),
        json::member("type", json::text_json("Create")),
        json::member("actor", json::text_json(actor)),
        json::member("object", object.duplicate()),
    ];
    assert(json::member_models(ms@) =~= open_activity(note_id@, actor@, object@)->Obj_0);
    ObjectPlan::Import { activity: json::object(ms), dedup_uri: note_id.to_owned() }
}

/// How something that was fetched from `url` is brought in.
pub fn plan_object(url: &str, object: &Json) -> (r: ObjectPlan)
    ensures
        r@ == object_plan(url@, object@),
{
    if object.text_is("type", "Person") || object.text_is("type", "Service") || object.text_is(
        "type",
        "Application",
    ) || object.text_is("type", "Organization") || object.text_is("type", "Group") {
        return ObjectPlan::Actor(read_id(object, url).to_owned());
    }
    if object.text_is("type", "Announce") {
        if object.text_at("actor").is_none() || object.text_at("object").is_none() {
            return ObjectPlan::Invalid;
        }
        return ObjectPlan::Import {
            activity: object.duplicate(),
            dedup_uri: read_id(object, url).to_owned(),
        };
    }
    if object.text_is("type", "Note") || object.text_is("type", "Article") || object.text_is(
        "type",
        "Question",
    ) || object.text_is("type", "Page") {
        return plan_note(url, object);
    }
    ObjectPlan::Invalid
}

/// How often what is being brought in is looked for.
pub const IMPORT_LOOKUPS: u32 = 40;

/// The pause between two lookups, in milliseconds.
pub const IMPORT_PAUSE_MILLIS: u64 = 100;

/// What is done next while something is being brought in.
#[derive(Debug, Clone, Copy, PartialEq, Eq, Structural)]
pub enum ImportStep {
    Found(i64),
    /// Pause, and look again.
    Wait,
    /// It takes too long.
    Pending,
}

/// What is done next, where `lookups` have been made and the last one gave
/// `found`.
pub open spec fn import_step(lookups: u32, found: Option<i64>) -> ImportStep {
    match found {
        Some(id) => ImportStep::Found(id),
        None => if lookups < IMPORT_LOOKUPS {
            ImportStep::Wait
        } else {
            ImportStep::Pending
        },
    }
}

/// What is done next while something is being brought in.
pub fn next_import_step(lookups: u32, found: Option<i64>) -> (r: ImportStep)
    ensures
        r == import_step(lookups, found),
{
    match found {
        Some(id) => ImportStep::Found(id),
        None => if lookups < IMPORT_LOOKUPS {
            ImportStep::Wait
        } else {
            ImportStep::Pending
        },
    }
}

// ---------------------------------------------------------------------------
// Laws.
// ---------------------------------------------------------------------------
/// No address and no name is given twice.
pub proof fn law_link_targets_are_distinct(us: Seq<Seq<char>>)
    ensures
        text::distinct(us).no_duplicates(),
        forall|t: Seq<char>| text::distinct(us).contains(t) <==> us.contains(t),
{
    text::lemma_distinct(us);
}

/// Every address of a post has the authority and the key that the post is looked
/// up by.
pub proof fn law_post_uri_has_its_parts(target: Seq<char>)
    requires
        is_at_post_uri(target),
    ensures
        post_uri_parts(target) is Some,
{
    text::lemma_non_empty_len(text::split(text::without_repeated(target, "at://"@), '/'));
}

/// What was fetched is brought in only where it says who it comes from: the
/// activity that is handled always names its actor.
pub proof fn law_imported_activity_names_its_actor(url: Seq<char>, object: JsonModel)
    ensures
        object_plan(url, object) matches PlanModel::Import { activity, .. } ==> activity.text_at(
            "actor"@,
        ) is Some,
{
    if object_plan(url, object) is Import && object.text_at("type"@) != Some("Announce"@) {
        let actor = stated_author(object)->0;
        let activity = open_activity(id_or(object, url), actor, object);
        reveal_strlit("@context");
        reveal_strlit("id");
        reveal_strlit("type");
        reveal_strlit("actor");
        reveal_with_fuel(json::first_member, 5);
        let ms = activity->Obj_0;
        assert(ms[0].key.len() == 8 && ms[1].key.len() == 2 && ms[2].key.len() == 4);
        assert(ms[3] == json::member_of("actor"@, JsonModel::Str(actor)));
        assert(json::first_member(ms, "actor"@, 0) == Some(JsonModel::Str(actor)));
        assert(activity.text_at("actor"@) == Some(actor));
    }
}

/// A post that was fetched and names its author is brought in, whether it is a note,
/// a poll, an article or a page: as what its author created, with the post as it
/// was fetched, to be found under its identifier, or else under the address that it
/// was fetched from.
pub proof fn law_fetched_posts_are_brought_in(url: Seq<char>, object: JsonModel, author: Seq<char>)
    requires
        inbound::is_note(object) || object.text_at("type"@) == Some("Article"@) || object.text_at(
            "type"@,
        ) == Some("Page"@),
        object.text_at("attributedTo"@) == Some(author) || (object.at("attributedTo"@).items().len()
            > 0 && object.at("attributedTo"@).items()[0] == JsonModel::Str(author)),
    ensures
        object_plan(url, object) matches PlanModel::Import { activity, dedup_uri } && {
            &&& activity.at("object"@) == object
            &&& activity.text_at("actor"@) == Some(author)
            &&& activity.text_at("type"@) == Some("Create"@)
            &&& activity.text_at("@context"@) == Some("https://www.w3.org/ns/activitystreams"@)
            &&& dedup_uri == (match object.text_at("id"@) {
                Some(id) => id,
                None => url,
            })
            &&& activity.text_at("id"@) == Some(dedup_uri + "#seiran-open"@)
            &&& activity.text_at("id"@) matches Some(id) && id.len() > dedup_uri.len()
                && text::starts_with(id, dedup_uri)
            &&& inbound::is_note(object) ==> inbound::route(activity) == inbound::Route::CreateNote
                || inbound::route(activity) == inbound::Route::PollVote
        },
{
    reveal_strlit("Person");
    reveal_strlit("Service");
    reveal_strlit("Application");
    reveal_strlit("Organization");
    reveal_strlit("Group");
    reveal_strlit("Announce");
    reveal_strlit("Note");
    reveal_strlit("Article");
    reveal_strlit("Question");
    reveal_strlit("Page");
    assert("Person"@.len() == 6);
    assert("Service"@.len() == 7);
    assert("Application"@.len() == 11);
    assert("Organization"@.len() == 12);
    assert("Group"@.len() == 5);
    assert("Announce"@.len() == 8);
    assert("Note"@.len() == 4);
    assert("Article"@.len() == 7);
    assert("Question"@.len() == 8);
    assert("Page"@.len() == 4);
    assert("Service"@[0] != "Article"@[0]);
    assert("Announce"@[0] != "Question"@[0]);
    assert("Note"@[0] != "Page"@[0]);
    reveal_strlit("@context");
    reveal_strlit("id");
    reveal_strlit("type");
    reveal_strlit("actor");
    reveal_strlit("object");
    reveal_strlit("#seiran-open");
    assert("@context"@.len() == 8);
    assert("id"@.len() == 2);
    assert("type"@.len() == 4);
    assert("actor"@.len() == 5);
    assert("object"@.len() == 6);
    assert("#seiran-open"@.len() == 12);
    reveal_with_fuel(json::first_member, 6);
    let key = id_or(object, url);
    let activity = open_activity(key, author, object);
    let id = key + "#seiran-open"@;
    assert(json::first_member(activity->Obj_0, "object"@, 0) == Some(object));
    assert(json::first_member(activity->Obj_0, "actor"@, 0) == Some(JsonModel::Str(author)));
    assert(json::first_member(activity->Obj_0, "type"@, 0) == Some(JsonModel::Str("Create"@)));
    assert(json::first_member(activity->Obj_0, "id"@, 0) == Some(JsonModel::Str(id)));
    assert(id.subrange(0, key.len() as int) =~= key);
    inbound::law_created_object_decides(activity);
}

/// What is no post, no repost and no actor, or names no author, is not opened.
pub proof fn law_nothing_else_is_opened(url: Seq<char>, object: JsonModel)
    ensures
        object_plan(url, object) is Import ==> {
            let kind = object.text_at("type"@);
            ||| inbound::is_note(object) || kind == Some("Article"@) || kind == Some("Page"@)
            ||| inbound::route(object) == inbound::Route::Announce
        },
        object.at("attributedTo"@) is Null && object_plan(url, object) is Import
            ==> inbound::route(object) == inbound::Route::Announce,
{
    inbound::law_kind_decides_the_handler(object);
}

/// A repost that names who reposts what is handled as it was fetched; one that does
/// not is not opened.
pub proof fn law_fetched_reposts_are_handled(url: Seq<char>, object: JsonModel)
    requires
        inbound::route(object) == inbound::Route::Announce,
    ensures
        object.text_at("actor"@) is Some && object.text_at("object"@) is Some ==> (object_plan(
            url,
            object,
        ) matches PlanModel::Import { activity, dedup_uri } && activity == object && dedup_uri == (
        match object.text_at("id"@) {
            Some(id) => id,
            None => url,
        })),
        object.text_at("actor"@) is None || object.text_at("object"@) is None ==> object_plan(
            url,
            object,
        ) is Invalid,
{
    inbound::law_kind_decides_the_handler(object);
    reveal_strlit("Person");
    reveal_strlit("Service");
    reveal_strlit("Application");
    reveal_strlit("Organization");
    reveal_strlit("Group");
    reveal_strlit("Announce");
    assert("Person"@.len() == 6);
    assert("Service"@.len() == 7);
    assert("Application"@.len() == 11);
    assert("Organization"@.len() == 12);
    assert("Group"@.len() == 5);
    assert("Announce"@.len() == 8);
}

/// An actor of any kind is opened as the actor that it says it is.
pub proof fn law_fetched_actors_are_opened(url: Seq<char>, object: JsonModel)
    requires
        ({
            let kind = object.text_at("type"@);
            ||| kind == Some("Person"@) || kind == Some("Service"@) || kind == Some("Group"@)
            ||| kind == Some("Application"@) || kind == Some("Organization"@)
        }),
    ensures
        object_plan(url, object) == PlanModel::Actor(
            match object.text_at("id"@) {
                Some(id) => id,
                None => url,
            },
        ),
{
}

proof fn lemma_three_parts(a: Seq<char>, b: Seq<char>, c: Seq<char>)
    requires
        !a.contains('/'),
        !b.contains('/'),
        !c.contains('/'),
    ensures
        text::split(a + seq!['/'] + b + seq!['/'] + c, '/') == seq![a, b, c],
{
    let rest = b + seq!['/'] + c;
    assert(a + seq!['/'] + rest =~= a + seq!['/'] + b + seq!['/'] + c);
    text::lemma_split_none(c, '/');
    text::lemma_split_cons(b, '/', c);
    text::lemma_split_cons(a, '/', rest);
    assert(seq![b] + seq![c] =~= seq![b, c]);
    assert(seq![a] + seq![b, c] =~= seq![a, b, c]);
}

/// The address of a post on the AT network is recognised as that post, and gives
/// back the account and the key that it is made of.
pub proof fn law_post_uri_is_read_back(account: Seq<char>, rkey: Seq<char>, url: Option<UrlModel>)
    requires
        account.len() > 0,
        rkey.len() > 0,
        !account.contains('/'),
        !rkey.contains('/'),
    ensures
        ({
            let uri = at_post_uri(account, rkey);
            &&& uri == "at://"@ + account + "/app.bsky.feed.post/"@ + rkey
            &&& target_of(uri, url) == Some(TargetModel::BskyPost(uri))
            &&& post_uri_parts(uri) == Some((account, rkey))
        }),
{
    reveal_strlit("at://");
    reveal_strlit("/app.bsky.feed.post/");
    reveal_strlit("app.bsky.feed.post");
    assert("at://"@.len() == 5);
    assert("/app.bsky.feed.post/"@.len() == 20);
    assert("app.bsky.feed.post"@.len() == 18);
    let uri = at_post_uri(account, rkey);
    let p = "at://"@;
    let middle = "app.bsky.feed.post"@;
    let rest = account + seq!['/'] + middle + seq!['/'] + rkey;
    assert("/app.bsky.feed.post/"@ =~= seq!['/'] + middle + seq!['/']);
    assert(uri =~= p + rest);
    assert(uri.subrange(0, 5) =~= p);
    assert(uri.subrange(5, uri.len() as int) =~= rest);
    if text::starts_with(rest, p) {
        assert(rest.subrange(0, 5)[3] == '/');
        assert(rest.subrange(0, 5)[4] == '/');
        assert(rest[3] == '/' && rest[4] == '/');
        if account.len() > 4 {
            assert(account[4] == '/');
        } else if account.len() > 3 {
            assert(account[3] == '/');
        } else {
            assert(rest[account.len() as int] == '/');
            assert(rest.subrange(0, 5)[account.len() as int] == '/');
            assert(account.len() == 3);
            assert(rest[4] == middle[0]);
        }
        assert(false);
    }
    reveal_with_fuel(text::without_repeated, 2);
    assert(text::without_repeated(uri, p) == rest);
    assert forall|i: int| 0 <= i < middle.len() implies middle[i] != '/' by {}
    assert(!middle.contains('/'));
    lemma_three_parts(account, middle, rkey);
    let parts = seq![account, middle, rkey];
    text::lemma_non_empty_cons(account, seq![middle, rkey]);
    text::lemma_non_empty_cons(middle, seq![rkey]);
    text::lemma_non_empty_cons(rkey, seq![]);
    assert(seq![account] + seq![middle, rkey] =~= parts);
    assert(seq![middle] + seq![rkey] =~= seq![middle, rkey]);
    assert(seq![rkey] + Seq::<Seq<char>>::empty() =~= seq![rkey]);
    reveal(Seq::filter);
    assert(text::non_empty(parts) =~= parts);
}

/// A page of a post on bsky.app is opened as the post that it shows, and a page of a
/// profile as its owner; no other page of that site is opened.
pub proof fn law_bsky_pages_are_opened(target: Seq<char>, u: UrlModel, account: Seq<char>, rkey: Seq<char>)
    requires
        account.len() > 0,
        rkey.len() > 0,
        u.scheme == "https"@ || u.scheme == "http"@,
        u.host == Some("bsky.app"@),
        !text::starts_with(target, "at://"@),
        !text::starts_with(target, "did:plc:"@),
        !text::starts_with(target, "@"@),
    ensures
        u.segments == Some(seq!["profile"@, account, "post"@, rkey]) ==> target_of(target, Some(u))
            == Some(TargetModel::BskyPost("at://"@ + account + "/app.bsky.feed.post/"@ + rkey)),
        u.segments == Some(seq!["profile"@, account]) ==> target_of(target, Some(u)) == Some(
            TargetModel::Actor(account),
        ),
        !(target_of(target, Some(u)) matches Some(TargetModel::ActivityPubUrl(_))),
{
    reveal_strlit("profile");
    reveal_strlit("post");
    reveal_strlit("bsky.app");
    assert("profile"@.len() == 7);
    assert("post"@.len() == 4);
    assert("bsky.app"@.len() == 8);
    let four = seq!["profile"@, account, "post"@, rkey];
    let two = seq!["profile"@, account];
    reveal_with_fuel(Seq::filter, 5);
    assert(four.drop_last() =~= seq!["profile"@, account, "post"@]);
    assert(four.drop_last().drop_last() =~= two);
    assert(two.drop_last() =~= seq!["profile"@]);
    assert(two.drop_last().drop_last() =~= seq![]);
    assert(text::non_empty(two) =~= two);
    assert(text::non_empty(four.drop_last()) =~= four.drop_last());
    assert(text::non_empty(four) =~= four);
}

/// What a user enters: a DID and a name behind `@` stand for an actor, a web address
/// of any other site for what is found there, and nothing else for anything.
pub proof fn law_targets_are_told_apart(target: Seq<char>, u: UrlModel)
    requires
        !text::starts_with(target, "at://"@),
    ensures
        text::starts_with(target, "did:plc:"@) ==> target_of(target, Some(u)) == Some(
            TargetModel::Actor(target),
        ),
        text::starts_with(target, "@"@) && text::without_leading(target, '@').len() > 0 ==> target_of(
            target,
            Some(u),
        ) == Some(TargetModel::Actor(target)),
        !text::starts_with(target, "did:plc:"@) && !text::starts_with(target, "@"@) ==> {
            &&& target_of(target, None) is None
            &&& u.scheme != "https"@ && u.scheme != "http"@ ==> target_of(target, Some(u)) is None
            &&& (u.scheme == "https"@ || u.scheme == "http"@) && u.host != Some("bsky.app"@)
                ==> target_of(target, Some(u)) == Some(TargetModel::ActivityPubUrl(target))
        },
{
    reveal_strlit("did:plc:");
    reveal_strlit("@");
    assert("did:plc:"@.len() == 8);
    assert("@"@.len() == 1);
    if text::starts_with(target, "did:plc:"@) && text::starts_with(target, "@"@) {
        assert(target.subrange(0, 8)[0] == 'd');
        assert(target.subrange(0, 1)[0] == '@');
    }
}

/// A post that is being brought in is looked for again and again for a while: it is
/// given up only after all lookups, and never once it was found.
pub proof fn law_import_is_waited_for(lookups: u32, id: i64)
    ensures
        import_step(lookups, Some(id)) == ImportStep::Found(id),
        import_step(lookups, None) is Wait <==> lookups < 40,
        import_step(lookups, None) is Pending <==> lookups >= 40,
{
}

/// The address of a link counts before the name of a mention, which is given with
/// its `@`.
pub proof fn law_links_come_before_names(
    whole: Option<GroupModel>,
    url: Option<GroupModel>,
    name: Option<GroupModel>,
)
    ensures
        match_target(seq![whole, url, name]) == (match (url, name) {
            (Some(u), _) => Some(u.text),
            (None, Some(n)) => Some(seq!['@'] + n.text),
            (None, None) => None,
        }),
{
    reveal_strlit("@");
    assert("@"@ =~= seq!['@']);
}

} // verus!
