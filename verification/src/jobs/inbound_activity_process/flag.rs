//! Reports that other servers send about local users and posts.

use crate::ap;
use crate::decimal;
use crate::jobs::inbound_activity_process as inbound;
use crate::jobs::inbound_activity_process::actor::Actor;
use crate::jobs::inbound_activity_process::content;
use crate::jobs::inbound_activity_process::note_input;
use crate::jobs::inbound_activity_process::undo;
use crate::json::{Json, JsonModel};
use crate::text;
use vstd::prelude::*;

verus! {

/// A report.
pub struct FlagRequest {
    pub actor_uri: String,
    /// What is reported.
    pub objects: Vec<String>,
    pub reason_text: String,
}

/// What a report stands for.
pub struct FlagRequestModel {
    pub actor_uri: Seq<char>,
    pub objects: Seq<Seq<char>>,
    pub reason_text: Seq<char>,
}

impl View for FlagRequest {
    type V = FlagRequestModel;

    open spec fn view(&self) -> FlagRequestModel {
        FlagRequestModel {
            actor_uri: self.actor_uri@,
            objects: text::string_contents(self.objects@),
            reason_text: self.reason_text@,
        }
    }
}

/// The most characters that the reason of a report may have.
pub const MAX_REASON_CHARS: usize = 300;

/// The most bytes that the reason of a report may take.
pub const MAX_REASON_BYTES: usize = 1000;

/// How many characters fit into a reason, where the first `i` do.
pub open spec fn reason_len(s: Seq<char>, i: int) -> int
    decreases s.len() - i,
{
    if i < 0 || i >= s.len() || i >= MAX_REASON_CHARS || text::utf8_len(s.take(i + 1))
        > MAX_REASON_BYTES {
        i
    } else {
        reason_len(s, i + 1)
    }
}

/// The reason of a report: as much of the text as fits.
pub open spec fn reason(s: Seq<char>) -> Seq<char> {
    s.take(reason_len(s, 0))
}

/// The report that an activity makes, or why it makes none.
pub open spec fn flag_request(activity: JsonModel) -> Result<FlagRequestModel, Seq<char>> {
    match activity.text_at("actor"@) {
        None => Err("Flag: actor がありません"@),
        Some(actor_uri) => Ok(
            FlagRequestModel {
                actor_uri,
                objects: inbound::string_list(activity.at("object"@)),
                reason_text: reason(
                    content::stripped_html(
                        content::text_or_empty(activity.text_at("content"@)),
                    ),
                ),
            },
        ),
    }
}

/// As much of a text as fits into the reason of a report.
pub fn cut_reason(s: &str) -> (r: String)
    ensures
        r@ == reason(s@),
{
    let chars: Vec<char> = text::chars_of(s);
    let mut out: Vec<char> = Vec::new();
    let mut bytes: usize = 0;
    let mut i: usize = 0;
    assert(out@ =~= s@.take(0));
    while i < chars.len() && i < MAX_REASON_CHARS
        invariant
            chars@ == s@,
            i <= chars@.len(),
            i <= MAX_REASON_CHARS,
            bytes <= MAX_REASON_BYTES,
            out@ == s@.take(i as int),
            bytes == text::utf8_len(out@),
            reason_len(s@, 0) == reason_len(s@, i as int),
        decreases chars@.len() - i,
    {
        let c: char = chars[i];
        let width: usize = text::utf8_width(c);
        proof {
            assert(s@.take(i + 1) =~= out@ + seq![c]);
            text::lemma_utf8_len_add(out@, seq![c]);
        }
        if bytes + width > MAX_REASON_BYTES {
            return text::string_of(out.as_slice());
        }
        out.push(c);
        assert(out@ =~= s@.take(i + 1));
        bytes += width;
        i += 1;
    }
    text::string_of(out.as_slice())
}

/// The report that an activity makes.
pub fn read_flag(activity: &Json) -> (r: Result<FlagRequest, String>)
    ensures
        (match r {
            Ok(q) => Ok(q@),
            Err(e) => Err(e@),
        }) == flag_request(activity@),
{
    let actor: &str = match activity.text_at("actor") {
        Some(t) => t,
        None => {
            return Err("Flag: actor がありません".to_owned());
        },
    };
    let raw: String = content::strip_html(undo::or_empty(activity.text_at("content")));
    Ok(
        FlagRequest {
            actor_uri: actor.to_owned(),
            objects: inbound::string_list_at(activity, "object"),
            reason_text: cut_reason(raw.as_str()),
        },
    )
}

/// What was found about one reported object.
pub struct FlagAnswer {
    /// The author of the local post that the object names.
    pub owner: Option<i64>,
    /// The local user that the object names.
    pub actor: Option<Actor>,
}

/// What a report is about.
#[derive(Debug, Clone, Copy, PartialEq, Eq, Structural)]
pub struct FlagSubject {
    pub actor_id: i64,
    /// The reported post; none where the report is about the actor.
    pub post_id: Option<i64>,
}

/// The post that a reported object names, where it is there.
pub open spec fn reported_post(object: Seq<char>, answer: FlagAnswer, local_domain: Seq<char>) -> Option<
    FlagSubject,
> {
    match (note_input::local_note_id(object, local_domain), answer.owner) {
        (Some(id), Some(owner)) => Some(FlagSubject { actor_id: owner, post_id: Some(id) }),
        _ => None,
    }
}

/// The local user that a reported object names, where there is one.
pub open spec fn reported_actor(object: Seq<char>, answer: FlagAnswer, local_domain: Seq<char>) -> Option<
    FlagSubject,
> {
    match (ap::local_username(object, local_domain), answer.actor) {
        (Some(_), Some(a)) if a.local() => Some(FlagSubject { actor_id: a.id, post_id: None }),
        _ => None,
    }
}

/// What a report is about: the first of its objects that is a local post, else
/// the last of them that is a local user. `so_far` is what the objects before
/// index `i` gave.
pub open spec fn flag_subject_from(
    objects: Seq<Seq<char>>,
    answers: Seq<FlagAnswer>,
    local_domain: Seq<char>,
    i: int,
    so_far: Option<FlagSubject>,
) -> Option<FlagSubject>
    decreases objects.len() - i,
{
    if i < 0 || i >= objects.len() || i >= answers.len() {
        so_far
    } else if reported_post(objects[i], answers[i], local_domain) is Some {
        reported_post(objects[i], answers[i], local_domain)
    } else {
        let here = reported_actor(objects[i], answers[i], local_domain);
        flag_subject_from(
            objects,
            answers,
            local_domain,
            i + 1,
            if here is Some {
                here
            } else {
                so_far
            },
        )
    }
}

/// What a report is about, or why it is refused.
pub open spec fn flag_subject(
    objects: Seq<Seq<char>>,
    answers: Seq<FlagAnswer>,
    local_domain: Seq<char>,
) -> Result<FlagSubject, Seq<char>> {
    match flag_subject_from(objects, answers, local_domain, 0, None) {
        Some(s) => Ok(s),
        None => Err("Flag: ローカルの通報対象を解決できません"@),
    }
}

/// What one reported object is: the post that ends the search, or the user.
fn judge_object(object: &str, answer: &FlagAnswer, local_domain: &str) -> (r: Option<FlagSubject>)
    ensures
        r == (if reported_post(object@, *answer, local_domain@) is Some {
            reported_post(object@, *answer, local_domain@)
        } else {
            reported_actor(object@, *answer, local_domain@)
        }),
        r matches Some(s) ==> (s.post_id is Some) == (reported_post(
            object@,
            *answer,
            local_domain@,
        ) is Some),
{
    match (note_input::read_local_note_id(object, local_domain), answer.owner) {
        (Some(id), Some(owner)) => {
            return Some(FlagSubject { actor_id: owner, post_id: Some(id) });
        },
        _ => {},
    }
    match (ap::extract_local_username(object, local_domain), &answer.actor) {
        (Some(_), Some(a)) => {
            if a.is_local() {
                Some(FlagSubject { actor_id: a.id, post_id: None })
            } else {
                None
            }
        },
        _ => None,
    }
}

/// What a report is about. `answers` holds what was found about each object, in
/// order; objects behind its end are not looked at.
pub fn decide_flag_subject(
    objects: &Vec<String>,
    answers: &Vec<FlagAnswer>,
    local_domain: &str,
) -> (r: Result<FlagSubject, String>)
    ensures
        inbound::actor::result_view(r) == flag_subject(
            text::string_contents(objects@),
            answers@,
            local_domain@,
        ),
{
    let ghost all = text::string_contents(objects@);
    let mut subject: Option<FlagSubject> = None;
    let mut i: usize = 0;
    while i < objects.len() && i < answers.len()
        invariant
            i <= objects@.len(),
            i <= answers@.len(),
            all == text::string_contents(objects@),
            flag_subject_from(all, answers@, local_domain@, 0, None) == flag_subject_from(
                all,
                answers@,
                local_domain@,
                i as int,
                subject,
            ),
        decreases objects@.len() - i,
    {
        assert(all[i as int] == objects@[i as int]@);
        match judge_object(objects[i].as_str(), &answers[i], local_domain) {
            Some(s) => {
                if s.post_id.is_some() {
                    return Ok(s);
                }
                subject = Some(s);
            },
            None => {},
        }
        i += 1;
    }
    match subject {
        Some(s) => Ok(s),
        None => Err("Flag: ローカルの通報対象を解決できません".to_owned()),
    }
}

/// The kind under which a report is kept.
pub fn subject_type(subject: &FlagSubject) -> (r: &'static str)
    ensures
        r@ == (if subject.post_id is Some {
            "post"@
        } else {
            "actor"@
        }),
{
    if subject.post_id.is_some() {
        "post"
    } else {
        "actor"
    }
}

// ---------------------------------------------------------------------------
// Laws.
// ---------------------------------------------------------------------------
proof fn lemma_reason_len(s: Seq<char>, i: int)
    requires
        0 <= i <= s.len(),
        i <= MAX_REASON_CHARS,
        text::utf8_len(s.take(i)) <= MAX_REASON_BYTES,
    ensures
        ({
            let n = reason_len(s, i);
            &&& i <= n <= s.len()
            &&& n <= MAX_REASON_CHARS
            &&& text::utf8_len(s.take(n)) <= MAX_REASON_BYTES
            &&& n == s.len() || n == MAX_REASON_CHARS || text::utf8_len(s.take(n + 1))
                > MAX_REASON_BYTES
        }),
    decreases s.len() - i,
{
    if i < s.len() && i < MAX_REASON_CHARS && text::utf8_len(s.take(i + 1)) <= MAX_REASON_BYTES {
        lemma_reason_len(s, i + 1);
    }
}

/// The reason of a report is a beginning of the text that keeps both limits, and
/// the next character would break one of them.
pub proof fn law_reason_keeps_its_limits(s: Seq<char>)
    ensures
        reason(s).len() <= MAX_REASON_CHARS,
        text::utf8_len(reason(s)) <= MAX_REASON_BYTES,
        reason(s).is_prefix_of(s),
        reason(s) == s || reason(s).len() == MAX_REASON_CHARS || text::utf8_len(
            s.take(reason(s).len() as int + 1),
        ) > MAX_REASON_BYTES,
{
    assert(s.take(0) =~= Seq::<char>::empty());
    lemma_reason_len(s, 0);
    assert(s.take(s.len() as int) =~= s);
}

/// A report keeps who sends it, everything that it names and what it says, without
/// tags; a report that says nothing is taken all the same.
pub proof fn law_report_is_read(activity: JsonModel, actor_uri: Seq<char>, said: Seq<char>)
    requires
        activity.text_at("actor"@) == Some(actor_uri),
    ensures
        flag_request(activity) is Ok,
        flag_request(activity)->Ok_0.actor_uri == actor_uri,
        activity.text_at("content"@) == Some(said) ==> flag_request(
            activity,
        )->Ok_0.reason_text.is_prefix_of(content::stripped_html(said)),
        activity.text_at("content"@) == Some(said) && content::stripped_html(said).len()
            <= 300 && text::utf8_len(content::stripped_html(said)) <= 1000 ==> flag_request(
            activity,
        )->Ok_0.reason_text == content::stripped_html(said),
        activity.at("object"@) == JsonModel::Str(said) ==> flag_request(activity)->Ok_0.objects
            == seq![said],
{
    let t = content::stripped_html(content::text_or_empty(activity.text_at("content"@)));
    law_reason_keeps_its_limits(t);
    if t.len() <= 300 && text::utf8_len(t) <= 1000 {
        let n = reason(t).len() as int;
        if reason(t) != t {
            if n == t.len() {
                assert(reason(t) =~= t);
            }
            let longer = t.take(n + 1);
            assert(t =~= longer + t.skip(n + 1));
            text::lemma_utf8_len_add(longer, t.skip(n + 1));
        }
    }
}

proof fn lemma_subject_from(
    objects: Seq<Seq<char>>,
    answers: Seq<FlagAnswer>,
    local_domain: Seq<char>,
    i: int,
    so_far: Option<FlagSubject>,
    k: int,
)
    requires
        0 <= i <= k < objects.len(),
        objects.len() == answers.len(),
    ensures
        reported_post(objects[k], answers[k], local_domain) is Some && (forall|j: int|
            i <= j < k ==> reported_post(#[trigger] objects[j], answers[j], local_domain) is None)
            ==> flag_subject_from(objects, answers, local_domain, i, so_far) == reported_post(
            objects[k],
            answers[k],
            local_domain,
        ),
    decreases k - i,
{
    if i < k {
        let here = reported_actor(objects[i], answers[i], local_domain);
        lemma_subject_from(
            objects,
            answers,
            local_domain,
            i + 1,
            if here is Some {
                here
            } else {
                so_far
            },
            k,
        );
        assert(objects[i] == objects[i]);
    }
}

/// A report that names a local post is about that post and its author, whatever else
/// it names along with it.
pub proof fn law_reported_post_comes_first(
    objects: Seq<Seq<char>>,
    answers: Seq<FlagAnswer>,
    local_domain: Seq<char>,
    k: int,
    id: i64,
    owner: i64,
)
    requires
        objects.len() == answers.len(),
        0 <= k < objects.len(),
        objects[k] == "https://"@ + local_domain + "/notes/"@ + decimal::int_text(id as int),
        answers[k].owner == Some(owner),
        forall|j: int|
            0 <= j < k ==> note_input::local_note_id(#[trigger] objects[j], local_domain) is None,
    ensures
        flag_subject(objects, answers, local_domain) == Ok::<_, Seq<char>>(
            FlagSubject { actor_id: owner, post_id: Some(id) },
        ),
{
    note_input::law_own_addresses_are_known(local_domain, id, objects[k]);
    lemma_subject_from(objects, answers, local_domain, 0, None, k);
}

/// A report of a single object that names a local user is about that user, and is
/// refused where the actor that was found is not local.
pub proof fn law_report_of_a_user(
    local_domain: Seq<char>,
    username: Seq<char>,
    answer: FlagAnswer,
    a: Actor,
)
    requires
        note_input::local_note_id(ap::local_actor_uri(local_domain, username), local_domain)
            is None,
        answer.actor == Some(a),
    ensures
        a.actor_type@ == "local"@ ==> flag_subject(
            seq![ap::local_actor_uri(local_domain, username)],
            seq![answer],
            local_domain,
        ) == Ok::<_, Seq<char>>(FlagSubject { actor_id: a.id, post_id: None }),
        a.actor_type@ != "local"@ ==> flag_subject(
            seq![ap::local_actor_uri(local_domain, username)],
            seq![answer],
            local_domain,
        ) is Err,
{
    ap::law_local_actor_uri_names_its_user(local_domain, username);
    reveal_with_fuel(flag_subject_from, 2);
}

} // verus!
