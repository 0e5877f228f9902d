//! What a reply, a quote or a repost refers to.
//!
//! A note that is delivered here may refer to one that is not known yet: that
//! one is fetched. What the fetched note itself refers to is never fetched.

use crate::json;
use crate::json::{Json, JsonModel};
use crate::text;
use vstd::prelude::*;

verus! {

/// Why a reference is not resolved.
#[derive(Debug, Clone, Copy, PartialEq, Eq, Structural)]
pub enum RefStatus {
    /// It may still be resolved.
    Pending,
    /// The note is known to be gone.
    Gone,
}

impl RefStatus {
    pub open spec fn db_text(self) -> Seq<char> {
        match self {
            RefStatus::Pending => "pending"@,
            RefStatus::Gone => "gone"@,
        }
    }

    /// The status as it is kept in the database.
    pub fn as_db_str(self) -> (r: &'static str)
        ensures
            r@ == self.db_text(),
    {
        match self {
            RefStatus::Pending => "pending",
            RefStatus::Gone => "gone",
        }
    }
}

/// What became of a reference.
pub enum ReferenceOutcome {
    /// There is no reference.
    Absent,
    /// The local post that is referred to.
    Resolved(i64),
    /// The address that is referred to, and why it is not resolved.
    Unresolved { ap_uri: String, status: RefStatus },
}

impl ReferenceOutcome {
    /// The three columns in which a reference is kept: the post, the address and
    /// the status.
    pub fn into_parts(self) -> (r: (Option<i64>, Option<String>, Option<RefStatus>))
        ensures
            match self {
                ReferenceOutcome::Absent => r == (None::<i64>, None::<String>, None::<RefStatus>),
                ReferenceOutcome::Resolved(id) => r == (
                    Some(id),
                    None::<String>,
                    None::<RefStatus>,
                ),
                ReferenceOutcome::Unresolved { ap_uri, status } => r == (
                    None::<i64>,
                    Some(ap_uri),
                    Some(status),
                ),
            },
    {
        match self {
            ReferenceOutcome::Absent => (None, None, None),
            ReferenceOutcome::Resolved(id) => (Some(id), None, None),
            ReferenceOutcome::Unresolved { ap_uri, status } => (None, Some(ap_uri), Some(status)),
        }
    }
}

/// How far a reference is followed.
#[derive(Debug, Clone, Copy, PartialEq, Eq, Structural)]
pub enum ReferenceResolutionMode {
    /// The note was delivered here: what it refers to is fetched.
    OneHopFetch,
    /// The note was fetched: what it refers to is only looked up.
    DbOnly,
}

/// What a reference stands for.
pub enum ReferenceModel {
    Absent,
    Resolved(i64),
    Unresolved { ap_uri: Seq<char>, status: RefStatus },
}

impl View for ReferenceOutcome {
    type V = ReferenceModel;

    open spec fn view(&self) -> ReferenceModel {
        match self {
            ReferenceOutcome::Absent => ReferenceModel::Absent,
            ReferenceOutcome::Resolved(id) => ReferenceModel::Resolved(*id),
            ReferenceOutcome::Unresolved { ap_uri, status } => ReferenceModel::Unresolved {
                ap_uri: ap_uri@,
                status: *status,
            },
        }
    }
}

impl ReferenceModel {
    /// The three columns in which a reference is kept.
    pub open spec fn columns(self) -> (Option<i64>, Option<Seq<char>>, Option<RefStatus>) {
        match self {
            ReferenceModel::Absent => (None, None, None),
            ReferenceModel::Resolved(id) => (Some(id), None, None),
            ReferenceModel::Unresolved { ap_uri, status } => (None, Some(ap_uri), Some(status)),
        }
    }
}

impl ReferenceOutcome {
    /// A copy of the outcome.
    pub fn duplicate(&self) -> (r: ReferenceOutcome)
        ensures
            r@ == self@,
    {
        match self {
            ReferenceOutcome::Absent => ReferenceOutcome::Absent,
            ReferenceOutcome::Resolved(id) => ReferenceOutcome::Resolved(*id),
            ReferenceOutcome::Unresolved { ap_uri, status } => ReferenceOutcome::Unresolved {
                ap_uri: ap_uri.clone(),
                status: *status,
            },
        }
    }
}

/// What is to be done about a reference.
pub enum ReferenceStep {
    Done(ReferenceOutcome),
    /// The note at the address is to be fetched and kept.
    Fetch(String),
}

/// What a step stands for.
pub enum ReferenceStepModel {
    Done(ReferenceModel),
    Fetch(Seq<char>),
}

impl View for ReferenceStep {
    type V = ReferenceStepModel;

    open spec fn view(&self) -> ReferenceStepModel {
        match self {
            ReferenceStep::Done(o) => ReferenceStepModel::Done(o@),
            ReferenceStep::Fetch(u) => ReferenceStepModel::Fetch(u@),
        }
    }
}

/// What is to be done about a reference, where `found` is the post that the
/// database knows at its address.
pub open spec fn reference_step(
    mode: ReferenceResolutionMode,
    uri: Option<Seq<char>>,
    found: Option<i64>,
) -> ReferenceStepModel {
    match uri {
        None => ReferenceStepModel::Done(ReferenceModel::Absent),
        Some(u) => match found {
            Some(id) => ReferenceStepModel::Done(ReferenceModel::Resolved(id)),
            None => match mode {
                ReferenceResolutionMode::OneHopFetch => ReferenceStepModel::Fetch(u),
                ReferenceResolutionMode::DbOnly => ReferenceStepModel::Done(
                    ReferenceModel::Unresolved { ap_uri: u, status: RefStatus::Pending },
                ),
            },
        },
    }
}

/// What is to be done about a reference. A lookup that failed finds nothing.
pub fn resolve_ref(mode: ReferenceResolutionMode, uri: Option<&str>, found: Option<i64>) -> (r:
    ReferenceStep)
    ensures
        r@ == reference_step(mode, text::str_view(uri), found),
{
    match uri {
        None => ReferenceStep::Done(ReferenceOutcome::Absent),
        Some(u) => match found {
            Some(id) => ReferenceStep::Done(ReferenceOutcome::Resolved(id)),
            None => match mode {
                ReferenceResolutionMode::OneHopFetch => ReferenceStep::Fetch(u.to_owned()),
                ReferenceResolutionMode::DbOnly => ReferenceStep::Done(
                    ReferenceOutcome::Unresolved {
                        ap_uri: u.to_owned(),
                        status: RefStatus::Pending,
                    },
                ),
            },
        },
    }
}

/// The reference that a fetched note itself makes, which is only looked up.
pub fn resolve_reference_db_only(uri: Option<&str>, found: Option<i64>) -> (r: ReferenceOutcome)
    ensures
        ReferenceStepModel::Done(r@) == reference_step(
            ReferenceResolutionMode::DbOnly,
            text::str_view(uri),
            found,
        ),
{
    match uri {
        None => ReferenceOutcome::Absent,
        Some(u) => match found {
            Some(id) => ReferenceOutcome::Resolved(id),
            None => ReferenceOutcome::Unresolved {
                ap_uri: u.to_owned(),
                status: RefStatus::Pending,
            },
        },
    }
}

/// What came of fetching a note that is referred to.
#[derive(Debug, Clone, Copy, PartialEq, Eq, Structural)]
pub enum FetchedReference {
    /// It was fetched and kept as the given post.
    Saved(i64),
    /// It was fetched and could not be kept.
    NotSaved,
    /// Its server says that it is not there.
    Gone,
    /// It could not be fetched, or not in time.
    Failed,
}

/// What became of a reference whose note was fetched.
pub open spec fn fetched_outcome(uri: Seq<char>, fetched: FetchedReference) -> ReferenceModel {
    match fetched {
        FetchedReference::Saved(id) => ReferenceModel::Resolved(id),
        FetchedReference::Gone => ReferenceModel::Unresolved {
            ap_uri: uri,
            status: RefStatus::Gone,
        },
        _ => ReferenceModel::Unresolved { ap_uri: uri, status: RefStatus::Pending },
    }
}

/// What became of a reference whose note was fetched.
pub fn resolve_reference(uri: &str, fetched: FetchedReference) -> (r: ReferenceOutcome)
    ensures
        r@ == fetched_outcome(uri@, fetched),
{
    match fetched {
        FetchedReference::Saved(id) => ReferenceOutcome::Resolved(id),
        FetchedReference::Gone => ReferenceOutcome::Unresolved {
            ap_uri: uri.to_owned(),
            status: RefStatus::Gone,
        },
        _ => ReferenceOutcome::Unresolved { ap_uri: uri.to_owned(), status: RefStatus::Pending },
    }
}

/// What is written back to a post whose pending reference was tried again.
#[derive(Debug, Clone, Copy, PartialEq, Eq, Structural)]
pub enum ReferenceUpdate {
    /// Nothing: the reference is as pending as it was.
    Keep,
    /// The post that is referred to.
    Resolved(i64),
    /// That the note is gone.
    Gone,
}

/// What is written back to a post whose pending reference was tried again.
pub open spec fn reference_update(outcome: ReferenceModel) -> ReferenceUpdate {
    match outcome {
        ReferenceModel::Resolved(id) => ReferenceUpdate::Resolved(id),
        ReferenceModel::Unresolved { status: RefStatus::Gone, .. } => ReferenceUpdate::Gone,
        _ => ReferenceUpdate::Keep,
    }
}

/// What becomes of a pending reference that was tried again, and what is written
/// back to its post. `tried` is what came of it in time, and nothing where the
/// time ran out.
pub fn resolve_pending_reference_with_timeout(ap_uri: &str, tried: Option<ReferenceOutcome>) -> (r: (
    ReferenceOutcome,
    ReferenceUpdate,
))
    ensures
        r.0@ == (match tried {
            Some(o) => o@,
            None => ReferenceModel::Unresolved { ap_uri: ap_uri@, status: RefStatus::Pending },
        }),
        r.1 == reference_update(r.0@),
{
    let outcome: ReferenceOutcome = match tried {
        Some(o) => o,
        None => ReferenceOutcome::Unresolved {
            ap_uri: ap_uri.to_owned(),
            status: RefStatus::Pending,
        },
    };
    let update: ReferenceUpdate = match &outcome {
        ReferenceOutcome::Resolved(id) => ReferenceUpdate::Resolved(*id),
        ReferenceOutcome::Unresolved { status, .. } => match status {
            RefStatus::Gone => ReferenceUpdate::Gone,
            RefStatus::Pending => ReferenceUpdate::Keep,
        },
        ReferenceOutcome::Absent => ReferenceUpdate::Keep,
    };
    (outcome, update)
}

/// The first text of a list from index `i` on.
pub open spec fn first_text(vs: Seq<JsonModel>, i: int) -> Option<Seq<char>>
    decreases vs.len() - i,
{
    if i < 0 || i >= vs.len() {
        None
    } else if vs[i].as_str() is Some {
        vs[i].as_str()
    } else {
        first_text(vs, i + 1)
    }
}

/// The author of a note: the text `attributedTo`, or the first text of its list.
pub open spec fn attributed_to(note: JsonModel) -> Option<Seq<char>> {
    let author = note.at("attributedTo"@);
    if author.as_str() is Some {
        author.as_str()
    } else {
        first_text(author.items(), 0)
    }
}

/// The author of a note.
pub fn extract_attributed_to(note: &Json) -> (r: Option<String>)
    ensures
        text::string_view(r) == attributed_to(note@),
{
    let author: &Json = match note.get("attributedTo") {
        Some(a) => a,
        None => {
            return None;
        },
    };
    match author.as_str() {
        Some(a) => {
            return Some(a.to_owned());
        },
        None => {},
    }
    let list: &Vec<Json> = match author.as_arr() {
        Some(v) => v,
        None => {
            return None;
        },
    };
    let ghost vs = json::models(list@);
    let mut i: usize = 0;
    while i < list.len()
        invariant
            i <= list@.len(),
            vs == json::models(list@),
            note@.at("attributedTo"@) == author@,
            author@.as_str() is None,
            author@.items() == vs,
            first_text(vs, 0) == first_text(vs, i as int),
        decreases list@.len() - i,
    {
        assert(vs[i as int] == list@[i as int]@);
        match list[i].as_str() {
            Some(a) => {
                return Some(a.to_owned());
            },
            None => {},
        }
        i += 1;
    }
    None
}

// ---------------------------------------------------------------------------
// Laws.
// ---------------------------------------------------------------------------
/// What a fetched note refers to is never fetched: at most one note is fetched
/// for a note that is delivered.
pub proof fn law_references_of_fetched_notes_are_not_fetched(
    uri: Option<Seq<char>>,
    found: Option<i64>,
)
    ensures
        reference_step(ReferenceResolutionMode::DbOnly, uri, found) is Done,
{
}

/// A note that is known is never fetched again.
pub proof fn law_known_notes_are_not_fetched(
    mode: ReferenceResolutionMode,
    uri: Option<Seq<char>>,
    id: i64,
)
    ensures
        reference_step(mode, uri, Some(id)) is Done,
{
}

/// The database keeps a reference either as the post or as the address with the
/// reason, never as both; a note without a reference keeps neither. What is kept
/// tells which it was.
pub proof fn law_kept_reference_is_read_back(a: ReferenceModel, b: ReferenceModel)
    ensures
        a.columns() == b.columns() ==> a == b,
        a.columns().0 is Some ==> a.columns().1 is None && a.columns().2 is None,
        a.columns().1 is Some <==> a.columns().2 is Some,
        a matches ReferenceModel::Resolved(id) ==> a.columns().0 == Some(id),
        a matches ReferenceModel::Unresolved { ap_uri, status } ==> a.columns().1 == Some(ap_uri)
            && a.columns().2 == Some(status),
        a is Absent ==> a.columns().0 is None && a.columns().1 is None,
{
}

/// The reason is kept under its name.
pub proof fn law_reasons_have_names(a: RefStatus)
    ensures
        a is Pending <==> a.db_text() == "pending"@,
        a is Gone <==> a.db_text() == "gone"@,
{
    reveal_strlit("pending");
    reveal_strlit("gone");
    assert("pending"@.len() == 7);
    assert("gone"@.len() == 4);
}

/// A reference is resolved to the post that is known under its address, whichever way
/// the note came. One that is not known is fetched where the note was delivered, and
/// left pending where the note was itself fetched.
pub proof fn law_reference_is_resolved(mode: ReferenceResolutionMode, uri: Seq<char>, id: i64)
    ensures
        reference_step(mode, Some(uri), Some(id)) == ReferenceStepModel::Done(
            ReferenceModel::Resolved(id),
        ),
        reference_step(ReferenceResolutionMode::OneHopFetch, Some(uri), None)
            == ReferenceStepModel::Fetch(uri),
        reference_step(ReferenceResolutionMode::DbOnly, Some(uri), None)
            == ReferenceStepModel::Done(
            ReferenceModel::Unresolved { ap_uri: uri, status: RefStatus::Pending },
        ),
        reference_step(mode, None, None) == ReferenceStepModel::Done(ReferenceModel::Absent),
{
}

/// What a fetch gave: a note that was kept is the reference; one that its server
/// reports gone is gone for good; anything else may still come.
pub proof fn law_fetched_reference_is_settled(uri: Seq<char>, fetched: FetchedReference)
    ensures
        (match fetched {
            FetchedReference::Saved(id) => fetched_outcome(uri, fetched).columns().0 == Some(id)
                && reference_update(fetched_outcome(uri, fetched)) == ReferenceUpdate::Resolved(id),
            FetchedReference::Gone => fetched_outcome(uri, fetched).columns().1 == Some(uri)
                && reference_update(fetched_outcome(uri, fetched)) is Gone,
            _ => fetched_outcome(uri, fetched).columns() == (
                None::<i64>,
                Some(uri),
                Some(RefStatus::Pending),
            ) && reference_update(fetched_outcome(uri, fetched)) is Keep,
        }),
{
}

proof fn lemma_first_text(vs: Seq<JsonModel>, i: int, k: int)
    requires
        0 <= i <= k < vs.len(),
        vs[k].as_str() is Some,
        forall|j: int| i <= j < k ==> (#[trigger] vs[j]).as_str() is None,
    ensures
        first_text(vs, i) == vs[k].as_str(),
    decreases k - i,
{
    if i < k {
        assert(vs[i].as_str() is None);
        lemma_first_text(vs, i + 1, k);
    }
}

/// A note is by the actor whom it states, alone or as the first address of a list.
pub proof fn law_author_is_stated_either_way(note: JsonModel, uri: Seq<char>, k: int)
    ensures
        note.at("attributedTo"@) == JsonModel::Str(uri) ==> attributed_to(note) == Some(uri),
        note.at("attributedTo"@) is Arr && 0 <= k < note.at("attributedTo"@).items().len()
            && note.at("attributedTo"@).items()[k] == JsonModel::Str(uri) && (forall|j: int|
            0 <= j < k ==> (#[trigger] note.at("attributedTo"@).items()[j]).as_str() is None)
            ==> attributed_to(note) == Some(uri),
{
    let vs = note.at("attributedTo"@).items();
    if note.at("attributedTo"@) is Arr && 0 <= k < vs.len() && vs[k] == JsonModel::Str(uri) && (
    forall|j: int| 0 <= j < k ==> (#[trigger] vs[j]).as_str() is None) {
        lemma_first_text(vs, 0, k);
    }
}

} // verus!
