//! JSON values, as the library reads and builds them.
//!
//! A number that fits `i64` is an `Int`; any other number is kept in the form it
//! is printed in. An object lists its members; a reader looks a key up and takes
//! the first member that has it.

use crate::text;
use vstd::prelude::*;

verus! {

/// A JSON value.
#[derive(Debug)]
pub enum Json {
    Null,
    Bool(bool),
    Int(i64),
    Num(String),
    Str(String),
    Arr(Vec<Json>),
    Obj(Vec<Member>),
}

/// A member of a JSON object.
#[derive(Debug)]
pub struct Member {
    pub key: String,
    pub value: Json,
}

/// What a JSON value stands for.
pub enum JsonModel {
    Null,
    Bool(bool),
    Int(int),
    Num(Seq<char>),
    Str(Seq<char>),
    Arr(Seq<JsonModel>),
    Obj(Seq<MemberModel>),
}

/// What a member of a JSON object stands for.
pub struct MemberModel {
    pub key: Seq<char>,
    pub value: JsonModel,
}

impl View for Json {
    type V = JsonModel;

    open spec fn view(&self) -> JsonModel
        decreases self,
    {
        match self {
            Json::Null => JsonModel::Null,
            Json::Bool(b) => JsonModel::Bool(*b),
            Json::Int(n) => JsonModel::Int(*n as int),
            Json::Num(t) => JsonModel::Num(t@),
            Json::Str(t) => JsonModel::Str(t@),
            Json::Arr(v) => JsonModel::Arr(
                Seq::new(
                    v@.len(),
                    |i: int|
                        if 0 <= i < v@.len() {
                            v@[i].view()
                        } else {
                            JsonModel::Null
                        },
                ),
            ),
            Json::Obj(v) => JsonModel::Obj(
                Seq::new(
                    v@.len(),
                    |i: int|
                        if 0 <= i < v@.len() {
                            MemberModel { key: v@[i].key@, value: v@[i].value.view() }
                        } else {
                            MemberModel { key: Seq::empty(), value: JsonModel::Null }
                        },
                ),
            ),
        }
    }
}

// ---------------------------------------------------------------------------
// Reading a value.
// ---------------------------------------------------------------------------
/// The value of the first member from index `i` on that has the key.
pub open spec fn first_member(ms: Seq<MemberModel>, key: Seq<char>, i: int) -> Option<
    JsonModel,
>
    decreases ms.len() - i,
{
    if i < 0 || i >= ms.len() {
        None
    } else if ms[i].key == key {
        Some(ms[i].value)
    } else {
        first_member(ms, key, i + 1)
    }
}

impl JsonModel {
    /// What an object holds under a key; nothing where the value is no object.
    pub open spec fn member(self, key: Seq<char>) -> Option<JsonModel> {
        match self {
            JsonModel::Obj(ms) => first_member(ms, key, 0),
            _ => None,
        }
    }

    /// What an object holds under a key, `Null` where it holds nothing.
    pub open spec fn at(self, key: Seq<char>) -> JsonModel {
        match self.member(key) {
            Some(v) => v,
            None => JsonModel::Null,
        }
    }

    pub open spec fn as_str(self) -> Option<Seq<char>> {
        match self {
            JsonModel::Str(t) => Some(t),
            _ => None,
        }
    }

    pub open spec fn as_int(self) -> Option<int> {
        match self {
            JsonModel::Int(n) => Some(n),
            _ => None,
        }
    }

    pub open spec fn as_bool(self) -> Option<bool> {
        match self {
            JsonModel::Bool(b) => Some(b),
            _ => None,
        }
    }

    pub open spec fn as_arr(self) -> Option<Seq<JsonModel>> {
        match self {
            JsonModel::Arr(v) => Some(v),
            _ => None,
        }
    }

    /// The elements of an array; none where the value is no array.
    pub open spec fn items(self) -> Seq<JsonModel> {
        match self {
            JsonModel::Arr(v) => v,
            _ => seq![],
        }
    }

    /// The text that an object holds under a key.
    pub open spec fn text_at(self, key: Seq<char>) -> Option<Seq<char>> {
        self.at(key).as_str()
    }
}

/// The index of the first member from index `i` on that has the key.
pub open spec fn member_index(ms: Seq<MemberModel>, key: Seq<char>, i: int) -> Option<int>
    decreases ms.len() - i,
{
    if i < 0 || i >= ms.len() {
        None
    } else if ms[i].key == key {
        Some(i)
    } else {
        member_index(ms, key, i + 1)
    }
}

/// The text is that of a floating-point zero, with or without its sign.
pub open spec fn is_zero_text(t: Seq<char>) -> bool {
    t == "0.0"@ || t == "-0.0"@
}

/// Two JSON values are alike: the order of an object's members is of no account,
/// nor is a member behind another one of its key, and the two zeros are one
/// number.
pub open spec fn alike(a: JsonModel, b: JsonModel) -> bool
    decreases a,
{
    match (a, b) {
        (JsonModel::Num(t), JsonModel::Num(u)) => t == u || is_zero_text(t) && is_zero_text(u),
        (JsonModel::Arr(x), JsonModel::Arr(y)) => x.len() == y.len() && forall|i: int|
            0 <= i < x.len() ==> alike(#[trigger] x[i], y[i]),
        (JsonModel::Obj(x), JsonModel::Obj(y)) => {
            &&& forall|i: int|
                #![trigger x[i]]
                0 <= i < x.len() && member_index(x, x[i].key, 0) == Some(i) ==> (match member_index(
                    y,
                    x[i].key,
                    0,
                ) {
                    Some(j) => alike(x[i].value, y[j].value),
                    None => false,
                })
            &&& forall|j: int|
                0 <= j < y.len() ==> member_index(x, (#[trigger] y[j]).key, 0) is Some
        },
        _ => a == b,
    }
}

/// What an optional JSON value stands for.
pub open spec fn opt_model(j: Option<Json>) -> Option<JsonModel> {
    match j {
        Some(v) => Some(v@),
        None => None,
    }
}

/// What a list of JSON values stands for.
pub open spec fn models(v: Seq<Json>) -> Seq<JsonModel> {
    v.map_values(|j: Json| j@)
}

/// The member with the given key and value.
pub open spec fn member_of(key: Seq<char>, value: JsonModel) -> MemberModel {
    MemberModel { key, value }
}

/// What a list of members stands for.
pub open spec fn member_models(v: Seq<Member>) -> Seq<MemberModel> {
    v.map_values(|m: Member| member_of(m.key@, m.value@))
}

/// An array stands for the list of what its elements stand for.
pub proof fn lemma_array_view(j: Json)
    requires
        j is Arr,
    ensures
        j@ == JsonModel::Arr(models(j->Arr_0@)),
{
    assert(j@->Arr_0 =~= models(j->Arr_0@));
}

/// An object stands for the list of what its members stand for.
pub proof fn lemma_object_view(j: Json)
    requires
        j is Obj,
    ensures
        j@ == JsonModel::Obj(member_models(j->Obj_0@)),
{
    let v = j->Obj_0@;
    assert forall|i: int| 0 <= i < v.len() implies #[trigger] j@->Obj_0[i] == member_models(v)[i] by {
        assert(member_models(v)[i] == member_of(v[i].key@, v[i].value@));
    }
    assert(j@->Obj_0 =~= member_models(v));
}

/// The index of the first member that has the key.
fn find_member(ms: &Vec<Member>, key: &str) -> (r: Option<usize>)
    ensures
        r is Some <==> member_index(member_models(ms@), key@, 0) is Some,
        r matches Some(k) ==> member_index(member_models(ms@), key@, 0) == Some(k as int) && k
            < ms@.len(),
{
    let ghost all = member_models(ms@);
    let mut i: usize = 0;
    while i < ms.len()
        invariant
            i <= ms@.len(),
            all == member_models(ms@),
            member_index(all, key@, 0) == member_index(all, key@, i as int),
        decreases ms@.len() - i,
    {
        assert(all[i as int] == member_of(ms@[i as int].key@, ms@[i as int].value@));
        if text::same_str(ms[i].key.as_str(), key) {
            return Some(i);
        }
        i += 1;
    }
    None
}

/// Whether the text is that of a floating-point zero.
fn is_zero(t: &str) -> (r: bool)
    ensures
        r == is_zero_text(t@),
{
    text::same_str(t, "0.0") || text::same_str(t, "-0.0")
}

impl Json {
    /// What an object holds under a key.
    pub fn get<'a>(&'a self, key: &str) -> (r: Option<&'a Json>)
        ensures
            r is Some <==> self@.member(key@) is Some,
            r matches Some(v) ==> self@.member(key@) == Some(v@) && self@.at(key@) == v@,
            r is None ==> self@.at(key@) == JsonModel::Null,
    {
        match self {
            Json::Obj(ms) => {
                let mut i: usize = 0;
                let ghost all = member_models(ms@);
                proof {
                    lemma_object_view(*self);
                }
                while i < ms.len()
                    invariant
                        i <= ms@.len(),
                        all.len() == ms@.len(),
                        forall|k: int|
                            0 <= k < ms@.len() ==> #[trigger] all[k] == member_of(
                                ms@[k].key@,
                                ms@[k].value@,
                            ),
                        first_member(all, key@, 0) == first_member(all, key@, i as int),
                        self@ == JsonModel::Obj(all),
                    decreases ms@.len() - i,
                {
                    assert(all[i as int] == member_of(ms@[i as int].key@, ms@[i as int].value@));
                    if text::same_str(ms[i].key.as_str(), key) {
                        return Some(&ms[i].value);
                    }
                    i += 1;
                }
                None
            },
            _ => None,
        }
    }

    /// The text, where the value is one.
    pub fn as_str<'a>(&'a self) -> (r: Option<&'a str>)
        ensures
            text::str_view(r) == self@.as_str(),
    {
        match self {
            Json::Str(t) => Some(t.as_str()),
            _ => None,
        }
    }

    /// The elements, where the value is an array.
    pub fn as_arr<'a>(&'a self) -> (r: Option<&'a Vec<Json>>)
        ensures
            r is Some <==> self@.as_arr() is Some,
            r matches Some(v) ==> self@.as_arr() == Some(models(v@)) && self@.items() == models(v@),
            r is None ==> self@.items().len() == 0,
    {
        match self {
            Json::Arr(v) => {
                proof {
                    lemma_array_view(*self);
                }
                Some(v)
            },
            _ => None,
        }
    }

    /// The text that an object holds under a key.
    pub fn text_at<'a>(&'a self, key: &str) -> (r: Option<&'a str>)
        ensures
            text::str_view(r) == self@.text_at(key@),
    {
        match self.get(key) {
            Some(v) => v.as_str(),
            None => None,
        }
    }

    /// Whether an object holds the given text under a key.
    pub fn text_is(&self, key: &str, value: &str) -> (r: bool)
        ensures
            r == (self@.text_at(key@) == Some(value@)),
    {
        match self.text_at(key) {
            Some(t) => text::same_str(t, value),
            None => false,
        }
    }

    /// The elements of the array that an object holds under a key.
    pub fn arr_at<'a>(&'a self, key: &str) -> (r: Option<&'a Vec<Json>>)
        ensures
            r is Some <==> self@.at(key@).as_arr() is Some,
            r matches Some(v) ==> self@.at(key@) == JsonModel::Arr(models(v@)),
            r is None ==> self@.at(key@).items().len() == 0,
    {
        match self.get(key) {
            Some(v) => v.as_arr(),
            None => None,
        }
    }

    /// The integer that an object holds under a key.
    pub fn int_at(&self, key: &str) -> (r: Option<i64>)
        ensures
            r is Some <==> self@.at(key@).as_int() is Some,
            r matches Some(n) ==> self@.at(key@).as_int() == Some(n as int),
    {
        match self.get(key) {
            Some(Json::Int(n)) => Some(*n),
            _ => None,
        }
    }

    /// The truth value that an object holds under a key.
    pub fn bool_at(&self, key: &str) -> (r: Option<bool>)
        ensures
            r == self@.at(key@).as_bool(),
    {
        match self.get(key) {
            Some(Json::Bool(b)) => Some(*b),
            _ => None,
        }
    }

    /// Whether two values are alike.
    pub fn same(&self, other: &Json) -> (r: bool)
        ensures
            r == alike(self@, other@),
        decreases self,
    {
        match (self, other) {
            (Json::Null, Json::Null) => true,
            (Json::Bool(a), Json::Bool(b)) => *a == *b,
            (Json::Int(a), Json::Int(b)) => *a == *b,
            (Json::Num(a), Json::Num(b)) => text::same_str(a.as_str(), b.as_str()) || (is_zero(
                a.as_str(),
            ) && is_zero(b.as_str())),
            (Json::Str(a), Json::Str(b)) => text::same_str(a.as_str(), b.as_str()),
            (Json::Arr(a), Json::Arr(b)) => {
                proof {
                    lemma_array_view(*self);
                    lemma_array_view(*other);
                }
                if a.len() != b.len() {
                    return false;
                }
                let mut i: usize = 0;
                while i < a.len()
                    invariant
                        i <= a@.len() == b@.len(),
                        *self == Json::Arr(*a),
                        self@ == JsonModel::Arr(models(a@)),
                        other@ == JsonModel::Arr(models(b@)),
                        forall|k: int|
                            0 <= k < i ==> alike(#[trigger] models(a@)[k], models(b@)[k]),
                    decreases a@.len() - i,
                {
                    assert(decreases_to!(self => self->Arr_0@[i as int]));
                    assert(models(a@)[i as int] == a@[i as int]@);
                    assert(models(b@)[i as int] == b@[i as int]@);
                    if !a[i].same(&b[i]) {
                        return false;
                    }
                    i += 1;
                }
                true
            },
            (Json::Obj(a), Json::Obj(b)) => {
                let ghost x = member_models(a@);
                let ghost y = member_models(b@);
                proof {
                    lemma_object_view(*self);
                    lemma_object_view(*other);
                }
                let mut i: usize = 0;
                while i < a.len()
                    invariant
                        i <= a@.len(),
                        x == member_models(a@),
                        y == member_models(b@),
                        *self == Json::Obj(*a),
                        self@ == JsonModel::Obj(x),
                        other@ == JsonModel::Obj(y),
                        forall|k: int|
                            #![trigger x[k]]
                            0 <= k < i && member_index(x, x[k].key, 0) == Some(k) ==> (
                            match member_index(y, x[k].key, 0) {
                                Some(j) => alike(x[k].value, y[j].value),
                                None => false,
                            }),
                    decreases a@.len() - i,
                {
                    assert(decreases_to!(self => self->Obj_0@[i as int].value));
                    assert(x[i as int] == member_of(a@[i as int].key@, a@[i as int].value@));
                    if let Some(first) = find_member(a, a[i].key.as_str()) {
                        if first == i {
                            match find_member(b, a[i].key.as_str()) {
                                Some(j) => {
                                    assert(y[j as int] == member_of(
                                        b@[j as int].key@,
                                        b@[j as int].value@,
                                    ));
                                    if !a[i].value.same(&b[j].value) {
                                        return false;
                                    }
                                },
                                None => {
                                    return false;
                                },
                            }
                        }
                    }
                    i += 1;
                }
                let mut j: usize = 0;
                while j < b.len()
                    invariant
                        j <= b@.len(),
                        x == member_models(a@),
                        y == member_models(b@),
                        self@ == JsonModel::Obj(x),
                        other@ == JsonModel::Obj(y),
                        forall|k: int|
                            0 <= k < j ==> member_index(x, (#[trigger] y[k]).key, 0) is Some,
                    decreases b@.len() - j,
                {
                    assert(y[j as int] == member_of(b@[j as int].key@, b@[j as int].value@));
                    if find_member(a, b[j].key.as_str()).is_none() {
                        return false;
                    }
                    j += 1;
                }
                true
            },
            _ => false,
        }
    }

    /// A value that stands for the same thing.
    pub fn duplicate(&self) -> (r: Json)
        ensures
            r@ == self@,
        decreases self,
    {
        match self {
            Json::Null => Json::Null,
            Json::Bool(b) => Json::Bool(*b),
            Json::Int(n) => Json::Int(*n),
            Json::Num(t) => Json::Num(t.clone()),
            Json::Str(t) => Json::Str(t.clone()),
            Json::Arr(v) => {
                let mut out: Vec<Json> = Vec::new();
                let mut i: usize = 0;
                while i < v.len()
                    invariant
                        i <= v@.len(),
                        out@.len() == i,
                        *self == Json::Arr(*v),
                        forall|k: int| 0 <= k < i ==> (#[trigger] out@[k])@ == v@[k]@,
                    decreases v@.len() - i,
                {
                    assert(decreases_to!(self => self->Arr_0@[i as int]));
                    out.push(v[i].duplicate());
                    i += 1;
                }
                proof {
                    lemma_array_view(*self);
                    lemma_array_view(Json::Arr(out));
                    assert(models(out@) =~= models(v@));
                }
                Json::Arr(out)
            },
            Json::Obj(v) => {
                let mut out: Vec<Member> = Vec::new();
                let mut i: usize = 0;
                while i < v.len()
                    invariant
                        i <= v@.len(),
                        out@.len() == i,
                        *self == Json::Obj(*v),
                        forall|k: int|
                            0 <= k < i ==> (#[trigger] out@[k]).key@ == v@[k].key@ && out@[k].value@
                                == v@[k].value@,
                    decreases v@.len() - i,
                {
                    assert(decreases_to!(self => self->Obj_0@[i as int].value));
                    out.push(Member { key: v[i].key.clone(), value: v[i].value.duplicate() });
                    i += 1;
                }
                proof {
                    lemma_object_view(*self);
                    lemma_object_view(Json::Obj(out));
                    assert(member_models(out@) =~= member_models(v@));
                }
                Json::Obj(out)
            },
        }
    }
}

/// A copy of a list of JSON values.
pub fn duplicate_all(v: &Vec<Json>) -> (r: Vec<Json>)
    ensures
        models(r@) == models(v@),
{
    let mut out: Vec<Json> = Vec::new();
    let mut i: usize = 0;
    while i < v.len()
        invariant
            i <= v@.len(),
            models(out@) =~= models(v@).take(i as int),
        decreases v@.len() - i,
    {
        let ghost before = models(out@);
        let j: Json = v[i].duplicate();
        out.push(j);
        assert(models(out@) =~= before.push(j@));
        i += 1;
    }
    assert(models(out@) =~= models(v@));
    out
}

// ---------------------------------------------------------------------------
// Building a value.
// ---------------------------------------------------------------------------
/// The JSON text that holds the given one.
pub fn text_json(s: &str) -> (r: Json)
    ensures
        r@ == JsonModel::Str(s@),
{
    Json::Str(s.to_owned())
}

/// The JSON text that holds the given one, or `Null`.
pub open spec fn text_or_null(s: Option<Seq<char>>) -> JsonModel {
    match s {
        Some(t) => JsonModel::Str(t),
        None => JsonModel::Null,
    }
}

/// The JSON text that holds the given one, or `Null`.
pub fn opt_text_json(s: Option<&str>) -> (r: Json)
    ensures
        r@ == text_or_null(text::str_view(s)),
{
    match s {
        Some(t) => text_json(t),
        None => Json::Null,
    }
}

/// A member of an object.
pub fn member(key: &str, value: Json) -> (r: Member)
    ensures
        member_of(r.key@, r.value@) == member_of(key@, value@),
{
    Member { key: key.to_owned(), value }
}

/// The object with the given members.
pub fn object(ms: Vec<Member>) -> (r: Json)
    ensures
        r@ == JsonModel::Obj(member_models(ms@)),
{
    proof {
        lemma_object_view(Json::Obj(ms));
    }
    Json::Obj(ms)
}

/// The array with the given elements.
pub fn array(v: Vec<Json>) -> (r: Json)
    ensures
        r@ == JsonModel::Arr(models(v@)),
{
    proof {
        lemma_array_view(Json::Arr(v));
    }
    Json::Arr(v)
}

/// The members with a value put under a key: in the place of what the key had,
/// or else at the end.
pub open spec fn with_member(ms: Seq<MemberModel>, key: Seq<char>, value: JsonModel) -> Seq<MemberModel> {
    match member_index(ms, key, 0) {
        Some(i) => ms.update(i, member_of(key, value)),
        None => ms.push(member_of(key, value)),
    }
}

/// Puts a value under a key.
pub fn put_member(ms: &mut Vec<Member>, key: &str, value: Json)
    ensures
        member_models(final(ms)@) == with_member(member_models(old(ms)@), key@, value@),
{
    let ghost all = member_models(old(ms)@);
    match find_member(ms, key) {
        Some(i) => {
            ms[i] = Member { key: key.to_owned(), value };
            assert(member_models(ms@) =~= all.update(i as int, member_of(key@, value@)));
        },
        None => {
            ms.push(Member { key: key.to_owned(), value });
            assert(member_models(ms@) =~= all.push(member_of(key@, value@)));
        },
    }
}

// ---------------------------------------------------------------------------
// Laws.
// ---------------------------------------------------------------------------
proof fn lemma_member_index(ms: Seq<MemberModel>, key: Seq<char>, i: int)
    requires
        0 <= i <= ms.len(),
    ensures
        first_member(ms, key, i) == match member_index(ms, key, i) {
            Some(k) => Some(ms[k].value),
            None => None,
        },
        member_index(ms, key, i) matches Some(k) ==> i <= k < ms.len() && ms[k].key == key
            && forall|j: int| i <= j < k ==> (#[trigger] ms[j]).key != key,
        member_index(ms, key, i) is None ==> forall|j: int|
            i <= j < ms.len() ==> (#[trigger] ms[j]).key != key,
    decreases ms.len() - i,
{
    if i < ms.len() && ms[i].key != key {
        lemma_member_index(ms, key, i + 1);
    }
}

/// A value is alike to itself.
pub proof fn law_alike_itself(a: JsonModel)
    ensures
        alike(a, a),
    decreases a,
{
    match a {
        JsonModel::Arr(x) => {
            assert forall|i: int| 0 <= i < x.len() implies alike(#[trigger] x[i], x[i]) by {
                law_alike_itself(x[i]);
            }
        },
        JsonModel::Obj(x) => {
            assert forall|i: int| #![trigger x[i]] 0 <= i < x.len() implies alike(
                x[i].value,
                x[i].value,
            ) by {
                law_alike_itself(x[i].value);
            }
            assert forall|j: int| 0 <= j < x.len() implies member_index(
                x,
                (#[trigger] x[j]).key,
                0,
            ) is Some by {
                lemma_member_index(x, x[j].key, 0);
            }
        },
        _ => {},
    }
}

/// Two objects are alike exactly when they hold alike values under every key.
pub proof fn law_alike_objects(a: JsonModel, b: JsonModel)
    requires
        a is Obj,
        b is Obj,
    ensures
        alike(a, b) == (forall|key: Seq<char>|
            match (#[trigger] a.member(key), b.member(key)) {
                (Some(v), Some(w)) => alike(v, w),
                (None, None) => true,
                _ => false,
            }),
{
    let x = a->Obj_0;
    let y = b->Obj_0;
    if alike(a, b) {
        assert forall|key: Seq<char>|
            match (#[trigger] a.member(key), b.member(key)) {
                (Some(v), Some(w)) => alike(v, w),
                (None, None) => true,
                _ => false,
            } by {
            lemma_member_index(x, key, 0);
            lemma_member_index(y, key, 0);
            match member_index(x, key, 0) {
                Some(i) => {
                    assert(x[i].key == key);
                },
                None => {
                    if let Some(j) = member_index(y, key, 0) {
                        assert(y[j].key == key);
                    }
                },
            }
        }
    }
    if forall|key: Seq<char>|
        match (#[trigger] a.member(key), b.member(key)) {
            (Some(v), Some(w)) => alike(v, w),
            (None, None) => true,
            _ => false,
        } {
        assert forall|i: int|
            #![trigger x[i]]
            0 <= i < x.len() && member_index(x, x[i].key, 0) == Some(i) implies (match member_index(
            y,
            x[i].key,
            0,
        ) {
            Some(j) => alike(x[i].value, y[j].value),
            None => false,
        }) by {
            lemma_member_index(x, x[i].key, 0);
            lemma_member_index(y, x[i].key, 0);
            assert(a.member(x[i].key) == Some(x[i].value));
        }
        assert forall|j: int| 0 <= j < y.len() implies member_index(
            x,
            (#[trigger] y[j]).key,
            0,
        ) is Some by {
            lemma_member_index(x, y[j].key, 0);
            lemma_member_index(y, y[j].key, 0);
            assert(a.member(y[j].key) is Some || b.member(y[j].key) is None);
        }
    }
}

proof fn lemma_first_member_at(ms: Seq<MemberModel>, key: Seq<char>, k: int)
    requires
        0 <= k < ms.len(),
        ms[k].key == key,
        forall|j: int| 0 <= j < k ==> (#[trigger] ms[j]).key != key,
    ensures
        first_member(ms, key, 0) == Some(ms[k].value),
{
    lemma_member_index(ms, key, 0);
}

/// What was put under a key is what is read under it, and what stands under any
/// other key stays.
pub proof fn law_put_is_read(
    ms: Seq<MemberModel>,
    key: Seq<char>,
    value: JsonModel,
    other: Seq<char>,
)
    ensures
        JsonModel::Obj(with_member(ms, key, value)).member(key) == Some(value),
        other != key ==> JsonModel::Obj(with_member(ms, key, value)).member(other)
            == JsonModel::Obj(ms).member(other),
{
    let r = with_member(ms, key, value);
    lemma_member_index(ms, key, 0);
    lemma_member_index(ms, other, 0);
    lemma_member_index(r, key, 0);
    lemma_member_index(r, other, 0);
    match member_index(ms, key, 0) {
        Some(k) => {
            assert(r[k] == member_of(key, value));
            assert forall|j: int| 0 <= j < k implies (#[trigger] r[j]).key != key by {
                assert(r[j] == ms[j]);
            }
            lemma_first_member_at(r, key, k);
        },
        None => {
            let k: int = ms.len() as int;
            assert(r[k] == member_of(key, value));
            assert forall|j: int| 0 <= j < k implies (#[trigger] r[j]).key != key by {
                assert(r[j] == ms[j]);
            }
            lemma_first_member_at(r, key, k);
        },
    }
    if other != key {
        assert forall|j: int| 0 <= j < ms.len() implies ((#[trigger] r[j]).key == other <==> ms[j].key
            == other) by {}
        match member_index(ms, other, 0) {
            Some(k) => {
                assert(r[k] == ms[k]);
                assert forall|j: int| 0 <= j < k implies (#[trigger] r[j]).key != other by {
                    assert(ms[j].key != other);
                }
                lemma_first_member_at(r, other, k);
            },
            None => {
                assert forall|j: int| 0 <= j < r.len() implies (#[trigger] r[j]).key != other by {
                    if j < ms.len() {
                        assert(ms[j].key != other);
                    }
                }
                assert(member_index(r, other, 0) is None);
            },
        }
    }
}

/// Two numbers are alike where they are written the same, or are both a zero; values
/// of different kinds never are.
pub proof fn law_alike_values_are_of_one_kind(t: Seq<char>, u: Seq<char>, a: JsonModel)
    ensures
        alike(JsonModel::Num(t), JsonModel::Num(u)) <==> t == u || (t == "0.0"@ || t == "-0.0"@)
            && (u == "0.0"@ || u == "-0.0"@),
        alike(JsonModel::Str(t), JsonModel::Str(u)) <==> t == u,
        alike(JsonModel::Null, a) <==> a is Null,
        alike(JsonModel::Str(t), a) ==> a is Str,
        alike(JsonModel::Num(t), a) ==> a is Num,
{
}

} // verus!
