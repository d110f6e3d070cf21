//! A JSON value as the library holds it: the configuration document and the
//! caller's overrides are made of these.
use vstd::prelude::*;

verus! {

broadcast use vstd::std_specs::vec::group_vec_axioms;

/// A JSON value.
#[derive(Debug, PartialEq, Eq)]
pub enum Json {
    Null,
    Bool(bool),
    /// A non-negative integer.
    Natural(u64),
    /// Any other number, as its JSON literal text (`0.3`, `-2`, `1e-5`).
    Number(String),
    Text(String),
    Array(Vec<Json>),
    /// Members in order; keys are expected to be distinct.
    Object(Vec<(String, Json)>),
}

/// Mathematical model of a [`Json`] value.
pub ghost enum JsonModel {
    Null,
    Bool(bool),
    Natural(u64),
    Number(Seq<char>),
    Text(Seq<char>),
    Array(Seq<JsonModel>),
    Object(Seq<(Seq<char>, JsonModel)>),
}

pub open spec fn json_view(j: Json) -> JsonModel
    decreases j, 0int,
{
    match j {
        Json::Null => JsonModel::Null,
        Json::Bool(b) => JsonModel::Bool(b),
        Json::Natural(n) => JsonModel::Natural(n),
        Json::Number(t) => JsonModel::Number(t@),
        Json::Text(t) => JsonModel::Text(t@),
        Json::Array(v) => JsonModel::Array(items_view(v@, v@.len() as int)),
        Json::Object(v) => JsonModel::Object(members_view(v@, v@.len() as int)),
    }
}

/// Models of the first `n` items.
pub open spec fn items_view(s: Seq<Json>, n: int) -> Seq<JsonModel>
    decreases s, n,
{
    if n <= 0 || n > s.len() {
        Seq::empty()
    } else {
        items_view(s, n - 1).push(json_view(s[n - 1]))
    }
}

/// Models of the first `n` members.
pub open spec fn members_view(s: Seq<(String, Json)>, n: int) -> Seq<(Seq<char>, JsonModel)>
    decreases s, n,
{
    if n <= 0 || n > s.len() {
        Seq::empty()
    } else {
        members_view(s, n - 1).push((s[n - 1].0@, json_view(s[n - 1].1)))
    }
}

impl View for Json {
    type V = JsonModel;

    open spec fn view(&self) -> JsonModel {
        json_view(*self)
    }
}

impl Json {
    /// A copy of this value.
    pub fn deep_copy(&self) -> (r: Json)
        ensures
            r@ == self@,
        decreases self,
    {
        match self {
            Json::Null => Json::Null,
            Json::Bool(b) => Json::Bool(*b),
            Json::Natural(n) => Json::Natural(*n),
            Json::Number(t) => Json::Number(t.clone()),
            Json::Text(t) => Json::Text(t.clone()),
            Json::Array(v) => {
                let mut out: Vec<Json> = Vec::new();
                let mut i: usize = 0;
                while i < v.len()
                    invariant
                        i <= v@.len(),
                        out@.len() == i,
                        items_view(out@, i as int) == items_view(v@, i as int),
                        *self == Json::Array(*v),
                    decreases v@.len() - i,
                {
                    proof {
                        assert(decreases_to!(*self => (*self)->Array_0));
                        assert(decreases_to!(*v => v[i as int]));
                    }
                    let item = v[i].deep_copy();
                    let ghost prev = out@;
                    out.push(item);
                    proof {
                        assert(out@.subrange(0, i as int) =~= prev.subrange(0, i as int));
                        lemma_items_view_prefix(out@, prev, i as int);
                    }
                    i = i + 1;
                }
                Json::Array(out)
            },
            Json::Object(v) => {
                let mut out: Vec<(String, Json)> = Vec::new();
                let mut i: usize = 0;
                while i < v.len()
                    invariant
                        i <= v@.len(),
                        out@.len() == i,
                        members_view(out@, i as int) == members_view(v@, i as int),
                        *self == Json::Object(*v),
                    decreases v@.len() - i,
                {
                    proof {
                        assert(decreases_to!(*self => (*self)->Object_0));
                        assert(decreases_to!(*v => v[i as int]));
                        assert(decreases_to!(v[i as int] => v[i as int].1));
                    }
                    let key = v[i].0.clone();
                    let value = v[i].1.deep_copy();
                    let ghost prev = out@;
                    out.push((key, value));
                    proof {
                        assert(out@.subrange(0, i as int) =~= prev.subrange(0, i as int));
                        lemma_members_view_prefix(out@, prev, i as int);
                    }
                    i = i + 1;
                }
                Json::Object(out)
            },
        }
    }
}

/// The models of a prefix depend on the prefix alone.
pub proof fn lemma_items_view_prefix(a: Seq<Json>, b: Seq<Json>, n: int)
    requires
        0 <= n <= a.len(),
        n <= b.len(),
        a.subrange(0, n) == b.subrange(0, n),
    ensures
        items_view(a, n) == items_view(b, n),
    decreases n,
{
    if n > 0 {
        assert(a[n - 1] == a.subrange(0, n)[n - 1]);
        assert(b[n - 1] == b.subrange(0, n)[n - 1]);
        assert(a.subrange(0, n - 1) == a.subrange(0, n).subrange(0, n - 1));
        assert(b.subrange(0, n - 1) == b.subrange(0, n).subrange(0, n - 1));
        lemma_items_view_prefix(a, b, n - 1);
    }
}

/// The models of a prefix of members depend on the prefix alone.
pub proof fn lemma_members_view_prefix(a: Seq<(String, Json)>, b: Seq<(String, Json)>, n: int)
    requires
        0 <= n <= a.len(),
        n <= b.len(),
        a.subrange(0, n) == b.subrange(0, n),
    ensures
        members_view(a, n) == members_view(b, n),
    decreases n,
{
    if n > 0 {
        assert(a[n - 1] == a.subrange(0, n)[n - 1]);
        assert(b[n - 1] == b.subrange(0, n)[n - 1]);
        assert(a.subrange(0, n - 1) == a.subrange(0, n).subrange(0, n - 1));
        assert(b.subrange(0, n - 1) == b.subrange(0, n).subrange(0, n - 1));
        lemma_members_view_prefix(a, b, n - 1);
    }
}

} // verus!
