//! The value shapes an option map can hold, their JSON rendering, and the
//! ordered key/value map every option builder stores its entries in.
//!
//! The engine's wire grammar needs only flat values here: booleans, integers,
//! strings, arrays of strings, and two small object forms (keys mapped to
//! `null`, and string-to-string tables).

use crate::encode::{
    bool_literal, dec_of, dec_of_signed, escape_str, escaped, i64_to_dec, spec_bool_literal,
    str_eq, u64_to_dec,
};
use vstd::prelude::*;
use vstd::string::*;

verus! {

/// A value as it appears in an option map: the JSON subset the engine's
/// option and query grammars use.
#[derive(Debug, PartialEq)]
pub enum JsonVal {
    Bool(bool),
    Int(i64),
    UInt(u64),
    Str(String),
    /// A JSON array of strings.
    StrArr(Vec<String>),
    /// A JSON object mapping each listed key to `null`.
    NullObj(Vec<String>),
    /// A JSON object mapping string keys to string values.
    StrObj(Vec<(String, String)>),
}

/// The mathematical shape of a [`JsonVal`].
pub enum JsonValV {
    Bool(bool),
    Int(i64),
    UInt(u64),
    Str(Seq<char>),
    StrArr(Seq<Seq<char>>),
    NullObj(Seq<Seq<char>>),
    StrObj(Seq<(Seq<char>, Seq<char>)>),
}

impl View for JsonVal {
    type V = JsonValV;

    open spec fn view(&self) -> JsonValV {
        match self {
            JsonVal::Bool(b) => JsonValV::Bool(*b),
            JsonVal::Int(i) => JsonValV::Int(*i),
            JsonVal::UInt(u) => JsonValV::UInt(*u),
            JsonVal::Str(s) => JsonValV::Str(s@),
            JsonVal::StrArr(a) => JsonValV::StrArr(a.deep_view()),
            JsonVal::NullObj(ks) => JsonValV::NullObj(ks.deep_view()),
            JsonVal::StrObj(ps) => JsonValV::StrObj(ps.deep_view()),
        }
    }
}

/// Clones a vector of strings, keeping its view.
fn clone_strings(xs: &Vec<String>) -> (r: Vec<String>)
    ensures
        r.deep_view() == xs.deep_view(),
{
    let mut out: Vec<String> = Vec::new();
    let mut i: usize = 0;
    while i < xs.len()
        invariant
            i <= xs@.len(),
            out.deep_view() =~= xs.deep_view().take(i as int),
        decreases xs@.len() - i,
    {
        let ghost prev = out.deep_view();
        out.push(xs[i].clone());
        proof {
            assert(out.deep_view() =~= prev.push(xs@[i as int]@));
            assert(out.deep_view() =~= xs.deep_view().take(i + 1 as int));
        }
        i = i + 1;
    }
    proof {
        assert(xs.deep_view().take(xs@.len() as int) =~= xs.deep_view());
    }
    out
}

/// Clones a vector of string pairs, keeping its view.
fn clone_string_pairs(xs: &Vec<(String, String)>) -> (r: Vec<(String, String)>)
    ensures
        r.deep_view() == xs.deep_view(),
{
    let mut out: Vec<(String, String)> = Vec::new();
    let mut i: usize = 0;
    while i < xs.len()
        invariant
            i <= xs@.len(),
            out.deep_view() =~= xs.deep_view().take(i as int),
        decreases xs@.len() - i,
    {
        let ghost prev = out.deep_view();
        let pair = &xs[i];
        out.push((pair.0.clone(), pair.1.clone()));
        proof {
            assert(out.deep_view() =~= prev.push((xs@[i as int].0@, xs@[i as int].1@)));
            assert(out.deep_view() =~= xs.deep_view().take(i + 1 as int));
        }
        i = i + 1;
    }
    proof {
        assert(xs.deep_view().take(xs@.len() as int) =~= xs.deep_view());
    }
    out
}

impl Clone for JsonVal {
    /// The clone keeps the value's shape.
    fn clone(&self) -> (r: Self)
        ensures
            r@ == self@,
    {
        match self {
            JsonVal::Bool(b) => JsonVal::Bool(*b),
            JsonVal::Int(i) => JsonVal::Int(*i),
            JsonVal::UInt(u) => JsonVal::UInt(*u),
            JsonVal::Str(s) => JsonVal::Str(s.clone()),
            JsonVal::StrArr(a) => JsonVal::StrArr(clone_strings(a)),
            JsonVal::NullObj(ks) => JsonVal::NullObj(clone_strings(ks)),
            JsonVal::StrObj(ps) => JsonVal::StrObj(clone_string_pairs(ps)),
        }
    }
}

/// A JSON string literal: the escaped content between double quotes.
pub open spec fn quoted(s: Seq<char>) -> Seq<char> {
    "\""@ + escaped(s) + "\""@
}

/// The rendering of the first `n` elements of a JSON string array's body.
pub open spec fn arr_items_upto(a: Seq<Seq<char>>, n: int) -> Seq<char>
    decreases n,
{
    if n <= 0 {
        Seq::empty()
    } else if n == 1 {
        quoted(a[0])
    } else {
        arr_items_upto(a, n - 1) + ","@ + quoted(a[n - 1])
    }
}

/// The rendering of the first `n` entries of a keys-to-`null` object's body.
pub open spec fn null_obj_upto(ks: Seq<Seq<char>>, n: int) -> Seq<char>
    decreases n,
{
    if n <= 0 {
        Seq::empty()
    } else if n == 1 {
        quoted(ks[0]) + ":null"@
    } else {
        null_obj_upto(ks, n - 1) + ","@ + quoted(ks[n - 1]) + ":null"@
    }
}

/// The rendering of the first `n` entries of a string-table object's body.
pub open spec fn str_obj_upto(ps: Seq<(Seq<char>, Seq<char>)>, n: int) -> Seq<char>
    decreases n,
{
    if n <= 0 {
        Seq::empty()
    } else if n == 1 {
        quoted(ps[0].0) + ":"@ + quoted(ps[0].1)
    } else {
        str_obj_upto(ps, n - 1) + ","@ + quoted(ps[n - 1].0) + ":"@ + quoted(ps[n - 1].1)
    }
}

/// The JSON text of a value.
pub open spec fn json_of_val(v: JsonValV) -> Seq<char> {
    match v {
        JsonValV::Bool(b) => spec_bool_literal(b),
        JsonValV::Int(i) => dec_of_signed(i as int),
        JsonValV::UInt(u) => dec_of(u as int),
        JsonValV::Str(s) => quoted(s),
        JsonValV::StrArr(a) => "["@ + arr_items_upto(a, a.len() as int) + "]"@,
        JsonValV::NullObj(ks) => "{"@ + null_obj_upto(ks, ks.len() as int) + "}"@,
        JsonValV::StrObj(ps) => "{"@ + str_obj_upto(ps, ps.len() as int) + "}"@,
    }
}

/// Wraps a string in JSON quotes, escaping its content.
pub fn quote_str(s: &str) -> (r: String)
    ensures
        r@ == quoted(s@),
{
    let mut out = String::from_str("\"");
    out.append(escape_str(s).as_str());
    out.append("\"");
    proof {
        assert(out@ =~= quoted(s@));
    }
    out
}

/// Renders a value as JSON text.
pub fn render_val(v: &JsonVal) -> (r: String)
    ensures
        r@ == json_of_val(v@),
{
    match v {
        JsonVal::Bool(b) => String::from_str(bool_literal(*b)),
        JsonVal::Int(i) => i64_to_dec(*i),
        JsonVal::UInt(u) => u64_to_dec(*u),
        JsonVal::Str(s) => quote_str(s.as_str()),
        JsonVal::StrArr(a) => {
            let ghost av = a.deep_view();
            let mut out = String::from_str("[");
            let mut i: usize = 0;
            while i < a.len()
                invariant
                    i <= a.len(),
                    av == a.deep_view(),
                    av.len() == a@.len(),
                    forall|j: int| 0 <= j < a@.len() ==> av[j] == a@[j]@,
                    out@ == "["@ + arr_items_upto(av, i as int),
                decreases a.len() - i,
            {
                if i > 0 {
                    out.append(",");
                }
                out.append(quote_str(a[i].as_str()).as_str());
                proof {
                    assert(out@ =~= "["@ + arr_items_upto(av, i + 1 as int));
                }
                i = i + 1;
            }
            out.append("]");
            proof {
                assert(out@ =~= json_of_val(v@));
            }
            out
        },
        JsonVal::NullObj(ks) => {
            let ghost kv = ks.deep_view();
            let mut out = String::from_str("{");
            let mut i: usize = 0;
            while i < ks.len()
                invariant
                    i <= ks.len(),
                    kv == ks.deep_view(),
                    kv.len() == ks@.len(),
                    forall|j: int| 0 <= j < ks@.len() ==> kv[j] == ks@[j]@,
                    out@ == "{"@ + null_obj_upto(kv, i as int),
                decreases ks.len() - i,
            {
                if i > 0 {
                    out.append(",");
                }
                out.append(quote_str(ks[i].as_str()).as_str());
                out.append(":null");
                proof {
                    assert(out@ =~= "{"@ + null_obj_upto(kv, i + 1 as int));
                }
                i = i + 1;
            }
            out.append("}");
            proof {
                assert(out@ =~= json_of_val(v@));
            }
            out
        },
        JsonVal::StrObj(ps) => {
            let ghost pv = ps.deep_view();
            let mut out = String::from_str("{");
            let mut i: usize = 0;
            while i < ps.len()
                invariant
                    i <= ps.len(),
                    pv == ps.deep_view(),
                    pv.len() == ps@.len(),
                    forall|j: int| 0 <= j < ps@.len() ==> pv[j] == (ps@[j].0@, ps@[j].1@),
                    out@ == "{"@ + str_obj_upto(pv, i as int),
                decreases ps.len() - i,
            {
                if i > 0 {
                    out.append(",");
                }
                let pair = &ps[i];
                out.append(quote_str(pair.0.as_str()).as_str());
                out.append(":");
                out.append(quote_str(pair.1.as_str()).as_str());
                proof {
                    assert(out@ =~= "{"@ + str_obj_upto(pv, i + 1 as int));
                }
                i = i + 1;
            }
            out.append("}");
            proof {
                assert(out@ =~= json_of_val(v@));
            }
            out
        },
    }
}

/// Whether some entry of the map carries the key.
pub open spec fn has_key(m: Seq<(Seq<char>, JsonValV)>, k: Seq<char>) -> bool {
    exists|i: int| 0 <= i < m.len() && m[i].0 == k
}

/// The index of the entry carrying the key, when there is exactly one.
pub open spec fn key_at(m: Seq<(Seq<char>, JsonValV)>, k: Seq<char>) -> int {
    choose|i: int| 0 <= i < m.len() && m[i].0 == k
}

/// The value stored under the key, if any.
pub open spec fn lookup(m: Seq<(Seq<char>, JsonValV)>, k: Seq<char>) -> Option<JsonValV> {
    if has_key(m, k) {
        Some(m[key_at(m, k)].1)
    } else {
        None
    }
}

/// Insertion with replacement: a present key has its value updated in place,
/// an absent key is appended at the end.
pub open spec fn spec_insert(
    m: Seq<(Seq<char>, JsonValV)>,
    k: Seq<char>,
    v: JsonValV,
) -> Seq<(Seq<char>, JsonValV)> {
    if has_key(m, k) {
        m.update(key_at(m, k), (k, v))
    } else {
        m.push((k, v))
    }
}

/// All keys of the map are distinct.
pub open spec fn keys_distinct(m: Seq<(Seq<char>, JsonValV)>) -> bool {
    forall|i: int, j: int| 0 <= i < j < m.len() ==> m[i].0 != m[j].0
}

/// The rendering of the first `n` entries of the map as a JSON object body.
pub open spec fn obj_items_upto(m: Seq<(Seq<char>, JsonValV)>, n: int) -> Seq<char>
    decreases n,
{
    if n <= 0 {
        Seq::empty()
    } else if n == 1 {
        quoted(m[0].0) + ":"@ + json_of_val(m[0].1)
    } else {
        obj_items_upto(m, n - 1) + ","@ + quoted(m[n - 1].0) + ":"@ + json_of_val(m[n - 1].1)
    }
}

/// The JSON object text of a whole map.
pub open spec fn json_obj_of(m: Seq<(Seq<char>, JsonValV)>) -> Seq<char> {
    "{"@ + obj_items_upto(m, m.len() as int) + "}"@
}

/// How a value is rendered inside a query string: a string keeps its escaped
/// content without the surrounding quotes, every other shape keeps its JSON
/// form.
pub open spec fn query_render(v: JsonValV) -> Seq<char> {
    match v {
        JsonValV::Str(s) => escaped(s),
        _ => json_of_val(v),
    }
}

/// The rendering of the first `n` entries of the map as `key=value` pairs
/// joined by `&`.
pub open spec fn query_items_upto(m: Seq<(Seq<char>, JsonValV)>, n: int) -> Seq<char>
    decreases n,
{
    if n <= 0 {
        Seq::empty()
    } else if n == 1 {
        m[0].0 + "="@ + query_render(m[0].1)
    } else {
        query_items_upto(m, n - 1) + "&"@ + m[n - 1].0 + "="@ + query_render(m[n - 1].1)
    }
}

/// The query string of a whole map.
pub open spec fn query_of(m: Seq<(Seq<char>, JsonValV)>) -> Seq<char> {
    query_items_upto(m, m.len() as int)
}

/// An ordered key/value map: what every option builder stores its recognized
/// entries in. Insertion order is kept; keys are unique.
#[derive(Debug, PartialEq)]
pub struct OptsMap {
    pairs: Vec<(String, JsonVal)>,
}

impl View for OptsMap {
    type V = Seq<(Seq<char>, JsonValV)>;

    closed spec fn view(&self) -> Seq<(Seq<char>, JsonValV)> {
        Seq::new(self.pairs@.len(), |i: int| (self.pairs@[i].0@, self.pairs@[i].1@))
    }
}

impl Clone for OptsMap {
    /// The clone keeps every entry.
    fn clone(&self) -> (r: Self)
        ensures
            r@ == self@,
    {
        let mut pairs: Vec<(String, JsonVal)> = Vec::new();
        let mut i: usize = 0;
        while i < self.pairs.len()
            invariant
                i <= self.pairs@.len(),
                self@.len() == self.pairs@.len(),
                pairs@.len() == i,
                forall|j: int|
                    0 <= j < i ==> (pairs@[j].0@, pairs@[j].1@) == self@[j],
            decreases self.pairs@.len() - i,
        {
            let pair = &self.pairs[i];
            pairs.push((pair.0.clone(), pair.1.clone()));
            i = i + 1;
        }
        let r = OptsMap { pairs };
        proof {
            assert(r@ =~= self@);
        }
        r
    }
}

impl OptsMap {
    /// Keys are unique: the well-formedness every method preserves.
    pub open spec fn wf(&self) -> bool {
        keys_distinct(self@)
    }

    /// An empty map.
    pub fn new() -> (r: OptsMap)
        ensures
            r@ =~= Seq::<(Seq<char>, JsonValV)>::empty(),
            r.wf(),
    {
        OptsMap { pairs: Vec::new() }
    }

    /// The number of entries.
    pub fn len(&self) -> (r: usize)
        ensures
            r == self@.len(),
    {
        self.pairs.len()
    }

    /// Stores a value under a key, replacing any entry the key already has.
    pub fn insert(&mut self, key: &str, v: JsonVal)
        requires
            old(self).wf(),
        ensures
            final(self)@ == spec_insert(old(self)@, key@, v@),
            final(self).wf(),
    {
        let n = self.pairs.len();
        let mut i: usize = 0;
        while i < n
            invariant
                n == self.pairs@.len(),
                i <= n,
                self.wf(),
                self@.len() == n,
                self@ == old(self)@,
                forall|j: int| 0 <= j < i ==> self@[j].0 != key@,
            decreases n - i,
        {
            if str_eq(self.pairs[i].0.as_str(), key) {
                assert(self@[i as int].0 == key@);
                assert(has_key(self@, key@));
                proof {
                    let w = key_at(self@, key@);
                    assert(0 <= w < self@.len() && self@[w].0 == key@);
                    assert(w == i);
                }
                let ghost old_view = self@;
                self.pairs[i] = (String::from_str(key), v);
                proof {
                    assert(self@ =~= spec_insert(old_view, key@, v@));
                    assert(forall|a: int, b: int|
                        0 <= a < b < self@.len() ==> self@[a].0 != self@[b].0) by {
                        assert forall|a: int, b: int|
                            0 <= a < b < self@.len() implies self@[a].0 != self@[b].0 by {
                            if a != i && b != i {
                                assert(self@[a].0 == old_view[a].0);
                                assert(self@[b].0 == old_view[b].0);
                            }
                        }
                    }
                }
                return ;
            }
            i = i + 1;
        }
        assert(!has_key(self@, key@));
        let ghost old_view = self@;
        self.pairs.push((String::from_str(key), v));
        proof {
            assert(self@ =~= old_view.push((key@, v@)));
        }
    }

    /// The value stored under a key, if any.
    pub fn get(&self, key: &str) -> (r: Option<&JsonVal>)
        requires
            self.wf(),
        ensures
            match r {
                Some(v) => lookup(self@, key@) == Some(v@),
                None => lookup(self@, key@) is None,
            },
    {
        let n = self.pairs.len();
        let mut i: usize = 0;
        while i < n
            invariant
                n == self.pairs@.len(),
                i <= n,
                self.wf(),
                self@.len() == n,
                forall|j: int| 0 <= j < i ==> self@[j].0 != key@,
            decreases n - i,
        {
            if str_eq(self.pairs[i].0.as_str(), key) {
                assert(self@[i as int].0 == key@);
                assert(has_key(self@, key@));
                proof {
                    let w = key_at(self@, key@);
                    assert(0 <= w < self@.len() && self@[w].0 == key@);
                    assert(w == i);
                }
                return Some(&self.pairs[i].1);
            }
            i = i + 1;
        }
        assert(!has_key(self@, key@));
        None
    }

    /// Whether the key is present.
    pub fn contains_key(&self, key: &str) -> (r: bool)
        requires
            self.wf(),
        ensures
            r == has_key(self@, key@),
    {
        match self.get(key) {
            Some(_) => true,
            None => false,
        }
    }

    /// Renders the whole map as one JSON object.
    pub fn to_json(&self) -> (r: String)
        ensures
            r@ == json_obj_of(self@),
    {
        let n = self.pairs.len();
        let mut out = String::from_str("{");
        let mut i: usize = 0;
        while i < n
            invariant
                n == self.pairs@.len(),
                i <= n,
                self@.len() == n,
                out@ == "{"@ + obj_items_upto(self@, i as int),
            decreases n - i,
        {
            if i > 0 {
                out.append(",");
            }
            let pair = &self.pairs[i];
            assert(pair.0@ == self@[i as int].0);
            assert(pair.1@ == self@[i as int].1);
            out.append(quote_str(pair.0.as_str()).as_str());
            out.append(":");
            out.append(render_val(&pair.1).as_str());
            proof {
                assert(out@ =~= "{"@ + obj_items_upto(self@, i + 1 as int));
            }
            i = i + 1;
        }
        out.append("}");
        proof {
            assert(out@ =~= json_obj_of(self@));
        }
        out
    }

    /// Renders the whole map as a query string: `key=value` pairs joined by
    /// `&`, in insertion order.
    pub fn to_query(&self) -> (r: String)
        ensures
            r@ == query_of(self@),
    {
        let n = self.pairs.len();
        let mut out = String::new();
        let mut i: usize = 0;
        while i < n
            invariant
                n == self.pairs@.len(),
                i <= n,
                self@.len() == n,
                out@ == query_items_upto(self@, i as int),
            decreases n - i,
        {
            if i > 0 {
                out.append("&");
            }
            let pair = &self.pairs[i];
            assert(pair.0@ == self@[i as int].0);
            assert(pair.1@ == self@[i as int].1);
            out.append(pair.0.as_str());
            out.append("=");
            match &pair.1 {
                JsonVal::Str(s) => out.append(escape_str(s.as_str()).as_str()),
                other => out.append(render_val(other).as_str()),
            }
            proof {
                assert(out@ =~= query_items_upto(self@, i + 1 as int));
            }
            i = i + 1;
        }
        proof {
            assert(out@ =~= query_of(self@));
        }
        out
    }
}

} // verus!
