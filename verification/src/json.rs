//! The crate's own model of a JSON document.
//!
//! Events arrive as JSON text; the engine only ever reads field paths and
//! scalar leaves, so the library keeps documents in a shape Verus can
//! reason about: numbers are held as their canonical decimal text, objects
//! as ordered field lists.  The conversion from `serde_json`'s value type
//! happens in trusted wrappers at the bottom of this file.

use vstd::prelude::*;

verus! {

/// Mathematical model of a JSON document: the view of [`JsonVal`].
#[verifier::ext_equal]
pub enum JNode {
    Null,
    Bool(bool),
    /// Canonical decimal text of a number, e.g. `42` or `1.5`.
    Num(Seq<char>),
    Str(Seq<char>),
    Arr(Seq<JNode>),
    Obj(Seq<(Seq<char>, JNode)>),
}

/// A JSON document as the library holds it.
///
/// A number keeps the canonical text `serde_json` prints for it; an object
/// keeps its fields in the order the parser delivered them.
pub enum JsonVal {
    Null,
    Bool(bool),
    Num(String),
    Str(String),
    Arr(Vec<JsonVal>),
    Obj(Vec<(String, JsonVal)>),
}

impl View for JsonVal {
    type V = JNode;

    open spec fn view(&self) -> JNode {
        json_view(*self)
    }
}

/// The model of one document.
pub open spec fn json_view(n: JsonVal) -> JNode
    decreases n,
{
    match n {
        JsonVal::Null => JNode::Null,
        JsonVal::Bool(b) => JNode::Bool(b),
        JsonVal::Num(s) => JNode::Num(s@),
        JsonVal::Str(s) => JNode::Str(s@),
        JsonVal::Arr(a) => JNode::Arr(json_view_elems(a@)),
        JsonVal::Obj(o) => JNode::Obj(json_view_fields(o@)),
    }
}

/// The models of an array's elements, in order.
pub open spec fn json_view_elems(s: Seq<JsonVal>) -> Seq<JNode>
    decreases s,
{
    if s.len() == 0 {
        Seq::empty()
    } else {
        seq![json_view(s[0])] + json_view_elems(s.drop_first())
    }
}

/// The models of an object's fields, in order.
pub open spec fn json_view_fields(s: Seq<(String, JsonVal)>) -> Seq<(Seq<char>, JNode)>
    decreases s,
{
    if s.len() == 0 {
        Seq::empty()
    } else {
        seq![(s[0].0@, json_view(s[0].1))] + json_view_fields(s.drop_first())
    }
}

pub broadcast proof fn lemma_json_view_elems(s: Seq<JsonVal>)
    ensures
        #[trigger] json_view_elems(s).len() == s.len(),
        forall|i: int| 0 <= i < s.len() ==> json_view_elems(s)[i] == json_view(s[i]),
    decreases s,
{
    if s.len() > 0 {
        lemma_json_view_elems(s.drop_first());
    }
}

pub broadcast proof fn lemma_json_view_fields(s: Seq<(String, JsonVal)>)
    ensures
        #[trigger] json_view_fields(s).len() == s.len(),
        forall|i: int|
            0 <= i < s.len() ==> json_view_fields(s)[i] == (s[i].0@, json_view(s[i].1)),
    decreases s,
{
    if s.len() > 0 {
        lemma_json_view_fields(s.drop_first());
    }
}

/// The first field with the given name, if any.
pub open spec fn obj_lookup(fields: Seq<(Seq<char>, JNode)>, name: Seq<char>) -> Option<JNode>
    decreases fields.len(),
{
    if fields.len() == 0 {
        None
    } else if fields[0].0 == name {
        Some(fields[0].1)
    } else {
        obj_lookup(fields.drop_first(), name)
    }
}

/// Field access on a document: defined only on objects.
pub open spec fn jget(n: JNode, name: Seq<char>) -> Option<JNode> {
    match n {
        JNode::Obj(fields) => obj_lookup(fields, name),
        _ => None,
    }
}

/// The text a boolean is canonicalized to.
pub open spec fn bool_text(b: bool) -> Seq<char> {
    if b {
        "true"@
    } else {
        "false"@
    }
}

/// The canonical string of a scalar leaf; `None` on null, arrays and objects.
pub open spec fn scalar_text(n: JNode) -> Option<Seq<char>> {
    match n {
        JNode::Str(s) => Some(s),
        JNode::Num(s) => Some(s),
        JNode::Bool(b) => Some(bool_text(b)),
        _ => None,
    }
}

impl JsonVal {
    /// The first field of this object with the given name; `None` when the
    /// document is not an object or has no such field.
    pub fn get_field<'a>(&'a self, name: &String) -> (r: Option<&'a JsonVal>)
        ensures
            match r {
                Some(v) => jget(self@, name@) == Some(v@),
                None => jget(self@, name@) is None,
            },
    {
        match self {
            JsonVal::Obj(fields) => {
                proof {
                    lemma_json_view_fields(fields@);
                    assert(json_view_fields(fields@).skip(0) =~= json_view_fields(fields@));
                }
                let ghost fv = json_view_fields(fields@);
                let mut i: usize = 0;
                while i < fields.len()
                    invariant
                        0 <= i <= fields.len(),
                        fv == json_view_fields(fields@),
                        fv.len() == fields@.len(),
                        forall|k: int|
                            0 <= k < fields@.len() ==> fv[k] == (
                                fields@[k].0@,
                                json_view(fields@[k].1),
                            ),
                        obj_lookup(fv, name@) == obj_lookup(fv.skip(i as int), name@),
                        self@ == JNode::Obj(fv),
                    decreases fields.len() - i,
                {
                    if fields[i].0.eq(name) {
                        assert(fv.skip(i as int)[0] == fv[i as int]);
                        return Some(&fields[i].1);
                    }
                    proof {
                        assert(fv.skip(i as int).drop_first() =~= fv.skip(i as int + 1));
                        assert(fv.skip(i as int)[0] == fv[i as int]);
                    }
                    i = i + 1;
                }
                proof {
                    assert(fv.skip(fields@.len() as int) =~= Seq::empty());
                }
                None
            }
            _ => None,
        }
    }

    /// A deep copy with the same model.
    pub fn duplicate(&self) -> (r: JsonVal)
        ensures
            r@ == self@,
        decreases self,
    {
        match self {
            JsonVal::Null => JsonVal::Null,
            JsonVal::Bool(b) => JsonVal::Bool(*b),
            JsonVal::Num(s) => JsonVal::Num(s.clone()),
            JsonVal::Str(s) => JsonVal::Str(s.clone()),
            JsonVal::Arr(a) => JsonVal::Arr(duplicate_elems(a)),
            JsonVal::Obj(o) => JsonVal::Obj(duplicate_fields(o)),
        }
    }

    /// The canonical string of this document when it is a scalar leaf.
    pub fn scalar_string(&self) -> (r: Option<String>)
        ensures
            match r {
                Some(s) => scalar_text(self@) == Some(s@),
                None => scalar_text(self@) is None,
            },
    {
        match self {
            JsonVal::Str(s) => Some(s.clone()),
            JsonVal::Num(s) => Some(s.clone()),
            JsonVal::Bool(b) => {
                if *b {
                    Some(String::from_str("true"))
                } else {
                    Some(String::from_str("false"))
                }
            }
            _ => None,
        }
    }
}

fn duplicate_elems(v: &Vec<JsonVal>) -> (r: Vec<JsonVal>)
    ensures
        json_view_elems(r@) == json_view_elems(v@),
    decreases v@,
{
    let mut out: Vec<JsonVal> = Vec::new();
    let mut i: usize = 0;
    while i < v.len()
        invariant
            0 <= i <= v.len(),
            out@.len() == i,
            forall|k: int| 0 <= k < i ==> json_view(#[trigger] out@[k]) == json_view(v@[k]),
        decreases v.len() - i,
    {
        out.push(v[i].duplicate());
        i = i + 1;
    }
    proof {
        lemma_json_view_elems(out@);
        lemma_json_view_elems(v@);
        assert(json_view_elems(out@) =~= json_view_elems(v@));
    }
    out
}

fn duplicate_fields(v: &Vec<(String, JsonVal)>) -> (r: Vec<(String, JsonVal)>)
    ensures
        json_view_fields(r@) == json_view_fields(v@),
    decreases v@,
{
    let mut out: Vec<(String, JsonVal)> = Vec::new();
    let mut i: usize = 0;
    while i < v.len()
        invariant
            0 <= i <= v.len(),
            out@.len() == i,
            forall|k: int|
                0 <= k < i ==> (#[trigger] out@[k]).0@ == v@[k].0@ && json_view(out@[k].1)
                    == json_view(v@[k].1),
        decreases v.len() - i,
    {
        out.push((v[i].0.clone(), v[i].1.duplicate()));
        i = i + 1;
    }
    proof {
        lemma_json_view_fields(out@);
        lemma_json_view_fields(v@);
        assert(json_view_fields(out@) =~= json_view_fields(v@));
    }
    out
}

/// Deep structural equality of two documents.
pub fn node_eq(a: &JsonVal, b: &JsonVal) -> (r: bool)
    ensures
        r == (a@ == b@),
    decreases a,
{
    match (a, b) {
        (JsonVal::Null, JsonVal::Null) => true,
        (JsonVal::Bool(x), JsonVal::Bool(y)) => *x == *y,
        (JsonVal::Num(x), JsonVal::Num(y)) => x.eq(y),
        (JsonVal::Str(x), JsonVal::Str(y)) => x.eq(y),
        (JsonVal::Arr(x), JsonVal::Arr(y)) => elems_eq(x, y),
        (JsonVal::Obj(x), JsonVal::Obj(y)) => fields_eq(x, y),
        _ => false,
    }
}

fn elems_eq(x: &Vec<JsonVal>, y: &Vec<JsonVal>) -> (r: bool)
    ensures
        r == (json_view_elems(x@) == json_view_elems(y@)),
    decreases x@,
{
    proof {
        lemma_json_view_elems(x@);
        lemma_json_view_elems(y@);
    }
    if x.len() != y.len() {
        return false;
    }
    let mut i: usize = 0;
    while i < x.len()
        invariant
            0 <= i <= x.len(),
            x@.len() == y@.len(),
            json_view_elems(x@).len() == x@.len(),
            json_view_elems(y@).len() == y@.len(),
            forall|k: int| 0 <= k < x@.len() ==> json_view_elems(x@)[k] == json_view(x@[k]),
            forall|k: int| 0 <= k < y@.len() ==> json_view_elems(y@)[k] == json_view(y@[k]),
            forall|k: int| 0 <= k < i ==> json_view(#[trigger] x@[k]) == json_view(y@[k]),
        decreases x.len() - i,
    {
        if !node_eq(&x[i], &y[i]) {
            assert(json_view_elems(x@)[i as int] != json_view_elems(y@)[i as int]);
            return false;
        }
        i = i + 1;
    }
    proof {
        assert(json_view_elems(x@) =~= json_view_elems(y@));
    }
    true
}

fn fields_eq(x: &Vec<(String, JsonVal)>, y: &Vec<(String, JsonVal)>) -> (r: bool)
    ensures
        r == (json_view_fields(x@) == json_view_fields(y@)),
    decreases x@,
{
    proof {
        lemma_json_view_fields(x@);
        lemma_json_view_fields(y@);
    }
    if x.len() != y.len() {
        return false;
    }
    let mut i: usize = 0;
    while i < x.len()
        invariant
            0 <= i <= x.len(),
            x@.len() == y@.len(),
            json_view_fields(x@).len() == x@.len(),
            json_view_fields(y@).len() == y@.len(),
            forall|k: int|
                0 <= k < x@.len() ==> json_view_fields(x@)[k] == (x@[k].0@, json_view(x@[k].1)),
            forall|k: int|
                0 <= k < y@.len() ==> json_view_fields(y@)[k] == (y@[k].0@, json_view(y@[k].1)),
            forall|k: int|
                0 <= k < i ==> (#[trigger] x@[k]).0@ == y@[k].0@ && json_view(x@[k].1)
                    == json_view(y@[k].1),
        decreases x.len() - i,
    {
        if !x[i].0.eq(&y[i].0) {
            assert(json_view_fields(x@)[i as int] != json_view_fields(y@)[i as int]);
            return false;
        }
        if !node_eq(&x[i].1, &y[i].1) {
            assert(json_view_fields(x@)[i as int] != json_view_fields(y@)[i as int]);
            return false;
        }
        i = i + 1;
    }
    proof {
        assert(json_view_fields(x@) =~= json_view_fields(y@));
    }
    true
}

#[verifier::external_type_specification]
#[verifier::external_body]
pub struct ExValue(serde_json::Value);

/// What parsing given JSON text yields: `None` stands for a parse error.
pub uninterp spec fn parsed_json_of(s: Seq<char>) -> Option<JNode>;

/// Relies on serde_json::Value's variants: converts a parsed value into the
/// library's own document type, one arm per variant; a number keeps the
/// canonical text serde_json prints for it, an object keeps its field order.
#[verifier::external_body]
fn value_to_node(v: &serde_json::Value) -> JsonVal {
    match v {
        serde_json::Value::Null => JsonVal::Null,
        serde_json::Value::Bool(b) => JsonVal::Bool(*b),
        serde_json::Value::Number(n) => JsonVal::Num(n.to_string()),
        serde_json::Value::String(s) => JsonVal::Str(s.clone()),
        serde_json::Value::Array(a) => JsonVal::Arr(a.iter().map(value_to_node).collect()),
        serde_json::Value::Object(o) => JsonVal::Obj(
            o.iter().map(|(k, x)| (k.clone(), value_to_node(x))).collect(),
        ),
    }
}

/// Relies on serde_json::from_str: whether and how text parses as JSON
/// depends on the text alone, and malformed text gives an error, which
/// comes back as `None`.
#[verifier::external_body]
pub fn parse_json(s: &str) -> (r: Option<JsonVal>)
    ensures
        r is Some <==> parsed_json_of(s@) is Some,
        r matches Some(n) ==> parsed_json_of(s@) == Some(n@),
{
    serde_json::from_str::<serde_json::Value>(s).ok().map(|v| value_to_node(&v))
}

/// Relies on serde_json::Value's variants: rebuilds a serde_json value from
/// the library's own document type, one arm per variant; number text that
/// serde_json does not accept falls back to null.
#[verifier::external_body]
pub fn node_to_value(n: &JsonVal) -> serde_json::Value {
    match n {
        JsonVal::Null => serde_json::Value::Null,
        JsonVal::Bool(b) => serde_json::Value::Bool(*b),
        JsonVal::Num(s) => s
            .parse::<serde_json::Number>()
            .map(serde_json::Value::Number)
            .unwrap_or(serde_json::Value::Null),
        JsonVal::Str(s) => serde_json::Value::String(s.clone()),
        JsonVal::Arr(a) => serde_json::Value::Array(a.iter().map(node_to_value).collect()),
        JsonVal::Obj(o) => serde_json::Value::Object(
            o.iter().map(|(k, x)| (k.clone(), node_to_value(x))).collect(),
        ),
    }
}

} // verus!
