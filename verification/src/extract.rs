//! Alignment key extraction: a pure function from an event to an optional
//! string key.
//!
//! Two extractors exist: one walks a dot-separated field path, one tries a
//! fixed list of common field names.  Both canonicalize a scalar leaf
//! (string, number, boolean) to a string and yield nothing otherwise.

use vstd::prelude::*;

use crate::json::{jget, scalar_text, JNode, JsonVal};

verus! {

/// Index of the first `.` in `s`, or `-1` if there is none.
pub open spec fn first_dot(s: Seq<char>) -> int
    decreases s.len(),
{
    if s.len() == 0 {
        -1
    } else if s[0] == '.' {
        0
    } else {
        let r = first_dot(s.drop_first());
        if r < 0 {
            -1
        } else {
            r + 1
        }
    }
}

pub proof fn lemma_first_dot(s: Seq<char>)
    ensures
        first_dot(s) >= -1,
        first_dot(s) >= 0 ==> first_dot(s) < s.len() && s[first_dot(s)] == '.' && (forall|k: int|
            0 <= k < first_dot(s) ==> s[k] != '.'),
        first_dot(s) < 0 ==> forall|k: int| 0 <= k < s.len() ==> s[k] != '.',
    decreases s.len(),
{
    if s.len() > 0 && s[0] != '.' {
        let t = s.drop_first();
        lemma_first_dot(t);
        assert(forall|k: int| 1 <= k < s.len() ==> s[k] == t[k - 1]);
    }
}

/// `first_dot` is exactly the position of the first dot.
pub proof fn lemma_first_dot_at(s: Seq<char>, j: int)
    requires
        0 <= j < s.len(),
        s[j] == '.',
        forall|k: int| 0 <= k < j ==> s[k] != '.',
    ensures
        first_dot(s) == j,
    decreases s.len(),
{
    if j > 0 {
        lemma_first_dot_at(s.drop_first(), j - 1);
    }
}

pub proof fn lemma_first_dot_none(s: Seq<char>)
    requires
        forall|k: int| 0 <= k < s.len() ==> s[k] != '.',
    ensures
        first_dot(s) == -1,
    decreases s.len(),
{
    if s.len() > 0 {
        lemma_first_dot_none(s.drop_first());
    }
}

/// The fields of a dot-separated path, in order.  A text without dots is a
/// single field; every dot separates two (possibly empty) fields.
pub open spec fn split_dots(s: Seq<char>) -> Seq<Seq<char>>
    decreases s.len(),
    via split_dots_decreases
{
    let i = first_dot(s);
    if i < 0 {
        seq![s]
    } else {
        seq![s.take(i)] + split_dots(s.skip(i + 1))
    }
}

#[via_fn]
proof fn split_dots_decreases(s: Seq<char>) {
    lemma_first_dot(s);
}

/// The key a path extractor derives: walk the fields in order, stop at the
/// first missing field, then canonicalize the scalar leaf.
pub open spec fn path_extract(path: Seq<Seq<char>>, n: JNode) -> Option<Seq<char>>
    decreases path.len(),
{
    if path.len() == 0 {
        scalar_text(n)
    } else {
        match jget(n, path[0]) {
            Some(child) => path_extract(path.drop_first(), child),
            None => None,
        }
    }
}

/// The key the heuristic extractor derives: the first of the given field
/// names present on the event with a scalar value.
pub open spec fn auto_extract(fields: Seq<Seq<char>>, n: JNode) -> Option<Seq<char>>
    decreases fields.len(),
{
    if fields.len() == 0 {
        None
    } else {
        match jget(n, fields[0]) {
            Some(v) => match scalar_text(v) {
                Some(t) => Some(t),
                None => auto_extract(fields.drop_first(), n),
            },
            None => auto_extract(fields.drop_first(), n),
        }
    }
}

/// Extractor that walks a field path (e.g. `message.phase`).
pub struct JsonPathExtractor {
    field_path: Vec<String>,
}

impl JsonPathExtractor {
    /// The fields the extractor walks, in order.
    pub closed spec fn path(&self) -> Seq<Seq<char>> {
        Seq::new(self.field_path@.len(), |i: int| self.field_path@[i]@)
    }

    /// Build an extractor from a dot-separated path.
    pub fn new(path: &str) -> (r: JsonPathExtractor)
        ensures
            r.path() == split_dots(path@),
    {
        let n = path.unicode_len();
        let mut parts: Vec<String> = Vec::new();
        let mut start: usize = 0;
        let mut i: usize = 0;
        proof {
            assert(path@.skip(0) =~= path@);
        }
        while i < n
            invariant
                0 <= start <= i <= n,
                n == path@.len(),
                forall|k: int| start <= k < i ==> path@[k] != '.',
                split_dots(path@) =~= Seq::new(parts@.len(), |k: int| parts@[k]@) + split_dots(
                    path@.skip(start as int),
                ),
            decreases n - i,
        {
            if path.get_char(i) == '.' {
                let piece = path.substring_char(start, i).to_owned();
                proof {
                    let tail = path@.skip(start as int);
                    lemma_first_dot_at(tail, i - start);
                    assert(tail.take(i - start) =~= path@.subrange(start as int, i as int));
                    assert(tail.skip(i - start + 1) =~= path@.skip(i as int + 1));
                    let old_views = Seq::new(parts@.len(), |k: int| parts@[k]@);
                    assert(Seq::new(parts@.len() + 1, |k: int| parts@.push(piece)[k]@)
                        =~= old_views.push(piece@));
                }
                parts.push(piece);
                start = i + 1;
            }
            i = i + 1;
        }
        let piece = path.substring_char(start, n).to_owned();
        proof {
            let tail = path@.skip(start as int);
            lemma_first_dot_none(tail);
            assert(tail =~= path@.subrange(start as int, n as int));
            let old_views = Seq::new(parts@.len(), |k: int| parts@[k]@);
            assert(Seq::new(parts@.len() + 1, |k: int| parts@.push(piece)[k]@)
                =~= old_views.push(piece@));
            assert(old_views.push(piece@) =~= old_views + seq![tail]);
        }
        parts.push(piece);
        let r = JsonPathExtractor { field_path: parts };
        proof {
            assert(r.path() =~= split_dots(path@));
        }
        r
    }

    /// Extract the alignment key of an event.
    pub fn extract_key(&self, state: &JsonVal) -> (r: Option<String>)
        ensures
            match r {
                Some(k) => path_extract(self.path(), state@) == Some(k@),
                None => path_extract(self.path(), state@) is None,
            },
    {
        let ghost full = self.path();
        proof {
            assert(full.skip(0) =~= full);
        }
        let mut current: &JsonVal = state;
        let mut i: usize = 0;
        while i < self.field_path.len()
            invariant
                0 <= i <= self.field_path@.len(),
                full == self.path(),
                full.len() == self.field_path@.len(),
                forall|k: int| 0 <= k < full.len() ==> full[k] == self.field_path@[k]@,
                path_extract(full, state@) == path_extract(full.skip(i as int), current@),
            decreases self.field_path.len() - i,
        {
            proof {
                assert(full.skip(i as int)[0] == full[i as int]);
                assert(full.skip(i as int).drop_first() =~= full.skip(i as int + 1));
            }
            match current.get_field(&self.field_path[i]) {
                Some(v) => {
                    current = v;
                }
                None => {
                    return None;
                }
            }
            i = i + 1;
        }
        proof {
            assert(full.skip(full.len() as int) =~= Seq::<Seq<char>>::empty());
        }
        current.scalar_string()
    }
}

/// Extractor that tries a fixed, ordered list of common field names.
pub struct AutoExtractor {
    common_fields: Vec<String>,
}

impl AutoExtractor {
    /// The field names the extractor tries, in order.
    pub closed spec fn fields(&self) -> Seq<Seq<char>> {
        Seq::new(self.common_fields@.len(), |i: int| self.common_fields@[i]@)
    }

    /// Extract the alignment key of an event.
    pub fn extract_key(&self, state: &JsonVal) -> (r: Option<String>)
        ensures
            match r {
                Some(k) => auto_extract(self.fields(), state@) == Some(k@),
                None => auto_extract(self.fields(), state@) is None,
            },
    {
        let ghost full = self.fields();
        proof {
            assert(full.skip(0) =~= full);
        }
        let mut i: usize = 0;
        while i < self.common_fields.len()
            invariant
                0 <= i <= self.common_fields@.len(),
                full == self.fields(),
                full.len() == self.common_fields@.len(),
                forall|k: int| 0 <= k < full.len() ==> full[k] == self.common_fields@[k]@,
                auto_extract(full, state@) == auto_extract(full.skip(i as int), state@),
            decreases self.common_fields.len() - i,
        {
            proof {
                assert(full.skip(i as int)[0] == full[i as int]);
                assert(full.skip(i as int).drop_first() =~= full.skip(i as int + 1));
            }
            match state.get_field(&self.common_fields[i]) {
                Some(v) => match v.scalar_string() {
                    Some(t) => {
                        return Some(t);
                    }
                    None => {}
                },
                None => {}
            }
            i = i + 1;
        }
        proof {
            assert(full.skip(full.len() as int) =~= Seq::<Seq<char>>::empty());
        }
        None
    }
}

/// The built-in list of common key fields, tried in this order.
pub open spec fn default_auto_fields() -> Seq<Seq<char>> {
    seq![
        "type"@,
        "event_type"@,
        "message_type"@,
        "phase"@,
        "state"@,
        "action"@,
        "args"@,
    ]
}

impl Default for AutoExtractor {
    /// The extractor over the built-in list of common key fields.
    fn default() -> (r: AutoExtractor)
        ensures
            r.fields() == default_auto_fields(),
    {
        let fields = vec![
            String::from_str("type"),
            String::from_str("event_type"),
            String::from_str("message_type"),
            String::from_str("phase"),
            String::from_str("state"),
            String::from_str("action"),
            String::from_str("args"),
        ];
        let r = AutoExtractor { common_fields: fields };
        proof {
            assert(r.fields() =~= default_auto_fields());
        }
        r
    }
}

/// The closed set of extractors an engine can be built with.
pub enum AlignmentKeyExtractor {
    Path(JsonPathExtractor),
    Auto(AutoExtractor),
}

impl AlignmentKeyExtractor {
    /// The key this extractor derives from an event.
    pub open spec fn spec_extract(&self, n: JNode) -> Option<Seq<char>> {
        match self {
            AlignmentKeyExtractor::Path(p) => path_extract(p.path(), n),
            AlignmentKeyExtractor::Auto(a) => auto_extract(a.fields(), n),
        }
    }

    /// Extract the alignment key of an event.
    pub fn extract_key(&self, state: &JsonVal) -> (r: Option<String>)
        ensures
            match r {
                Some(k) => self.spec_extract(state@) == Some(k@),
                None => self.spec_extract(state@) is None,
            },
    {
        match self {
            AlignmentKeyExtractor::Path(p) => p.extract_key(state),
            AlignmentKeyExtractor::Auto(a) => a.extract_key(state),
        }
    }
}

} // verus!
