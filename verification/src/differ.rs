//! Diffing two JSON documents and printing their difference.
//!
//! The library's obligation here is small and exact: deep-equal inputs are
//! detected and reported as "no difference" rather than as an empty diff
//! artifact.  The rendering itself — a JSON Patch, a structured diff, or a
//! human-readable field-by-field listing — is presentation and carries no
//! further contract; the first two come from outside crates behind trusted
//! wrappers.

use vstd::prelude::*;

use crate::console::print_line;
use crate::json::{node_eq, node_to_value, JsonVal};

verus! {

/// Which engine renders a non-pretty diff.
#[derive(Debug, Clone, Copy, PartialEq, Eq, Structural)]
pub enum DiffEngine {
    JsonPatch,
    SerdeDiff,
}

/// Diffs two documents and prints the result.
pub struct JsonPatchDiffer {
    pretty: bool,
    engine: DiffEngine,
}

/// What a diff invocation found.
#[derive(Debug, Clone, Copy, PartialEq, Eq, Structural)]
pub enum DiffOutcome {
    /// The two documents are deep-equal: no difference was reported.
    Identical,
    /// The documents differ and a diff was printed.
    Different,
}

impl JsonPatchDiffer {
    /// Whether the human-readable rendering is used.
    pub closed spec fn spec_pretty(&self) -> bool {
        self.pretty
    }

    /// Which engine renders a non-pretty diff.
    pub closed spec fn spec_engine(&self) -> DiffEngine {
        self.engine
    }

    pub fn new(pretty: bool, engine: DiffEngine) -> (r: JsonPatchDiffer)
        ensures
            r.spec_pretty() == pretty,
            r.spec_engine() == engine,
    {
        JsonPatchDiffer { pretty, engine }
    }
}

impl Default for JsonPatchDiffer {
    /// A compact JSON Patch differ.
    fn default() -> (r: JsonPatchDiffer)
        ensures
            !r.spec_pretty(),
            r.spec_engine() == DiffEngine::JsonPatch,
    {
        JsonPatchDiffer::new(false, DiffEngine::JsonPatch)
    }
}

#[verifier::external_type_specification]
#[verifier::external_body]
pub struct ExPatch(json_patch::Patch);

#[verifier::external_type_specification]
#[verifier::external_body]
pub struct ExPatchOperation(json_patch::PatchOperation);

#[verifier::external_type_specification]
#[verifier::external_body]
pub struct ExDifference(serde_json_diff::Difference);

/// Relies on json_patch::diff: computes the JSON Patch that transforms
/// `left` into `right`.
#[verifier::external_body]
fn patch_of(left: &serde_json::Value, right: &serde_json::Value) -> json_patch::Patch {
    json_patch::diff(left, right)
}

/// Relies on serde_json::to_value on a json_patch::Patch: the patch as a
/// JSON value (an array of operations); a serialization error falls back to
/// null.
#[verifier::external_body]
fn patch_to_value(p: &json_patch::Patch) -> serde_json::Value {
    serde_json::to_value(p).unwrap_or(serde_json::Value::Null)
}

/// Relies on serde_json::to_value on a serde_json_diff::Difference: the
/// structured diff as a JSON value; a serialization error falls back to
/// null.
#[verifier::external_body]
fn difference_to_value(d: &serde_json_diff::Difference) -> serde_json::Value {
    serde_json::to_value(d).unwrap_or(serde_json::Value::Null)
}

/// Relies on serde_json::Value::as_array: the number of elements when the
/// value is an array.
#[verifier::external_body]
fn value_array_len(v: &serde_json::Value) -> Option<usize> {
    v.as_array().map(|a| a.len())
}

/// Relies on serde_json::to_string_pretty: the value as indented JSON text;
/// a serialization error falls back to an empty array's text.
#[verifier::external_body]
fn value_pretty(v: &serde_json::Value) -> String {
    serde_json::to_string_pretty(v).unwrap_or_else(|_| "[]".to_string())
}

/// Relies on serde_json::to_string: the value as compact JSON text; a
/// serialization error falls back to empty text.
#[verifier::external_body]
fn value_text(v: &serde_json::Value) -> String {
    serde_json::to_string(v).unwrap_or_default()
}

/// Relies on serde_json_diff::values: the structured difference of two
/// values; its source returns `None` exactly when the two are equal.
#[verifier::external_body]
fn values_diff(
    left: &serde_json::Value,
    right: &serde_json::Value,
) -> Option<serde_json_diff::Difference> {
    serde_json_diff::values(left.clone(), right.clone())
}

/// Decimal text of a number (rendering only).
pub fn usize_to_string(n: usize) -> String {
    let mut parts: Vec<&str> = Vec::new();
    let mut m = n;
    if m == 0 {
        parts.push("0");
    }
    while m > 0
        decreases m,
    {
        parts.push(digit_str(m % 10));
        m = m / 10;
    }
    let mut out = String::new();
    let mut i = parts.len();
    while i > 0
        invariant
            i <= parts.len(),
        decreases i,
    {
        i = i - 1;
        out.append(parts[i]);
    }
    out
}

fn digit_str(d: usize) -> &'static str
    requires
        d < 10,
{
    match d {
        0 => "0",
        1 => "1",
        2 => "2",
        3 => "3",
        4 => "4",
        5 => "5",
        6 => "6",
        7 => "7",
        8 => "8",
        _ => "9",
    }
}

/// The rendering of a leaf value: scalars by their canonical text, strings
/// quoted, compound values as compact JSON.
fn format_value(v: &JsonVal) -> String {
    match v {
        JsonVal::Str(s) => {
            let mut out = String::from_str("\"");
            out.append(s.as_str());
            out.append("\"");
            out
        }
        JsonVal::Num(s) => s.clone(),
        JsonVal::Bool(b) => {
            if *b {
                String::from_str("true")
            } else {
                String::from_str("false")
            }
        }
        JsonVal::Null => String::from_str("null"),
        _ => {
            let vv = node_to_value(v);
            value_text(&vv)
        }
    }
}

/// First field with the given name among an object's fields.
fn field_lookup<'a>(fields: &'a Vec<(String, JsonVal)>, name: &String) -> (r: Option<
    &'a JsonVal,
>) {
    let mut i: usize = 0;
    while i < fields.len()
        decreases fields.len() - i,
    {
        if fields[i].0.eq(name) {
            return Some(&fields[i].1);
        }
        i = i + 1;
    }
    None
}

/// Human-readable lines describing how `right` differs from `left`
/// (rendering only): changed fields of an object one line each, nested
/// objects indented, arrays summarized by length.
fn value_diff_lines(left: &JsonVal, right: &JsonVal, indent: &String, out: &mut Vec<String>)
    decreases left,
{
    match (left, right) {
        (JsonVal::Obj(lf), JsonVal::Obj(rf)) => {
            obj_diff_lines(lf, rf, indent, out);
        }
        (JsonVal::Arr(la), JsonVal::Arr(ra)) => {
            if !node_eq(left, right) {
                let mut line = indent.clone();
                line.append("[array changed: ");
                line.append(usize_to_string(la.len()).as_str());
                line.append(" items -> ");
                line.append(usize_to_string(ra.len()).as_str());
                line.append(" items]");
                out.push(line);
            }
        }
        _ => {
            if !node_eq(left, right) {
                let mut line = indent.clone();
                line.append(format_value(left).as_str());
                line.append(" -> ");
                line.append(format_value(right).as_str());
                out.push(line);
            }
        }
    }
}

/// Field-by-field lines for two objects: left fields in their order
/// (changed, then recursing into nested compounds; removed when absent on
/// the right), then right-only fields in their order.
fn obj_diff_lines(
    lf: &Vec<(String, JsonVal)>,
    rf: &Vec<(String, JsonVal)>,
    indent: &String,
    out: &mut Vec<String>,
)
    decreases lf@,
{
    let mut i: usize = 0;
    while i < lf.len()
        decreases lf.len() - i,
    {
        let name = &lf[i].0;
        let l_val = &lf[i].1;
        match field_lookup(rf, name) {
            Some(r_val) => {
                if !node_eq(l_val, r_val) {
                    let compound = match (l_val, r_val) {
                        (JsonVal::Obj(_), _) => true,
                        (_, JsonVal::Obj(_)) => true,
                        (JsonVal::Arr(_), _) => true,
                        (_, JsonVal::Arr(_)) => true,
                        _ => false,
                    };
                    if compound {
                        let mut line = indent.clone();
                        line.append(name.as_str());
                        out.push(line);
                        let mut deeper = indent.clone();
                        deeper.append("  ");
                        value_diff_lines(l_val, r_val, &deeper, out);
                    } else {
                        let mut line = indent.clone();
                        line.append(name.as_str());
                        line.append(": ");
                        line.append(format_value(l_val).as_str());
                        line.append(" -> ");
                        line.append(format_value(r_val).as_str());
                        out.push(line);
                    }
                }
            }
            None => {
                let mut line = indent.clone();
                line.append(name.as_str());
                line.append(": ");
                line.append(format_value(l_val).as_str());
                line.append(" (removed)");
                out.push(line);
            }
        }
        i = i + 1;
    }
    let mut j: usize = 0;
    while j < rf.len()
        decreases rf.len() - j,
    {
        let name = &rf[j].0;
        match field_lookup(lf, name) {
            Some(_) => {}
            None => {
                let mut line = indent.clone();
                line.append(name.as_str());
                line.append(": (added) ");
                line.append(format_value(&rf[j].1).as_str());
                out.push(line);
            }
        }
        j = j + 1;
    }
}

impl JsonPatchDiffer {
    /// Diff two documents and print the result.
    ///
    /// Deep-equal inputs are detected and reported as no difference; unequal
    /// inputs are rendered by the configured engine, or field by field when
    /// the pretty rendering is on.
    pub fn print_diff(
        &self,
        left_label: &str,
        right_label: &str,
        left: &JsonVal,
        right: &JsonVal,
    ) -> (r: DiffOutcome)
        ensures
            r == (if left@ == right@ {
                DiffOutcome::Identical
            } else {
                DiffOutcome::Different
            }),
    {
        if node_eq(left, right) {
            print_line("states are identical");
            return DiffOutcome::Identical;
        }
        if self.pretty {
            self.print_pretty_diff(left_label, right_label, left, right);
        } else {
            match self.engine {
                DiffEngine::JsonPatch => {
                    self.print_json_patch_diff(left_label, right_label, left, right);
                }
                DiffEngine::SerdeDiff => {
                    self.print_serde_diff(left_label, right_label, left, right);
                }
            }
        }
        DiffOutcome::Different
    }

    fn print_json_patch_diff(
        &self,
        left_label: &str,
        right_label: &str,
        left: &JsonVal,
        right: &JsonVal,
    ) {
        let lv = node_to_value(left);
        let rv = node_to_value(right);
        let patch = patch_of(&lv, &rv);
        let pv = patch_to_value(&patch);
        let ops_text = match value_array_len(&pv) {
            Some(n) => usize_to_string(n),
            None => String::from_str("1"),
        };
        let mut header = String::new();
        header.append("diff ");
        header.append(left_label);
        header.append(" -> ");
        header.append(right_label);
        header.append(" (");
        header.append(ops_text.as_str());
        header.append(" ops) [json-patch]");
        print_line(header.as_str());
        let body = value_pretty(&pv);
        print_line(body.as_str());
    }

    fn print_serde_diff(
        &self,
        left_label: &str,
        right_label: &str,
        left: &JsonVal,
        right: &JsonVal,
    ) {
        let mut header = String::new();
        header.append("diff ");
        header.append(left_label);
        header.append(" -> ");
        header.append(right_label);
        header.append(" [serde_json_diff]");
        print_line(header.as_str());
        let lv = node_to_value(left);
        let rv = node_to_value(right);
        match values_diff(&lv, &rv) {
            Some(d) => {
                let dv = difference_to_value(&d);
                let body = value_pretty(&dv);
                print_line(body.as_str());
            }
            None => {
                print_line("  (no differences)");
            }
        }
    }

    fn print_pretty_diff(
        &self,
        left_label: &str,
        right_label: &str,
        left: &JsonVal,
        right: &JsonVal,
    ) {
        let mut header = String::new();
        header.append("--- ");
        header.append(left_label);
        header.append(" vs ");
        header.append(right_label);
        print_line(header.as_str());
        let mut lines: Vec<String> = Vec::new();
        let indent = String::new();
        value_diff_lines(left, right, &indent, &mut lines);
        let mut i: usize = 0;
        while i < lines.len()
            decreases lines.len() - i,
        {
            print_line(lines[i].as_str());
            i = i + 1;
        }
        print_line("");
    }
}

} // verus!
