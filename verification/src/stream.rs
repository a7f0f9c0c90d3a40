//! A synthetic event source: random business-like events, for trying the
//! tracker without live endpoints.
//!
//! The draws come from trusted wrappers around the random generator; the
//! event built from them is verified to carry an `event_type` drawn from
//! the configured list, so a round-end signal among those types will
//! eventually show up on both sides.

use rand::RngExt;
use vstd::prelude::*;

use crate::differ::usize_to_string;
use crate::json::{jget, JNode, JsonVal};

verus! {

/// Relies on rand::rng and Rng::random_range: a uniformly random number
/// below `n`; the callee panics on an empty range, so `n` must be
/// positive.  Nothing is promised of the value beyond its bound.
#[verifier::external_body]
fn random_below(n: usize) -> (r: usize)
    requires
        n >= 1,
    ensures
        r < n,
{
    rand::rng().random_range(0..n)
}

/// Relies on uuid::Uuid::new_v4 and its Display form: a fresh random
/// event id; nothing is promised of its value.
#[verifier::external_body]
fn new_event_id() -> String {
    uuid::Uuid::new_v4().to_string()
}

/// Relies on chrono::Utc::now and to_rfc3339: the current time as RFC 3339
/// text; nothing is promised of its value.
#[verifier::external_body]
fn now_rfc3339() -> String {
    chrono::Utc::now().to_rfc3339()
}

/// Emits random events at a fixed interval.
pub struct RandomStream {
    /// Label used as the events' metadata source.
    pub name: String,
    /// Milliseconds between events.
    pub interval_ms: u64,
    event_types: Vec<String>,
}

/// The built-in event types; the completed-order type doubles as a natural
/// round-end signal.
pub open spec fn default_event_types() -> Seq<Seq<char>> {
    seq![
        "user.login"@,
        "user.logout"@,
        "order.created"@,
        "order.updated"@,
        "order.completed"@,
        "payment.processed"@,
        "inventory.changed"@,
    ]
}

impl RandomStream {
    /// The stream's label.
    pub closed spec fn spec_name(&self) -> Seq<char> {
        self.name@
    }

    /// Milliseconds between events.
    pub closed spec fn spec_interval_ms(&self) -> u64 {
        self.interval_ms
    }

    /// The event types this stream draws from.
    pub closed spec fn types(&self) -> Seq<Seq<char>> {
        Seq::new(self.event_types@.len(), |i: int| self.event_types@[i]@)
    }

    /// A stream over the built-in event types.
    pub fn new(name: &str, interval_ms: u64) -> (r: RandomStream)
        ensures
            r.spec_name() == name@,
            r.spec_interval_ms() == interval_ms,
            r.types() == default_event_types(),
    {
        let types = vec![
            String::from_str("user.login"),
            String::from_str("user.logout"),
            String::from_str("order.created"),
            String::from_str("order.updated"),
            String::from_str("order.completed"),
            String::from_str("payment.processed"),
            String::from_str("inventory.changed"),
        ];
        let r = RandomStream { name: name.to_owned(), interval_ms, event_types: types };
        proof {
            assert(r.types() =~= default_event_types());
        }
        r
    }

    /// A stream over the given event types.
    pub fn with_event_types(name: &str, interval_ms: u64, event_types: Vec<String>) -> (r:
        RandomStream)
        ensures
            r.spec_name() == name@,
            r.spec_interval_ms() == interval_ms,
            r.types().len() == event_types@.len(),
            forall|i: int| 0 <= i < event_types@.len() ==> r.types()[i] == event_types@[i]@,
    {
        RandomStream { name: name.to_owned(), interval_ms, event_types }
    }

    /// One random event.  Whatever the draws, the event is an object whose
    /// `event_type` is one of the stream's configured types.
    pub fn generate_event(&self) -> (r: JsonVal)
        requires
            self.types().len() >= 1,
        ensures
            (match jget(r@, "event_type"@) {
                Some(t) => exists|i: int|
                    0 <= i < self.types().len() && t == JNode::Str(self.types()[i]),
                None => false,
            }),
    {
        let type_idx = random_below(self.event_types.len());
        let event_type = self.event_types[type_idx].clone();
        let user_id = 1000 + random_below(8999);
        let cents = 1000 + random_below(99000);
        let status_idx = random_below(3);
        let status = match status_idx {
            0 => "pending",
            1 => "completed",
            _ => "failed",
        };
        let mut amount = usize_to_string(cents / 100);
        amount.append(".");
        amount.append(two_digits(cents % 100).as_str());
        let metadata = JsonVal::Obj(
            vec![
                (String::from_str("source"), JsonVal::Str(self.name.clone())),
                (String::from_str("version"), JsonVal::Str(String::from_str("1.0"))),
            ],
        );
        let data = JsonVal::Obj(
            vec![
                (String::from_str("amount"), JsonVal::Str(amount)),
                (String::from_str("status"), JsonVal::Str(String::from_str(status))),
                (String::from_str("metadata"), metadata),
            ],
        );
        let ghost et = event_type@;
        let mut fields: Vec<(String, JsonVal)> = Vec::new();
        fields.push((String::from_str("id"), JsonVal::Str(new_event_id())));
        fields.push((String::from_str("event_type"), JsonVal::Str(event_type)));
        fields.push((String::from_str("timestamp"), JsonVal::Str(now_rfc3339())));
        fields.push((String::from_str("user_id"), JsonVal::Num(usize_to_string(user_id))));
        fields.push((String::from_str("data"), data));
        proof {
            reveal_strlit("id");
            reveal_strlit("event_type");
            crate::json::lemma_json_view_fields(fields@);
            let fv = crate::json::json_view_fields(fields@);
            assert(fv[0].0 == "id"@ && fv[1] == ("event_type"@, JNode::Str(et)));
            assert("id"@ != "event_type"@);
            assert(fv.drop_first()[0] == fv[1]);
            assert(crate::json::obj_lookup(fv, "event_type"@) == crate::json::obj_lookup(
                fv.drop_first(),
                "event_type"@,
            ));
            assert(crate::json::obj_lookup(fv.drop_first(), "event_type"@) == Some(
                JNode::Str(et),
            ));
            assert(et == self.types()[type_idx as int]);
        }
        JsonVal::Obj(fields)
    }
}

/// Two decimal digits with a leading zero (rendering only).
fn two_digits(n: usize) -> (r: String)
    requires
        n < 100,
{
    let mut out = String::new();
    if n < 10 {
        out.append("0");
    }
    out.append(usize_to_string(n).as_str());
    out
}

} // verus!
