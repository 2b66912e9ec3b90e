//! Reading the CI server's JSON payloads: the inventory body into a list
//! of jobs, and a latest-build body into a `BuildStatus`. The two
//! endpoints fail differently on purpose: a status body that does not
//! have the expected shape is deliberately read as "no result yet, build
//! in progress" — the server answers with malformed or empty bodies for
//! jobs that have never built — while an inventory body that does not
//! have its expected shape is rejected outright, which the caller treats
//! as fatal to the run. What each body holds is a function of its text
//! alone, so the extraction results carry names (`status_fields_of`,
//! `inventory_of`) that the contracts below are exact over.
use vstd::prelude::*;
use crate::jobs::{Job, BuildStatus};

verus! {

/// What a status body's `result` member held.
pub enum ResultField {
    Missing,
    Null,
    Text(String),
    Other,
}

/// What a latest-build body holds: the boolean `inProgress` member, if
/// the body is valid JSON with one, and the `result` member's finding.
pub uninterp spec fn status_fields_of(body: Seq<char>) -> (Option<bool>, ResultField);

/// The `jobs` array of an inventory body, one job per element, when the
/// body is valid JSON of that shape; nothing otherwise. Every member the
/// monitor acts on must be present with its expected type, else the
/// element, and with it the whole inventory, is rejected.
pub uninterp spec fn inventory_of(body: Seq<char>) -> Option<Seq<Job>>;

/// Relies on serde_json::from_str::<Value> and the Value readers `get`,
/// `as_bool` and the variant match: digs the `inProgress` and `result`
/// members out of the body. A body that is no valid JSON reports no
/// `inProgress` finding; the result is a function of the body alone.
#[verifier::external_body]
fn status_fields(body: &str) -> (r: (Option<bool>, ResultField))
    ensures
        r == status_fields_of(body@),
{
    let v: serde_json::Value = match serde_json::from_str(body) {
        Ok(v) => v,
        Err(_) => return (None, ResultField::Other),
    };
    let in_progress = match v.get("inProgress") {
        Some(b) => b.as_bool(),
        None => None,
    };
    let result = match v.get("result") {
        None => ResultField::Missing,
        Some(serde_json::Value::Null) => ResultField::Null,
        Some(serde_json::Value::String(s)) => ResultField::Text(s.clone()),
        Some(_) => ResultField::Other,
    };
    (in_progress, result)
}

/// Relies on serde_json::from_str::<Value> and the Value readers `get`,
/// `as_array`, `as_str`, `as_bool`: the `jobs` array with each element's
/// four members, `None` as soon as anything misses its expected shape.
/// The result is a function of the body alone.
#[verifier::external_body]
fn inventory_fields(body: &str) -> (r: Option<Vec<Job>>)
    ensures
        match r {
            Some(jobs) => inventory_of(body@) == Some(jobs@),
            None => inventory_of(body@) is None,
        },
{
    let v: serde_json::Value = serde_json::from_str(body).ok()?;
    let arr = v.get("jobs")?.as_array()?;
    let mut jobs = Vec::new();
    for e in arr {
        jobs.push(Job {
            name: e.get("fullDisplayName")?.as_str()?.to_owned(),
            disabled: e.get("disabled")?.as_bool()?,
            in_queue: e.get("inQueue")?.as_bool()?,
            url: e.get("url")?.as_str()?.to_owned(),
        });
    }
    Some(jobs)
}

/// The parse-or-default policy: a body without a boolean `inProgress`
/// member becomes the sentinel "no result, in progress", and so does one
/// whose `result` member is neither text nor null nor absent; any other
/// finding becomes exactly the status it spells out.
pub open spec fn spec_status_of_fields(in_progress: Option<bool>, result: ResultField) -> BuildStatus {
    match in_progress {
        None => BuildStatus { result: None, in_progress: true },
        Some(b) => match result {
            ResultField::Missing | ResultField::Null => BuildStatus {
                result: None,
                in_progress: b,
            },
            ResultField::Text(s) => BuildStatus { result: Some(s), in_progress: b },
            ResultField::Other => BuildStatus { result: None, in_progress: true },
        },
    }
}

/// Applies the parse-or-default policy to what was found in a body,
/// exactly as `spec_status_of_fields` says.
pub fn status_of_fields(in_progress: Option<bool>, result: ResultField) -> (st: BuildStatus)
    ensures
        st == spec_status_of_fields(in_progress, result),
{
    match in_progress {
        None => BuildStatus { result: None, in_progress: true },
        Some(b) => match result {
            ResultField::Missing | ResultField::Null => BuildStatus {
                result: None,
                in_progress: b,
            },
            ResultField::Text(s) => BuildStatus { result: Some(s), in_progress: b },
            ResultField::Other => BuildStatus { result: None, in_progress: true },
        },
    }
}

/// Reads a latest-build response body: exactly the policy's verdict on
/// the body's findings. It never fails, whatever the body looks like,
/// and the same body always reads as the same status.
pub fn read_status_body(body: &str) -> (st: BuildStatus)
    ensures
        st == spec_status_of_fields(status_fields_of(body@).0, status_fields_of(body@).1),
{
    let fields = status_fields(body);
    status_of_fields(fields.0, fields.1)
}

/// Reads an inventory response body: exactly the `jobs` the body lists,
/// `None` exactly when the body is no valid JSON of that shape — which
/// the caller treats as fatal, since without the inventory no cycle work
/// is possible.
pub fn read_inventory_body(body: &str) -> (r: Option<Vec<Job>>)
    ensures
        match r {
            Some(jobs) => inventory_of(body@) == Some(jobs@),
            None => inventory_of(body@) is None,
        },
{
    inventory_fields(body)
}

} // verus!
