use vstd::prelude::*;

use crate::model::Timestamp;
use crate::text::str_eq;

verus! {

/// The kinds of system runs.
#[derive(Clone, Copy, Debug, PartialEq, Eq, Structural)]
pub enum SystemRunType {
    Monitor,
    Notify,
}

/// The run type that storage's text names: "monitor" or "notify"; any other text names none.
pub open spec fn run_type_named(s: Seq<char>) -> Option<SystemRunType> {
    if s == "monitor"@ {
        Some(SystemRunType::Monitor)
    } else if s == "notify"@ {
        Some(SystemRunType::Notify)
    } else {
        None
    }
}

/// Reads a run type from storage's text.
pub fn parse_run_type(s: &str) -> (r: Option<SystemRunType>)
    ensures
        r == run_type_named(s@),
{
    if str_eq(s, "monitor") {
        Some(SystemRunType::Monitor)
    } else if str_eq(s, "notify") {
        Some(SystemRunType::Notify)
    } else {
        None
    }
}

/// How long one system run took.
#[derive(Clone, Copy, Debug)]
pub struct SystemRunDuration {
    pub run_type: SystemRunType,
    pub run_at: Timestamp,
    pub duration_ms: i32,
}

/// The recorded runs whose type is known, in order (runs of another type are left out).
pub open spec fn known_runs(raw: Seq<(String, Timestamp, i32)>) -> Seq<SystemRunDuration>
    decreases raw.len(),
{
    if raw.len() == 0 {
        Seq::empty()
    } else {
        let prev = known_runs(raw.drop_last());
        match run_type_named(raw.last().0@) {
            Some(t) => prev.push(SystemRunDuration { run_type: t, run_at: raw.last().1, duration_ms: raw.last().2 }),
            None => prev,
        }
    }
}

/// The run durations of the administrator's dashboard, from storage's
/// (run type text, start, duration in ms) records.
pub fn run_durations(raw: &Vec<(String, Timestamp, i32)>) -> (r: Vec<SystemRunDuration>)
    ensures
        r@ == known_runs(raw@),
{
    let mut r: Vec<SystemRunDuration> = Vec::new();
    let mut i: usize = 0;
    while i < raw.len()
        invariant
            i <= raw@.len(),
            r@ == known_runs(raw@.take(i as int)),
        decreases raw@.len() - i,
    {
        assert(raw@.take(i + 1).drop_last() =~= raw@.take(i as int));
        assert(raw@.take(i + 1).last() == raw@[i as int]);
        let entry = &raw[i];
        match parse_run_type(entry.0.as_str()) {
            Some(t) => {
                r.push(SystemRunDuration { run_type: t, run_at: entry.1, duration_ms: entry.2 });
            },
            None => {},
        }
        i = i + 1;
    }
    assert(raw@.take(raw@.len() as int) =~= raw@);
    r
}

} // verus!
