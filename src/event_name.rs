//! How the event name of an exported record is chosen.
use vstd::prelude::*;
use crate::record::LogRecordView;

verus! {

/// A rule of a custom policy: a record whose name starts with `prefix` is
/// exported under `event_name`.
#[derive(Debug)]
pub struct EventNameRule {
    pub prefix: String,
    pub event_name: String,
}

/// The policy that names exported events; one is bound per exporter.
#[derive(Debug)]
pub enum EventNamePolicy {
    /// Every record is named "Log".
    Default,
    /// The record's own event name, or "Log" when it has none.
    FromRecordName,
    /// The first rule whose prefix starts the record's name decides; a record
    /// that no rule matches, or that has no name, gets `fallback`.
    Custom { rules: Vec<EventNameRule>, fallback: String },
}

pub open spec fn default_event_name() -> Seq<char> {
    seq!['L', 'o', 'g']
}

pub open spec fn has_prefix(s: Seq<char>, prefix: Seq<char>) -> bool {
    prefix.len() <= s.len() && s.subrange(0, prefix.len() as int) == prefix
}

/// The event name given by the first rule, from index `i` on, that matches `name`.
pub open spec fn first_rule_match(rules: Seq<EventNameRule>, name: Seq<char>, i: int) -> Option<
    Seq<char>,
>
    decreases rules.len() - i,
{
    if i < 0 || i >= rules.len() {
        None
    } else if has_prefix(name, rules[i].prefix@) {
        Some(rules[i].event_name@)
    } else {
        first_rule_match(rules, name, i + 1)
    }
}

impl EventNamePolicy {
    /// The event name this policy gives a record with the given name.
    pub open spec fn resolve_spec(&self, name: Option<Seq<char>>) -> Seq<char> {
        match self {
            EventNamePolicy::Default => default_event_name(),
            EventNamePolicy::FromRecordName => match name {
                Some(n) => n,
                None => default_event_name(),
            },
            EventNamePolicy::Custom { rules, fallback } => match name {
                Some(n) => match first_rule_match(rules@, n, 0) {
                    Some(e) => e,
                    None => fallback@,
                },
                None => fallback@,
            },
        }
    }

    /// Resolves the event name of a record.
    pub fn resolve(&self, record: &LogRecordView) -> (r: String)
        ensures
            r@ == self.resolve_spec(record_name(record)),
    {
        match self {
            EventNamePolicy::Default => log_event_name(),
            EventNamePolicy::FromRecordName => match &record.event_name {
                Some(n) => n.clone(),
                None => log_event_name(),
            },
            EventNamePolicy::Custom { rules, fallback } => match &record.event_name {
                Some(n) => match find_rule(rules, n.as_str()) {
                    Some(i) => rules[i].event_name.clone(),
                    None => fallback.clone(),
                },
                None => fallback.clone(),
            },
        }
    }
}

pub open spec fn record_name(record: &LogRecordView) -> Option<Seq<char>> {
    match record.event_name {
        Some(n) => Some(n@),
        None => None,
    }
}

fn log_event_name() -> (r: String)
    ensures
        r@ == default_event_name(),
{
    proof {
        reveal_strlit("Log");
    }
    String::from_str("Log")
}

/// Whether `s` starts with `prefix`, compared character by character.
pub fn starts_with(s: &str, prefix: &str) -> (r: bool)
    ensures
        r == has_prefix(s@, prefix@),
{
    let n = prefix.unicode_len();
    let m = s.unicode_len();
    if n > m {
        return false;
    }
    let mut i: usize = 0;
    while i < n
        invariant
            n == prefix@.len(),
            m == s@.len(),
            n <= m,
            i <= n,
            forall|j: int| 0 <= j < i ==> s@[j] == prefix@[j],
        decreases n - i,
    {
        if s.get_char(i) != prefix.get_char(i) {
            assert(s@.subrange(0, n as int)[i as int] != prefix@[i as int]);
            return false;
        }
        i = i + 1;
    }
    assert(s@.subrange(0, n as int) =~= prefix@);
    true
}

/// The index of the first rule whose prefix starts `name`.
pub fn find_rule(rules: &Vec<EventNameRule>, name: &str) -> (r: Option<usize>)
    ensures
        match r {
            Some(i) => i < rules@.len() && first_rule_match(rules@, name@, 0) == Some(
                rules@[i as int].event_name@,
            ),
            None => first_rule_match(rules@, name@, 0) is None,
        },
{
    let mut i: usize = 0;
    while i < rules.len()
        invariant
            i <= rules@.len(),
            first_rule_match(rules@, name@, 0) == first_rule_match(rules@, name@, i as int),
        decreases rules@.len() - i,
    {
        if starts_with(name, rules[i].prefix.as_str()) {
            return Some(i);
        }
        i = i + 1;
    }
    None
}

} // verus!
