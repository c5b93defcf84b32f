use vstd::prelude::*;
use vstd::string::StrSliceExecFns;

use crate::text::{email_valid, is_email};

verus! {

/// One failed constraint: the field it was declared on and its message.
pub struct Violation {
    pub field: String,
    pub message: String,
}

/// The (field, message) pairs of a list of violations, in order.
pub open spec fn violations_view(v: Seq<Violation>) -> Seq<(Seq<char>, Seq<char>)> {
    v.map_values(|x: Violation| (x.field@, x.message@))
}

/// The text of an optional message.
pub open spec fn opt_text(o: Option<String>) -> Option<Seq<char>> {
    match o {
        Some(s) => Some(s@),
        None => None,
    }
}

/// Appends the field's first violation, if it has one.
pub open spec fn report_spec(
    acc: Seq<(Seq<char>, Seq<char>)>,
    field: Seq<char>,
    outcome: Option<Seq<char>>,
) -> Seq<(Seq<char>, Seq<char>)> {
    match outcome {
        Some(m) => acc.push((field, m)),
        None => acc,
    }
}

/// The violations a validation run reports: none on success.
pub open spec fn outcome_view(r: Result<(), Vec<Violation>>) -> Seq<(Seq<char>, Seq<char>)> {
    match r {
        Ok(_) => Seq::empty(),
        Err(v) => violations_view(v@),
    }
}

/// A minimum length in characters.
pub open spec fn min_chars(s: Seq<char>, min: nat, msg: Seq<char>) -> Option<Seq<char>> {
    if s.len() < min {
        Some(msg)
    } else {
        None
    }
}

/// A required e-mail field: present, then well-formed.
pub open spec fn email_rule(s: Seq<char>) -> Option<Seq<char>> {
    if s.len() < 1 {
        Some("Email is required"@)
    } else if !is_email(s) {
        Some("Email is invalid"@)
    } else {
        None
    }
}

/// An optional number that, when present, lies in `min..=max`.
pub open spec fn range_rule(v: Option<usize>, min: nat, max: nat, msg: Seq<char>) -> Option<
    Seq<char>,
> {
    match v {
        Some(n) => if n < min || n > max {
            Some(msg)
        } else {
            None
        },
        None => None,
    }
}

/// A field that must equal another: its own constraints come first; the
/// equality is checked only when both fields passed their own constraints,
/// and a mismatch is reported on this field.
pub open spec fn match_rule(
    dependent: Seq<char>,
    own: Option<Seq<char>>,
    source: Seq<char>,
    source_outcome: Option<Seq<char>>,
    msg: Seq<char>,
) -> Option<Seq<char>> {
    match own {
        Some(m) => Some(m),
        None => if source_outcome is Some {
            None
        } else if dependent != source {
            Some(msg)
        } else {
            None
        },
    }
}

/// Records the field's violation, if any, at the end of `out`.
pub fn report(out: &mut Vec<Violation>, field: &str, outcome: Option<String>)
    ensures
        violations_view(final(out)@) == report_spec(
            violations_view(old(out)@),
            field@,
            opt_text(outcome),
        ),
{
    match outcome {
        Some(message) => {
            let v = Violation { field: String::from_str(field), message };
            out.push(v);
            assert(violations_view(out@) =~= violations_view(old(out)@).push((field@, v.message@)));
        },
        None => {},
    }
}

/// Ends a validation run: success when nothing was recorded.
pub fn finish(out: Vec<Violation>) -> (r: Result<(), Vec<Violation>>)
    ensures
        outcome_view(r) == violations_view(out@),
        r is Ok <==> violations_view(out@).len() == 0,
{
    if out.len() == 0 {
        assert(violations_view(out@) =~= Seq::empty());
        Ok(())
    } else {
        Err(out)
    }
}

/// Checks a minimum length in characters.
pub fn check_min_chars(s: &String, min: usize, msg: &str) -> (r: Option<String>)
    ensures
        opt_text(r) == min_chars(s@, min as nat, msg@),
{
    if s.as_str().unicode_len() < min {
        Some(String::from_str(msg))
    } else {
        None
    }
}

/// Checks a required e-mail field.
pub fn check_email(s: &String) -> (r: Option<String>)
    ensures
        opt_text(r) == email_rule(s@),
{
    if s.as_str().unicode_len() < 1 {
        Some(String::from_str("Email is required"))
    } else if !email_valid(s.as_str()) {
        Some(String::from_str("Email is invalid"))
    } else {
        None
    }
}

/// Checks that an optional number, when present, lies in `min..=max`.
pub fn check_range(v: Option<usize>, min: usize, max: usize, msg: &str) -> (r: Option<String>)
    ensures
        opt_text(r) == range_rule(v, min as nat, max as nat, msg@),
{
    match v {
        Some(n) => if n < min || n > max {
            Some(String::from_str(msg))
        } else {
            None
        },
        None => None,
    }
}

/// Checks a field that must equal another, given its own outcome and the
/// outcome of the source field's constraints.
pub fn check_match(
    dependent: &String,
    own: Option<String>,
    source: &String,
    source_outcome: &Option<String>,
    msg: &str,
) -> (r: Option<String>)
    ensures
        opt_text(r) == match_rule(
            dependent@,
            opt_text(own),
            source@,
            opt_text(*source_outcome),
            msg@,
        ),
{
    match own {
        Some(m) => Some(m),
        None => if source_outcome.is_some() {
            None
        } else if !dependent.eq(source) {
            Some(String::from_str(msg))
        } else {
            None
        },
    }
}

} // verus!
