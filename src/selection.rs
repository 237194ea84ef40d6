//! Picking one element out of the elements that matched a selector or a
//! text, by an index that may count from the end (`-1` is the last).

use vstd::prelude::*;
use crate::text::{digits_of, int_text, i64_text, u64_text, join2};

verus! {

/// Why no element could be acted on.
#[derive(Debug, Clone, Copy, PartialEq, Eq, Structural)]
pub enum MatchError {
    /// Nothing matched at all.
    NoMatch,
    /// Something matched, but the resolved index lies outside the matches.
    IndexOutOfBounds { requested: i64, available: u64 },
}

/// How the candidate elements were found: by a selector or by visible text.
#[derive(Debug, Clone, Copy, PartialEq, Eq, Structural)]
pub enum MatchBy {
    Selector,
    Text,
}

/// The position that `nth` designates among `count` matches: a negative
/// value counts back from the end.
pub open spec fn resolved_index(nth: int, count: int) -> int {
    if nth < 0 {
        count + nth
    } else {
        nth
    }
}

/// The outcome of picking match `nth` out of `count` matches.
pub open spec fn resolve_spec(nth: int, count: int) -> Result<u64, MatchError> {
    if count == 0 {
        Err(MatchError::NoMatch)
    } else if 0 <= resolved_index(nth, count) < count {
        Ok(resolved_index(nth, count) as u64)
    } else {
        Err(
            MatchError::IndexOutOfBounds {
                requested: resolved_index(nth, count) as i64,
                available: count as u64,
            },
        )
    }
}

/// Picks match `nth` (negative: from the end) out of `count` matches.
pub fn resolve_nth(nth: i32, count: u64) -> (r: Result<u64, MatchError>)
    ensures
        r == resolve_spec(nth as int, count as int),
{
    if count == 0 {
        return Err(MatchError::NoMatch);
    }
    let idx: i128 = if nth < 0 {
        count as i128 + nth as i128
    } else {
        nth as i128
    };
    if 0 <= idx && idx < count as i128 {
        Ok(idx as u64)
    } else {
        Err(MatchError::IndexOutOfBounds { requested: idx as i64, available: count })
    }
}

/// Every index in `[-count, count - 1]` picks a match, and a negative one picks
/// the same match as the positive index that counts from the start.
pub proof fn in_range_index_picks_a_match(nth: int, count: int)
    requires
        count > 0,
        -count <= nth < count,
    ensures
        resolve_spec(nth, count) is Ok,
        0 <= resolve_spec(nth, count)->Ok_0 < count,
        nth < 0 ==> resolve_spec(nth, count) == resolve_spec(count + nth, count),
{
}

/// Every index outside `[-count, count - 1]` is reported as out of bounds,
/// with the resolved index and the number of matches.
pub proof fn out_of_range_index_is_reported(nth: int, count: int)
    requires
        count > 0,
        !(-count <= nth < count),
    ensures
        resolve_spec(nth, count) == Err::<u64, MatchError>(
            MatchError::IndexOutOfBounds {
                requested: resolved_index(nth, count) as i64,
                available: count as u64,
            },
        ),
{
}

/// What the page reported after trying to pick and act on a match.
#[derive(Debug, Clone, Copy, PartialEq, Eq)]
pub struct ClickReport {
    /// Whether a match was picked and acted on.
    pub found: Option<bool>,
    /// How many elements matched.
    pub count: Option<u64>,
}

/// The outcome that a page report stands for. When nothing was acted on,
/// the index is resolved here against the reported number of matches; a
/// report of matches with an index in range but nothing acted on counts as
/// no match.
pub open spec fn report_outcome(report: ClickReport, nth: int) -> Result<(), MatchError> {
    if report.found == Some(true) {
        Ok(())
    } else if report.count.unwrap_or(0) == 0 {
        Err(MatchError::NoMatch)
    } else {
        match resolve_spec(nth, report.count.unwrap_or(0) as int) {
            Err(e) => Err(e),
            Ok(_) => Err(MatchError::NoMatch),
        }
    }
}

/// Reads a page report: success, no match at all, or an index out of bounds
/// (resolved by [`resolve_nth`]).
pub fn interpret_click_report(report: &ClickReport, nth: i32) -> (r: Result<(), MatchError>)
    ensures
        r == report_outcome(*report, nth as int),
{
    if report.found == Some(true) {
        return Ok(());
    }
    let count = match report.count {
        Some(c) => c,
        None => 0,
    };
    if count == 0 {
        return Err(MatchError::NoMatch);
    }
    match resolve_nth(nth, count) {
        Err(e) => Err(e),
        Ok(_) => Err(MatchError::NoMatch),
    }
}

/// The message that reports a failed pick, keeping the selector or text so
/// that the failure can be classified later.
pub open spec fn match_error_message(e: MatchError, by: MatchBy, target: Seq<char>) -> Seq<char> {
    match e {
        MatchError::NoMatch => match by {
            MatchBy::Selector => "No element matches selector \""@ + target + "\""@,
            MatchBy::Text => "No element found containing text \""@ + target + "\""@,
        },
        MatchError::IndexOutOfBounds { requested, available } => "Index "@ + int_text(
            requested as int,
        ) + " out of bounds, found "@ + digits_of(available as nat) + match by {
            MatchBy::Selector => " element(s) matching \""@,
            MatchBy::Text => " element(s) containing \""@,
        } + target + "\""@,
    }
}

impl MatchError {
    /// The message for this failure on the given selector or text.
    pub fn message(&self, by: MatchBy, target: &str) -> (r: String)
        ensures
            r@ == match_error_message(*self, by, target@),
    {
        match self {
            MatchError::NoMatch => {
                let head = match by {
                    MatchBy::Selector => "No element matches selector \"",
                    MatchBy::Text => "No element found containing text \"",
                };
                let mut s = join2(head, target);
                s.append("\"");
                s
            },
            MatchError::IndexOutOfBounds { requested, available } => {
                let mut s = join2("Index ", i64_text(*requested).as_str());
                s.append(" out of bounds, found ");
                s.append(u64_text(*available).as_str());
                let mid = match by {
                    MatchBy::Selector => " element(s) matching \"",
                    MatchBy::Text => " element(s) containing \"",
                };
                s.append(mid);
                s.append(target);
                s.append("\"");
                s
            },
        }
    }
}

/// Reads the report of an action on the element a selector names: anything
/// but a plain `true` means that no element matched.
pub fn element_found(reported: Option<bool>) -> (r: Result<(), MatchError>)
    ensures
        r is Ok <==> reported == Some(true),
        r is Err ==> r == Err::<(), MatchError>(MatchError::NoMatch),
{
    match reported {
        Some(true) => Ok(()),
        _ => Err(MatchError::NoMatch),
    }
}

} // verus!
