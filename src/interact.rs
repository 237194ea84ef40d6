//! The outcome of an interaction as it is reported back, and the clock that
//! stamps it.

use vstd::prelude::*;
use vstd::string::*;
use crate::text::{hex_of, u128_hex};

verus! {

/// What an interaction did.
#[derive(Debug, Clone)]
pub struct InteractResult {
    pub action: String,
    pub target: Option<String>,
    pub details: Option<String>,
}

/// The one-line report of an interaction: the action, the quoted target if
/// any, and the details in parentheses if any.
pub open spec fn interact_text(r: InteractResult) -> Seq<char> {
    r.action@ + match r.target {
        Some(t) => " \""@ + t@ + "\""@,
        None => Seq::empty(),
    } + match r.details {
        Some(d) => " ("@ + d@ + ")"@,
        None => Seq::empty(),
    }
}

impl InteractResult {
    /// The one-line report of this interaction.
    pub fn display(&self) -> (r: String)
        ensures
            r@ == interact_text(*self),
    {
        let mut s = self.action.clone();
        match &self.target {
            Some(t) => {
                s.append(" \"");
                s.append(t.as_str());
                s.append("\"");
            },
            None => {},
        }
        match &self.details {
            Some(d) => {
                s.append(" (");
                s.append(d.as_str());
                s.append(")");
            },
            None => {},
        }
        assert(s@ =~= interact_text(*self));
        s
    }
}

/// Relies on `SystemTime::now` and `duration_since(UNIX_EPOCH)`: the whole
/// seconds since the epoch, or `None` when the clock is set before it.
#[verifier::external_body]
fn epoch_seconds() -> (r: Option<u64>) {
    std::time::SystemTime::now().duration_since(std::time::UNIX_EPOCH).ok().map(|d| d.as_secs())
}

/// A clock reading in seconds, with 0 for a clock set before the epoch.
pub fn timestamp_or_zero(reading: Option<u64>) -> (r: u64)
    ensures
        r == match reading {
            Some(s) => s,
            None => 0,
        },
{
    match reading {
        Some(s) => s,
        None => 0,
    }
}

/// The seconds since the epoch, or 0 when the clock is set before it.
pub fn safe_timestamp() -> (r: u64) {
    timestamp_or_zero(epoch_seconds())
}

/// Relies on `SystemTime::now` and `duration_since(UNIX_EPOCH)`: the
/// nanoseconds since the epoch, or `None` when the clock is set before it.
#[verifier::external_body]
pub(crate) fn epoch_nanos() -> (r: Option<u128>) {
    std::time::SystemTime::now().duration_since(std::time::UNIX_EPOCH).ok().map(|d| d.as_nanos())
}

/// The first `width` characters (all, when there are fewer) of `prefix`
/// followed by the hex rendering of `nanos`.
pub open spec fn id_text(prefix: Seq<char>, nanos: u128, width: nat) -> Seq<char> {
    let full = prefix + hex_of(nanos as nat);
    if full.len() <= width {
        full
    } else {
        full.take(width as int)
    }
}

/// An identifier made of a prefix and a clock reading in hex, cut to `width`.
pub fn id_from_nanos(prefix: &str, nanos: u128, width: usize) -> (r: String)
    ensures
        r@ == id_text(prefix@, nanos, width as nat),
{
    let mut full = prefix.to_owned();
    full.append(u128_hex(nanos).as_str());
    let n = full.unicode_len();
    if n <= width {
        full
    } else {
        full.as_str().substring_char(0, width).to_owned()
    }
}

/// How to act on the browser's tabs.
#[derive(Debug, Clone)]
pub enum TabCommand {
    List,
    New { url: Option<String> },
    Switch { id: String },
    Close { id: String },
}

} // verus!
