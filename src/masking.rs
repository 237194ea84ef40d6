//! Masking of secrets (passwords, tokens, keys) in text that is shown.

use vstd::prelude::*;
use crate::text::{lit_views};

verus! {

/// What replacing every match of a regular expression makes of a text, or
/// `None` when the expression is not valid.
pub uninterp spec fn regex_replaced(text: Seq<char>, pattern: Seq<char>, replacement: Seq<char>) -> Option<Seq<char>>;

/// Relies on `regex::Regex::new` and `Regex::replace_all`: every
/// non-overlapping match of `pattern` in `text` replaced by `replacement`,
/// or `None` when the pattern does not compile.
#[verifier::external_body]
fn regex_replace_all(text: &str, pattern: &str, replacement: &str) -> (r: Option<String>)
    ensures
        match r {
            Some(t) => regex_replaced(text@, pattern@, replacement@) == Some(t@),
            None => regex_replaced(text@, pattern@, replacement@) is None,
        },
{
    regex::Regex::new(pattern).ok().map(|re| re.replace_all(text, replacement).into_owned())
}

/// The secret patterns, matched without regard to case.
pub open spec fn secret_patterns() -> Seq<Seq<char>> {
    seq![
        "(?i)password[=:]\\s*\\S+"@,
        "(?i)token[=:]\\s*\\S+"@,
        "(?i)api[_-]?key[=:]\\s*\\S+"@,
        "(?i)secret[=:]\\s*\\S+"@,
        "(?i)bearer\\s+\\S+"@,
    ]
}

/// What each secret pattern is replaced by, position by position.
pub open spec fn secret_masks() -> Seq<Seq<char>> {
    seq!["password=****"@, "token=****"@, "api_key=****"@, "secret=****"@, "Bearer ****"@]
}

/// The text after the first `k` replacements, in order; a pattern that does
/// not compile leaves the text as it is.
pub open spec fn masked_after(text: Seq<char>, k: nat) -> Seq<char>
    decreases k,
{
    if k == 0 {
        text
    } else {
        let before = masked_after(text, (k - 1) as nat);
        match regex_replaced(before, secret_patterns()[k - 1], secret_masks()[k - 1]) {
            Some(t) => t,
            None => before,
        }
    }
}

/// Masks passwords, tokens, API keys, secrets and bearer credentials.
pub fn mask_sensitive(text: &str) -> (r: String)
    ensures
        r@ == masked_after(text@, 5),
{
    let mut patterns: Vec<&str> = Vec::new();
    patterns.push("(?i)password[=:]\\s*\\S+");
    patterns.push("(?i)token[=:]\\s*\\S+");
    patterns.push("(?i)api[_-]?key[=:]\\s*\\S+");
    patterns.push("(?i)secret[=:]\\s*\\S+");
    patterns.push("(?i)bearer\\s+\\S+");
    let mut masks: Vec<&str> = Vec::new();
    masks.push("password=****");
    masks.push("token=****");
    masks.push("api_key=****");
    masks.push("secret=****");
    masks.push("Bearer ****");
    assert(lit_views(patterns@) =~= secret_patterns());
    assert(lit_views(masks@) =~= secret_masks());
    let mut result = text.to_owned();
    let mut i: usize = 0;
    while i < 5
        invariant
            i <= 5,
            patterns@.len() == 5,
            masks@.len() == 5,
            lit_views(patterns@) == secret_patterns(),
            lit_views(masks@) == secret_masks(),
            result@ == masked_after(text@, i as nat),
        decreases 5 - i,
    {
        assert(lit_views(patterns@)[i as int] == patterns@[i as int]@);
        assert(lit_views(masks@)[i as int] == masks@[i as int]@);
        match regex_replace_all(result.as_str(), patterns[i], masks[i]) {
            Some(t) => {
                result = t;
            },
            None => {},
        }
        i += 1;
    }
    result
}

} // verus!
