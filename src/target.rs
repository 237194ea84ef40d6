//! Choosing the page to act on among the targets that the browser lists.

use vstd::prelude::*;
use crate::text::{has_prefix, starts_with_text, text_eq};

verus! {

/// One target as the browser lists it.
#[derive(Debug, Clone)]
pub struct TargetInfo {
    pub id: String,
    /// The target's type: `page` for a tab, otherwise a worker, an iframe, ...
    pub kind: String,
    pub url: String,
    pub title: String,
}

/// A tab that can be acted on, as it is shown to the user.
#[derive(Debug, Clone)]
pub struct TabInfo {
    pub id: String,
    pub url: String,
    pub title: String,
}

/// The choice of page.
#[derive(Debug, Clone, Copy, PartialEq, Eq, Structural)]
pub enum TargetChoice {
    /// Attach to the target at this position of the listing.
    Attach(usize),
    /// No usable target exists: open a new blank page.
    CreateBlank,
}

/// Addresses of the browser's own pages, which are never acted on.
pub open spec fn is_internal_url(u: Seq<char>) -> bool {
    has_prefix(u, "chrome://"@) || has_prefix(u, "chrome-extension://"@) || has_prefix(
        u,
        "devtools://"@,
    )
}

/// A page whose address is not internal.
pub open spec fn actable(t: TargetInfo) -> bool {
    t.kind@ == "page"@ && !is_internal_url(t.url@)
}

/// A page that shows content, not the blank placeholder.
pub open spec fn has_content(t: TargetInfo) -> bool {
    t.url@ != "about:blank"@ && t.url@.len() > 0
}

/// A usable page that shows content.
pub open spec fn preferred(t: TargetInfo) -> bool {
    actable(t) && has_content(t)
}

/// Whether an address belongs to the browser's own pages.
pub fn internal_url(url: &str) -> (r: bool)
    ensures
        r == is_internal_url(url@),
{
    starts_with_text(url, "chrome://") || starts_with_text(url, "chrome-extension://")
        || starts_with_text(url, "devtools://")
}

fn is_actable(t: &TargetInfo) -> (r: bool)
    ensures
        r == actable(*t),
{
    text_eq(t.kind.as_str(), "page") && !internal_url(t.url.as_str())
}

/// Picks the page to act on: the first usable page with content; else the
/// first usable blank page; else none, and a blank page is to be created.
/// Ties go to the order of the listing.
pub fn choose_target(targets: &Vec<TargetInfo>) -> (r: TargetChoice)
    ensures
        match r {
            TargetChoice::Attach(i) => {
                &&& i < targets@.len()
                &&& actable(targets@[i as int])
                &&& has_content(targets@[i as int]) ==> forall|j: int|
                    0 <= j < i ==> !preferred(#[trigger] targets@[j])
                &&& !has_content(targets@[i as int]) ==> (forall|j: int|
                    0 <= j < targets@.len() ==> !preferred(#[trigger] targets@[j])) && (forall|
                    j: int,
                |
                    0 <= j < i ==> !actable(#[trigger] targets@[j]))
            },
            TargetChoice::CreateBlank => forall|j: int|
                0 <= j < targets@.len() ==> !actable(#[trigger] targets@[j]),
        },
{
    let n = targets.len();
    let mut fallback: Option<usize> = None;
    let mut i: usize = 0;
    while i < n
        invariant
            n == targets@.len(),
            i <= n,
            forall|j: int| 0 <= j < i ==> !preferred(#[trigger] targets@[j]),
            match fallback {
                Some(f) => f < i && actable(targets@[f as int]) && !has_content(
                    targets@[f as int],
                ) && forall|j: int| 0 <= j < f ==> !actable(#[trigger] targets@[j]),
                None => forall|j: int| 0 <= j < i ==> !actable(#[trigger] targets@[j]),
            },
        decreases n - i,
    {
        let t = &targets[i];
        if is_actable(t) {
            let blank = text_eq(t.url.as_str(), "about:blank");
            if !blank && t.url.unicode_len() > 0 {
                return TargetChoice::Attach(i);
            }
            if fallback.is_none() {
                fallback = Some(i);
            }
        }
        i += 1;
    }
    match fallback {
        Some(f) => TargetChoice::Attach(f),
        None => TargetChoice::CreateBlank,
    }
}

/// The tabs shown for a listing: the usable pages, in listing order.
pub open spec fn tab_list(s: Seq<TargetInfo>) -> Seq<(Seq<char>, Seq<char>, Seq<char>)>
    decreases s.len(),
{
    if s.len() == 0 {
        Seq::empty()
    } else if actable(s.last()) {
        tab_list(s.drop_last()).push((s.last().id@, s.last().url@, s.last().title@))
    } else {
        tab_list(s.drop_last())
    }
}

/// The fields of a tab.
pub open spec fn tab_fields(t: TabInfo) -> (Seq<char>, Seq<char>, Seq<char>) {
    (t.id@, t.url@, t.title@)
}

/// Lists the tabs that can be acted on, skipping other targets and the
/// browser's own pages.
pub fn list_tabs(targets: &Vec<TargetInfo>) -> (r: Vec<TabInfo>)
    ensures
        r@.map_values(|t: TabInfo| tab_fields(t)) == tab_list(targets@),
{
    let n = targets.len();
    let mut tabs: Vec<TabInfo> = Vec::new();
    let mut i: usize = 0;
    while i < n
        invariant
            n == targets@.len(),
            i <= n,
            tabs@.map_values(|t: TabInfo| tab_fields(t)) == tab_list(targets@.take(i as int)),
        decreases n - i,
    {
        let t = &targets[i];
        let ghost before = tabs@;
        proof {
            assert(targets@.take(i + 1).drop_last() =~= targets@.take(i as int));
        }
        if is_actable(t) {
            let tab = TabInfo { id: t.id.clone(), url: t.url.clone(), title: t.title.clone() };
            tabs.push(tab);
            proof {
                assert(tabs@.map_values(|t: TabInfo| tab_fields(t)) =~= before.map_values(
                    |t: TabInfo| tab_fields(t),
                ).push(tab_fields(tab)));
            }
        }
        i += 1;
    }
    assert(targets@.take(n as int) =~= targets@);
    tabs
}

} // verus!
