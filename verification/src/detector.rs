//! Change detection: which observation counts as a change, what text is
//! notified for it, and the mathematical model of a whole run of observations.

use vstd::prelude::*;
use crate::content::{ClipboardSnapshot, ContentView, SnapshotView};

verus! {

/// An observation is a change when its value differs from the last one kept;
/// before any observation (`last == None`) every value is a change, so the
/// empty string, like any text, is distinct from "nothing observed yet" and
/// from non-text data.
pub open spec fn is_change(last: Option<ContentView>, new: ContentView) -> bool {
    last != Some(new)
}

/// The text notified for one observation: the text of a changed text value;
/// nothing for an unchanged value or for a change to non-text data.
pub open spec fn note_of(last: Option<ContentView>, new: ContentView) -> Option<Seq<char>> {
    if is_change(last, new) {
        match new {
            ContentView::Text(t) => Some(t),
            ContentView::NonText => None,
        }
    } else {
        None
    }
}

/// The value kept after one observation: a change replaces the kept value,
/// anything else leaves it.
pub open spec fn kept_after(last: Option<ContentView>, new: ContentView) -> Option<ContentView> {
    if is_change(last, new) {
        Some(new)
    } else {
        last
    }
}

/// The texts notified over a whole run of observations `s`, starting from a
/// kept value `last`.
pub open spec fn notes_from(last: Option<ContentView>, s: Seq<ContentView>) -> Seq<Seq<char>>
    decreases s.len(),
{
    if s.len() == 0 {
        Seq::empty()
    } else {
        let head = match note_of(last, s[0]) {
            Some(t) => seq![t],
            None => Seq::empty(),
        };
        head + notes_from(kept_after(last, s[0]), s.drop_first())
    }
}

/// The run that observes one value `c`, `n` times in a row.
pub open spec fn repeated(c: ContentView, n: nat) -> Seq<ContentView>
    decreases n,
{
    if n == 0 {
        Seq::empty()
    } else {
        seq![c] + repeated(c, (n - 1) as nat)
    }
}

/// `s` with consecutive duplicates collapsed, where a leading run equal to
/// `last` is dropped too.
pub open spec fn dedup_from(last: Option<ContentView>, s: Seq<ContentView>) -> Seq<ContentView>
    decreases s.len(),
{
    if s.len() == 0 {
        Seq::empty()
    } else if Some(s[0]) == last {
        dedup_from(last, s.drop_first())
    } else {
        seq![s[0]] + dedup_from(Some(s[0]), s.drop_first())
    }
}

/// The text values of `s`, in order; non-text entries contribute nothing.
pub open spec fn texts_of(s: Seq<ContentView>) -> Seq<Seq<char>>
    decreases s.len(),
{
    if s.len() == 0 {
        Seq::empty()
    } else {
        let head = match s[0] {
            ContentView::Text(t) => seq![t],
            ContentView::NonText => Seq::empty(),
        };
        head + texts_of(s.drop_first())
    }
}

/// The mathematical value of the watcher's mutable cell.
pub struct WatcherStateView {
    pub last_snapshot: Option<SnapshotView>,
    pub consecutive_error_count: u64,
    pub current_interval_ms: u64,
}

impl WatcherStateView {
    /// The content value the detector compares against, if any.
    pub open spec fn last_content(self) -> Option<ContentView> {
        match self.last_snapshot {
            Some(sn) => Some(sn.content),
            None => None,
        }
    }
}

/// The watcher's mutable cell: the last snapshot kept, the run of consecutive
/// read errors, and the interval until the next read. Owned by the polling
/// task alone; one read/compare/update step runs at a time.
#[derive(Debug)]
pub struct WatcherState {
    pub last_snapshot: Option<ClipboardSnapshot>,
    pub consecutive_error_count: u64,
    pub current_interval_ms: u64,
}

impl View for WatcherState {
    type V = WatcherStateView;

    open spec fn view(&self) -> WatcherStateView {
        WatcherStateView {
            last_snapshot: match self.last_snapshot {
                Some(sn) => Some(sn@),
                None => None,
            },
            consecutive_error_count: self.consecutive_error_count,
            current_interval_ms: self.current_interval_ms,
        }
    }
}

/// Compares a fresh snapshot against the kept one and, on a change, replaces
/// the kept snapshot and returns the fresh one; an unchanged value leaves the
/// state as it was. The error counter and the interval are not touched here.
pub fn observe(new: ClipboardSnapshot, state: &mut WatcherState) -> (r: Option<ClipboardSnapshot>)
    ensures
        is_change(old(state)@.last_content(), new@.content) ==> {
            &&& final(state)@.last_snapshot == Some(new@)
            &&& r matches Some(sn) && sn@ == new@
        },
        !is_change(old(state)@.last_content(), new@.content) ==> {
            &&& final(state)@.last_snapshot == old(state)@.last_snapshot
            &&& r is None
        },
        final(state)@.last_content() == kept_after(old(state)@.last_content(), new@.content),
        final(state)@.consecutive_error_count == old(state)@.consecutive_error_count,
        final(state)@.current_interval_ms == old(state)@.current_interval_ms,
{
    let changed = match &state.last_snapshot {
        Some(kept) => !kept.content.same_as(&new.content),
        None => true,
    };
    if changed {
        state.last_snapshot = Some(new.clone());
        Some(new)
    } else {
        None
    }
}

} // verus!
