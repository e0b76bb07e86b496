//! The guarantees of the watcher as a whole, stated over the detector's and
//! scheduler's models and proved once and for all.

use vstd::prelude::*;
use crate::content::ContentView;
use crate::detector::{dedup_from, is_change, kept_after, note_of, notes_from, repeated, texts_of};
use crate::scheduler::escalated;

verus! {

/// The texts of a run split at its first observation: the first value's text,
/// if it is text, followed by the texts of the rest.
proof fn lemma_texts_of_cons(c: ContentView, rest: Seq<ContentView>)
    ensures
        texts_of(seq![c] + rest) == (match c {
            ContentView::Text(t) => seq![t],
            ContentView::NonText => Seq::<Seq<char>>::empty(),
        }) + texts_of(rest),
{
    let s = seq![c] + rest;
    assert(s[0] == c);
    assert(s.drop_first() =~= rest);
}

/// For every run of observed content values, the notifications delivered are
/// exactly the text values of that run with consecutive duplicates collapsed
/// (a leading run equal to the value already kept counts as duplicate), in
/// order: nothing is notified twice in a row, nothing is reordered, and
/// nothing that changed is missed.
pub proof fn lemma_notes_are_deduped_texts(last: Option<ContentView>, s: Seq<ContentView>)
    ensures
        notes_from(last, s) == texts_of(dedup_from(last, s)),
    decreases s.len(),
{
    if s.len() == 0 {
    } else if Some(s[0]) == last {
        // Not a change: no note, the kept value stays, the duplicate is dropped.
        assert(kept_after(last, s[0]) == last);
        lemma_notes_are_deduped_texts(last, s.drop_first());
        assert(Seq::<Seq<char>>::empty() + notes_from(last, s.drop_first()) =~= notes_from(
            last,
            s.drop_first(),
        ));
    } else {
        // A change: the note of s[0], then the rest against the new kept value.
        lemma_notes_are_deduped_texts(Some(s[0]), s.drop_first());
        lemma_texts_of_cons(s[0], dedup_from(Some(s[0]), s.drop_first()));
    }
}

/// Observing one value `n` times in a row yields at most one notification:
/// exactly the note of its first observation, nothing for the repeats.
pub proof fn lemma_repeats_notify_once(last: Option<ContentView>, c: ContentView, n: nat)
    requires
        n >= 1,
    ensures
        notes_from(last, repeated(c, n)) == (match note_of(last, c) {
            Some(t) => seq![t],
            None => Seq::<Seq<char>>::empty(),
        }),
    decreases n,
{
    let s = repeated(c, n);
    let rest = repeated(c, (n - 1) as nat);
    let head = match note_of(last, c) {
        Some(t) => seq![t],
        None => Seq::<Seq<char>>::empty(),
    };
    assert(s == seq![c] + rest);
    assert(s[0] == c);
    assert(s.drop_first() =~= rest);
    // After the first observation the kept value is `c`, whether or not it
    // was a change.
    assert(kept_after(last, c) == Some(c));
    if n == 1 {
        assert(notes_from(Some(c), rest) == Seq::<Seq<char>>::empty());
    } else {
        lemma_repeats_notify_once(Some(c), c, (n - 1) as nat);
        assert(note_of(Some(c), c) is None);
    }
    assert(head + Seq::<Seq<char>>::empty() =~= head);
}

/// A round trip re-notifies: text `t`, then non-text data, then the same text
/// `t` again yields the notification `t` twice, because only an immediately
/// repeated identical value is suppressed and the non-text observation was
/// kept in between.
pub proof fn lemma_round_trip_renotifies(last: Option<ContentView>, t: Seq<char>)
    requires
        is_change(last, ContentView::Text(t)),
    ensures
        notes_from(
            last,
            seq![ContentView::Text(t), ContentView::NonText, ContentView::Text(t)],
        ) == seq![t, t],
{
    let s = seq![ContentView::Text(t), ContentView::NonText, ContentView::Text(t)];
    let s1 = seq![ContentView::NonText, ContentView::Text(t)];
    let s2 = seq![ContentView::Text(t)];
    assert(s.drop_first() =~= s1);
    assert(s1.drop_first() =~= s2);
    assert(s2.drop_first() =~= Seq::<ContentView>::empty());
    assert(notes_from(Some(ContentView::Text(t)), Seq::<ContentView>::empty())
        == Seq::<Seq<char>>::empty());
    assert(notes_from(Some(ContentView::NonText), s2) == seq![t] + Seq::<Seq<char>>::empty());
    assert(notes_from(Some(ContentView::Text(t)), s1) == Seq::<Seq<char>>::empty() + notes_from(
        Some(ContentView::NonText),
        s2,
    ));
    assert(notes_from(last, s) == seq![t] + notes_from(Some(ContentView::Text(t)), s1));
    assert(seq![t] + (Seq::<Seq<char>>::empty() + (seq![t] + Seq::<Seq<char>>::empty())) =~= seq![
        t,
        t,
    ]);
}

/// Backoff is monotone and capped: escalating an interval that is at most the
/// cap never shortens it and never passes the cap. (That the interval resets
/// to the base on the first successful read is part of the scheduler's
/// contract for a successful `on_read`.)
pub proof fn lemma_backoff_monotone(interval_ms: u64, cap_ms: u64)
    requires
        interval_ms <= cap_ms,
    ensures
        interval_ms <= escalated(interval_ms, cap_ms),
        escalated(interval_ms, cap_ms) <= cap_ms,
{
}

/// Empty text is its own value: it differs from non-text data and from
/// "nothing observed yet", and switching among the three notifies by the
/// general rule — with a note exactly when the new value is text.
pub proof fn lemma_empty_text_is_distinct()
    ensures
        ContentView::Text(Seq::<char>::empty()) != ContentView::NonText,
        is_change(None, ContentView::Text(Seq::<char>::empty())),
        is_change(Some(ContentView::NonText), ContentView::Text(Seq::<char>::empty())),
        is_change(Some(ContentView::Text(Seq::<char>::empty())), ContentView::NonText),
        note_of(Some(ContentView::NonText), ContentView::Text(Seq::<char>::empty())) == Some(
            Seq::<char>::empty(),
        ),
        note_of(Some(ContentView::Text(Seq::<char>::empty())), ContentView::NonText) is None,
{
}

} // verus!
