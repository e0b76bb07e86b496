//! The consumer-facing boundary: a bounded buffer of one pending notification,
//! latest-wins, so a slow consumer can never block the polling task.

use vstd::prelude::*;

verus! {

/// A one-slot notification buffer. Offering a new notification replaces the
/// pending one (the older is handed back to be dropped with a log line, never
/// delivered late); taking empties the slot.
#[derive(Debug)]
pub struct SinkSlot {
    pending: Option<String>,
}

impl SinkSlot {
    /// The characters of the pending notification, if one is waiting.
    pub closed spec fn spec_pending(self) -> Option<Seq<char>> {
        match self.pending {
            Some(s) => Some(s@),
            None => None,
        }
    }

    /// An empty slot: nothing pending.
    pub fn new() -> (s: SinkSlot)
        ensures
            s.spec_pending() is None,
    {
        SinkSlot { pending: None }
    }

    /// Makes `content` the pending notification and hands back the one it
    /// displaced, if any: the newest value wins, the displaced one is dropped.
    pub fn offer(&mut self, content: String) -> (displaced: Option<String>)
        ensures
            final(self).spec_pending() == Some(content@),
            match displaced {
                Some(d) => old(self).spec_pending() == Some(d@),
                None => old(self).spec_pending() is None,
            },
    {
        let displaced = self.pending.take();
        self.pending = Some(content);
        displaced
    }

    /// Removes and returns the pending notification; the slot is empty after.
    pub fn take(&mut self) -> (r: Option<String>)
        ensures
            final(self).spec_pending() is None,
            match r {
                Some(s) => old(self).spec_pending() == Some(s@),
                None => old(self).spec_pending() is None,
            },
    {
        self.pending.take()
    }

    /// Whether a notification is waiting to be delivered.
    pub fn has_pending(&self) -> (r: bool)
        ensures
            r == (self.spec_pending() is Some),
    {
        self.pending.is_some()
    }
}

} // verus!
