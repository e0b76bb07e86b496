//! What one clipboard read observes: text (possibly empty) or non-text data,
//! captured together with a timestamp and a sequence number.

use vstd::prelude::*;

verus! {

/// The mathematical value of one observation: a character sequence for text
/// content, or the marker for data the clipboard holds in a non-text format.
pub enum ContentView {
    Text(Seq<char>),
    NonText,
}

/// What the clipboard held at one read: text (the empty string is an ordinary
/// text value), or data in a non-text format.
#[derive(Debug)]
pub enum ClipContent {
    Text(String),
    NonText,
}

impl View for ClipContent {
    type V = ContentView;

    open spec fn view(&self) -> ContentView {
        match self {
            ClipContent::Text(s) => ContentView::Text(s@),
            ClipContent::NonText => ContentView::NonText,
        }
    }
}

impl Clone for ClipContent {
    fn clone(&self) -> (r: Self)
        ensures
            r@ == self@,
    {
        match self {
            ClipContent::Text(s) => ClipContent::Text(s.clone()),
            ClipContent::NonText => ClipContent::NonText,
        }
    }
}

impl ClipContent {
    /// Whether two observations carry the same value; text compares by its
    /// characters.
    pub fn same_as(&self, other: &ClipContent) -> (r: bool)
        ensures
            r == (self@ == other@),
    {
        match (self, other) {
            (ClipContent::Text(a), ClipContent::Text(b)) => a.eq(b),
            (ClipContent::NonText, ClipContent::NonText) => true,
            _ => false,
        }
    }
}

/// The mathematical value of a snapshot.
pub struct SnapshotView {
    pub content: ContentView,
    pub timestamp_ms: u64,
    pub sequence: u64,
}

/// An immutable capture of clipboard content at one point in time. A snapshot
/// is superseded by later ones, never changed.
#[derive(Debug)]
pub struct ClipboardSnapshot {
    pub content: ClipContent,
    pub timestamp_ms: u64,
    pub sequence: u64,
}

impl View for ClipboardSnapshot {
    type V = SnapshotView;

    open spec fn view(&self) -> SnapshotView {
        SnapshotView { content: self.content@, timestamp_ms: self.timestamp_ms, sequence: self.sequence }
    }
}

impl Clone for ClipboardSnapshot {
    fn clone(&self) -> (r: Self)
        ensures
            r@ == self@,
    {
        ClipboardSnapshot {
            content: self.content.clone(),
            timestamp_ms: self.timestamp_ms,
            sequence: self.sequence,
        }
    }
}

/// Why a clipboard read failed. These are recoverable: they drive backoff and
/// never stop the watcher.
#[derive(Clone, Copy, Debug, PartialEq, Eq, Structural)]
pub enum ReadError {
    /// The platform denied access to the clipboard.
    AccessDenied,
    /// The read did not finish within the configured bound.
    Timeout,
    /// No clipboard service is available.
    PlatformUnavailable,
}

/// Why a notification could not be delivered. These are recoverable: they are
/// counted and never stop the watcher.
#[derive(Clone, Copy, Debug, PartialEq, Eq, Structural)]
pub enum SinkError {
    /// No consumer is listening.
    ConsumerUnavailable,
    /// Delivery did not finish within its bound.
    DeliveryTimeout,
}

} // verus!
