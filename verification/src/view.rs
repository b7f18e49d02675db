//! The capped listing of a queue: the first items by number, and for a long
//! queue a gap followed by the last item alone.

use vstd::prelude::*;
use vstd::string::StringExecFns;
use crate::digits::{digits_of, shown_as, DigitIter};
use crate::queue::PlaybackQueue;
use crate::track::{QueueItem, TrackMetadata};

verus! {

/// How much of a queue a listing shows.
#[derive(Clone, Copy, Debug, PartialEq, Eq, Structural)]
pub struct ViewLimits {
    /// The number of items listed from the head on.
    pub shown: usize,
    /// The longest queue that is listed in full.
    pub threshold: usize,
}

/// The number of items that a display lists from the head on.
pub const DISPLAY_SHOWN: usize = 8;

/// The longest queue that a display lists in full.
pub const DISPLAY_THRESHOLD: usize = 10;

impl ViewLimits {
    /// The limits that displays use: eight shown, ten in full.
    pub open spec fn standard() -> ViewLimits {
        ViewLimits { shown: DISPLAY_SHOWN, threshold: DISPLAY_THRESHOLD }
    }

    /// The limits that displays use.
    pub fn display() -> (limits: ViewLimits)
        ensures
            limits == ViewLimits::standard(),
    {
        ViewLimits { shown: DISPLAY_SHOWN, threshold: DISPLAY_THRESHOLD }
    }
}

/// One line of a listing.
#[derive(Debug, PartialEq, Eq)]
pub enum ViewEntry {
    /// The item at `position`, the head being at 1.
    Track { position: usize, metadata: TrackMetadata },
    /// The mark that stands for the items left out.
    Ellipsis,
}

/// The line for the item at index `i`.
pub open spec fn entry_at(items: Seq<QueueItem>, i: int) -> ViewEntry {
    ViewEntry::Track { position: (i + 1) as usize, metadata: items[i].metadata }
}

/// Whether a queue of `len` items is listed with a part left out or, at
/// least, with its last item set apart.
pub open spec fn is_capped(len: nat, limits: ViewLimits) -> bool {
    len > limits.threshold && len > limits.shown
}

/// The listing of `items`: all of them, in order and numbered from 1, while
/// the queue is no longer than the threshold; else the first `shown`, the
/// mark if that leaves out more than the last, and the last.
pub open spec fn listing(items: Seq<QueueItem>, limits: ViewLimits) -> Seq<ViewEntry> {
    if is_capped(items.len(), limits) {
        Seq::new(limits.shown as nat, |i: int| entry_at(items, i)) + (if items.len()
            - limits.shown >= 2 {
            seq![ViewEntry::Ellipsis]
        } else {
            Seq::empty()
        }) + seq![entry_at(items, items.len() - 1)]
    } else {
        Seq::new(items.len(), |i: int| entry_at(items, i))
    }
}

/// A read-only, numbered projection of a queue.
#[derive(Debug, PartialEq, Eq)]
pub struct QueueView {
    /// The length of the queue that was listed.
    pub total: usize,
    pub entries: Vec<ViewEntry>,
}

impl QueueView {
    /// Whether this is the listing of `items` under `limits`.
    pub open spec fn lists(self, items: Seq<QueueItem>, limits: ViewLimits) -> bool {
        self.total == items.len() && self.entries@ == listing(items, limits)
    }
}

/// The title of a listed track: a link where title and address are known,
/// the bare title without an address, and a fixed word without a title.
pub open spec fn title_of(m: TrackMetadata) -> Seq<char> {
    if m.title is Some && m.source_url is Some {
        "["@ + m.title.unwrap()@ + "]("@ + m.source_url.unwrap()@ + ")"@
    } else if m.title is Some {
        m.title.unwrap()@
    } else {
        "<UNKNOWN>"@
    }
}

/// The number of tracks before the one at `position`.
pub open spec fn tracks_before(position: usize) -> nat {
    if position == 0 {
        0
    } else {
        (position - 1) as nat
    }
}

/// The text of one line. The head is marked by a note, every other track by
/// the number of tracks before it.
pub open spec fn entry_text(entry: ViewEntry) -> Seq<char> {
    match entry {
        ViewEntry::Track { position, metadata } => "\n"@ + shown_as(
            digits_of(tracks_before(position)),
        ) + ": "@ + title_of(metadata),
        ViewEntry::Ellipsis => "\n\n     ...\n"@,
    }
}

/// The text of the lines, one after the other.
pub open spec fn entries_text(entries: Seq<ViewEntry>) -> Seq<char>
    decreases entries.len(),
{
    if entries.len() == 0 {
        Seq::empty()
    } else {
        entries_text(entries.drop_last()) + entry_text(entries.last())
    }
}

/// The text of a listing: its lines, or, for a queue without any track, the
/// word that it is empty. A head that plays alone is listed like any other.
pub open spec fn view_text(total: usize, entries: Seq<ViewEntry>) -> Seq<char> {
    if total == 0 {
        "The queue is currently empty!\nAdd more songs by using /play"@
    } else {
        entries_text(entries)
    }
}

impl TrackMetadata {
    /// The title under which the track is listed.
    pub fn listed_title(&self) -> (s: String)
        ensures
            s@ == title_of(*self),
    {
        match (&self.title, &self.source_url) {
            (Some(title), Some(url)) => {
                let mut s = String::from_str("[");
                s.append(title.as_str());
                s.append("](");
                s.append(url.as_str());
                s.append(")");
                s
            },
            (Some(title), None) => title.clone(),
            _ => String::from_str("<UNKNOWN>"),
        }
    }
}

impl ViewEntry {
    /// The line as text.
    pub fn text(&self) -> (s: String)
        ensures
            s@ == entry_text(*self),
    {
        match self {
            ViewEntry::Track { position, metadata } => {
                let mut s = String::from_str("\n");
                let before: usize = if *position == 0 {
                    0
                } else {
                    *position - 1
                };
                let mark = DigitIter::new(before as u64).to_emotes();
                s.append(mark.as_str());
                s.append(": ");
                let title = metadata.listed_title();
                s.append(title.as_str());
                s
            },
            ViewEntry::Ellipsis => String::from_str("\n\n     ...\n"),
        }
    }
}

impl PlaybackQueue {
    /// Lists the queue under `limits`. Nothing is changed.
    pub fn view_with(&self, limits: ViewLimits) -> (v: QueueView)
        ensures
            v.lists(self@, limits),
    {
        let len = self.len();
        let capped = len > limits.threshold && len > limits.shown;
        let first: usize = if capped {
            limits.shown
        } else {
            len
        };
        let mut entries: Vec<ViewEntry> = Vec::new();
        let mut i: usize = 0;
        while i < first
            invariant
                i <= first <= self@.len(),
                entries@ == Seq::new(i as nat, |k: int| entry_at(self@, k)),
            decreases first - i,
        {
            match self.get(i) {
                Some(item) => {
                    entries.push(
                        ViewEntry::Track { position: i + 1, metadata: item.metadata.duplicate() },
                    );
                },
                None => {},
            }
            assert(entries@ =~= Seq::new((i + 1) as nat, |k: int| entry_at(self@, k)));
            i += 1;
        }
        if capped {
            if len - limits.shown >= 2 {
                entries.push(ViewEntry::Ellipsis);
            }
            match self.get(len - 1) {
                Some(item) => {
                    entries.push(
                        ViewEntry::Track { position: len, metadata: item.metadata.duplicate() },
                    );
                },
                None => {},
            }
        }
        assert(entries@ =~= listing(self@, limits));
        QueueView { total: len, entries }
    }

    /// Lists the queue as displays do: up to ten items in full; of a longer
    /// queue the first eight, the mark, and the last.
    pub fn current_queue_view(&self) -> (v: QueueView)
        ensures
            v.lists(self@, ViewLimits::standard()),
    {
        self.view_with(ViewLimits::display())
    }
}

impl QueueView {
    /// The listing as text.
    pub fn text(&self) -> (s: String)
        ensures
            s@ == view_text(self.total, self.entries@),
    {
        if self.total == 0 {
            return String::from_str(
                "The queue is currently empty!\nAdd more songs by using /play",
            );
        }
        let mut s = String::new();
        let mut i: usize = 0;
        while i < self.entries.len()
            invariant
                i <= self.entries@.len(),
                s@ == entries_text(self.entries@.take(i as int)),
            decreases self.entries@.len() - i,
        {
            let line = self.entries[i].text();
            s.append(line.as_str());
            proof {
                let upto = self.entries@.take(i + 1);
                assert(upto.drop_last() =~= self.entries@.take(i as int));
                assert(upto.last() == self.entries@[i as int]);
            }
            i += 1;
        }
        assert(self.entries@.take(i as int) =~= self.entries@);
        s
    }
}

} // verus!
