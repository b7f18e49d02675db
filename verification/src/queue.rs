//! The ordered queue of tracks. Its first element, if any, is the one
//! assigned to playback; all others are pending.

use vstd::prelude::*;
use crate::track::{PlayMode, QueueItem, TrackHandle, TrackMetadata, VolumeLevel};

verus! {

/// What a session is doing, as read off the head of its queue.
#[derive(Clone, Copy, Debug, PartialEq, Eq, Structural)]
pub enum PlaybackState {
    Idle,
    Playing,
    Paused,
}

/// How an enqueued track was received.
#[derive(Clone, Copy, Debug, PartialEq, Eq, Structural)]
pub enum Enqueued {
    /// The queue was empty: the track is the head and plays.
    Started,
    /// The track waits behind the others.
    Queued,
}

/// The state that a queue with these items is in: idle exactly when it is
/// empty, else what the head reports.
pub open spec fn state_of(items: Seq<QueueItem>) -> PlaybackState {
    if items.len() == 0 {
        PlaybackState::Idle
    } else if items[0].mode == PlayMode::Play {
        PlaybackState::Playing
    } else {
        PlaybackState::Paused
    }
}

/// Every pending item is held and still has the standard volume: only a
/// head is ever played or has its volume changed.
pub open spec fn pending_at_rest(items: Seq<QueueItem>) -> bool {
    forall|i: int|
        1 <= i < items.len() ==> (#[trigger] items[i]).mode == PlayMode::Pause && items[i].volume
            == VolumeLevel::standard()
}

/// The items after `source` joined the tail: it plays at once if the queue
/// was empty and is held otherwise.
pub open spec fn enqueued(
    items: Seq<QueueItem>,
    handle: TrackHandle,
    metadata: TrackMetadata,
) -> Seq<QueueItem> {
    items.push(
        QueueItem::of(
            handle,
            metadata,
            if items.len() == 0 {
                PlayMode::Play
            } else {
                PlayMode::Pause
            },
        ),
    )
}

/// The items with the head reporting `mode`; an empty queue stays empty.
pub open spec fn with_head_mode(items: Seq<QueueItem>, mode: PlayMode) -> Seq<QueueItem> {
    if items.len() == 0 {
        items
    } else {
        items.update(0, items[0].with_mode(mode))
    }
}

/// The items with the head at `volume`; an empty queue stays empty.
pub open spec fn with_head_volume(items: Seq<QueueItem>, volume: VolumeLevel) -> Seq<QueueItem> {
    if items.len() == 0 {
        items
    } else {
        items.update(0, items[0].with_volume(volume))
    }
}

/// The head alone; an empty queue stays empty.
pub open spec fn head_only(items: Seq<QueueItem>) -> Seq<QueueItem> {
    if items.len() == 0 {
        items
    } else {
        items.take(1)
    }
}

/// `i` is the position of the first item that `handle` names.
pub open spec fn is_first_with(items: Seq<QueueItem>, handle: TrackHandle, i: int) -> bool {
    &&& 0 <= i < items.len()
    &&& items[i].handle == handle
    &&& forall|j: int| 0 <= j < i ==> (#[trigger] items[j]).handle != handle
}

/// No item is named by `handle`.
pub open spec fn has_none_with(items: Seq<QueueItem>, handle: TrackHandle) -> bool {
    forall|j: int| 0 <= j < items.len() ==> (#[trigger] items[j]).handle != handle
}

/// An ordered queue of tracks. Only its head is ever played or has its
/// volume changed; every other item waits, held and at the standard volume.
pub struct PlaybackQueue {
    items: Vec<QueueItem>,
}

impl View for PlaybackQueue {
    type V = Seq<QueueItem>;

    closed spec fn view(&self) -> Seq<QueueItem> {
        self.items@
    }
}

impl PlaybackQueue {
    #[verifier::type_invariant]
    spec fn at_rest(self) -> bool {
        pending_at_rest(self.items@)
    }

    /// A queue without items.
    pub fn new() -> (q: PlaybackQueue)
        ensures
            q@ == Seq::<QueueItem>::empty(),
    {
        PlaybackQueue { items: Vec::new() }
    }

    /// The number of items, head included. Every queue keeps its pending
    /// items at rest, which a caller learns here.
    pub fn len(&self) -> (n: usize)
        ensures
            n == self@.len(),
            pending_at_rest(self@),
    {
        proof {
            use_type_invariant(self);
        }
        self.items.len()
    }

    /// Whether nothing is queued, not even a head.
    pub fn is_empty(&self) -> (b: bool)
        ensures
            b == (self@.len() == 0),
    {
        self.items.len() == 0
    }

    /// The item assigned to playback, if any.
    pub fn head(&self) -> (h: Option<&QueueItem>)
        ensures
            self@.len() == 0 ==> h is None,
            self@.len() > 0 ==> h == Some(&self@[0]),
    {
        if self.items.len() == 0 {
            None
        } else {
            Some(&self.items[0])
        }
    }

    /// The item at a position, counted from the head at 0.
    pub fn get(&self, index: usize) -> (h: Option<&QueueItem>)
        ensures
            index >= self@.len() ==> h is None,
            index < self@.len() ==> h == Some(&self@[index as int]),
    {
        if index < self.items.len() {
            Some(&self.items[index])
        } else {
            None
        }
    }

    /// What the session is doing: idle exactly when the queue is empty,
    /// else what the head reports.
    pub fn state(&self) -> (s: PlaybackState)
        ensures
            s == state_of(self@),
            s == PlaybackState::Idle <==> self@.len() == 0,
    {
        if self.items.len() == 0 {
            PlaybackState::Idle
        } else {
            match self.items[0].mode {
                PlayMode::Play => PlaybackState::Playing,
                PlayMode::Pause => PlaybackState::Paused,
            }
        }
    }

    /// Appends a track. On an empty queue it becomes the head and starts;
    /// otherwise it waits at the tail, behind every item already queued.
    pub fn enqueue(&mut self, handle: TrackHandle, metadata: TrackMetadata) -> (r: Enqueued)
        ensures
            final(self)@ == enqueued(old(self)@, handle, metadata),
            r == Enqueued::Started <==> old(self)@.len() == 0,
            r == Enqueued::Queued <==> old(self)@.len() > 0,
    {
        proof {
            use_type_invariant(&*self);
        }
        let empty = self.items.len() == 0;
        let mode = if empty {
            PlayMode::Play
        } else {
            PlayMode::Pause
        };
        let mut items: Vec<QueueItem> = Vec::new();
        core::mem::swap(&mut self.items, &mut items);
        items.push(QueueItem { handle, metadata, volume: VolumeLevel::initial(), mode });
        self.items = items;
        if empty {
            Enqueued::Started
        } else {
            Enqueued::Queued
        }
    }

    /// The position of the first item that `handle` names.
    pub fn position(&self, handle: TrackHandle) -> (p: Option<usize>)
        ensures
            p is Some ==> is_first_with(self@, handle, p.unwrap() as int),
            p is None ==> has_none_with(self@, handle),
    {
        let mut i: usize = 0;
        while i < self.items.len()
            invariant
                i <= self.items@.len(),
                forall|j: int| 0 <= j < i ==> (#[trigger] self.items@[j]).handle != handle,
            decreases self.items@.len() - i,
        {
            if self.items[i].handle.0 == handle.0 {
                return Some(i);
            }
            i += 1;
        }
        None
    }

    /// Takes the item at a position out; the items behind it move up.
    pub fn remove_at(&mut self, index: usize) -> (h: Option<QueueItem>)
        ensures
            index >= old(self)@.len() ==> h is None && final(self)@ == old(self)@,
            index < old(self)@.len() ==> h == Some(old(self)@[index as int]) && final(self)@
                == old(self)@.remove(index as int),
    {
        proof {
            use_type_invariant(&*self);
        }
        if index >= self.items.len() {
            None
        } else {
            let mut items: Vec<QueueItem> = Vec::new();
            core::mem::swap(&mut self.items, &mut items);
            let item = items.remove(index);
            self.items = items;
            Some(item)
        }
    }

    /// Takes the head off; the first pending item, if any, is the new head.
    pub fn pop_head(&mut self) -> (h: Option<QueueItem>)
        ensures
            old(self)@.len() == 0 ==> h is None && final(self)@ == old(self)@,
            old(self)@.len() > 0 ==> h == Some(old(self)@[0]) && final(self)@ == old(self)@.skip(1),
    {
        let head = self.remove_at(0);
        assert(old(self)@.len() > 0 ==> old(self)@.remove(0) =~= old(self)@.skip(1));
        head
    }

    /// Drops every pending item, leaving the head in place.
    pub fn keep_head(&mut self)
        ensures
            final(self)@ == head_only(old(self)@),
    {
        proof {
            use_type_invariant(&*self);
        }
        if self.items.len() > 1 {
            let mut items: Vec<QueueItem> = Vec::new();
            core::mem::swap(&mut self.items, &mut items);
            items.truncate(1);
            assert(items@ =~= head_only(old(self).items@));
            self.items = items;
        } else {
            assert(self.items@ =~= head_only(self.items@));
        }
    }

    /// Empties the queue.
    pub fn drain(&mut self)
        ensures
            final(self)@ == Seq::<QueueItem>::empty(),
    {
        self.items = Vec::new();
    }

    /// Records the mode that the head reports.
    pub fn set_head_mode(&mut self, mode: PlayMode)
        ensures
            final(self)@ == with_head_mode(old(self)@, mode),
    {
        proof {
            use_type_invariant(&*self);
        }
        if self.items.len() > 0 {
            let mut items: Vec<QueueItem> = Vec::new();
            core::mem::swap(&mut self.items, &mut items);
            let mut head = items.remove(0);
            head.mode = mode;
            items.insert(0, head);
            assert(items@ =~= with_head_mode(old(self).items@, mode));
            self.items = items;
        }
    }

    /// Records a new volume of the head. No pending item is touched.
    pub fn set_head_volume(&mut self, volume: VolumeLevel)
        ensures
            final(self)@ == with_head_volume(old(self)@, volume),
    {
        proof {
            use_type_invariant(&*self);
        }
        if self.items.len() > 0 {
            let mut items: Vec<QueueItem> = Vec::new();
            core::mem::swap(&mut self.items, &mut items);
            let mut head = items.remove(0);
            head.volume = volume;
            items.insert(0, head);
            assert(items@ =~= with_head_volume(old(self).items@, volume));
            self.items = items;
        }
    }
}

} // verus!
