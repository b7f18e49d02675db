//! One guild's voice session: the channel the bot sits in, the queue, and
//! the operations on it. Every operation starts with an admission check and
//! proceeds one pipeline command at a time.

use vstd::prelude::*;
use crate::admission::{admission_of, AdmissionContext, ChannelId, GuildId};
use crate::protocol::{
    arrival,
    bump,
    bumped,
    end_without,
    ended_without,
    Announcement,
    CommandError,
    Effect,
    EffectResult,
    Pending,
    Step,
};
use crate::queue::{
    enqueued,
    is_first_with,
    with_head_mode,
    with_head_volume,
    head_only,
    Enqueued,
    PlaybackQueue,
};
use crate::track::{
    label_of,
    PlayMode,
    QueueItem,
    SourceKind,
    TrackHandle,
    TrackSource,
    VolumeLevel,
};

verus! {

/// A temporary resource that backs a queued track.
#[derive(Debug, PartialEq, Eq)]
pub struct TempResource {
    pub handle: TrackHandle,
    pub path: String,
}

/// The voice session of one guild. Whoever holds it mutably has it to
/// themselves: an operation and a lifecycle event never see each other's
/// steps half applied. Sharing a session among tasks takes a lock around it.
pub struct VoiceSession {
    guild: GuildId,
    channel: Option<ChannelId>,
    queue: PlaybackQueue,
    resources: Vec<TempResource>,
}

/// A session as contracts speak of it.
pub struct SessionView {
    pub guild: GuildId,
    pub channel: Option<ChannelId>,
    pub queue: Seq<QueueItem>,
    pub resources: Seq<TempResource>,
}

impl View for VoiceSession {
    type V = SessionView;

    closed spec fn view(&self) -> SessionView {
        SessionView {
            guild: self.guild,
            channel: self.channel,
            queue: self.queue@,
            resources: self.resources@,
        }
    }
}

impl SessionView {
    /// The session of a guild in which nothing has happened yet.
    pub open spec fn fresh(guild: GuildId) -> SessionView {
        SessionView { guild, channel: None, queue: Seq::empty(), resources: Seq::empty() }
    }

    /// The same session with another queue.
    pub open spec fn with_queue(self, queue: Seq<QueueItem>) -> SessionView {
        SessionView { queue, ..self }
    }
}

/// What stands in the way of an operation on the playing queue: a refused
/// requester first, an empty queue second.
pub open spec fn barrier(s: SessionView, requester: Option<ChannelId>) -> Option<CommandError> {
    match admission_of(requester, s.channel) {
        Err(e) => Some(CommandError::Admission(e)),
        Ok(_) => if s.queue.len() == 0 {
            Some(CommandError::QueueEmpty)
        } else {
            None
        },
    }
}

/// The number of tracks that a skip of `amount` takes off a queue of `len`.
pub open spec fn skip_count(amount: usize, len: nat) -> nat {
    if amount <= len {
        amount as nat
    } else {
        len
    }
}

/// The first step of joining the requester's voice channel, before any
/// source exists: a refused requester ends it, and so does, with success, a
/// session that sits in the channel already.
pub open spec fn join_start(s: SessionView, requester: Option<ChannelId>) -> Step {
    match admission_of(requester, s.channel) {
        Err(e) => Step::Finish(Err(CommandError::Admission(e))),
        Ok(_) => if s.channel is Some {
            Step::Finish(Ok(Announcement::Connected))
        } else {
            Step::Perform(
                Effect::Join { guild: s.guild, channel: requester.unwrap() },
                Pending::Connecting { channel: requester.unwrap() },
            )
        },
    }
}

/// The first step of queueing speech that was synthesized already. It
/// never joins: speech is fetched only for a session that sits in a
/// channel, so without one the speech is given up.
pub open spec fn speech_start(
    s: SessionView,
    requester: Option<ChannelId>,
    source: TrackSource,
) -> Step {
    match admission_of(requester, s.channel) {
        Err(e) => ended_without(source, CommandError::Admission(e)),
        Ok(_) => if s.channel is Some {
            Step::Perform(Effect::Enqueue(source.handle), Pending::Enqueueing { source })
        } else {
            ended_without(source, CommandError::NoActiveSession)
        },
    }
}

/// The first step of queueing `source`: a refused requester ends it; a
/// session that sits in no channel joins the requester's first.
pub open spec fn play_start(
    s: SessionView,
    requester: Option<ChannelId>,
    source: TrackSource,
) -> Step {
    match admission_of(requester, s.channel) {
        Err(e) => ended_without(source, CommandError::Admission(e)),
        Ok(_) => if s.channel is Some {
            Step::Perform(Effect::Enqueue(source.handle), Pending::Enqueueing { source })
        } else {
            Step::Perform(
                Effect::Join { guild: s.guild, channel: requester.unwrap() },
                Pending::Joining { channel: requester.unwrap(), source },
            )
        },
    }
}

/// The first step of a pause or resume: the head is asked for its mode.
pub open spec fn pause_start(s: SessionView, requester: Option<ChannelId>) -> Step {
    match barrier(s, requester) {
        Some(e) => Step::Finish(Err(e)),
        None => Step::Perform(Effect::QueryMode(s.queue[0].handle), Pending::QueryingMode),
    }
}

/// The first step of a skip. An amount of zero is refused before anything
/// else is looked at; a larger one is cut down to the queue's length.
pub open spec fn skip_start(s: SessionView, requester: Option<ChannelId>, amount: usize) -> Step {
    if amount == 0 {
        Step::Finish(Err(CommandError::ZeroSkip))
    } else {
        match barrier(s, requester) {
            Some(e) => Step::Finish(Err(e)),
            None => Step::Perform(
                Effect::Stop(s.queue[0].handle),
                Pending::Skipping {
                    left: (skip_count(amount, s.queue.len()) - 1) as usize,
                    skipped: 0,
                },
            ),
        }
    }
}

/// The first step of a stop.
pub open spec fn stop_start(s: SessionView, requester: Option<ChannelId>) -> Step {
    match barrier(s, requester) {
        Some(e) => Step::Finish(Err(e)),
        None => Step::Perform(Effect::StopAll, Pending::Stopping),
    }
}

/// The first step of a clear: the first pending track is stopped; with
/// nothing pending the clear is over at once.
pub open spec fn clear_start(s: SessionView, requester: Option<ChannelId>) -> Step {
    match barrier(s, requester) {
        Some(e) => Step::Finish(Err(e)),
        None => if s.queue.len() > 1 {
            Step::Perform(Effect::Stop(s.queue[1].handle), Pending::Clearing { at: 1 })
        } else {
            Step::Finish(Ok(Announcement::Cleared))
        },
    }
}

/// The first step of a volume change, `level` in thousandths. A negative
/// level is refused before anything else is looked at.
pub open spec fn volume_start(s: SessionView, requester: Option<ChannelId>, level: i64) -> Step {
    if level < 0 {
        Step::Finish(Err(CommandError::NegativeVolume))
    } else {
        match barrier(s, requester) {
            Some(e) => Step::Finish(Err(e)),
            None => Step::Perform(
                Effect::SetVolume(s.queue[0].handle, VolumeLevel { millis: level as u64 }),
                Pending::SettingVolume(VolumeLevel { millis: level as u64 }),
            ),
        }
    }
}

/// The resources after `source` was queued.
pub open spec fn resources_with(resources: Seq<TempResource>, source: TrackSource) -> Seq<
    TempResource,
> {
    match source.temp_resource {
        Some(path) => resources.push(TempResource { handle: source.handle, path }),
        None => resources,
    }
}

/// The session and the next step once the pipeline has answered the command
/// that `pending` waits for. A command that failed ends the operation. A
/// skip then keeps what it did before; every other operation leaves the
/// queue as it found it. A clear cuts the queue only when its last stop is
/// done, and a source that was not queued has its temporary resource named
/// for release.
pub open spec fn after(s: SessionView, pending: Pending, result: EffectResult) -> (
    SessionView,
    Step,
) {
    match pending {
        Pending::Joining { channel, source } => if result == EffectResult::Done {
            (
                SessionView { channel: Some(channel), ..s },
                Step::Perform(Effect::Enqueue(source.handle), Pending::Enqueueing { source }),
            )
        } else {
            (s, ended_without(source, CommandError::JoinFailed))
        },
        Pending::Connecting { channel } => if result == EffectResult::Done {
            (SessionView { channel: Some(channel), ..s }, Step::Finish(Ok(Announcement::Connected)))
        } else {
            (s, Step::Finish(Err(CommandError::JoinFailed)))
        },
        Pending::Enqueueing { source } => if result == EffectResult::Done {
            (
                SessionView {
                    queue: enqueued(s.queue, source.handle, source.metadata),
                    resources: resources_with(s.resources, source),
                    ..s
                },
                Step::Finish(Ok(arrival(s.queue.len() == 0, source.kind, source.metadata))),
            )
        } else {
            (s, ended_without(source, CommandError::TrackFailed))
        },
        Pending::QueryingMode => if s.queue.len() == 0 {
            (s, Step::Finish(Err(CommandError::QueueEmpty)))
        } else {
            match result {
                EffectResult::Mode(PlayMode::Pause) => (
                    s.with_queue(with_head_mode(s.queue, PlayMode::Pause)),
                    Step::Perform(Effect::Resume(s.queue[0].handle), Pending::Resuming),
                ),
                EffectResult::Mode(PlayMode::Play) => (
                    s.with_queue(with_head_mode(s.queue, PlayMode::Play)),
                    Step::Perform(Effect::Pause(s.queue[0].handle), Pending::Pausing),
                ),
                _ => (s, Step::Finish(Err(CommandError::TrackFailed))),
            }
        },
        Pending::Pausing => if result == EffectResult::Done {
            (
                s.with_queue(with_head_mode(s.queue, PlayMode::Pause)),
                Step::Finish(Ok(Announcement::Paused)),
            )
        } else {
            (s, Step::Finish(Err(CommandError::PauseFailed)))
        },
        Pending::Resuming => if result == EffectResult::Done {
            (
                s.with_queue(with_head_mode(s.queue, PlayMode::Play)),
                Step::Finish(Ok(Announcement::Resumed)),
            )
        } else {
            (s, Step::Finish(Err(CommandError::ResumeFailed)))
        },
        Pending::Skipping { left, skipped } => if result != EffectResult::Done {
            (s, Step::Finish(Err(CommandError::SkipFailed { skipped })))
        } else if s.queue.len() == 0 {
            (s, Step::Finish(Err(CommandError::QueueEmpty)))
        } else {
            let rest = s.queue.skip(1);
            (
                s.with_queue(rest),
                if rest.len() == 0 {
                    Step::Finish(Ok(Announcement::Skipped { count: bumped(skipped) }))
                } else if left > 0 {
                    Step::Perform(
                        Effect::Stop(rest[0].handle),
                        Pending::Skipping { left: (left - 1) as usize, skipped: bumped(skipped) },
                    )
                } else {
                    Step::Perform(
                        Effect::Play(rest[0].handle),
                        Pending::Promoting { skipped: bumped(skipped) },
                    )
                },
            )
        },
        Pending::Promoting { skipped } => if result == EffectResult::Done {
            (
                s.with_queue(with_head_mode(s.queue, PlayMode::Play)),
                Step::Finish(Ok(Announcement::Skipped { count: skipped })),
            )
        } else {
            (s, Step::Finish(Err(CommandError::SkipFailed { skipped })))
        },
        Pending::Clearing { at } => if result != EffectResult::Done {
            (s, Step::Finish(Err(CommandError::ClearFailed)))
        } else if at + 1 < s.queue.len() {
            (
                s,
                Step::Perform(
                    Effect::Stop(s.queue[at + 1].handle),
                    Pending::Clearing { at: (at + 1) as usize },
                ),
            )
        } else {
            (s.with_queue(head_only(s.queue)), Step::Finish(Ok(Announcement::Cleared)))
        },
        Pending::Stopping => (s.with_queue(Seq::empty()), Step::Finish(Ok(Announcement::Stopped))),
        Pending::SettingVolume(volume) => if result == EffectResult::Done {
            (
                s.with_queue(with_head_volume(s.queue, volume)),
                Step::Finish(Ok(Announcement::VolumeChanged(volume))),
            )
        } else {
            (s, Step::Finish(Err(CommandError::TrackFailed)))
        },
    }
}

/// What the pipeline reports of a track on its own.
#[derive(Clone, Copy, Debug, PartialEq, Eq, Structural)]
pub enum TrackEvent {
    Started(TrackHandle),
    Ended(TrackHandle),
}

/// What is to be done about a reported event. Neither can fail the
/// controller: a status that cannot be published or a resource that cannot
/// be released is passed over.
#[derive(Debug, PartialEq, Eq)]
pub enum Upkeep {
    /// Show this label as the bot's visible status.
    PublishStatus(String),
    /// Delete this temporary resource.
    Release(String),
    Nothing,
}

/// `i` is the position of the first resource that backs `handle`.
pub open spec fn is_first_backing(resources: Seq<TempResource>, handle: TrackHandle, i: int) -> bool {
    &&& 0 <= i < resources.len()
    &&& resources[i].handle == handle
    &&& forall|j: int| 0 <= j < i ==> (#[trigger] resources[j]).handle != handle
}

/// No resource backs `handle`.
pub open spec fn has_none_backing(resources: Seq<TempResource>, handle: TrackHandle) -> bool {
    forall|j: int| 0 <= j < resources.len() ==> (#[trigger] resources[j]).handle != handle
}

/// Whether the head of the session is the track that `handle` names.
pub open spec fn heads(s: SessionView, handle: TrackHandle) -> bool {
    s.queue.len() > 0 && s.queue[0].handle == handle
}

/// The position of the first item that `handle` names, if it names any.
pub open spec fn first_named(queue: Seq<QueueItem>, handle: TrackHandle) -> Option<int> {
    if exists|i: int| is_first_with(queue, handle, i) {
        Some(choose|i: int| is_first_with(queue, handle, i))
    } else {
        None
    }
}

/// The position of the first resource that backs `handle`, if any does.
pub open spec fn first_backing(resources: Seq<TempResource>, handle: TrackHandle) -> Option<int> {
    if exists|i: int| is_first_backing(resources, handle, i) {
        Some(choose|i: int| is_first_backing(resources, handle, i))
    } else {
        None
    }
}

/// The session after a track started or ended by itself. A start of the
/// head is recorded as its mode; a start of any other track changes
/// nothing. An end takes the track out of the queue, wherever it stands,
/// and its temporary resource, if it had one, off the books.
pub open spec fn observed(s: SessionView, event: TrackEvent) -> SessionView {
    match event {
        TrackEvent::Started(handle) => if heads(s, handle) {
            s.with_queue(with_head_mode(s.queue, PlayMode::Play))
        } else {
            s
        },
        TrackEvent::Ended(handle) => SessionView {
            queue: match first_named(s.queue, handle) {
                Some(i) => s.queue.remove(i),
                None => s.queue,
            },
            resources: match first_backing(s.resources, handle) {
                Some(i) => s.resources.remove(i),
                None => s.resources,
            },
            ..s
        },
    }
}

/// Whether `upkeep` is what the event asks for in this session: the head's
/// label to publish when the head started, the resource to release when a
/// track that had one ended, and nothing otherwise.
pub open spec fn is_upkeep_for(s: SessionView, event: TrackEvent, upkeep: Upkeep) -> bool {
    match event {
        TrackEvent::Started(handle) => if heads(s, handle) {
            upkeep matches Upkeep::PublishStatus(label) && label@ == label_of(s.queue[0].metadata)
        } else {
            upkeep == Upkeep::Nothing
        },
        TrackEvent::Ended(handle) => match first_backing(s.resources, handle) {
            Some(i) => upkeep == Upkeep::Release(s.resources[i].path),
            None => upkeep == Upkeep::Nothing,
        },
    }
}

proof fn lemma_first_named(queue: Seq<QueueItem>, handle: TrackHandle, i: int)
    requires
        is_first_with(queue, handle, i),
    ensures
        first_named(queue, handle) == Some(i),
{
    let c = choose|c: int| is_first_with(queue, handle, c);
    assert(is_first_with(queue, handle, c));
    if c < i {
        assert(queue[c].handle != handle);
    } else if i < c {
        assert(queue[i].handle != handle);
    }
}

proof fn lemma_first_backing(resources: Seq<TempResource>, handle: TrackHandle, i: int)
    requires
        is_first_backing(resources, handle, i),
    ensures
        first_backing(resources, handle) == Some(i),
{
    let c = choose|c: int| is_first_backing(resources, handle, c);
    assert(is_first_backing(resources, handle, c));
    if c < i {
        assert(resources[c].handle != handle);
    } else if i < c {
        assert(resources[i].handle != handle);
    }
}

impl VoiceSession {
    /// The session of a guild before the bot has joined any channel.
    pub fn new(guild: GuildId) -> (s: VoiceSession)
        ensures
            s@ == SessionView::fresh(guild),
    {
        VoiceSession { guild, channel: None, queue: PlaybackQueue::new(), resources: Vec::new() }
    }

    /// The guild that the session belongs to.
    pub fn guild(&self) -> (g: GuildId)
        ensures
            g == self@.guild,
    {
        self.guild
    }

    /// The voice channel the bot sits in, if any.
    pub fn channel(&self) -> (c: Option<ChannelId>)
        ensures
            c == self@.channel,
    {
        self.channel
    }

    /// The queue, to look at.
    pub fn queue(&self) -> (q: &PlaybackQueue)
        ensures
            q@ == self@.queue,
    {
        &self.queue
    }

    /// Drops everything queued, as at shutdown.
    pub fn halt(&mut self)
        ensures
            final(self)@ == old(self)@.with_queue(Seq::empty()),
    {
        self.queue.drain();
    }

    /// The refusal, if any, that meets `requester` at a queue operation.
    fn check(&self, requester: Option<ChannelId>) -> (e: Option<CommandError>)
        ensures
            e == barrier(self@, requester),
    {
        match AdmissionContext::new(requester, self.channel).check() {
            Err(e) => Some(CommandError::Admission(e)),
            Ok(_) => if self.queue.is_empty() {
                Some(CommandError::QueueEmpty)
            } else {
                None
            },
        }
    }

    /// The handle of the head of a queue that is not empty.
    fn head_handle(&self) -> (h: TrackHandle)
        requires
            self@.queue.len() > 0,
        ensures
            h == self@.queue[0].handle,
    {
        match self.queue.head() {
            Some(item) => item.handle,
            None => TrackHandle(0),
        }
    }

    /// Starts queueing `source` on behalf of a requester in that channel.
    pub fn begin_play(&self, requester: Option<ChannelId>, source: TrackSource) -> (step: Step)
        ensures
            step == play_start(self@, requester, source),
    {
        match AdmissionContext::new(requester, self.channel).check() {
            Err(e) => end_without(source, CommandError::Admission(e)),
            Ok(_) => match (self.channel, requester) {
                (None, Some(channel)) => Step::Perform(
                    Effect::Join { guild: self.guild, channel },
                    Pending::Joining { channel, source },
                ),
                _ => Step::Perform(Effect::Enqueue(source.handle), Pending::Enqueueing { source }),
            },
        }
    }

    /// Starts joining the requester's voice channel, for a command that
    /// fetches its source only once the bot sits there.
    pub fn begin_join(&self, requester: Option<ChannelId>) -> (step: Step)
        ensures
            step == join_start(self@, requester),
    {
        match AdmissionContext::new(requester, self.channel).check() {
            Err(e) => Step::Finish(Err(CommandError::Admission(e))),
            Ok(_) => match (self.channel, requester) {
                (None, Some(channel)) => Step::Perform(
                    Effect::Join { guild: self.guild, channel },
                    Pending::Connecting { channel },
                ),
                _ => Step::Finish(Ok(Announcement::Connected)),
            },
        }
    }

    /// Starts queueing speech that was synthesized after a join. Where the
    /// session sits in no channel the speech is given up, not joined for.
    pub fn begin_speech(&self, requester: Option<ChannelId>, source: TrackSource) -> (step: Step)
        ensures
            step == speech_start(self@, requester, source),
    {
        match AdmissionContext::new(requester, self.channel).check() {
            Err(e) => end_without(source, CommandError::Admission(e)),
            Ok(_) => match self.channel {
                Some(_) => Step::Perform(
                    Effect::Enqueue(source.handle),
                    Pending::Enqueueing { source },
                ),
                None => end_without(source, CommandError::NoActiveSession),
            },
        }
    }

    /// Starts a pause of the playing head, or a resume of the paused one.
    pub fn begin_pause(&self, requester: Option<ChannelId>) -> (step: Step)
        ensures
            step == pause_start(self@, requester),
    {
        match self.check(requester) {
            Some(e) => Step::Finish(Err(e)),
            None => Step::Perform(Effect::QueryMode(self.head_handle()), Pending::QueryingMode),
        }
    }

    /// Starts a skip of `amount` tracks, the head first.
    pub fn begin_skip(&self, requester: Option<ChannelId>, amount: usize) -> (step: Step)
        ensures
            step == skip_start(self@, requester, amount),
    {
        if amount == 0 {
            return Step::Finish(Err(CommandError::ZeroSkip));
        }
        match self.check(requester) {
            Some(e) => Step::Finish(Err(e)),
            None => {
                let len = self.queue.len();
                let count = if amount <= len {
                    amount
                } else {
                    len
                };
                Step::Perform(
                    Effect::Stop(self.head_handle()),
                    Pending::Skipping { left: count - 1, skipped: 0 },
                )
            },
        }
    }

    /// Starts a stop of everything.
    pub fn begin_stop(&self, requester: Option<ChannelId>) -> (step: Step)
        ensures
            step == stop_start(self@, requester),
    {
        match self.check(requester) {
            Some(e) => Step::Finish(Err(e)),
            None => Step::Perform(Effect::StopAll, Pending::Stopping),
        }
    }

    /// Starts a removal of every pending track.
    pub fn begin_clear(&self, requester: Option<ChannelId>) -> (step: Step)
        ensures
            step == clear_start(self@, requester),
    {
        match self.check(requester) {
            Some(e) => Step::Finish(Err(e)),
            None => match self.queue.get(1) {
                Some(item) => Step::Perform(
                    Effect::Stop(item.handle),
                    Pending::Clearing { at: 1 },
                ),
                None => Step::Finish(Ok(Announcement::Cleared)),
            },
        }
    }

    /// Starts a change of the head's volume to `level` thousandths.
    pub fn begin_volume(&self, requester: Option<ChannelId>, level: i64) -> (step: Step)
        ensures
            step == volume_start(self@, requester, level),
    {
        match VolumeLevel::from_millis(level) {
            None => Step::Finish(Err(CommandError::NegativeVolume)),
            Some(volume) => match self.check(requester) {
                Some(e) => Step::Finish(Err(e)),
                None => Step::Perform(
                    Effect::SetVolume(self.head_handle(), volume),
                    Pending::SettingVolume(volume),
                ),
            },
        }
    }

    /// The position of the first resource that backs `handle`.
    fn backing(&self, handle: TrackHandle) -> (p: Option<usize>)
        ensures
            p is Some ==> is_first_backing(self@.resources, handle, p.unwrap() as int),
            p is None ==> has_none_backing(self@.resources, handle),
    {
        let mut i: usize = 0;
        while i < self.resources.len()
            invariant
                i <= self.resources@.len(),
                forall|j: int| 0 <= j < i ==> (#[trigger] self.resources@[j]).handle != handle,
            decreases self.resources@.len() - i,
        {
            if self.resources[i].handle.0 == handle.0 {
                return Some(i);
            }
            i += 1;
        }
        None
    }

    /// Takes note of a track that started or ended by itself, and says
    /// what is to be done about it.
    pub fn observe(&mut self, event: TrackEvent) -> (upkeep: Upkeep)
        ensures
            final(self)@ == observed(old(self)@, event),
            is_upkeep_for(old(self)@, event, upkeep),
    {
        match event {
            TrackEvent::Started(handle) => {
                let label = match self.queue.head() {
                    Some(head) => if head.handle.0 == handle.0 {
                        Some(head.metadata.label())
                    } else {
                        None
                    },
                    None => None,
                };
                match label {
                    Some(label) => {
                        self.queue.set_head_mode(PlayMode::Play);
                        Upkeep::PublishStatus(label)
                    },
                    None => Upkeep::Nothing,
                }
            },
            TrackEvent::Ended(handle) => {
                match self.queue.position(handle) {
                    Some(at) => {
                        proof {
                            lemma_first_named(self.queue@, handle, at as int);
                        }
                        let _ = self.queue.remove_at(at);
                    },
                    None => {
                        assert(first_named(self.queue@, handle) is None);
                    },
                }
                match self.backing(handle) {
                    Some(at) => {
                        proof {
                            lemma_first_backing(self.resources@, handle, at as int);
                        }
                        let resource = self.resources.remove(at);
                        Upkeep::Release(resource.path)
                    },
                    None => {
                        assert(first_backing(self.resources@, handle) is None);
                        Upkeep::Nothing
                    },
                }
            },
        }
    }

    /// Resumes the operation that `pending` stands for with the pipeline's
    /// answer to its last command.
    pub fn advance(&mut self, pending: Pending, result: EffectResult) -> (step: Step)
        ensures
            (final(self)@, step) == after(old(self)@, pending, result),
    {
        let done = match result {
            EffectResult::Done => true,
            _ => false,
        };
        match pending {
            Pending::Joining { channel, source } => {
                if done {
                    self.channel = Some(channel);
                    Step::Perform(Effect::Enqueue(source.handle), Pending::Enqueueing { source })
                } else {
                    end_without(source, CommandError::JoinFailed)
                }
            },
            Pending::Connecting { channel } => {
                if done {
                    self.channel = Some(channel);
                    Step::Finish(Ok(Announcement::Connected))
                } else {
                    Step::Finish(Err(CommandError::JoinFailed))
                }
            },
            Pending::Enqueueing { source } => {
                if done {
                    let TrackSource { handle, kind, metadata, temp_resource } = source;
                    let told = metadata.duplicate();
                    match temp_resource {
                        Some(path) => {
                            self.resources.push(TempResource { handle, path });
                        },
                        None => {},
                    }
                    match (self.queue.enqueue(handle, metadata), kind) {
                        (Enqueued::Started, SourceKind::Song) => Step::Finish(
                            Ok(Announcement::Started(told)),
                        ),
                        (Enqueued::Queued, SourceKind::Song) => Step::Finish(
                            Ok(Announcement::Queued(told)),
                        ),
                        (Enqueued::Started, SourceKind::Speech) => Step::Finish(
                            Ok(Announcement::StartedSaying(told)),
                        ),
                        (Enqueued::Queued, SourceKind::Speech) => Step::Finish(
                            Ok(Announcement::QueuedSpeech(told)),
                        ),
                    }
                } else {
                    end_without(source, CommandError::TrackFailed)
                }
            },
            Pending::QueryingMode => {
                if self.queue.is_empty() {
                    Step::Finish(Err(CommandError::QueueEmpty))
                } else {
                    match result {
                        EffectResult::Mode(mode) => {
                            let handle = self.head_handle();
                            self.queue.set_head_mode(mode);
                            match mode {
                                PlayMode::Pause => Step::Perform(
                                    Effect::Resume(handle),
                                    Pending::Resuming,
                                ),
                                PlayMode::Play => Step::Perform(
                                    Effect::Pause(handle),
                                    Pending::Pausing,
                                ),
                            }
                        },
                        _ => Step::Finish(Err(CommandError::TrackFailed)),
                    }
                }
            },
            Pending::Pausing => {
                if done {
                    self.queue.set_head_mode(PlayMode::Pause);
                    Step::Finish(Ok(Announcement::Paused))
                } else {
                    Step::Finish(Err(CommandError::PauseFailed))
                }
            },
            Pending::Resuming => {
                if done {
                    self.queue.set_head_mode(PlayMode::Play);
                    Step::Finish(Ok(Announcement::Resumed))
                } else {
                    Step::Finish(Err(CommandError::ResumeFailed))
                }
            },
            Pending::Skipping { left, skipped } => {
                if !done {
                    Step::Finish(Err(CommandError::SkipFailed { skipped }))
                } else if self.queue.is_empty() {
                    Step::Finish(Err(CommandError::QueueEmpty))
                } else {
                    let _ = self.queue.pop_head();
                    let skipped = bump(skipped);
                    match self.queue.head() {
                        None => Step::Finish(Ok(Announcement::Skipped { count: skipped })),
                        Some(next) => {
                            if left > 0 {
                                Step::Perform(
                                    Effect::Stop(next.handle),
                                    Pending::Skipping { left: left - 1, skipped },
                                )
                            } else {
                                Step::Perform(
                                    Effect::Play(next.handle),
                                    Pending::Promoting { skipped },
                                )
                            }
                        },
                    }
                }
            },
            Pending::Promoting { skipped } => {
                if done {
                    self.queue.set_head_mode(PlayMode::Play);
                    Step::Finish(Ok(Announcement::Skipped { count: skipped }))
                } else {
                    Step::Finish(Err(CommandError::SkipFailed { skipped }))
                }
            },
            Pending::Clearing { at } => {
                if !done {
                    Step::Finish(Err(CommandError::ClearFailed))
                } else {
                    let len: usize = self.queue.len();
                    if at < usize::MAX && at + 1 < len {
                        let handle = match self.queue.get(at + 1) {
                            Some(item) => item.handle,
                            None => TrackHandle(0),
                        };
                        Step::Perform(Effect::Stop(handle), Pending::Clearing { at: at + 1 })
                    } else {
                        self.queue.keep_head();
                        Step::Finish(Ok(Announcement::Cleared))
                    }
                }
            },
            Pending::Stopping => {
                self.queue.drain();
                Step::Finish(Ok(Announcement::Stopped))
            },
            Pending::SettingVolume(volume) => {
                if done {
                    self.queue.set_head_volume(volume);
                    Step::Finish(Ok(Announcement::VolumeChanged(volume)))
                } else {
                    Step::Finish(Err(CommandError::TrackFailed))
                }
            },
        }
    }
}

} // verus!
