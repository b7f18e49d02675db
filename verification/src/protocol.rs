//! The vocabulary between the controller and its surroundings: the commands
//! it gives to the audio pipeline, the results it is resumed with, and what
//! it tells the requester in the end.

use vstd::prelude::*;
use crate::admission::{AdmissionError, ChannelId, GuildId};
use crate::track::{PlayMode, SourceKind, TrackHandle, TrackMetadata, TrackSource, VolumeLevel};

verus! {

/// One command to the audio pipeline.
#[derive(Clone, Copy, Debug, PartialEq, Eq, Structural)]
pub enum Effect {
    /// Connect to a voice channel of a guild.
    Join { guild: GuildId, channel: ChannelId },
    /// Hand the source behind this handle to the pipeline's queue.
    Enqueue(TrackHandle),
    /// Ask for the play mode of a track.
    QueryMode(TrackHandle),
    Pause(TrackHandle),
    Resume(TrackHandle),
    /// Start a track that has become the head.
    Play(TrackHandle),
    /// End one track.
    Stop(TrackHandle),
    /// End every track of the session.
    StopAll,
    SetVolume(TrackHandle, VolumeLevel),
}

/// What the pipeline answered to one command.
#[derive(Clone, Copy, Debug, PartialEq, Eq, Structural)]
pub enum EffectResult {
    /// The command was carried out.
    Done,
    /// The command was refused or broke.
    Failed,
    /// The answer to `QueryMode`.
    Mode(PlayMode),
}

/// What was done, in the words of the requester.
#[derive(Debug, PartialEq, Eq)]
pub enum Announcement {
    /// The track is the new head and plays.
    Started(TrackMetadata),
    /// The track waits in the queue.
    Queued(TrackMetadata),
    /// The speech is the new head and plays.
    StartedSaying(TrackMetadata),
    /// The speech waits in the queue.
    QueuedSpeech(TrackMetadata),
    Paused,
    Resumed,
    Skipped { count: usize },
    Stopped,
    Cleared,
    VolumeChanged(VolumeLevel),
    /// The bot sits in the requester's voice channel.
    Connected,
}

/// Why nothing, or not everything, was done.
#[derive(Clone, Copy, Debug, PartialEq, Eq, Structural)]
pub enum CommandError {
    /// A skip of no track at all was asked for.
    ZeroSkip,
    /// A volume below zero was asked for.
    NegativeVolume,
    Admission(AdmissionError),
    /// The guild has no session.
    NoActiveSession,
    /// The session plays nothing.
    QueueEmpty,
    /// The voice channel could not be joined; nothing was queued.
    JoinFailed,
    /// A track refused to stop or the new head refused to start; `skipped`
    /// tracks had left the queue by then and stay out.
    SkipFailed { skipped: usize },
    /// A pending track refused to stop; the queue is as it was before the
    /// clear.
    ClearFailed,
    PauseFailed,
    ResumeFailed,
    /// Any other command to a track broke.
    TrackFailed,
}

/// How an operation ends.
pub type Reply = Result<Announcement, CommandError>;

/// Where an operation stands while the pipeline carries out a command.
#[derive(Debug, PartialEq, Eq)]
pub enum Pending {
    /// Joining `channel`, and nothing more.
    Connecting { channel: ChannelId },
    /// Joining `channel` in order to queue `source`.
    Joining { channel: ChannelId, source: TrackSource },
    Enqueueing { source: TrackSource },
    QueryingMode,
    Pausing,
    Resuming,
    /// Stopping the head; `left` more heads are to follow, `skipped` went before.
    Skipping { left: usize, skipped: usize },
    /// Starting the head that a skip exposed.
    Promoting { skipped: usize },
    /// Stopping the pending track at position `at`, the head being at 0.
    /// Those before it are stopped and still queued: the queue is cut to
    /// its head only when the last one has stopped.
    Clearing { at: usize },
    Stopping,
    SettingVolume(VolumeLevel),
}

/// One step of an operation: either a command for the pipeline, with the
/// place to resume from once its result is known, or the end.
#[derive(Debug, PartialEq, Eq)]
pub enum Step {
    Perform(Effect, Pending),
    Finish(Reply),
    /// The end of an operation that did not queue its source: the temporary
    /// resource that backed the source is of no use and is to be released.
    Release(String, Reply),
}

/// How an operation ends that did not queue `source`: with the error, and
/// with the source's temporary resource, if it has one, named for release.
pub open spec fn ended_without(source: TrackSource, error: CommandError) -> Step {
    match source.temp_resource {
        Some(resource) => Step::Release(resource, Err(error)),
        None => Step::Finish(Err(error)),
    }
}

/// Ends an operation that did not queue `source`.
pub fn end_without(source: TrackSource, error: CommandError) -> (step: Step)
    ensures
        step == ended_without(source, error),
{
    match source.temp_resource {
        Some(resource) => Step::Release(resource, Err(error)),
        None => Step::Finish(Err(error)),
    }
}

/// How the arrival of a source is announced: as started where the queue was
/// empty, as queued where it was not, each in the words for its kind.
pub open spec fn arrival(was_empty: bool, kind: SourceKind, metadata: TrackMetadata) -> Announcement {
    match (was_empty, kind) {
        (true, SourceKind::Song) => Announcement::Started(metadata),
        (false, SourceKind::Song) => Announcement::Queued(metadata),
        (true, SourceKind::Speech) => Announcement::StartedSaying(metadata),
        (false, SourceKind::Speech) => Announcement::QueuedSpeech(metadata),
    }
}

/// One more, without leaving the range of `usize`.
pub open spec fn bumped(n: usize) -> usize {
    if n < usize::MAX {
        (n + 1) as usize
    } else {
        n
    }
}

/// One more, without leaving the range of `usize`.
pub fn bump(n: usize) -> (m: usize)
    ensures
        m == bumped(n),
{
    if n < usize::MAX {
        n + 1
    } else {
        n
    }
}

} // verus!
