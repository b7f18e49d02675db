//! Tracks as the controller sees them: a handle into the audio pipeline,
//! descriptive metadata, a volume and the play mode last reported.

use vstd::prelude::*;
use vstd::string::StringExecFns;

verus! {

/// The pipeline's name for one track. The controller never looks inside it.
#[derive(Clone, Copy, Debug, PartialEq, Eq, Structural)]
pub struct TrackHandle(pub u128);

/// Whether the pipeline reports a track as running or as held.
#[derive(Clone, Copy, Debug, PartialEq, Eq, Structural)]
pub enum PlayMode {
    Play,
    Pause,
}

/// A volume in thousandths of the source's own level; never negative.
#[derive(Clone, Copy, Debug, PartialEq, Eq, Structural)]
pub struct VolumeLevel {
    pub millis: u64,
}

/// The volume every track starts at: the source's own level.
pub const DEFAULT_VOLUME_MILLIS: u64 = 1000;

impl VolumeLevel {
    /// The volume every track starts at.
    pub open spec fn standard() -> VolumeLevel {
        VolumeLevel { millis: DEFAULT_VOLUME_MILLIS }
    }

    /// The volume a freshly enqueued track has.
    pub fn initial() -> (v: VolumeLevel)
        ensures
            v == VolumeLevel::standard(),
    {
        VolumeLevel { millis: DEFAULT_VOLUME_MILLIS }
    }

    /// Reads a requested level; a negative one is no volume.
    pub fn from_millis(level: i64) -> (v: Option<VolumeLevel>)
        ensures
            level < 0 <==> v is None,
            v is Some ==> v.unwrap().millis == level,
    {
        if level < 0 {
            None
        } else {
            Some(VolumeLevel { millis: level as u64 })
        }
    }
}

/// What is known about a track's origin. Every field may be missing.
#[derive(Debug, PartialEq, Eq)]
pub struct TrackMetadata {
    pub title: Option<String>,
    pub artist: Option<String>,
    pub track: Option<String>,
    pub source_url: Option<String>,
    pub thumbnail: Option<String>,
}

/// A copy of an optional text.
pub fn copy_text(text: &Option<String>) -> (r: Option<String>)
    ensures
        r == *text,
{
    match text {
        Some(s) => Some(s.clone()),
        None => None,
    }
}

/// The short label of a track: artist and track name where both are known,
/// else the title, else a fixed word.
pub open spec fn label_of(m: TrackMetadata) -> Seq<char> {
    if m.track is Some && m.artist is Some {
        m.artist.unwrap()@ + " - "@ + m.track.unwrap()@
    } else if m.title is Some {
        m.title.unwrap()@
    } else {
        "UNKNOWN"@
    }
}

impl TrackMetadata {
    /// Metadata with nothing known.
    pub fn unknown() -> (m: TrackMetadata)
        ensures
            m.title is None,
            m.artist is None,
            m.track is None,
            m.source_url is None,
            m.thumbnail is None,
    {
        TrackMetadata { title: None, artist: None, track: None, source_url: None, thumbnail: None }
    }

    /// Metadata of which only the title is known.
    pub fn titled(title: String) -> (m: TrackMetadata)
        ensures
            m.title == Some(title),
            m.artist is None,
            m.track is None,
            m.source_url is None,
            m.thumbnail is None,
    {
        TrackMetadata {
            title: Some(title),
            artist: None,
            track: None,
            source_url: None,
            thumbnail: None,
        }
    }

    /// An independent copy, equal field by field.
    pub fn duplicate(&self) -> (m: TrackMetadata)
        ensures
            m == *self,
    {
        TrackMetadata {
            title: copy_text(&self.title),
            artist: copy_text(&self.artist),
            track: copy_text(&self.track),
            source_url: copy_text(&self.source_url),
            thumbnail: copy_text(&self.thumbnail),
        }
    }

    /// The short label shown for this track.
    pub fn label(&self) -> (s: String)
        ensures
            s@ == label_of(*self),
    {
        match (&self.track, &self.artist, &self.title) {
            (Some(track), Some(artist), _) => {
                let mut s = artist.clone();
                s.append(" - ");
                s.append(track.as_str());
                s
            },
            (_, _, Some(title)) => title.clone(),
            _ => String::from_str("UNKNOWN"),
        }
    }
}

/// What a source holds: music, or speech that was synthesized for the queue.
#[derive(Clone, Copy, Debug, PartialEq, Eq, Structural)]
pub enum SourceKind {
    Song,
    Speech,
}

/// A playable source as handed to the controller, before it is queued.
#[derive(Debug, PartialEq, Eq)]
pub struct TrackSource {
    pub handle: TrackHandle,
    pub kind: SourceKind,
    pub metadata: TrackMetadata,
    /// A temporary resource backing the source, to be released once the
    /// track has ended; `None` for sources that own nothing.
    pub temp_resource: Option<String>,
}

/// One element of a playback queue.
#[derive(Debug, PartialEq, Eq)]
pub struct QueueItem {
    pub handle: TrackHandle,
    pub metadata: TrackMetadata,
    pub volume: VolumeLevel,
    pub mode: PlayMode,
}

impl QueueItem {
    /// The item a source becomes when queued in the given mode: its volume
    /// is the standard one, whatever other items were set to.
    pub open spec fn of(handle: TrackHandle, metadata: TrackMetadata, mode: PlayMode) -> QueueItem {
        QueueItem { handle, metadata, volume: VolumeLevel::standard(), mode }
    }

    /// The same item reporting another mode.
    pub open spec fn with_mode(self, mode: PlayMode) -> QueueItem {
        QueueItem { mode, ..self }
    }

    /// The same item at another volume.
    pub open spec fn with_volume(self, volume: VolumeLevel) -> QueueItem {
        QueueItem { volume, ..self }
    }
}

} // verus!
