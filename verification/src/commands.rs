//! The playback commands as the command layer invokes them: by guild, on
//! behalf of a requester whose voice channel has been looked up.

use vstd::prelude::*;
use vstd::string::StringExecFns;
use crate::admission::{ChannelId, GuildId};
use crate::protocol::{CommandError, Step};
use crate::registry::VoiceSessionRegistry;
use crate::session::{
    clear_start,
    join_start,
    pause_start,
    play_start,
    skip_start,
    speech_start,
    stop_start,
    volume_start,
    SessionView,
    VoiceSession,
};
use crate::track::{SourceKind, TrackHandle, TrackMetadata, TrackSource};
use crate::view::{QueueView, ViewLimits};

verus! {

/// The commands that the library decides: those that act on a guild's
/// playback, and the roll of a die.
#[derive(Clone, Copy, Debug, PartialEq, Eq, Structural)]
pub enum CommandKind {
    Clear,
    Pause,
    Play,
    Queue,
    Skip,
    Stop,
    Tts,
    Volume,
    Roll,
}

/// A command as a type of its own, for callers that pick one at compile
/// time.
pub trait SlashCommand {
    /// The command that the type stands for.
    spec fn which() -> CommandKind;

    /// The command that the type stands for.
    fn kind() -> (kind: CommandKind)
        ensures
            kind == Self::which(),
    ;
}

/// Clears the queue behind the head.
pub struct Clear;

/// Pauses the head, or resumes it.
pub struct Pause;

/// Queues a song.
pub struct Play;

/// Shows the queue.
pub struct Queue;

/// Skips tracks.
pub struct Skip;

/// Stops everything.
pub struct Stop;

/// Queues synthesized speech.
pub struct Tts;

/// Changes the head's volume.
pub struct Volume;

impl SlashCommand for Clear {
    open spec fn which() -> CommandKind {
        CommandKind::Clear
    }

    fn kind() -> CommandKind {
        CommandKind::Clear
    }
}

impl SlashCommand for Pause {
    open spec fn which() -> CommandKind {
        CommandKind::Pause
    }

    fn kind() -> CommandKind {
        CommandKind::Pause
    }
}

impl SlashCommand for Play {
    open spec fn which() -> CommandKind {
        CommandKind::Play
    }

    fn kind() -> CommandKind {
        CommandKind::Play
    }
}

impl SlashCommand for Queue {
    open spec fn which() -> CommandKind {
        CommandKind::Queue
    }

    fn kind() -> CommandKind {
        CommandKind::Queue
    }
}

impl SlashCommand for Skip {
    open spec fn which() -> CommandKind {
        CommandKind::Skip
    }

    fn kind() -> CommandKind {
        CommandKind::Skip
    }
}

impl SlashCommand for Stop {
    open spec fn which() -> CommandKind {
        CommandKind::Stop
    }

    fn kind() -> CommandKind {
        CommandKind::Stop
    }
}

impl SlashCommand for Tts {
    open spec fn which() -> CommandKind {
        CommandKind::Tts
    }

    fn kind() -> CommandKind {
        CommandKind::Tts
    }
}

impl SlashCommand for Volume {
    open spec fn which() -> CommandKind {
        CommandKind::Volume
    }

    fn kind() -> CommandKind {
        CommandKind::Volume
    }
}

/// What the requester wants played, in their words.
#[derive(Debug, PartialEq, Eq)]
pub struct PlayArgs {
    pub song: String,
}

/// How many tracks to skip.
#[derive(Clone, Copy, Debug, PartialEq, Eq, Structural)]
pub struct SkipArgs {
    pub amount: usize,
}

/// What to say, and in which voice.
#[derive(Debug, PartialEq, Eq)]
pub struct TtsArgs {
    pub text: String,
    pub voice: String,
}

/// The volume asked for, in thousandths.
#[derive(Clone, Copy, Debug, PartialEq, Eq, Structural)]
pub struct VolumeArgs {
    pub millis: i64,
}

/// The amount that an optional whole number asks to skip: one where none
/// is given, nothing where it is negative, and no more than fits.
pub open spec fn amount_of(given: Option<i64>) -> usize {
    match given {
        None => 1,
        Some(v) => if v < 0 {
            0
        } else if v > usize::MAX {
            usize::MAX
        } else {
            v as usize
        },
    }
}

impl SkipArgs {
    /// Reads the optional amount of a skip command.
    pub fn parse_options(given: Option<i64>) -> (args: SkipArgs)
        ensures
            args.amount == amount_of(given),
    {
        match given {
            None => SkipArgs { amount: 1 },
            Some(v) => {
                if v < 0 {
                    SkipArgs { amount: 0 }
                } else if v as u64 > usize::MAX as u64 {
                    SkipArgs { amount: usize::MAX }
                } else {
                    SkipArgs { amount: v as usize }
                }
            },
        }
    }
}

/// The name under which a command is invoked.
pub open spec fn name_of(kind: CommandKind) -> Seq<char> {
    match kind {
        CommandKind::Clear => "clear"@,
        CommandKind::Pause => "pause"@,
        CommandKind::Play => "play"@,
        CommandKind::Queue => "queue"@,
        CommandKind::Skip => "skip"@,
        CommandKind::Stop => "stop"@,
        CommandKind::Tts => "tts"@,
        CommandKind::Volume => "volume"@,
        CommandKind::Roll => "roll"@,
    }
}

/// What a command does, in a sentence.
pub open spec fn description_of(kind: CommandKind) -> Seq<char> {
    match kind {
        CommandKind::Clear => "Clear the song queue"@,
        CommandKind::Pause => "Pause or unpause the song that's currently playing"@,
        CommandKind::Play => "Play a given song"@,
        CommandKind::Queue => "Display the current song queue"@,
        CommandKind::Skip => "Skip a number of songs in the queue"@,
        CommandKind::Stop => "Stop the currently playing song and clear the queue"@,
        CommandKind::Tts => "Say something in a chosen voice"@,
        CommandKind::Volume => "Change the volume of the current song"@,
        CommandKind::Roll => "Roll a random number"@,
    }
}

impl CommandKind {
    /// The name under which the command is invoked.
    pub fn name(self) -> (s: &'static str)
        ensures
            s@ == name_of(self),
    {
        match self {
            CommandKind::Clear => "clear",
            CommandKind::Pause => "pause",
            CommandKind::Play => "play",
            CommandKind::Queue => "queue",
            CommandKind::Skip => "skip",
            CommandKind::Stop => "stop",
            CommandKind::Tts => "tts",
            CommandKind::Volume => "volume",
            CommandKind::Roll => "roll",
        }
    }

    /// What the command does, in a sentence.
    pub fn description(self) -> (s: &'static str)
        ensures
            s@ == description_of(self),
    {
        match self {
            CommandKind::Clear => "Clear the song queue",
            CommandKind::Pause => "Pause or unpause the song that's currently playing",
            CommandKind::Play => "Play a given song",
            CommandKind::Queue => "Display the current song queue",
            CommandKind::Skip => "Skip a number of songs in the queue",
            CommandKind::Stop => "Stop the currently playing song and clear the queue",
            CommandKind::Tts => "Say something in a chosen voice",
            CommandKind::Volume => "Change the volume of the current song",
            CommandKind::Roll => "Roll a random number",
        }
    }
}

/// The commands that are offered to guilds, in the order in which they are
/// registered. Speech is not among them.
pub open spec fn offered() -> Seq<CommandKind> {
    seq![
        CommandKind::Clear,
        CommandKind::Pause,
        CommandKind::Play,
        CommandKind::Queue,
        CommandKind::Skip,
        CommandKind::Stop,
        CommandKind::Volume,
        CommandKind::Roll,
    ]
}

/// The commands to register.
pub fn twilight_commands() -> (kinds: Vec<CommandKind>)
    ensures
        kinds@ == offered(),
{
    let mut kinds: Vec<CommandKind> = Vec::new();
    kinds.push(CommandKind::Clear);
    kinds.push(CommandKind::Pause);
    kinds.push(CommandKind::Play);
    kinds.push(CommandKind::Queue);
    kinds.push(CommandKind::Skip);
    kinds.push(CommandKind::Stop);
    kinds.push(CommandKind::Volume);
    kinds.push(CommandKind::Roll);
    assert(kinds@ =~= offered());
    kinds
}

/// The offered command that `name` invokes, if it invokes one.
pub open spec fn invoked_by(name: Seq<char>) -> Option<CommandKind> {
    if name == name_of(CommandKind::Clear) {
        Some(CommandKind::Clear)
    } else if name == name_of(CommandKind::Pause) {
        Some(CommandKind::Pause)
    } else if name == name_of(CommandKind::Play) {
        Some(CommandKind::Play)
    } else if name == name_of(CommandKind::Queue) {
        Some(CommandKind::Queue)
    } else if name == name_of(CommandKind::Skip) {
        Some(CommandKind::Skip)
    } else if name == name_of(CommandKind::Stop) {
        Some(CommandKind::Stop)
    } else if name == name_of(CommandKind::Volume) {
        Some(CommandKind::Volume)
    } else if name == name_of(CommandKind::Roll) {
        Some(CommandKind::Roll)
    } else {
        None
    }
}

fn names(name: &str, kind: CommandKind) -> (b: bool)
    ensures
        b == (name@ == name_of(kind)),
{
    let given = String::from_str(name);
    let own = String::from_str(kind.name());
    given == own
}

/// Finds the command that an interaction invokes by its name. A name that
/// no offered command bears is an unknown interaction.
pub fn handle_interaction(name: &str) -> (kind: Option<CommandKind>)
    ensures
        kind == invoked_by(name@),
{
    if names(name, CommandKind::Clear) {
        Some(CommandKind::Clear)
    } else if names(name, CommandKind::Pause) {
        Some(CommandKind::Pause)
    } else if names(name, CommandKind::Play) {
        Some(CommandKind::Play)
    } else if names(name, CommandKind::Queue) {
        Some(CommandKind::Queue)
    } else if names(name, CommandKind::Skip) {
        Some(CommandKind::Skip)
    } else if names(name, CommandKind::Stop) {
        Some(CommandKind::Stop)
    } else if names(name, CommandKind::Volume) {
        Some(CommandKind::Volume)
    } else if names(name, CommandKind::Roll) {
        Some(CommandKind::Roll)
    } else {
        None
    }
}

/// The step that an operation on the playing queue starts with in a guild:
/// without a session, nothing plays.
pub open spec fn in_session(
    sessions: Map<GuildId, SessionView>,
    guild: GuildId,
    start: spec_fn(SessionView) -> Step,
) -> Step {
    if sessions.dom().contains(guild) {
        start(sessions[guild])
    } else {
        Step::Finish(Err(CommandError::NoActiveSession))
    }
}

/// The session that a guild has, or would start with.
pub open spec fn session_or_fresh(sessions: Map<GuildId, SessionView>, guild: GuildId) -> SessionView {
    if sessions.dom().contains(guild) {
        sessions[guild]
    } else {
        SessionView::fresh(guild)
    }
}

/// Starts queueing `source` in a guild, joining the requester's channel
/// first where the bot sits in none. A guild needs no session for this.
pub fn play(
    registry: &VoiceSessionRegistry,
    guild: GuildId,
    requester: Option<ChannelId>,
    source: TrackSource,
) -> (step: Step)
    ensures
        step == play_start(session_or_fresh(registry@, guild), requester, source),
{
    match registry.get(guild) {
        Some(session) => session.begin_play(requester, source),
        None => VoiceSession::new(guild).begin_play(requester, source),
    }
}

/// The title under which speech is queued.
pub open spec fn speech_title(text: Seq<char>, voice: Seq<char>) -> Seq<char> {
    "\""@ + text + "\" in the voice of "@ + voice
}

/// Whether `source` is the speech of `args`, synthesized into the temporary
/// resource at `path` and known to the pipeline as `handle`.
pub open spec fn is_speech_source(
    source: TrackSource,
    args: TtsArgs,
    handle: TrackHandle,
    path: String,
) -> bool {
    &&& source.handle == handle
    &&& source.kind == SourceKind::Speech
    &&& source.temp_resource == Some(path)
    &&& source.metadata.title is Some
    &&& source.metadata.title.unwrap()@ == speech_title(args.text@, args.voice@)
    &&& source.metadata.artist is None
    &&& source.metadata.track is None
    &&& source.metadata.source_url is None
    &&& source.metadata.thumbnail is None
}

/// Describes synthesized speech as a source for the queue.
pub fn speech_source(args: &TtsArgs, handle: TrackHandle, path: String) -> (source: TrackSource)
    ensures
        is_speech_source(source, *args, handle, path),
{
    let mut title = String::from_str("\"");
    title.append(args.text.as_str());
    title.append("\" in the voice of ");
    title.append(args.voice.as_str());
    TrackSource {
        handle,
        kind: SourceKind::Speech,
        metadata: TrackMetadata::titled(title),
        temp_resource: Some(path),
    }
}

/// Starts joining the requester's voice channel in a guild, for a command
/// that fetches its source only once the bot sits there: nothing exists yet
/// that a failed join would leave behind. A guild needs no session for
/// this; the session is made when the join has succeeded.
pub fn join(registry: &VoiceSessionRegistry, guild: GuildId, requester: Option<ChannelId>) -> (step:
    Step)
    ensures
        step == join_start(session_or_fresh(registry@, guild), requester),
{
    match registry.get(guild) {
        Some(session) => session.begin_join(requester),
        None => VoiceSession::new(guild).begin_join(requester),
    }
}

/// Starts queueing the speech of `args`, which was synthesized into the
/// temporary resource at `path`. The speech command joins first, with
/// `join`, and has the speech synthesized only when that has succeeded;
/// here nothing is joined any more. Where the speech cannot be queued, the
/// step names the resource for release; where it is queued, the resource
/// is released when the track has ended.
pub fn tts(
    registry: &VoiceSessionRegistry,
    guild: GuildId,
    requester: Option<ChannelId>,
    args: &TtsArgs,
    handle: TrackHandle,
    path: String,
) -> (step: Step)
    ensures
        exists|source: TrackSource|
            is_speech_source(source, *args, handle, path) && step == speech_start(
                session_or_fresh(registry@, guild),
                requester,
                source,
            ),
{
    let source = speech_source(args, handle, path);
    match registry.get(guild) {
        Some(session) => session.begin_speech(requester, source),
        None => VoiceSession::new(guild).begin_speech(requester, source),
    }
}

/// How often the speech service is asked for a finished sound at most.
pub const SPEECH_POLLS: u32 = 30;

/// What to do next about speech that the service was asked to synthesize.
#[derive(Debug, PartialEq, Eq)]
pub enum Poll {
    /// Ask the service, once more, whether the sound is finished.
    Ask,
    /// Fetch the finished sound from this address.
    Fetch(String),
    /// Stop asking: the service did not deliver in time.
    GiveUp,
}

/// What to do after `tries` questions, the last of which was answered with
/// `path`: fetch the sound as soon as its address is known, else ask again
/// until the questions are used up.
pub open spec fn poll_next(tries: u32, path: Option<String>) -> Poll {
    match path {
        Some(address) => Poll::Fetch(address),
        None => if tries < SPEECH_POLLS {
            Poll::Ask
        } else {
            Poll::GiveUp
        },
    }
}

/// Decides the next move while waiting for synthesized speech.
pub fn next_poll(tries: u32, path: Option<String>) -> (poll: Poll)
    ensures
        poll == poll_next(tries, path),
{
    match path {
        Some(address) => Poll::Fetch(address),
        None => if tries < SPEECH_POLLS {
            Poll::Ask
        } else {
            Poll::GiveUp
        },
    }
}

/// Starts a pause of the playing head, or a resume of the paused one.
pub fn pause(registry: &VoiceSessionRegistry, guild: GuildId, requester: Option<ChannelId>) -> (step:
    Step)
    ensures
        step == in_session(registry@, guild, |s: SessionView| pause_start(s, requester)),
{
    match registry.get(guild) {
        Some(session) => session.begin_pause(requester),
        None => Step::Finish(Err(CommandError::NoActiveSession)),
    }
}

/// Starts a skip. An amount of zero is refused whether or not the guild
/// has a session.
pub fn skip(
    registry: &VoiceSessionRegistry,
    guild: GuildId,
    requester: Option<ChannelId>,
    args: SkipArgs,
) -> (step: Step)
    ensures
        args.amount == 0 ==> step == Step::Finish(
            Err::<crate::protocol::Announcement, CommandError>(CommandError::ZeroSkip),
        ),
        args.amount > 0 ==> step == in_session(
            registry@,
            guild,
            |s: SessionView| skip_start(s, requester, args.amount),
        ),
{
    if args.amount == 0 {
        return Step::Finish(Err(CommandError::ZeroSkip));
    }
    match registry.get(guild) {
        Some(session) => session.begin_skip(requester, args.amount),
        None => Step::Finish(Err(CommandError::NoActiveSession)),
    }
}

/// Starts a stop of everything.
pub fn stop(registry: &VoiceSessionRegistry, guild: GuildId, requester: Option<ChannelId>) -> (step:
    Step)
    ensures
        step == in_session(registry@, guild, |s: SessionView| stop_start(s, requester)),
{
    match registry.get(guild) {
        Some(session) => session.begin_stop(requester),
        None => Step::Finish(Err(CommandError::NoActiveSession)),
    }
}

/// Starts a removal of every pending track.
pub fn clear(registry: &VoiceSessionRegistry, guild: GuildId, requester: Option<ChannelId>) -> (step:
    Step)
    ensures
        step == in_session(registry@, guild, |s: SessionView| clear_start(s, requester)),
{
    match registry.get(guild) {
        Some(session) => session.begin_clear(requester),
        None => Step::Finish(Err(CommandError::NoActiveSession)),
    }
}

/// Starts a volume change of the head. A negative volume is refused
/// whether or not the guild has a session.
pub fn volume(
    registry: &VoiceSessionRegistry,
    guild: GuildId,
    requester: Option<ChannelId>,
    args: VolumeArgs,
) -> (step: Step)
    ensures
        args.millis < 0 ==> step == Step::Finish(
            Err::<crate::protocol::Announcement, CommandError>(CommandError::NegativeVolume),
        ),
        args.millis >= 0 ==> step == in_session(
            registry@,
            guild,
            |s: SessionView| volume_start(s, requester, args.millis),
        ),
{
    if args.millis < 0 {
        return Step::Finish(Err(CommandError::NegativeVolume));
    }
    match registry.get(guild) {
        Some(session) => session.begin_volume(requester, args.millis),
        None => Step::Finish(Err(CommandError::NoActiveSession)),
    }
}

/// Lists the queue of a guild as displays do. Anyone may look.
pub fn queue(registry: &VoiceSessionRegistry, guild: GuildId) -> (listing: Result<
    QueueView,
    CommandError,
>)
    ensures
        !registry@.dom().contains(guild) ==> listing == Err::<QueueView, CommandError>(
            CommandError::NoActiveSession,
        ),
        registry@.dom().contains(guild) ==> listing is Ok && listing.unwrap().lists(
            registry@[guild].queue,
            ViewLimits::standard(),
        ),
{
    match registry.get(guild) {
        Some(session) => Ok(session.queue().current_queue_view()),
        None => Err(CommandError::NoActiveSession),
    }
}

} // verus!
