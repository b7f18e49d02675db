use voice_queue::admission::{AdmissionError, ChannelId, GuildId};
use voice_queue::commands::{
    clear, handle_interaction, join, next_poll, pause, play, queue, skip, speech_source, stop, tts,
    twilight_commands, volume, Clear, CommandKind, Pause, Play, PlayArgs, Poll, Queue, Skip,
    SkipArgs, SlashCommand, Stop, Tts, TtsArgs, Volume, VolumeArgs,
};
use voice_queue::protocol::{Announcement, CommandError, Effect, EffectResult, Pending, Step};
use voice_queue::queue::PlaybackState;
use voice_queue::registry::VoiceSessionRegistry;
use voice_queue::session::{TrackEvent, Upkeep};
use voice_queue::track::{SourceKind, TrackHandle, TrackMetadata, TrackSource, VolumeLevel};

const HOME: ChannelId = ChannelId(10);
const G1: GuildId = GuildId(1);
const G2: GuildId = GuildId(2);

fn song(id: u128, title: &str) -> TrackSource {
    TrackSource {
        handle: TrackHandle(id),
        kind: SourceKind::Song,
        metadata: TrackMetadata::titled(title.to_string()),
        temp_resource: None,
    }
}

fn drive(
    registry: &mut VoiceSessionRegistry,
    guild: GuildId,
    first: Step,
    answers: &[EffectResult],
) -> (Vec<Effect>, Step) {
    let mut given = Vec::new();
    let mut step = first;
    let mut answers = answers.iter();
    loop {
        match step {
            Step::Perform(effect, pending) => match answers.next() {
                Some(answer) => {
                    given.push(effect);
                    step = registry.advance(guild, pending, *answer);
                }
                None => return (given, Step::Perform(effect, pending)),
            },
            ended => return (given, ended),
        }
    }
}

fn queue_songs(registry: &mut VoiceSessionRegistry, guild: GuildId, ids: &[u128]) {
    for id in ids {
        let first = play(registry, guild, Some(HOME), song(*id, "x"));
        let (_, end) = drive(registry, guild, first, &[EffectResult::Done; 2]);
        assert!(matches!(end, Step::Finish(Ok(_))));
    }
}

fn handles(registry: &VoiceSessionRegistry, guild: GuildId) -> Vec<u128> {
    let q = registry.get(guild).unwrap().queue();
    (0..q.len()).map(|i| q.get(i).unwrap().handle.0).collect()
}

#[test]
fn first_play_creates_the_session() {
    let mut registry = VoiceSessionRegistry::new();
    assert_eq!(registry.len(), 0);
    assert!(registry.get(G1).is_none());
    let first = play(&registry, G1, Some(HOME), song(1, "Song A"));
    let (given, end) = drive(&mut registry, G1, first, &[EffectResult::Done; 2]);
    assert_eq!(
        given,
        vec![Effect::Join { guild: G1, channel: HOME }, Effect::Enqueue(TrackHandle(1))]
    );
    assert_eq!(
        end,
        Step::Finish(Ok(Announcement::Started(TrackMetadata::titled("Song A".to_string()))))
    );
    assert_eq!(registry.len(), 1);
    let session = registry.get(G1).unwrap();
    assert_eq!(session.guild(), G1);
    assert_eq!(session.channel(), Some(HOME));
    assert_eq!(session.queue().state(), PlaybackState::Playing);
}

#[test]
fn failed_join_registers_no_session() {
    let mut registry = VoiceSessionRegistry::new();
    let first = play(&registry, G1, Some(HOME), song(1, "A"));
    let (_, end) = drive(&mut registry, G1, first, &[EffectResult::Failed]);
    assert_eq!(end, Step::Finish(Err(CommandError::JoinFailed)));
    assert_eq!(registry.len(), 0);
    assert!(registry.get(G1).is_none());
    // a retry is a clean attempt
    queue_songs(&mut registry, G1, &[1]);
    assert_eq!(handles(&registry, G1), vec![1]);
}

#[test]
fn play_without_a_channel_is_refused_without_a_session() {
    let registry = VoiceSessionRegistry::new();
    assert_eq!(
        play(&registry, G1, None, song(1, "A")),
        Step::Finish(Err(CommandError::Admission(AdmissionError::NotInVoiceChannel)))
    );
}

#[test]
fn second_play_joins_nothing() {
    let mut registry = VoiceSessionRegistry::new();
    queue_songs(&mut registry, G1, &[1]);
    let first = play(&registry, G1, Some(HOME), song(2, "B"));
    assert_eq!(
        first,
        Step::Perform(Effect::Enqueue(TrackHandle(2)), Pending::Enqueueing { source: song(2, "B") })
    );
    let (_, end) = drive(&mut registry, G1, first, &[EffectResult::Done]);
    assert_eq!(
        end,
        Step::Finish(Ok(Announcement::Queued(TrackMetadata::titled("B".to_string()))))
    );
    assert_eq!(registry.len(), 1);
    assert_eq!(handles(&registry, G1), vec![1, 2]);
}

#[test]
fn guilds_do_not_touch_each_other() {
    let mut registry = VoiceSessionRegistry::new();
    queue_songs(&mut registry, G1, &[1, 2, 3]);
    queue_songs(&mut registry, G2, &[7, 8]);
    assert_eq!(registry.len(), 2);
    let first = skip(&registry, G1, Some(HOME), SkipArgs { amount: 2 });
    let (_, end) = drive(&mut registry, G1, first, &[EffectResult::Done; 3]);
    assert_eq!(end, Step::Finish(Ok(Announcement::Skipped { count: 2 })));
    assert_eq!(handles(&registry, G1), vec![3]);
    assert_eq!(handles(&registry, G2), vec![7, 8]);
    let first = stop(&registry, G2, Some(HOME));
    drive(&mut registry, G2, first, &[EffectResult::Done]);
    assert_eq!(handles(&registry, G1), vec![3]);
    assert!(handles(&registry, G2).is_empty());
    assert_eq!(registry.len(), 2);
}

#[test]
fn commands_without_a_session_say_nothing_plays() {
    let registry = VoiceSessionRegistry::new();
    let none = Step::Finish(Err(CommandError::NoActiveSession));
    assert_eq!(pause(&registry, G1, Some(HOME)), none);
    assert_eq!(skip(&registry, G1, Some(HOME), SkipArgs { amount: 1 }), none);
    assert_eq!(stop(&registry, G1, Some(HOME)), none);
    assert_eq!(clear(&registry, G1, Some(HOME)), none);
    assert_eq!(volume(&registry, G1, Some(HOME), VolumeArgs { millis: 1000 }), none);
    assert_eq!(queue(&registry, G1), Err(CommandError::NoActiveSession));
    assert_eq!(CommandError::NoActiveSession.text(), "No song is currently playing!");
}

#[test]
fn bad_input_is_refused_before_the_session_is_looked_up() {
    let registry = VoiceSessionRegistry::new();
    assert_eq!(
        skip(&registry, G1, None, SkipArgs { amount: 0 }),
        Step::Finish(Err(CommandError::ZeroSkip))
    );
    assert_eq!(
        volume(&registry, G1, None, VolumeArgs { millis: -5 }),
        Step::Finish(Err(CommandError::NegativeVolume))
    );
}

#[test]
fn commands_reach_the_session() {
    let mut registry = VoiceSessionRegistry::new();
    queue_songs(&mut registry, G1, &[1, 2, 3]);
    assert_eq!(
        pause(&registry, G1, Some(HOME)),
        Step::Perform(Effect::QueryMode(TrackHandle(1)), Pending::QueryingMode)
    );
    assert_eq!(
        clear(&registry, G1, Some(HOME)),
        Step::Perform(Effect::Stop(TrackHandle(2)), Pending::Clearing { at: 1 })
    );
    assert_eq!(
        stop(&registry, G1, Some(HOME)),
        Step::Perform(Effect::StopAll, Pending::Stopping)
    );
    assert_eq!(
        skip(&registry, G1, Some(HOME), SkipArgs { amount: 9 }),
        Step::Perform(Effect::Stop(TrackHandle(1)), Pending::Skipping { left: 2, skipped: 0 })
    );
    let level = VolumeLevel { millis: 300 };
    assert_eq!(
        volume(&registry, G1, Some(HOME), VolumeArgs { millis: 300 }),
        Step::Perform(Effect::SetVolume(TrackHandle(1), level), Pending::SettingVolume(level))
    );
    assert_eq!(
        pause(&registry, G1, Some(ChannelId(11))),
        Step::Finish(Err(CommandError::Admission(AdmissionError::DifferentChannel)))
    );
    let view = queue(&registry, G1).unwrap();
    assert_eq!(view.total, 3);
    assert_eq!(view.entries.len(), 3);
}

#[test]
fn answers_for_a_guild_without_session_are_refused() {
    let mut registry = VoiceSessionRegistry::new();
    assert_eq!(
        registry.advance(G1, Pending::Stopping, EffectResult::Done),
        Step::Finish(Err(CommandError::NoActiveSession))
    );
    assert_eq!(
        registry.advance(G1, Pending::Enqueueing { source: song(1, "A") }, EffectResult::Done),
        Step::Finish(Err(CommandError::NoActiveSession))
    );
    assert_eq!(registry.len(), 0);
}

#[test]
fn shutdown_stops_every_session() {
    let mut registry = VoiceSessionRegistry::new();
    queue_songs(&mut registry, G1, &[1, 2, 3]);
    queue_songs(&mut registry, G2, &[7]);
    queue_songs(&mut registry, GuildId(3), &[9, 10]);
    let mut guilds = registry.shutdown();
    guilds.sort_by_key(|g| g.0);
    assert_eq!(guilds, vec![G1, G2, GuildId(3)]);
    assert_eq!(registry.len(), 3);
    for g in [G1, G2, GuildId(3)] {
        let session = registry.get(g).unwrap();
        assert_eq!(session.queue().state(), PlaybackState::Idle);
        assert_eq!(session.channel(), Some(HOME));
    }
    assert!(VoiceSessionRegistry::new().shutdown().is_empty());
}

#[test]
fn events_reach_the_guild_they_belong_to() {
    let mut registry = VoiceSessionRegistry::new();
    queue_songs(&mut registry, G1, &[1, 2]);
    queue_songs(&mut registry, G2, &[1, 2]);
    assert_eq!(registry.observe(G1, TrackEvent::Ended(TrackHandle(1))), Upkeep::Nothing);
    assert_eq!(handles(&registry, G1), vec![2]);
    assert_eq!(handles(&registry, G2), vec![1, 2]);
    assert_eq!(
        registry.observe(G1, TrackEvent::Started(TrackHandle(2))),
        Upkeep::PublishStatus("x".to_string())
    );
    assert_eq!(registry.get(G1).unwrap().queue().state(), PlaybackState::Playing);
    assert_eq!(registry.observe(GuildId(9), TrackEvent::Ended(TrackHandle(1))), Upkeep::Nothing);
    assert_eq!(registry.len(), 2);
}

#[test]
fn speech_is_queued_with_its_resource() {
    let mut registry = VoiceSessionRegistry::new();
    let args = TtsArgs { text: "hello there".to_string(), voice: "ye".to_string() };
    let source = speech_source(&args, TrackHandle(4), "./tts/u.wav".to_string());
    assert_eq!(source.handle, TrackHandle(4));
    assert_eq!(source.kind, SourceKind::Speech);
    assert_eq!(source.temp_resource, Some("./tts/u.wav".to_string()));
    assert_eq!(source.metadata.title, Some("\"hello there\" in the voice of ye".to_string()));

    // the join comes first, before any speech exists
    let first = join(&registry, G1, Some(HOME));
    assert_eq!(
        first,
        Step::Perform(
            Effect::Join { guild: G1, channel: HOME },
            Pending::Connecting { channel: HOME },
        )
    );
    let (_, joined) = drive(&mut registry, G1, first, &[EffectResult::Done]);
    assert_eq!(joined, Step::Finish(Ok(Announcement::Connected)));
    assert_eq!(registry.get(G1).unwrap().channel(), Some(HOME));
    assert!(registry.get(G1).unwrap().queue().is_empty());

    // then the speech, which is queued and joins nothing
    let first = tts(&registry, G1, Some(HOME), &args, TrackHandle(4), "./tts/u.wav".to_string());
    let (given, end) = drive(&mut registry, G1, first, &[EffectResult::Done; 2]);
    assert_eq!(given, vec![Effect::Enqueue(TrackHandle(4))]);
    match end {
        Step::Finish(Ok(told)) => {
            assert_eq!(told.text(), "Started saying \"hello there\" in the voice of ye")
        }
        other => panic!("{:?}", other),
    }
    assert_eq!(
        registry.observe(G1, TrackEvent::Ended(TrackHandle(4))),
        Upkeep::Release("./tts/u.wav".to_string())
    );
    assert!(handles(&registry, G1).is_empty());
}

#[test]
fn failed_join_for_speech_leaves_nothing_behind() {
    let mut registry = VoiceSessionRegistry::new();
    let first = join(&registry, G1, Some(HOME));
    let (given, end) = drive(&mut registry, G1, first, &[EffectResult::Failed]);
    assert_eq!(given, vec![Effect::Join { guild: G1, channel: HOME }]);
    assert_eq!(end, Step::Finish(Err(CommandError::JoinFailed)));
    assert_eq!(CommandError::JoinFailed.text(), "Failed to join voice channel! Blame Joshi :c");
    assert_eq!(registry.len(), 0);
    assert!(registry.get(G1).is_none());
}

#[test]
fn join_is_refused_like_any_operation() {
    let mut registry = VoiceSessionRegistry::new();
    assert_eq!(
        join(&registry, G1, None),
        Step::Finish(Err(CommandError::Admission(AdmissionError::NotInVoiceChannel)))
    );
    queue_songs(&mut registry, G1, &[1]);
    assert_eq!(
        join(&registry, G1, Some(ChannelId(11))),
        Step::Finish(Err(CommandError::Admission(AdmissionError::DifferentChannel)))
    );
    // where the bot sits with the requester already, nothing is to be done
    assert_eq!(join(&registry, G1, Some(HOME)), Step::Finish(Ok(Announcement::Connected)));
    assert_eq!(handles(&registry, G1), vec![1]);
}

#[test]
fn speech_is_never_joined_for() {
    let registry = VoiceSessionRegistry::new();
    let args = TtsArgs { text: "hi".to_string(), voice: "ye".to_string() };
    let step = tts(&registry, G1, Some(HOME), &args, TrackHandle(4), "./tts/u.wav".to_string());
    assert_eq!(
        step,
        Step::Release("./tts/u.wav".to_string(), Err(CommandError::NoActiveSession))
    );
    let step = tts(&registry, G1, None, &args, TrackHandle(4), "./tts/u.wav".to_string());
    assert_eq!(
        step,
        Step::Release(
            "./tts/u.wav".to_string(),
            Err(CommandError::Admission(AdmissionError::NotInVoiceChannel))
        )
    );
}

#[test]
fn speech_that_is_not_queued_is_released() {
    let mut registry = VoiceSessionRegistry::new();
    queue_songs(&mut registry, G1, &[1]);
    let args = TtsArgs { text: "hi".to_string(), voice: "ye".to_string() };
    let path = "./tts/v.wav".to_string();

    // the requester has gone elsewhere while the speech was made
    let step = tts(&registry, G1, Some(ChannelId(11)), &args, TrackHandle(4), path.clone());
    assert_eq!(
        step,
        Step::Release(path.clone(), Err(CommandError::Admission(AdmissionError::DifferentChannel)))
    );

    // the pipeline does not take the track
    let first = tts(&registry, G1, Some(HOME), &args, TrackHandle(4), path.clone());
    let (given, end) = drive(&mut registry, G1, first, &[EffectResult::Failed]);
    assert_eq!(given, vec![Effect::Enqueue(TrackHandle(4))]);
    assert_eq!(end, Step::Release(path.clone(), Err(CommandError::TrackFailed)));
    assert_eq!(handles(&registry, G1), vec![1]);
    // nothing is on the books: the end of a track by that name releases nothing
    assert_eq!(registry.observe(G1, TrackEvent::Ended(TrackHandle(4))), Upkeep::Nothing);
}

#[test]
fn source_with_a_resource_is_released_when_play_fails() {
    let mut registry = VoiceSessionRegistry::new();
    let source = || TrackSource {
        handle: TrackHandle(6),
        kind: SourceKind::Song,
        metadata: TrackMetadata::unknown(),
        temp_resource: Some("/tmp/a.ogg".to_string()),
    };
    assert_eq!(
        play(&registry, G1, None, source()),
        Step::Release(
            "/tmp/a.ogg".to_string(),
            Err(CommandError::Admission(AdmissionError::NotInVoiceChannel))
        )
    );
    let first = play(&registry, G1, Some(HOME), source());
    let (_, end) = drive(&mut registry, G1, first, &[EffectResult::Failed]);
    assert_eq!(end, Step::Release("/tmp/a.ogg".to_string(), Err(CommandError::JoinFailed)));
    assert_eq!(registry.len(), 0);
    let first = play(&registry, G1, Some(HOME), source());
    let (_, end) = drive(&mut registry, G1, first, &[EffectResult::Done, EffectResult::Failed]);
    assert_eq!(end, Step::Release("/tmp/a.ogg".to_string(), Err(CommandError::TrackFailed)));
    assert!(handles(&registry, G1).is_empty());
    // an answer that finds no session gives the resource back as well
    assert_eq!(
        registry.advance(G2, Pending::Enqueueing { source: source() }, EffectResult::Done),
        Step::Release("/tmp/a.ogg".to_string(), Err(CommandError::NoActiveSession))
    );
}

#[test]
fn speech_service_is_asked_thirty_times_at_most() {
    assert_eq!(next_poll(0, None), Poll::Ask);
    assert_eq!(next_poll(29, None), Poll::Ask);
    assert_eq!(next_poll(30, None), Poll::GiveUp);
    assert_eq!(next_poll(u32::MAX, None), Poll::GiveUp);
    assert_eq!(next_poll(1, Some("https://x/y.wav".to_string())), Poll::Fetch("https://x/y.wav".to_string()));
    assert_eq!(next_poll(30, Some("u".to_string())), Poll::Fetch("u".to_string()));
}

#[test]
fn interactions_are_found_by_name() {
    assert_eq!(handle_interaction("clear"), Some(CommandKind::Clear));
    assert_eq!(handle_interaction("pause"), Some(CommandKind::Pause));
    assert_eq!(handle_interaction("play"), Some(CommandKind::Play));
    assert_eq!(handle_interaction("queue"), Some(CommandKind::Queue));
    assert_eq!(handle_interaction("skip"), Some(CommandKind::Skip));
    assert_eq!(handle_interaction("stop"), Some(CommandKind::Stop));
    assert_eq!(handle_interaction("volume"), Some(CommandKind::Volume));
    assert_eq!(handle_interaction("roll"), Some(CommandKind::Roll));
    assert_eq!(handle_interaction("tts"), None);
    assert_eq!(handle_interaction("Skip"), None);
    assert_eq!(handle_interaction(""), None);
    assert_eq!(handle_interaction("dance"), None);
}

#[test]
fn offered_commands_are_found_by_their_own_names() {
    let kinds = twilight_commands();
    assert_eq!(
        kinds,
        vec![
            CommandKind::Clear,
            CommandKind::Pause,
            CommandKind::Play,
            CommandKind::Queue,
            CommandKind::Skip,
            CommandKind::Stop,
            CommandKind::Volume,
            CommandKind::Roll,
        ]
    );
    for kind in kinds {
        assert_eq!(handle_interaction(kind.name()), Some(kind));
        assert!(!kind.description().is_empty());
    }
    assert_eq!(CommandKind::Tts.name(), "tts");
    assert_eq!(CommandKind::Skip.description(), "Skip a number of songs in the queue");
}

#[test]
fn command_types_name_their_kind() {
    assert_eq!(Clear::kind(), CommandKind::Clear);
    assert_eq!(Pause::kind(), CommandKind::Pause);
    assert_eq!(Play::kind(), CommandKind::Play);
    assert_eq!(Queue::kind(), CommandKind::Queue);
    assert_eq!(Skip::kind(), CommandKind::Skip);
    assert_eq!(Stop::kind(), CommandKind::Stop);
    assert_eq!(Tts::kind(), CommandKind::Tts);
    assert_eq!(Volume::kind(), CommandKind::Volume);
}

#[test]
fn skip_amounts_are_read_as_given() {
    assert_eq!(SkipArgs::parse_options(None), SkipArgs { amount: 1 });
    assert_eq!(SkipArgs::parse_options(Some(4)), SkipArgs { amount: 4 });
    assert_eq!(SkipArgs::parse_options(Some(0)), SkipArgs { amount: 0 });
    assert_eq!(SkipArgs::parse_options(Some(-3)), SkipArgs { amount: 0 });
    assert_eq!(SkipArgs::parse_options(Some(i64::MIN)), SkipArgs { amount: 0 });
}

#[test]
fn play_args_hold_the_song() {
    let args = PlayArgs { song: "never gonna".to_string() };
    assert_eq!(args.song, "never gonna");
}
