use voice_queue::admission::{AdmissionError, ChannelId, GuildId};
use voice_queue::protocol::{Announcement, CommandError, Effect, EffectResult, Pending, Step};
use voice_queue::queue::{PlaybackQueue, PlaybackState, Enqueued};
use voice_queue::session::{TrackEvent, Upkeep, VoiceSession};
use voice_queue::track::{
    PlayMode, SourceKind, TrackHandle, TrackMetadata, TrackSource, VolumeLevel,
};

const HOME: ChannelId = ChannelId(10);

fn song(id: u128, title: &str) -> TrackSource {
    TrackSource {
        handle: TrackHandle(id),
        kind: SourceKind::Song,
        metadata: TrackMetadata::titled(title.to_string()),
        temp_resource: None,
    }
}

/// Answers the commands of an operation from `answers`, in order, and gives
/// back the commands that were given and the step at which it stopped.
fn drive(session: &mut VoiceSession, first: Step, answers: &[EffectResult]) -> (Vec<Effect>, Step) {
    let mut given = Vec::new();
    let mut step = first;
    let mut answers = answers.iter();
    loop {
        match step {
            Step::Perform(effect, pending) => match answers.next() {
                Some(answer) => {
                    given.push(effect);
                    step = session.advance(pending, *answer);
                }
                None => return (given, Step::Perform(effect, pending)),
            },
            ended => return (given, ended),
        }
    }
}

/// A session in `HOME` with the given songs queued, the first one playing.
fn session_with(titles: &[&str]) -> VoiceSession {
    let mut session = VoiceSession::new(GuildId(1));
    for (i, title) in titles.iter().enumerate() {
        let first = session.begin_play(Some(HOME), song(i as u128 + 1, title));
        let answers = [EffectResult::Done, EffectResult::Done];
        let (_, end) = drive(&mut session, first, &answers);
        assert!(matches!(end, Step::Finish(Ok(_))));
    }
    session
}

fn handles(session: &VoiceSession) -> Vec<u128> {
    let queue = session.queue();
    (0..queue.len()).map(|i| queue.get(i).unwrap().handle.0).collect()
}

#[test]
fn enqueue_on_empty_queue_starts() {
    let mut session = VoiceSession::new(GuildId(1));
    let first = session.begin_play(Some(HOME), song(1, "Song A"));
    assert_eq!(
        first,
        Step::Perform(
            Effect::Join { guild: GuildId(1), channel: HOME },
            Pending::Joining { channel: HOME, source: song(1, "Song A") },
        )
    );
    let (given, end) = drive(&mut session, first, &[EffectResult::Done, EffectResult::Done]);
    assert_eq!(
        given,
        vec![Effect::Join { guild: GuildId(1), channel: HOME }, Effect::Enqueue(TrackHandle(1))]
    );
    let told = match end {
        Step::Finish(Ok(told)) => told,
        other => panic!("{:?}", other),
    };
    assert_eq!(told, Announcement::Started(TrackMetadata::titled("Song A".to_string())));
    assert_eq!(told.text(), "Started playing Song A");
    assert_eq!(session.queue().len(), 1);
    assert_eq!(session.queue().state(), PlaybackState::Playing);
    assert_eq!(session.channel(), Some(HOME));
    assert_eq!(session.queue().head().unwrap().handle, TrackHandle(1));
}

#[test]
fn enqueue_on_playing_queue_queues() {
    let mut session = session_with(&["Song A"]);
    let first = session.begin_play(Some(HOME), song(2, "Song B"));
    let (given, end) = drive(&mut session, first, &[EffectResult::Done]);
    assert_eq!(given, vec![Effect::Enqueue(TrackHandle(2))]);
    let told = match end {
        Step::Finish(Ok(told)) => told,
        other => panic!("{:?}", other),
    };
    assert_eq!(told.text(), "Added Song B to the queue");
    assert_eq!(session.queue().len(), 2);
    assert_eq!(handles(&session), vec![1, 2]);
    assert_eq!(session.queue().state(), PlaybackState::Playing);
    assert_eq!(session.queue().get(1).unwrap().mode, PlayMode::Pause);
}

#[test]
fn enqueue_preserves_fifo_order() {
    let session = session_with(&["A", "B", "C", "D"]);
    assert_eq!(handles(&session), vec![1, 2, 3, 4]);
}

#[test]
fn skip_two_of_three() {
    let mut session = session_with(&["A", "B", "C"]);
    let first = session.begin_skip(Some(HOME), 2);
    let answers = [EffectResult::Done; 3];
    let (given, end) = drive(&mut session, first, &answers);
    assert_eq!(
        given,
        vec![
            Effect::Stop(TrackHandle(1)),
            Effect::Stop(TrackHandle(2)),
            Effect::Play(TrackHandle(3)),
        ]
    );
    assert_eq!(end, Step::Finish(Ok(Announcement::Skipped { count: 2 })));
    assert_eq!(Announcement::Skipped { count: 2 }.text(), "Skipped 2 songs!");
    assert_eq!(handles(&session), vec![3]);
    assert_eq!(session.queue().state(), PlaybackState::Playing);
}

#[test]
fn skip_one_says_song() {
    let mut session = session_with(&["A", "B"]);
    let first = session.begin_skip(Some(HOME), 1);
    let (_, end) = drive(&mut session, first, &[EffectResult::Done; 2]);
    match end {
        Step::Finish(Ok(told)) => assert_eq!(told.text(), "Skipped 1 song!"),
        other => panic!("{:?}", other),
    }
    assert_eq!(handles(&session), vec![2]);
}

#[test]
fn skip_zero_is_rejected() {
    let session = session_with(&["A", "B"]);
    let step = session.begin_skip(Some(HOME), 0);
    assert_eq!(step, Step::Finish(Err(CommandError::ZeroSkip)));
    assert_eq!(handles(&session), vec![1, 2]);
    let empty = VoiceSession::new(GuildId(1));
    assert_eq!(empty.begin_skip(None, 0), Step::Finish(Err(CommandError::ZeroSkip)));
    assert_eq!(CommandError::ZeroSkip.text(), "Stop trying to break the bot.");
}

#[test]
fn skip_more_than_queued_empties_the_queue() {
    let mut session = session_with(&["A", "B", "C"]);
    let first = session.begin_skip(Some(HOME), 50);
    let (given, end) = drive(&mut session, first, &[EffectResult::Done; 10]);
    assert_eq!(
        given,
        vec![
            Effect::Stop(TrackHandle(1)),
            Effect::Stop(TrackHandle(2)),
            Effect::Stop(TrackHandle(3)),
        ]
    );
    assert_eq!(end, Step::Finish(Ok(Announcement::Skipped { count: 3 })));
    assert!(session.queue().is_empty());
    assert_eq!(session.queue().state(), PlaybackState::Idle);
}

#[test]
fn skip_exactly_the_length_empties_the_queue() {
    let mut session = session_with(&["A", "B"]);
    let first = session.begin_skip(Some(HOME), 2);
    let (_, end) = drive(&mut session, first, &[EffectResult::Done; 10]);
    assert_eq!(end, Step::Finish(Ok(Announcement::Skipped { count: 2 })));
    assert_eq!(session.queue().state(), PlaybackState::Idle);
}

#[test]
fn skip_on_empty_queue_says_nothing_plays() {
    let mut session = session_with(&["A"]);
    let first = session.begin_stop(Some(HOME));
    drive(&mut session, first, &[EffectResult::Done]);
    let step = session.begin_skip(Some(HOME), 1);
    assert_eq!(step, Step::Finish(Err(CommandError::QueueEmpty)));
    assert_eq!(CommandError::QueueEmpty.text(), "No song is currently playing!");
    assert!(session.queue().is_empty());
}

#[test]
fn skip_stops_at_the_first_failure() {
    let mut session = session_with(&["A", "B", "C", "D"]);
    let first = session.begin_skip(Some(HOME), 3);
    let answers = [EffectResult::Done, EffectResult::Failed, EffectResult::Done];
    let (given, end) = drive(&mut session, first, &answers);
    assert_eq!(given, vec![Effect::Stop(TrackHandle(1)), Effect::Stop(TrackHandle(2))]);
    assert_eq!(end, Step::Finish(Err(CommandError::SkipFailed { skipped: 1 })));
    assert_eq!(handles(&session), vec![2, 3, 4]);
    assert_eq!(
        CommandError::SkipFailed { skipped: 1 }.text(),
        "Failed to skip all of the songs! Blame Joshi :c"
    );
}

#[test]
fn skip_whose_new_head_does_not_start_reports_failure() {
    let mut session = session_with(&["A", "B"]);
    let first = session.begin_skip(Some(HOME), 1);
    let (given, end) = drive(&mut session, first, &[EffectResult::Done, EffectResult::Failed]);
    assert_eq!(given, vec![Effect::Stop(TrackHandle(1)), Effect::Play(TrackHandle(2))]);
    assert_eq!(end, Step::Finish(Err(CommandError::SkipFailed { skipped: 1 })));
    assert_eq!(handles(&session), vec![2]);
    assert_eq!(session.queue().state(), PlaybackState::Paused);
}

#[test]
fn pause_then_pause_again() {
    let mut session = session_with(&["A"]);
    let first = session.begin_pause(Some(HOME));
    assert_eq!(first, Step::Perform(Effect::QueryMode(TrackHandle(1)), Pending::QueryingMode));
    let answers = [EffectResult::Mode(PlayMode::Play), EffectResult::Done];
    let (given, end) = drive(&mut session, first, &answers);
    assert_eq!(given, vec![Effect::QueryMode(TrackHandle(1)), Effect::Pause(TrackHandle(1))]);
    assert_eq!(end, Step::Finish(Ok(Announcement::Paused)));
    assert_eq!(Announcement::Paused.text(), "Paused the current song!");
    assert_eq!(session.queue().state(), PlaybackState::Paused);

    let first = session.begin_pause(Some(HOME));
    let answers = [EffectResult::Mode(PlayMode::Pause), EffectResult::Done];
    let (given, end) = drive(&mut session, first, &answers);
    assert_eq!(given, vec![Effect::QueryMode(TrackHandle(1)), Effect::Resume(TrackHandle(1))]);
    assert_eq!(end, Step::Finish(Ok(Announcement::Resumed)));
    assert_eq!(Announcement::Resumed.text(), "Resumed the current song!");
    assert_eq!(session.queue().state(), PlaybackState::Playing);
}

#[test]
fn pause_failures_are_told_apart() {
    let mut session = session_with(&["A"]);
    let first = session.begin_pause(Some(HOME));
    let (_, end) =
        drive(&mut session, first, &[EffectResult::Mode(PlayMode::Play), EffectResult::Failed]);
    assert_eq!(end, Step::Finish(Err(CommandError::PauseFailed)));
    assert_eq!(session.queue().state(), PlaybackState::Playing);

    let first = session.begin_pause(Some(HOME));
    let (_, end) =
        drive(&mut session, first, &[EffectResult::Mode(PlayMode::Pause), EffectResult::Failed]);
    assert_eq!(end, Step::Finish(Err(CommandError::ResumeFailed)));
    assert_eq!(session.queue().state(), PlaybackState::Paused);

    let first = session.begin_pause(Some(HOME));
    let (_, end) = drive(&mut session, first, &[EffectResult::Failed]);
    assert_eq!(end, Step::Finish(Err(CommandError::TrackFailed)));

    assert_eq!(CommandError::PauseFailed.text(), "Failed to pause the song! Blame Joshi :c");
    assert_eq!(CommandError::ResumeFailed.text(), "Failed to resume the song! Blame Joshi :c");
    assert_eq!(CommandError::TrackFailed.text(), "Something went wrong, blame bade");
}

#[test]
fn pause_on_empty_queue_is_refused() {
    let mut session = session_with(&["A"]);
    let first = session.begin_stop(Some(HOME));
    drive(&mut session, first, &[EffectResult::Done]);
    assert_eq!(session.begin_pause(Some(HOME)), Step::Finish(Err(CommandError::QueueEmpty)));
}

#[test]
fn clear_keeps_only_the_head() {
    let mut session = session_with(&["A", "B", "C", "D"]);
    let first = session.begin_clear(Some(HOME));
    let (given, end) = drive(&mut session, first, &[EffectResult::Done; 10]);
    assert_eq!(
        given,
        vec![
            Effect::Stop(TrackHandle(2)),
            Effect::Stop(TrackHandle(3)),
            Effect::Stop(TrackHandle(4)),
        ]
    );
    assert_eq!(end, Step::Finish(Ok(Announcement::Cleared)));
    assert_eq!(Announcement::Cleared.text(), "Cleared song queue!");
    assert_eq!(handles(&session), vec![1]);
    assert_eq!(session.queue().state(), PlaybackState::Playing);
}

#[test]
fn clear_with_nothing_pending_gives_no_command() {
    let session = session_with(&["A"]);
    assert_eq!(session.begin_clear(Some(HOME)), Step::Finish(Ok(Announcement::Cleared)));
    assert_eq!(handles(&session), vec![1]);
}

#[test]
fn clear_on_empty_queue_says_nothing_plays() {
    let mut session = session_with(&["A"]);
    let first = session.begin_stop(Some(HOME));
    drive(&mut session, first, &[EffectResult::Done]);
    assert_eq!(session.begin_clear(Some(HOME)), Step::Finish(Err(CommandError::QueueEmpty)));
    assert!(session.queue().is_empty());
}

#[test]
fn failed_clear_leaves_the_queue_as_it_was() {
    let mut session = session_with(&["A", "B", "C", "D"]);
    let first = session.begin_clear(Some(HOME));
    let (given, end) = drive(&mut session, first, &[EffectResult::Done, EffectResult::Failed]);
    assert_eq!(given, vec![Effect::Stop(TrackHandle(2)), Effect::Stop(TrackHandle(3))]);
    assert_eq!(end, Step::Finish(Err(CommandError::ClearFailed)));
    assert_eq!(handles(&session), vec![1, 2, 3, 4]);
    assert_eq!(session.queue().state(), PlaybackState::Playing);
    assert_eq!(
        CommandError::ClearFailed.text(),
        "Failed to clear the whole queue! Blame Joshi :c"
    );
}

#[test]
fn clear_whose_first_stop_fails_changes_nothing() {
    let mut session = session_with(&["A", "B", "C"]);
    let first = session.begin_clear(Some(HOME));
    let (given, end) = drive(&mut session, first, &[EffectResult::Failed]);
    assert_eq!(given, vec![Effect::Stop(TrackHandle(2))]);
    assert_eq!(end, Step::Finish(Err(CommandError::ClearFailed)));
    assert_eq!(handles(&session), vec![1, 2, 3]);
}

#[test]
fn clear_whose_last_stop_fails_changes_nothing() {
    let mut session = session_with(&["A", "B", "C"]);
    let first = session.begin_clear(Some(HOME));
    let (given, end) = drive(&mut session, first, &[EffectResult::Done, EffectResult::Failed]);
    assert_eq!(given, vec![Effect::Stop(TrackHandle(2)), Effect::Stop(TrackHandle(3))]);
    assert_eq!(end, Step::Finish(Err(CommandError::ClearFailed)));
    assert_eq!(handles(&session), vec![1, 2, 3]);
}

#[test]
fn clear_cuts_the_queue_only_at_the_end() {
    let mut session = session_with(&["A", "B", "C"]);
    let first = session.begin_clear(Some(HOME));
    assert_eq!(
        first,
        Step::Perform(Effect::Stop(TrackHandle(2)), Pending::Clearing { at: 1 })
    );
    let (_, next) = drive(&mut session, first, &[EffectResult::Done]);
    assert_eq!(next, Step::Perform(Effect::Stop(TrackHandle(3)), Pending::Clearing { at: 2 }));
    assert_eq!(handles(&session), vec![1, 2, 3]);
    let (_, end) = drive(&mut session, next, &[EffectResult::Done]);
    assert_eq!(end, Step::Finish(Ok(Announcement::Cleared)));
    assert_eq!(handles(&session), vec![1]);
}

#[test]
fn stop_empties_the_queue_and_the_view() {
    let mut session = session_with(&["A", "B", "C"]);
    let first = session.begin_stop(Some(HOME));
    assert_eq!(first, Step::Perform(Effect::StopAll, Pending::Stopping));
    let (_, end) = drive(&mut session, first, &[EffectResult::Done]);
    assert_eq!(end, Step::Finish(Ok(Announcement::Stopped)));
    assert_eq!(Announcement::Stopped.text(), "Stopped playing music!");
    assert_eq!(session.queue().state(), PlaybackState::Idle);
    let view = session.queue().current_queue_view();
    assert_eq!(view.total, 0);
    assert!(view.entries.is_empty());
}

#[test]
fn stop_empties_the_queue_whatever_the_pipeline_says() {
    let mut session = session_with(&["A", "B"]);
    let first = session.begin_stop(Some(HOME));
    let (_, end) = drive(&mut session, first, &[EffectResult::Failed]);
    assert_eq!(end, Step::Finish(Ok(Announcement::Stopped)));
    assert!(session.queue().is_empty());
}

#[test]
fn volume_changes_only_the_head() {
    let mut session = session_with(&["A", "B", "C"]);
    let first = session.begin_volume(Some(HOME), 1500);
    let level = VolumeLevel { millis: 1500 };
    assert_eq!(
        first,
        Step::Perform(Effect::SetVolume(TrackHandle(1), level), Pending::SettingVolume(level))
    );
    let (_, end) = drive(&mut session, first, &[EffectResult::Done]);
    assert_eq!(end, Step::Finish(Ok(Announcement::VolumeChanged(level))));
    assert_eq!(session.queue().get(0).unwrap().volume, level);
    assert_eq!(session.queue().get(1).unwrap().volume, VolumeLevel::initial());
    assert_eq!(session.queue().get(2).unwrap().volume, VolumeLevel::initial());
    assert_eq!(handles(&session), vec![1, 2, 3]);
}

#[test]
fn enqueued_item_does_not_inherit_the_volume() {
    let mut session = session_with(&["A"]);
    let first = session.begin_volume(Some(HOME), 250);
    drive(&mut session, first, &[EffectResult::Done]);
    let first = session.begin_play(Some(HOME), song(2, "B"));
    drive(&mut session, first, &[EffectResult::Done]);
    assert_eq!(session.queue().get(0).unwrap().volume, VolumeLevel { millis: 250 });
    assert_eq!(session.queue().get(1).unwrap().volume, VolumeLevel { millis: 1000 });
    // ... nor when it becomes the head
    let first = session.begin_skip(Some(HOME), 1);
    drive(&mut session, first, &[EffectResult::Done; 2]);
    assert_eq!(session.queue().head().unwrap().volume, VolumeLevel { millis: 1000 });
    // ... nor a source that arrives at the emptied queue
    let first = session.begin_stop(Some(HOME));
    drive(&mut session, first, &[EffectResult::Done]);
    let first = session.begin_play(Some(HOME), song(3, "C"));
    drive(&mut session, first, &[EffectResult::Done]);
    assert_eq!(session.queue().head().unwrap().volume, VolumeLevel { millis: 1000 });
}

#[test]
fn negative_volume_is_rejected() {
    let session = session_with(&["A"]);
    assert_eq!(
        session.begin_volume(Some(HOME), -1),
        Step::Finish(Err(CommandError::NegativeVolume))
    );
    assert_eq!(
        session.begin_volume(None, i64::MIN),
        Step::Finish(Err(CommandError::NegativeVolume))
    );
    assert_eq!(session.queue().head().unwrap().volume, VolumeLevel::initial());
    assert_eq!(CommandError::NegativeVolume.text(), "The volume can't be negative!");
}

#[test]
fn volume_of_zero_is_accepted() {
    let mut session = session_with(&["A"]);
    let first = session.begin_volume(Some(HOME), 0);
    let (_, end) = drive(&mut session, first, &[EffectResult::Done]);
    assert_eq!(end, Step::Finish(Ok(Announcement::VolumeChanged(VolumeLevel { millis: 0 }))));
}

#[test]
fn volume_that_is_not_set_stays() {
    let mut session = session_with(&["A"]);
    let first = session.begin_volume(Some(HOME), 2000);
    let (_, end) = drive(&mut session, first, &[EffectResult::Failed]);
    assert_eq!(end, Step::Finish(Err(CommandError::TrackFailed)));
    assert_eq!(session.queue().head().unwrap().volume, VolumeLevel::initial());
}

#[test]
fn every_operation_checks_admission() {
    let session = session_with(&["A", "B"]);
    let outside = Some(ChannelId(99));
    let different = Step::Finish(Err(CommandError::Admission(AdmissionError::DifferentChannel)));
    let nowhere = Step::Finish(Err(CommandError::Admission(AdmissionError::NotInVoiceChannel)));
    assert_eq!(session.begin_pause(outside), different);
    assert_eq!(session.begin_skip(outside, 1), different);
    assert_eq!(session.begin_stop(outside), different);
    assert_eq!(session.begin_clear(outside), different);
    assert_eq!(session.begin_volume(outside, 500), different);
    assert_eq!(session.begin_play(outside, song(9, "X")), different);
    assert_eq!(session.begin_pause(None), nowhere);
    assert_eq!(session.begin_skip(None, 1), nowhere);
    assert_eq!(session.begin_stop(None), nowhere);
    assert_eq!(session.begin_clear(None), nowhere);
    assert_eq!(session.begin_volume(None, 500), nowhere);
    assert_eq!(session.begin_play(None, song(9, "X")), nowhere);
    assert_eq!(
        CommandError::Admission(AdmissionError::DifferentChannel).text(),
        "You aren't in the same voice channel as me!"
    );
    assert_eq!(
        CommandError::Admission(AdmissionError::NotInVoiceChannel).text(),
        "You aren't in a voice channel!"
    );
}

#[test]
fn failed_join_leaves_the_session_untouched() {
    let mut session = VoiceSession::new(GuildId(1));
    let first = session.begin_play(Some(HOME), song(1, "A"));
    let (given, end) = drive(&mut session, first, &[EffectResult::Failed]);
    assert_eq!(given, vec![Effect::Join { guild: GuildId(1), channel: HOME }]);
    assert_eq!(end, Step::Finish(Err(CommandError::JoinFailed)));
    assert_eq!(session.channel(), None);
    assert!(session.queue().is_empty());
    assert_eq!(CommandError::JoinFailed.text(), "Failed to join voice channel! Blame Joshi :c");
}

#[test]
fn failed_enqueue_leaves_the_queue_untouched() {
    let mut session = session_with(&["A"]);
    let first = session.begin_play(Some(HOME), song(2, "B"));
    let (_, end) = drive(&mut session, first, &[EffectResult::Failed]);
    assert_eq!(end, Step::Finish(Err(CommandError::TrackFailed)));
    assert_eq!(handles(&session), vec![1]);
}

#[test]
fn queue_primitives() {
    let mut queue = PlaybackQueue::new();
    assert_eq!(queue.state(), PlaybackState::Idle);
    assert!(queue.head().is_none());
    assert_eq!(queue.pop_head(), None);
    assert_eq!(queue.enqueue(TrackHandle(1), TrackMetadata::unknown()), Enqueued::Started);
    assert_eq!(queue.enqueue(TrackHandle(2), TrackMetadata::unknown()), Enqueued::Queued);
    assert_eq!(queue.enqueue(TrackHandle(3), TrackMetadata::unknown()), Enqueued::Queued);
    assert_eq!(queue.position(TrackHandle(3)), Some(2));
    assert_eq!(queue.position(TrackHandle(4)), None);
    assert_eq!(queue.remove_at(1).unwrap().handle, TrackHandle(2));
    assert_eq!(queue.len(), 2);
    assert_eq!(queue.remove_at(5), None);
    assert_eq!(queue.pop_head().unwrap().handle, TrackHandle(1));
    assert_eq!(queue.state(), PlaybackState::Paused);
    queue.set_head_mode(PlayMode::Play);
    assert_eq!(queue.state(), PlaybackState::Playing);
    queue.set_head_volume(VolumeLevel { millis: 5 });
    assert_eq!(queue.head().unwrap().volume.millis, 5);
    queue.keep_head();
    assert_eq!(queue.len(), 1);
    queue.drain();
    queue.keep_head();
    assert!(queue.is_empty());
    queue.set_head_mode(PlayMode::Play);
    queue.set_head_volume(VolumeLevel { millis: 5 });
    assert!(queue.is_empty());
}

#[test]
fn started_head_publishes_its_label() {
    let mut session = session_with(&["A", "B"]);
    let first = session.begin_skip(Some(HOME), 1);
    drive(&mut session, first, &[EffectResult::Done, EffectResult::Failed]);
    assert_eq!(session.queue().state(), PlaybackState::Paused);
    let upkeep = session.observe(TrackEvent::Started(TrackHandle(2)));
    assert_eq!(upkeep, Upkeep::PublishStatus("B".to_string()));
    assert_eq!(session.queue().state(), PlaybackState::Playing);
    assert_eq!(session.observe(TrackEvent::Started(TrackHandle(77))), Upkeep::Nothing);
}

#[test]
fn labels_prefer_artist_and_track() {
    let mut m = TrackMetadata::titled("Some Title".to_string());
    assert_eq!(m.label(), "Some Title");
    m.artist = Some("Artist".to_string());
    assert_eq!(m.label(), "Some Title");
    m.track = Some("Track".to_string());
    assert_eq!(m.label(), "Artist - Track");
    m.artist = None;
    assert_eq!(m.label(), "Some Title");
    assert_eq!(TrackMetadata::unknown().label(), "UNKNOWN");
}

#[test]
fn ended_track_leaves_the_queue_and_releases_its_resource() {
    let mut session = session_with(&["A"]);
    let speech = TrackSource {
        handle: TrackHandle(50),
        kind: SourceKind::Speech,
        metadata: TrackMetadata::titled("hello".to_string()),
        temp_resource: Some("./tts/abc.wav".to_string()),
    };
    let first = session.begin_speech(Some(HOME), speech);
    let (_, end) = drive(&mut session, first, &[EffectResult::Done]);
    match end {
        Step::Finish(Ok(told)) => assert_eq!(told.text(), "Added TTS hello to the queue"),
        other => panic!("{:?}", other),
    }
    // the head ends: no resource, the speech becomes the head
    assert_eq!(session.observe(TrackEvent::Ended(TrackHandle(1))), Upkeep::Nothing);
    assert_eq!(handles(&session), vec![50]);
    // the speech is skipped, and its end is reported afterwards
    let first = session.begin_skip(Some(HOME), 1);
    drive(&mut session, first, &[EffectResult::Done]);
    assert!(session.queue().is_empty());
    assert_eq!(
        session.observe(TrackEvent::Ended(TrackHandle(50))),
        Upkeep::Release("./tts/abc.wav".to_string())
    );
    // a second report finds nothing left to release
    assert_eq!(session.observe(TrackEvent::Ended(TrackHandle(50))), Upkeep::Nothing);
}

#[test]
fn speech_on_empty_queue_is_said() {
    let mut session = session_with(&["A"]);
    let first = session.begin_stop(Some(HOME));
    drive(&mut session, first, &[EffectResult::Done]);
    let speech = TrackSource {
        handle: TrackHandle(50),
        kind: SourceKind::Speech,
        metadata: TrackMetadata::titled("hello".to_string()),
        temp_resource: None,
    };
    let first = session.begin_speech(Some(HOME), speech);
    let (_, end) = drive(&mut session, first, &[EffectResult::Done]);
    match end {
        Step::Finish(Ok(told)) => assert_eq!(told.text(), "Started saying hello"),
        other => panic!("{:?}", other),
    }
}

#[test]
fn session_joins_before_it_takes_speech() {
    let mut session = VoiceSession::new(GuildId(1));
    let speech = || TrackSource {
        handle: TrackHandle(50),
        kind: SourceKind::Speech,
        metadata: TrackMetadata::titled("hello".to_string()),
        temp_resource: Some("./tts/abc.wav".to_string()),
    };
    assert_eq!(
        session.begin_speech(Some(HOME), speech()),
        Step::Release("./tts/abc.wav".to_string(), Err(CommandError::NoActiveSession))
    );
    let first = session.begin_join(Some(HOME));
    let (given, end) = drive(&mut session, first, &[EffectResult::Done]);
    assert_eq!(given, vec![Effect::Join { guild: GuildId(1), channel: HOME }]);
    assert_eq!(end, Step::Finish(Ok(Announcement::Connected)));
    assert_eq!(session.channel(), Some(HOME));
    assert_eq!(
        session.begin_speech(Some(HOME), speech()),
        Step::Perform(Effect::Enqueue(TrackHandle(50)), Pending::Enqueueing { source: speech() })
    );
    assert_eq!(session.begin_join(Some(HOME)), Step::Finish(Ok(Announcement::Connected)));
}

#[test]
fn failed_join_leaves_the_session_unconnected() {
    let mut session = VoiceSession::new(GuildId(1));
    let first = session.begin_join(Some(HOME));
    let (_, end) = drive(&mut session, first, &[EffectResult::Failed]);
    assert_eq!(end, Step::Finish(Err(CommandError::JoinFailed)));
    assert_eq!(session.channel(), None);
    assert!(session.queue().is_empty());
}

#[test]
fn answers_without_a_queue_are_refused() {
    let mut session = VoiceSession::new(GuildId(1));
    assert_eq!(
        session.advance(Pending::Skipping { left: 3, skipped: 0 }, EffectResult::Done),
        Step::Finish(Err(CommandError::QueueEmpty))
    );
    assert_eq!(
        session.advance(Pending::QueryingMode, EffectResult::Mode(PlayMode::Play)),
        Step::Finish(Err(CommandError::QueueEmpty))
    );
    assert_eq!(
        session.advance(Pending::Clearing { at: 1 }, EffectResult::Done),
        Step::Finish(Ok(Announcement::Cleared))
    );
    assert!(session.queue().is_empty());
}
