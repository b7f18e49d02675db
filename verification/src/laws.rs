//! What holds of whole operations: an operation is run by answering each of
//! its commands in turn, and the laws below say where that leads.

use vstd::prelude::*;
use crate::admission::{admission_of, AdmissionError, ChannelId, GuildId};
use crate::protocol::{
    arrival,
    ended_without,
    Announcement,
    CommandError,
    Effect,
    EffectResult,
    Pending,
    Step,
};
use crate::queue::{pending_at_rest, state_of, with_head_mode, with_head_volume, PlaybackState};
use crate::registry::{all_stopped, registry_after};
use crate::session::{
    after,
    barrier,
    clear_start,
    join_start,
    observed,
    pause_start,
    play_start,
    skip_count,
    skip_start,
    speech_start,
    stop_start,
    volume_start,
    SessionView,
    TempResource,
    TrackEvent,
};
use crate::track::{PlayMode, QueueItem, TrackSource, VolumeLevel};
use crate::view::{entry_at, listing, ViewEntry, ViewLimits};

verus! {

/// The session and the step reached from `step` when the pipeline answers
/// the commands with `results`, one after the other. Answers beyond the end
/// of the operation are not looked at.
pub open spec fn run(s: SessionView, step: Step, results: Seq<EffectResult>) -> (SessionView, Step)
    decreases results.len(),
{
    match step {
        Step::Perform(_, pending) => if results.len() == 0 {
            (s, step)
        } else {
            let next = after(s, pending, results[0]);
            run(next.0, next.1, results.skip(1))
        },
        _ => (s, step),
    }
}

/// `n` commands carried out.
pub open spec fn all_done(n: nat) -> Seq<EffectResult> {
    Seq::new(n, |i: int| EffectResult::Done)
}

/// `n` commands carried out and one that was not.
pub open spec fn done_then(n: nat, last: EffectResult) -> Seq<EffectResult> {
    all_done(n).push(last)
}

/// Whether `requester` may operate on the playing queue of `s`.
pub open spec fn admitted(s: SessionView, requester: Option<ChannelId>) -> bool {
    barrier(s, requester) is None
}

proof fn lemma_all_done_skip(n: nat)
    requires
        n > 0,
    ensures
        all_done(n)[0] == EffectResult::Done,
        all_done(n).skip(1) == all_done((n - 1) as nat),
{
    assert(all_done(n).skip(1) =~= all_done((n - 1) as nat));
}

proof fn lemma_done_then_skip(n: nat, last: EffectResult)
    ensures
        n > 0 ==> done_then(n, last)[0] == EffectResult::Done && done_then(n, last).skip(1)
            == done_then((n - 1) as nat, last),
        n == 0 ==> done_then(n, last)[0] == last && done_then(n, last).skip(1) == Seq::<
            EffectResult,
        >::empty(),
{
    if n > 0 {
        assert(done_then(n, last).skip(1) =~= done_then((n - 1) as nat, last));
    } else {
        assert(done_then(n, last).skip(1) =~= Seq::<EffectResult>::empty());
    }
}

/// A skip under way that meets no failure takes `left + 1` heads off; if
/// that empties the queue it is over, else the new head is started.
proof fn lemma_skipping_through(s: SessionView, left: usize, skipped: usize)
    requires
        left < s.queue.len(),
        skipped + left + 1 <= usize::MAX,
    ensures
        left + 1 == s.queue.len() ==> run(
            s,
            Step::Perform(Effect::Stop(s.queue[0].handle), Pending::Skipping { left, skipped }),
            all_done((left + 1) as nat),
        ) == (
            s.with_queue(Seq::empty()),
            Step::Finish(
                Ok::<Announcement, CommandError>(
                    Announcement::Skipped { count: (skipped + left + 1) as usize },
                ),
            ),
        ),
        left + 1 < s.queue.len() ==> run(
            s,
            Step::Perform(Effect::Stop(s.queue[0].handle), Pending::Skipping { left, skipped }),
            all_done((left + 2) as nat),
        ) == (
            s.with_queue(with_head_mode(s.queue.skip(left + 1), PlayMode::Play)),
            Step::Finish(
                Ok::<Announcement, CommandError>(
                    Announcement::Skipped { count: (skipped + left + 1) as usize },
                ),
            ),
        ),
    decreases left,
{
    let start = Step::Perform(
        Effect::Stop(s.queue[0].handle),
        Pending::Skipping { left, skipped },
    );
    let next = after(s, Pending::Skipping { left, skipped }, EffectResult::Done);
    let rest = s.queue.skip(1);
    assert(next.0 == s.with_queue(rest));
    reveal_with_fuel(run, 3);
    if left + 1 == s.queue.len() {
        lemma_all_done_skip((left + 1) as nat);
        if left == 0 {
            assert(rest =~= Seq::<QueueItem>::empty());
        } else {
            lemma_skipping_through(next.0, (left - 1) as usize, (skipped + 1) as usize);
            assert(next.0.with_queue(Seq::empty()) == s.with_queue(Seq::empty()));
        }
    } else {
        lemma_all_done_skip((left + 2) as nat);
        if left == 0 {
            lemma_all_done_skip(1);
            assert(all_done(0).len() == 0);
            assert(rest == s.queue.skip(left + 1));
        } else {
            lemma_skipping_through(next.0, (left - 1) as usize, (skipped + 1) as usize);
            assert(rest.skip(left as int) =~= s.queue.skip(left + 1));
            assert(next.0.with_queue(with_head_mode(rest.skip(left as int), PlayMode::Play))
                == s.with_queue(with_head_mode(s.queue.skip(left + 1), PlayMode::Play)));
        }
    }
}

/// A skip of at least as many tracks as are queued, with every stop carried
/// out, empties the queue: the session is idle.
pub proof fn law_skip_drains(s: SessionView, requester: Option<ChannelId>, amount: usize)
    requires
        admitted(s, requester),
        amount >= s.queue.len(),
        s.queue.len() <= usize::MAX,
    ensures
        run(s, skip_start(s, requester, amount), all_done(s.queue.len())) == (
            s.with_queue(Seq::empty()),
            Step::Finish(
                Ok::<Announcement, CommandError>(
                    Announcement::Skipped { count: s.queue.len() as usize },
                ),
            ),
        ),
        state_of(run(s, skip_start(s, requester, amount), all_done(s.queue.len())).0.queue)
            == PlaybackState::Idle,
{
    lemma_skipping_through(s, (s.queue.len() - 1) as usize, 0);
}

/// A skip of fewer tracks than are queued, with every command carried out,
/// takes exactly that many off the front, in order, and starts the new head.
pub proof fn law_skip_exposes_next(s: SessionView, requester: Option<ChannelId>, amount: usize)
    requires
        admitted(s, requester),
        0 < amount < s.queue.len(),
    ensures
        run(s, skip_start(s, requester, amount), all_done((amount + 1) as nat)) == (
            s.with_queue(with_head_mode(s.queue.skip(amount as int), PlayMode::Play)),
            Step::Finish(Ok::<Announcement, CommandError>(Announcement::Skipped { count: amount })),
        ),
        state_of(run(s, skip_start(s, requester, amount), all_done((amount + 1) as nat)).0.queue)
            == PlaybackState::Playing,
{
    lemma_skipping_through(s, (amount - 1) as usize, 0);
}

/// A skip under way whose `j` first stops are carried out and whose next
/// one is not ends there: `j` heads have left, the rest stays.
proof fn lemma_skipping_breaks(
    s: SessionView,
    left: usize,
    skipped: usize,
    j: nat,
    last: EffectResult,
)
    requires
        left < s.queue.len(),
        j <= left,
        skipped + left + 1 <= usize::MAX,
        last != EffectResult::Done,
    ensures
        run(
            s,
            Step::Perform(Effect::Stop(s.queue[0].handle), Pending::Skipping { left, skipped }),
            done_then(j, last),
        ) == (
            s.with_queue(s.queue.skip(j as int)),
            Step::Finish(
                Err::<Announcement, CommandError>(
                    CommandError::SkipFailed { skipped: (skipped + j) as usize },
                ),
            ),
        ),
    decreases j,
{
    reveal_with_fuel(run, 3);
    lemma_done_then_skip(j, last);
    if j == 0 {
        assert(s.queue.skip(0) =~= s.queue);
    } else {
        let next = after(s, Pending::Skipping { left, skipped }, EffectResult::Done);
        let rest = s.queue.skip(1);
        assert(next.0 == s.with_queue(rest));
        lemma_skipping_breaks(next.0, (left - 1) as usize, (skipped + 1) as usize, (j - 1) as nat, last);
        assert(rest.skip(j - 1) =~= s.queue.skip(j as int));
        assert(next.0.with_queue(rest.skip(j - 1)) == s.with_queue(s.queue.skip(j as int)));
    }
}

/// A skip in which a stop fails ends at once and takes nothing back: the
/// tracks stopped before are gone, the one that failed is the head, and the
/// error counts those that went.
pub proof fn law_skip_failure_keeps_rest(
    s: SessionView,
    requester: Option<ChannelId>,
    amount: usize,
    stopped: nat,
    failure: EffectResult,
)
    requires
        admitted(s, requester),
        amount > 0,
        s.queue.len() <= usize::MAX,
        stopped < skip_count(amount, s.queue.len()),
        failure != EffectResult::Done,
    ensures
        run(s, skip_start(s, requester, amount), done_then(stopped, failure)) == (
            s.with_queue(s.queue.skip(stopped as int)),
            Step::Finish(
                Err::<Announcement, CommandError>(
                    CommandError::SkipFailed { skipped: stopped as usize },
                ),
            ),
        ),
{
    lemma_skipping_breaks(
        s,
        (skip_count(amount, s.queue.len()) - 1) as usize,
        0,
        stopped,
        failure,
    );
}

/// A skip of nothing is refused whoever asks and whatever is queued, and a
/// skip on an empty queue is refused as well: no command is given.
pub proof fn law_skip_refusals(s: SessionView, requester: Option<ChannelId>, amount: usize)
    ensures
        amount == 0 ==> skip_start(s, requester, amount) == Step::Finish(
            Err::<Announcement, CommandError>(CommandError::ZeroSkip),
        ),
        amount > 0 && admission_of(requester, s.channel) is Ok && s.queue.len() == 0
            ==> skip_start(s, requester, amount) == Step::Finish(
            Err::<Announcement, CommandError>(CommandError::QueueEmpty),
        ),
{
}

/// A clear that has reached position `at` and meets no failure stops every
/// pending track from there on and then cuts the queue to its head.
proof fn lemma_clearing_through(s: SessionView, at: usize)
    requires
        1 <= at < s.queue.len(),
        s.queue.len() <= usize::MAX,
    ensures
        run(
            s,
            Step::Perform(Effect::Stop(s.queue[at as int].handle), Pending::Clearing { at }),
            all_done((s.queue.len() - at) as nat),
        ) == (
            s.with_queue(s.queue.take(1)),
            Step::Finish(Ok::<Announcement, CommandError>(Announcement::Cleared)),
        ),
    decreases s.queue.len() - at,
{
    reveal_with_fuel(run, 3);
    lemma_all_done_skip((s.queue.len() - at) as nat);
    if at + 1 < s.queue.len() {
        lemma_clearing_through(s, (at + 1) as usize);
    }
}

/// A clear that has reached position `at` and whose stop fails after `j`
/// more were carried out ends there, with the queue as it found it.
proof fn lemma_clearing_breaks(s: SessionView, at: usize, j: nat, last: EffectResult)
    requires
        1 <= at,
        at + j < s.queue.len(),
        s.queue.len() <= usize::MAX,
        last != EffectResult::Done,
    ensures
        run(
            s,
            Step::Perform(Effect::Stop(s.queue[at as int].handle), Pending::Clearing { at }),
            done_then(j, last),
        ) == (s, Step::Finish(Err::<Announcement, CommandError>(CommandError::ClearFailed))),
    decreases j,
{
    reveal_with_fuel(run, 3);
    lemma_done_then_skip(j, last);
    if j > 0 {
        lemma_clearing_breaks(s, (at + 1) as usize, (j - 1) as nat, last);
    }
}

/// However a clear that has reached position `at` is answered, the queue is
/// either as it was or cut to its head, and it is cut only together with
/// the report of success.
proof fn lemma_clearing_any(s: SessionView, at: usize, results: Seq<EffectResult>)
    requires
        1 <= at < s.queue.len(),
        s.queue.len() <= usize::MAX,
    ensures
        ({
            let end = run(
                s,
                Step::Perform(Effect::Stop(s.queue[at as int].handle), Pending::Clearing { at }),
                results,
            );
            let cleared = Step::Finish(Ok::<Announcement, CommandError>(Announcement::Cleared));
            &&& end.1 != cleared ==> end.0 == s
            &&& end.1 == cleared ==> end.0 == s.with_queue(s.queue.take(1))
        }),
    decreases results.len(),
{
    reveal_with_fuel(run, 3);
    if results.len() > 0 && results[0] == EffectResult::Done && at + 1 < s.queue.len() {
        lemma_clearing_any(s, (at + 1) as usize, results.skip(1));
    }
}

/// A clear with every stop carried out leaves the head and nothing else;
/// the head is as it was.
pub proof fn law_clear_keeps_head(s: SessionView, requester: Option<ChannelId>)
    requires
        admitted(s, requester),
        s.queue.len() <= usize::MAX,
    ensures
        run(s, clear_start(s, requester), all_done((s.queue.len() - 1) as nat)) == (
            s.with_queue(s.queue.take(1)),
            Step::Finish(Ok::<Announcement, CommandError>(Announcement::Cleared)),
        ),
        run(s, clear_start(s, requester), all_done((s.queue.len() - 1) as nat)).0.queue.len() == 1,
        run(s, clear_start(s, requester), all_done((s.queue.len() - 1) as nat)).0.queue[0]
            == s.queue[0],
{
    reveal_with_fuel(run, 2);
    if s.queue.len() > 1 {
        lemma_clearing_through(s, 1);
    } else {
        assert(s.queue.take(1) =~= s.queue);
    }
}

/// A clear in which a stop fails is taken back as a whole: however many
/// pending tracks were stopped before, the queue is as it was before the
/// clear, head and pending tracks in their places.
pub proof fn law_clear_failure_changes_nothing(
    s: SessionView,
    requester: Option<ChannelId>,
    stopped: nat,
    failure: EffectResult,
)
    requires
        admitted(s, requester),
        s.queue.len() <= usize::MAX,
        stopped + 1 < s.queue.len(),
        failure != EffectResult::Done,
    ensures
        run(s, clear_start(s, requester), done_then(stopped, failure)) == (
            s,
            Step::Finish(Err::<Announcement, CommandError>(CommandError::ClearFailed)),
        ),
{
    lemma_clearing_breaks(s, 1, stopped, failure);
}

/// A clear on an empty queue says that nothing plays and gives no command.
pub proof fn law_clear_of_nothing(s: SessionView, requester: Option<ChannelId>)
    requires
        admission_of(requester, s.channel) is Ok,
        s.queue.len() == 0,
    ensures
        clear_start(s, requester) == Step::Finish(
            Err::<Announcement, CommandError>(CommandError::QueueEmpty),
        ),
{
}

/// A clear is all or nothing. Whatever the pipeline answers and wherever
/// the answers end, the session is either exactly as before or as before
/// with the queue cut to its head, and the latter exactly when the clear
/// reports success: a queue of more than one item is never seen after it.
pub proof fn law_clear_is_all_or_nothing(
    s: SessionView,
    requester: Option<ChannelId>,
    results: Seq<EffectResult>,
)
    requires
        admitted(s, requester),
        s.queue.len() <= usize::MAX,
    ensures
        ({
            let end = run(s, clear_start(s, requester), results);
            let cleared = Step::Finish(Ok::<Announcement, CommandError>(Announcement::Cleared));
            &&& end.1 != cleared ==> end.0 == s
            &&& end.1 == cleared ==> end.0 == s.with_queue(s.queue.take(1)) && end.0.queue.len()
                == 1
        }),
{
    reveal_with_fuel(run, 2);
    if s.queue.len() > 1 {
        lemma_clearing_any(s, 1, results);
    } else {
        assert(s.queue.take(1) =~= s.queue);
    }
}

/// A stop empties the queue whatever the pipeline answers, so the session
/// is idle afterwards.
pub proof fn law_stop_empties(s: SessionView, requester: Option<ChannelId>, answer: EffectResult)
    requires
        admitted(s, requester),
    ensures
        run(s, stop_start(s, requester), seq![answer]) == (
            s.with_queue(Seq::empty()),
            Step::Finish(Ok::<Announcement, CommandError>(Announcement::Stopped)),
        ),
        state_of(run(s, stop_start(s, requester), seq![answer]).0.queue) == PlaybackState::Idle,
{
    reveal_with_fuel(run, 3);
}

/// The mode that is not `mode`.
pub open spec fn other_mode(mode: PlayMode) -> PlayMode {
    match mode {
        PlayMode::Play => PlayMode::Pause,
        PlayMode::Pause => PlayMode::Play,
    }
}

/// A pause command turns the head's mode over and touches nothing else: a
/// playing head is paused, a paused one is resumed.
pub proof fn law_pause_toggles(s: SessionView, requester: Option<ChannelId>, reported: PlayMode)
    requires
        admitted(s, requester),
    ensures
        run(s, pause_start(s, requester), seq![EffectResult::Mode(reported), EffectResult::Done])
            == (
            s.with_queue(with_head_mode(s.queue, other_mode(reported))),
            Step::Finish(
                Ok::<Announcement, CommandError>(
                    if reported == PlayMode::Play {
                        Announcement::Paused
                    } else {
                        Announcement::Resumed
                    },
                ),
            ),
        ),
{
    reveal_with_fuel(run, 4);
    let first = after(s, Pending::QueryingMode, EffectResult::Mode(reported));
    let answers = seq![EffectResult::Mode(reported), EffectResult::Done];
    assert(answers.skip(1) =~= seq![EffectResult::Done]);
    assert(answers.skip(1).skip(1) =~= Seq::<EffectResult>::empty());
    assert(with_head_mode(first.0.queue, other_mode(reported)) =~= with_head_mode(
        s.queue,
        other_mode(reported),
    ));
}

/// Two pause commands on a playing head, each answered truthfully, lead
/// back to the queue they started from.
pub proof fn law_pause_twice_restores(s: SessionView, requester: Option<ChannelId>)
    requires
        admitted(s, requester),
        s.queue[0].mode == PlayMode::Play,
    ensures
        ({
            let paused = run(
                s,
                pause_start(s, requester),
                seq![EffectResult::Mode(PlayMode::Play), EffectResult::Done],
            ).0;
            let resumed = run(
                paused,
                pause_start(paused, requester),
                seq![EffectResult::Mode(PlayMode::Pause), EffectResult::Done],
            ).0;
            &&& state_of(paused.queue) == PlaybackState::Paused
            &&& state_of(resumed.queue) == PlaybackState::Playing
            &&& resumed == s
        }),
{
    law_pause_toggles(s, requester, PlayMode::Play);
    let paused = s.with_queue(with_head_mode(s.queue, PlayMode::Pause));
    law_pause_toggles(paused, requester, PlayMode::Pause);
    assert(with_head_mode(paused.queue, PlayMode::Play) =~= s.queue);
}

/// A volume change that is carried out sets the head's volume and nothing
/// else: every pending track is exactly as before.
pub proof fn law_volume_touches_head_only(
    s: SessionView,
    requester: Option<ChannelId>,
    level: i64,
)
    requires
        admitted(s, requester),
        level >= 0,
    ensures
        ({
            let end = run(s, volume_start(s, requester, level), seq![EffectResult::Done]);
            &&& end.0 == s.with_queue(with_head_volume(s.queue, VolumeLevel { millis: level as u64 }))
            &&& end.1 == Step::Finish(
                Ok::<Announcement, CommandError>(
                    Announcement::VolumeChanged(VolumeLevel { millis: level as u64 }),
                ),
            )
            &&& end.0.queue.len() == s.queue.len()
            &&& end.0.queue[0] == s.queue[0].with_volume(VolumeLevel { millis: level as u64 })
            &&& forall|i: int| 1 <= i < s.queue.len() ==> end.0.queue[i] == s.queue[i]
        }),
{
    reveal_with_fuel(run, 3);
}

/// A negative volume is refused whoever asks and whatever is queued.
pub proof fn law_negative_volume_refused(
    s: SessionView,
    requester: Option<ChannelId>,
    level: i64,
)
    requires
        level < 0,
    ensures
        volume_start(s, requester, level) == Step::Finish(
            Err::<Announcement, CommandError>(CommandError::NegativeVolume),
        ),
{
}

/// No answer to any command disturbs the pending tracks' rest: they stay
/// held and at the standard volume, so a track that becomes the head never
/// carries over a volume that was set for another.
pub proof fn law_pending_stay_at_rest(s: SessionView, pending: Pending, result: EffectResult)
    requires
        pending_at_rest(s.queue),
    ensures
        pending_at_rest(after(s, pending, result).0.queue),
{
}

/// The same of a whole run.
pub proof fn law_run_keeps_rest(s: SessionView, step: Step, results: Seq<EffectResult>)
    requires
        pending_at_rest(s.queue),
    ensures
        pending_at_rest(run(s, step, results).0.queue),
    decreases results.len(),
{
    match step {
        Step::Perform(_, pending) => {
            if results.len() > 0 {
                law_pending_stay_at_rest(s, pending, results[0]);
                let next = after(s, pending, results[0]);
                law_run_keeps_rest(next.0, next.1, results.skip(1));
            }
        },
        _ => {},
    }
}

/// An operation that is refused at its start gives no command, and the same
/// refusal meets every operation on the playing queue: a requester outside
/// the bot's channel first, an empty queue second.
pub proof fn law_refusals_are_uniform(
    s: SessionView,
    requester: Option<ChannelId>,
    amount: usize,
    level: i64,
)
    requires
        barrier(s, requester) is Some,
        amount > 0,
        level >= 0,
    ensures
        ({
            let refusal = Step::Finish(
                Err::<Announcement, CommandError>(barrier(s, requester).unwrap()),
            );
            &&& pause_start(s, requester) == refusal
            &&& skip_start(s, requester, amount) == refusal
            &&& stop_start(s, requester) == refusal
            &&& clear_start(s, requester) == refusal
            &&& volume_start(s, requester, level) == refusal
        }),
{
}

/// A source that arrives at an empty queue is announced as started and is
/// the head, playing at the standard volume.
pub proof fn law_enqueue_on_empty_starts(s: SessionView, source: TrackSource)
    requires
        s.queue.len() == 0,
    ensures
        ({
            let end = after(s, Pending::Enqueueing { source }, EffectResult::Done);
            &&& end.1 == Step::Finish(
                Ok::<Announcement, CommandError>(arrival(true, source.kind, source.metadata)),
            )
            &&& end.0.queue.len() == 1
            &&& end.0.queue[0] == QueueItem::of(source.handle, source.metadata, PlayMode::Play)
            &&& end.0.queue[0].volume == VolumeLevel::standard()
            &&& state_of(end.0.queue) == PlaybackState::Playing
        }),
{
}

/// A source that arrives at a queue with items is announced as queued and
/// stands behind all of them: what was queued before keeps its place and
/// its order, the head its mode. The newcomer is held at the standard
/// volume, whatever the head's volume is.
pub proof fn law_enqueue_keeps_order(s: SessionView, source: TrackSource)
    requires
        s.queue.len() > 0,
    ensures
        ({
            let end = after(s, Pending::Enqueueing { source }, EffectResult::Done);
            &&& end.1 == Step::Finish(
                Ok::<Announcement, CommandError>(arrival(false, source.kind, source.metadata)),
            )
            &&& end.0.queue.len() == s.queue.len() + 1
            &&& forall|i: int| 0 <= i < s.queue.len() ==> end.0.queue[i] == s.queue[i]
            &&& end.0.queue.last() == QueueItem::of(source.handle, source.metadata, PlayMode::Pause)
            &&& end.0.queue.last().volume == VolumeLevel::standard()
            &&& state_of(end.0.queue) == state_of(s.queue)
        }),
{
}

/// A first play in a guild joins the requester's channel and then starts
/// the source: the session sits in that channel and plays.
pub proof fn law_first_play_joins_and_starts(
    guild: GuildId,
    channel: ChannelId,
    source: TrackSource,
)
    ensures
        ({
            let fresh = SessionView::fresh(guild);
            let end = run(
                fresh,
                play_start(fresh, Some(channel), source),
                seq![EffectResult::Done, EffectResult::Done],
            );
            &&& play_start(fresh, Some(channel), source) == Step::Perform(
                Effect::Join { guild, channel },
                Pending::Joining { channel, source },
            )
            &&& end.1 == Step::Finish(
                Ok::<Announcement, CommandError>(arrival(true, source.kind, source.metadata)),
            )
            &&& end.0.guild == guild
            &&& end.0.channel == Some(channel)
            &&& end.0.queue == seq![
                QueueItem::of(source.handle, source.metadata, PlayMode::Play),
            ]
            &&& state_of(end.0.queue) == PlaybackState::Playing
        }),
{
    reveal_with_fuel(run, 4);
    let fresh = SessionView::fresh(guild);
    let answers = seq![EffectResult::Done, EffectResult::Done];
    assert(answers.skip(1) =~= seq![EffectResult::Done]);
    assert(answers.skip(1).skip(1) =~= Seq::<EffectResult>::empty());
    let joined = after(fresh, Pending::Joining { channel, source }, EffectResult::Done);
    let end = after(joined.0, Pending::Enqueueing { source }, EffectResult::Done);
    assert(end.0.queue =~= seq![QueueItem::of(source.handle, source.metadata, PlayMode::Play)]);
}

/// A join that fails ends the operation with the session exactly as it
/// was: nothing is queued and no channel is recorded. A join for its own
/// sake has no source that could be left behind; a join on the way to
/// queueing a source names that source's temporary resource for release.
pub proof fn law_failed_join_changes_nothing(
    s: SessionView,
    channel: ChannelId,
    source: TrackSource,
    answer: EffectResult,
)
    requires
        answer != EffectResult::Done,
    ensures
        after(s, Pending::Connecting { channel }, answer) == (
            s,
            Step::Finish(Err::<Announcement, CommandError>(CommandError::JoinFailed)),
        ),
        after(s, Pending::Joining { channel, source }, answer) == (
            s,
            ended_without(source, CommandError::JoinFailed),
        ),
{
}

/// Joining comes first and by itself: a session that sits in no channel is
/// asked to join before any source exists, and a join that is carried out
/// records the channel and changes nothing else.
pub proof fn law_join_comes_first(s: SessionView, requester: ChannelId, answer: EffectResult)
    requires
        s.channel is None,
    ensures
        join_start(s, Some(requester)) == Step::Perform(
            Effect::Join { guild: s.guild, channel: requester },
            Pending::Connecting { channel: requester },
        ),
        answer == EffectResult::Done ==> run(s, join_start(s, Some(requester)), seq![answer]) == (
            SessionView { channel: Some(requester), ..s },
            Step::Finish(Ok::<Announcement, CommandError>(Announcement::Connected)),
        ),
        answer != EffectResult::Done ==> run(s, join_start(s, Some(requester)), seq![answer]) == (
            s,
            Step::Finish(Err::<Announcement, CommandError>(CommandError::JoinFailed)),
        ),
{
    reveal_with_fuel(run, 3);
}

/// Speech that exists is never joined for: its first command, if it gets
/// one, hands it to the queue of a session that sits in the requester's
/// channel. Everywhere else the speech is given up at once and its
/// temporary resource named for release.
pub proof fn law_speech_never_joins(
    s: SessionView,
    requester: Option<ChannelId>,
    source: TrackSource,
    resource: String,
)
    requires
        source.temp_resource == Some(resource),
    ensures
        s.channel is Some && requester == s.channel ==> speech_start(s, requester, source)
            == Step::Perform(Effect::Enqueue(source.handle), Pending::Enqueueing { source }),
        !(s.channel is Some && requester == s.channel) ==> (speech_start(s, requester, source)
            matches Step::Release(named, Err(_)) && named == resource),
{
}

/// A temporary resource is never lost. However the queueing of a source
/// that has one is answered, it ends either with the track queued and the
/// resource on the session's books, to be released when the track has
/// ended, or with the resource named for release; it never ends otherwise.
pub proof fn law_resource_is_kept_or_released(
    s: SessionView,
    requester: Option<ChannelId>,
    source: TrackSource,
    resource: String,
    results: Seq<EffectResult>,
    joins: bool,
)
    requires
        source.temp_resource == Some(resource),
    ensures
        ({
            let start = if joins {
                play_start(s, requester, source)
            } else {
                speech_start(s, requester, source)
            };
            let end = run(s, start, results);
            match end.1 {
                Step::Perform(_, _) => true,
                Step::Finish(reply) => reply is Ok && end.0.resources == s.resources.push(
                    TempResource { handle: source.handle, path: resource },
                ),
                Step::Release(named, reply) => named == resource && reply is Err && end.0.queue
                    == s.queue && end.0.resources == s.resources,
            }
        }),
{
    reveal_with_fuel(run, 4);
    let start = if joins {
        play_start(s, requester, source)
    } else {
        speech_start(s, requester, source)
    };
    if let Step::Perform(_, pending) = start {
        if results.len() > 0 {
            let next = after(s, pending, results[0]);
            if let Step::Perform(_, then) = next.1 {
                if results.len() > 1 {
                    let last = after(next.0, then, results[1]);
                    assert(!(last.1 is Perform));
                }
            }
        }
    }
}

/// A requester without a voice channel is refused by every operation, and
/// so is one in another channel than the bot's; one in the bot's channel
/// passes, and while the bot sits in no channel everyone in a channel does.
pub proof fn law_admission_is_uniform(
    s: SessionView,
    requester: Option<ChannelId>,
    source: TrackSource,
)
    ensures
        requester is None ==> {
            let refusal = CommandError::Admission(AdmissionError::NotInVoiceChannel);
            &&& barrier(s, requester) == Some(refusal)
            &&& join_start(s, requester) == Step::Finish(
                Err::<Announcement, CommandError>(refusal),
            )
            &&& play_start(s, requester, source) == ended_without(source, refusal)
            &&& speech_start(s, requester, source) == ended_without(source, refusal)
        },
        requester is Some && s.channel is Some && requester != s.channel ==> {
            let refusal = CommandError::Admission(AdmissionError::DifferentChannel);
            &&& barrier(s, requester) == Some(refusal)
            &&& join_start(s, requester) == Step::Finish(
                Err::<Announcement, CommandError>(refusal),
            )
            &&& play_start(s, requester, source) == ended_without(source, refusal)
            &&& speech_start(s, requester, source) == ended_without(source, refusal)
        },
        requester is Some && (s.channel is None || requester == s.channel) ==> {
            &&& !(barrier(s, requester) matches Some(CommandError::Admission(_)))
            &&& play_start(s, requester, source) is Perform
            &&& !(join_start(s, requester) matches Step::Finish(Err(_)))
        },
{
}

/// A track that starts or ends by itself leaves the pending tracks at rest.
pub proof fn law_observing_keeps_rest(s: SessionView, event: TrackEvent)
    requires
        pending_at_rest(s.queue),
    ensures
        pending_at_rest(observed(s, event).queue),
{
}

/// After a stop the listing of the queue is empty, under any limits.
pub proof fn law_stop_then_view_is_empty(
    s: SessionView,
    requester: Option<ChannelId>,
    answer: EffectResult,
    limits: ViewLimits,
)
    requires
        admitted(s, requester),
    ensures
        listing(run(s, stop_start(s, requester), seq![answer]).0.queue, limits) == Seq::<
            ViewEntry,
        >::empty(),
{
    law_stop_empties(s, requester, answer);
    assert(listing(Seq::<QueueItem>::empty(), limits) =~= Seq::<ViewEntry>::empty());
}

/// A queue of up to ten items is listed in full by displays; of a longer
/// one they list the first eight, the mark, and the last item under its own
/// number.
pub proof fn law_display_caps_long_queues(items: Seq<QueueItem>)
    requires
        items.len() <= usize::MAX,
    ensures
        ({
            let shown = listing(items, ViewLimits::standard());
            &&& items.len() <= 10 ==> {
                &&& shown.len() == items.len()
                &&& forall|i: int| 0 <= i < items.len() ==> shown[i] == entry_at(items, i)
            }
            &&& items.len() > 10 ==> {
                &&& shown.len() == 10
                &&& forall|i: int| 0 <= i < 8 ==> shown[i] == entry_at(items, i)
                &&& shown[8] == ViewEntry::Ellipsis
                &&& shown[9] == entry_at(items, items.len() - 1)
            }
        }),
{
}

/// Every session is filed under its own guild.
pub open spec fn well_filed(sessions: Map<GuildId, SessionView>) -> bool {
    forall|guild: GuildId| #[trigger]
        sessions.dom().contains(guild) ==> sessions[guild].guild == guild
}

/// What happens in one guild leaves every other guild as it was: a guild
/// that had a session has the same one, a guild that had none has none.
pub proof fn law_guilds_are_independent(
    sessions: Map<GuildId, SessionView>,
    guild: GuildId,
    other: GuildId,
    pending: Pending,
    result: EffectResult,
)
    requires
        other != guild,
    ensures
        ({
            let next = registry_after(sessions, guild, pending, result).0;
            &&& next.dom().contains(other) == sessions.dom().contains(other)
            &&& sessions.dom().contains(other) ==> next[other] == sessions[other]
        }),
{
}

/// A guild never has more than the one session that is filed under it, and
/// no answer files a session under another guild than its own.
pub proof fn law_sessions_stay_filed(
    sessions: Map<GuildId, SessionView>,
    guild: GuildId,
    pending: Pending,
    result: EffectResult,
)
    requires
        well_filed(sessions),
    ensures
        well_filed(registry_after(sessions, guild, pending, result).0),
{
    let next = registry_after(sessions, guild, pending, result).0;
    assert forall|g: GuildId| #[trigger] next.dom().contains(g) implies next[g].guild == g by {
        if g != guild {
            assert(sessions.dom().contains(g));
        }
    }
}

/// A first join that fails leaves the guild without a session, so that the
/// next attempt starts from nothing.
pub proof fn law_failed_first_join_registers_nothing(
    sessions: Map<GuildId, SessionView>,
    guild: GuildId,
    channel: ChannelId,
    source: TrackSource,
    answer: EffectResult,
)
    requires
        !sessions.dom().contains(guild),
        answer != EffectResult::Done,
    ensures
        registry_after(sessions, guild, Pending::Connecting { channel }, answer) == (
            sessions,
            Step::Finish(Err::<Announcement, CommandError>(CommandError::JoinFailed)),
        ),
        registry_after(sessions, guild, Pending::Joining { channel, source }, answer) == (
            sessions,
            ended_without(source, CommandError::JoinFailed),
        ),
{
}

/// At shutdown every session is stopped: each guild keeps its session, and
/// every session is idle.
pub proof fn law_shutdown_idles_everyone(sessions: Map<GuildId, SessionView>, guild: GuildId)
    requires
        sessions.dom().contains(guild),
    ensures
        all_stopped(sessions).dom() == sessions.dom(),
        state_of(all_stopped(sessions)[guild].queue) == PlaybackState::Idle,
        all_stopped(sessions)[guild].channel == sessions[guild].channel,
{
    assert(all_stopped(sessions).dom() =~= sessions.dom());
}

/// The commands that the pipeline answered in the course of a run, in the
/// order in which they were given.
pub open spec fn commands_of(s: SessionView, step: Step, results: Seq<EffectResult>) -> Seq<Effect>
    decreases results.len(),
{
    match step {
        Step::Perform(effect, pending) => if results.len() == 0 {
            Seq::empty()
        } else {
            let next = after(s, pending, results[0]);
            seq![effect] + commands_of(next.0, next.1, results.skip(1))
        },
        _ => Seq::empty(),
    }
}

/// Stops of the `count` items of `queue` from position `from` on, in order.
pub open spec fn stops_of(queue: Seq<QueueItem>, from: int, count: nat) -> Seq<Effect> {
    Seq::new(count, |i: int| Effect::Stop(queue[from + i].handle))
}

proof fn lemma_skipping_commands(s: SessionView, left: usize, skipped: usize)
    requires
        left < s.queue.len(),
        skipped + left + 1 <= usize::MAX,
    ensures
        left + 1 == s.queue.len() ==> commands_of(
            s,
            Step::Perform(Effect::Stop(s.queue[0].handle), Pending::Skipping { left, skipped }),
            all_done((left + 1) as nat),
        ) == stops_of(s.queue, 0, (left + 1) as nat),
        left + 1 < s.queue.len() ==> commands_of(
            s,
            Step::Perform(Effect::Stop(s.queue[0].handle), Pending::Skipping { left, skipped }),
            all_done((left + 2) as nat),
        ) == stops_of(s.queue, 0, (left + 1) as nat).push(Effect::Play(s.queue[left + 1].handle)),
    decreases left,
{
    reveal_with_fuel(commands_of, 3);
    let next = after(s, Pending::Skipping { left, skipped }, EffectResult::Done);
    let rest = s.queue.skip(1);
    assert(next.0 == s.with_queue(rest));
    if left + 1 == s.queue.len() {
        lemma_all_done_skip((left + 1) as nat);
        if left > 0 {
            lemma_skipping_commands(next.0, (left - 1) as usize, (skipped + 1) as usize);
            assert(seq![Effect::Stop(s.queue[0].handle)] + stops_of(rest, 0, left as nat)
                =~= stops_of(s.queue, 0, (left + 1) as nat));
        } else {
            assert(seq![Effect::Stop(s.queue[0].handle)] + Seq::<Effect>::empty() =~= stops_of(
                s.queue,
                0,
                1,
            ));
        }
    } else {
        lemma_all_done_skip((left + 2) as nat);
        if left > 0 {
            lemma_skipping_commands(next.0, (left - 1) as usize, (skipped + 1) as usize);
            assert(seq![Effect::Stop(s.queue[0].handle)] + stops_of(rest, 0, left as nat).push(
                Effect::Play(rest[left as int].handle),
            ) =~= stops_of(s.queue, 0, (left + 1) as nat).push(
                Effect::Play(s.queue[left + 1].handle),
            ));
        } else {
            lemma_all_done_skip(1);
            assert(all_done(0).len() == 0);
            assert(seq![Effect::Stop(s.queue[0].handle)] + (seq![
                Effect::Play(rest[0].handle),
            ] + Seq::<Effect>::empty()) =~= stops_of(s.queue, 0, 1).push(
                Effect::Play(s.queue[1].handle),
            ));
        }
    }
}

/// A skip stops the tracks it takes off one by one, from the head on and in
/// the order of the queue, and does nothing else but start the new head,
/// if one is left.
pub proof fn law_skip_stops_in_order(s: SessionView, requester: Option<ChannelId>, amount: usize)
    requires
        admitted(s, requester),
        amount > 0,
        s.queue.len() <= usize::MAX,
    ensures
        amount >= s.queue.len() ==> commands_of(
            s,
            skip_start(s, requester, amount),
            all_done(s.queue.len()),
        ) == stops_of(s.queue, 0, s.queue.len()),
        amount < s.queue.len() ==> commands_of(
            s,
            skip_start(s, requester, amount),
            all_done((amount + 1) as nat),
        ) == stops_of(s.queue, 0, amount as nat).push(Effect::Play(s.queue[amount as int].handle)),
{
    lemma_skipping_commands(s, (skip_count(amount, s.queue.len()) - 1) as usize, 0);
}

proof fn lemma_skipping_breaks_commands(
    s: SessionView,
    left: usize,
    skipped: usize,
    j: nat,
    last: EffectResult,
)
    requires
        left < s.queue.len(),
        j <= left,
        skipped + left + 1 <= usize::MAX,
        last != EffectResult::Done,
    ensures
        commands_of(
            s,
            Step::Perform(Effect::Stop(s.queue[0].handle), Pending::Skipping { left, skipped }),
            done_then(j, last),
        ) == stops_of(s.queue, 0, j + 1),
    decreases j,
{
    reveal_with_fuel(commands_of, 3);
    lemma_done_then_skip(j, last);
    if j == 0 {
        assert(seq![Effect::Stop(s.queue[0].handle)] + Seq::<Effect>::empty() =~= stops_of(
            s.queue,
            0,
            1,
        ));
    } else {
        let next = after(s, Pending::Skipping { left, skipped }, EffectResult::Done);
        let rest = s.queue.skip(1);
        assert(next.0 == s.with_queue(rest));
        lemma_skipping_breaks_commands(
            next.0,
            (left - 1) as usize,
            (skipped + 1) as usize,
            (j - 1) as nat,
            last,
        );
        assert(seq![Effect::Stop(s.queue[0].handle)] + stops_of(rest, 0, j) =~= stops_of(
            s.queue,
            0,
            j + 1,
        ));
    }
}

/// After a stop that failed, a skip gives no further command: the tracks
/// behind the one that would not stop are neither stopped nor started.
pub proof fn law_skip_gives_up_at_failure(
    s: SessionView,
    requester: Option<ChannelId>,
    amount: usize,
    stopped: nat,
    failure: EffectResult,
)
    requires
        admitted(s, requester),
        amount > 0,
        s.queue.len() <= usize::MAX,
        stopped < skip_count(amount, s.queue.len()),
        failure != EffectResult::Done,
    ensures
        commands_of(s, skip_start(s, requester, amount), done_then(stopped, failure)) == stops_of(
            s.queue,
            0,
            stopped + 1,
        ),
{
    lemma_skipping_breaks_commands(
        s,
        (skip_count(amount, s.queue.len()) - 1) as usize,
        0,
        stopped,
        failure,
    );
}

proof fn lemma_clearing_commands(s: SessionView, at: usize, j: nat, last: EffectResult)
    requires
        1 <= at,
        at + j < s.queue.len(),
        s.queue.len() <= usize::MAX,
        last == EffectResult::Done ==> at + j + 1 == s.queue.len(),
    ensures
        commands_of(
            s,
            Step::Perform(Effect::Stop(s.queue[at as int].handle), Pending::Clearing { at }),
            done_then(j, last),
        ) == stops_of(s.queue, at as int, j + 1),
    decreases j,
{
    reveal_with_fuel(commands_of, 3);
    lemma_done_then_skip(j, last);
    if j == 0 {
        assert(seq![Effect::Stop(s.queue[at as int].handle)] + Seq::<Effect>::empty()
            =~= stops_of(s.queue, at as int, 1));
    } else {
        lemma_clearing_commands(s, (at + 1) as usize, (j - 1) as nat, last);
        assert(seq![Effect::Stop(s.queue[at as int].handle)] + stops_of(s.queue, at + 1, j)
            =~= stops_of(s.queue, at as int, j + 1));
    }
}

/// A clear stops the pending tracks one by one, in the order of the queue,
/// and never the head; after a stop that failed it gives no further
/// command.
pub proof fn law_clear_stops_pending_only(
    s: SessionView,
    requester: Option<ChannelId>,
    stopped: nat,
    last: EffectResult,
)
    requires
        admitted(s, requester),
        s.queue.len() <= usize::MAX,
        stopped + 1 < s.queue.len(),
        last == EffectResult::Done ==> stopped + 2 == s.queue.len(),
    ensures
        commands_of(s, clear_start(s, requester), done_then(stopped, last)) == stops_of(
            s.queue,
            1,
            stopped + 1,
        ),
{
    lemma_clearing_commands(s, 1, stopped, last);
}

} // verus!
