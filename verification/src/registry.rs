//! The sessions of all guilds: at most one per guild, made when a guild is
//! first joined and kept until shutdown.

use vstd::prelude::*;
use crate::admission::GuildId;
use crate::protocol::{end_without, ended_without, CommandError, EffectResult, Pending, Step};
use crate::session::{
    after,
    is_upkeep_for,
    observed,
    SessionView,
    TrackEvent,
    Upkeep,
    VoiceSession,
};
use crate::track::QueueItem;

verus! {

/// No two of the sessions belong to one guild.
pub open spec fn one_per_guild(sessions: Seq<VoiceSession>) -> bool {
    forall|i: int, j: int|
        0 <= i < j < sessions.len() ==> (#[trigger] sessions[i])@.guild != (
        #[trigger] sessions[j])@.guild
}

/// Whether one of the sessions belongs to `guild`.
pub open spec fn holds(sessions: Seq<VoiceSession>, guild: GuildId) -> bool {
    exists|i: int| 0 <= i < sessions.len() && (#[trigger] sessions[i])@.guild == guild
}

/// The place of a session of `guild` among the sessions.
pub open spec fn place(sessions: Seq<VoiceSession>, guild: GuildId) -> int {
    choose|i: int| 0 <= i < sessions.len() && (#[trigger] sessions[i])@.guild == guild
}

/// The sessions by guild.
pub open spec fn by_guild(sessions: Seq<VoiceSession>) -> Map<GuildId, SessionView> {
    Map::new(
        |guild: GuildId| holds(sessions, guild),
        |guild: GuildId| sessions[place(sessions, guild)]@,
    )
}

/// The session that an answer to `pending` applies to: the guild's own, or
/// a fresh one where a first join succeeded.
pub open spec fn session_for(
    sessions: Map<GuildId, SessionView>,
    guild: GuildId,
    pending: Pending,
    result: EffectResult,
) -> Option<SessionView> {
    if sessions.dom().contains(guild) {
        Some(sessions[guild])
    } else if (pending is Joining || pending is Connecting) && result == EffectResult::Done {
        Some(SessionView::fresh(guild))
    } else {
        None
    }
}

/// How an answer ends that finds no session to apply to: as a failed join
/// where a join was pending, else as a refusal for want of a session. A
/// source that came with it has its temporary resource named for release.
pub open spec fn ended_without_session(pending: Pending) -> Step {
    match pending {
        Pending::Joining { source, .. } => ended_without(source, CommandError::JoinFailed),
        Pending::Connecting { .. } => Step::Finish(Err(CommandError::JoinFailed)),
        Pending::Enqueueing { source } => ended_without(source, CommandError::NoActiveSession),
        _ => Step::Finish(Err(CommandError::NoActiveSession)),
    }
}

/// The sessions and the next step once the pipeline has answered the command
/// that `pending` waits for in `guild`. A join that failed leaves no session
/// behind; any other answer for a guild without a session is refused.
pub open spec fn registry_after(
    sessions: Map<GuildId, SessionView>,
    guild: GuildId,
    pending: Pending,
    result: EffectResult,
) -> (Map<GuildId, SessionView>, Step) {
    match session_for(sessions, guild, pending, result) {
        Some(session) => {
            let next = after(session, pending, result);
            (sessions.insert(guild, next.0), next.1)
        },
        None => (sessions, ended_without_session(pending)),
    }
}

/// Every session as it is, but with nothing queued.
pub open spec fn all_stopped(sessions: Map<GuildId, SessionView>) -> Map<GuildId, SessionView> {
    Map::new(
        |guild: GuildId| sessions.dom().contains(guild),
        |guild: GuildId| sessions[guild].with_queue(Seq::<QueueItem>::empty()),
    )
}

proof fn lemma_place(sessions: Seq<VoiceSession>, i: int)
    requires
        one_per_guild(sessions),
        0 <= i < sessions.len(),
    ensures
        holds(sessions, sessions[i]@.guild),
        place(sessions, sessions[i]@.guild) == i,
        by_guild(sessions).dom().contains(sessions[i]@.guild),
        by_guild(sessions)[sessions[i]@.guild] == sessions[i]@,
{
    let guild = sessions[i]@.guild;
    let p = place(sessions, guild);
    assert(0 <= p < sessions.len() && sessions[p]@.guild == guild);
    if p < i {
        assert(sessions[p]@.guild != sessions[i]@.guild);
    } else if i < p {
        assert(sessions[i]@.guild != sessions[p]@.guild);
    }
}

/// Replacing a session by one of the same guild replaces it in the map.
proof fn lemma_replace(sessions: Seq<VoiceSession>, i: int, session: VoiceSession)
    requires
        one_per_guild(sessions),
        0 <= i < sessions.len(),
        session@.guild == sessions[i]@.guild,
    ensures
        one_per_guild(sessions.update(i, session)),
        by_guild(sessions.update(i, session)) == by_guild(sessions).insert(
            session@.guild,
            session@,
        ),
{
    let after = sessions.update(i, session);
    assert(one_per_guild(after)) by {
        assert forall|a: int, b: int| 0 <= a < b < after.len() implies (#[trigger] after[a])@.guild
            != (#[trigger] after[b])@.guild by {
            assert(sessions[a]@.guild != sessions[b]@.guild);
        }
    }
    assert forall|guild: GuildId| holds(after, guild) == holds(sessions, guild) by {
        if holds(after, guild) {
            let p = place(after, guild);
            assert(sessions[p]@.guild == guild);
        }
        if holds(sessions, guild) {
            let p = place(sessions, guild);
            assert(after[p]@.guild == guild);
        }
    }
    assert forall|guild: GuildId| holds(after, guild) implies by_guild(after)[guild] == by_guild(
        sessions,
    ).insert(session@.guild, session@)[guild] by {
        let p = place(after, guild);
        lemma_place(after, p);
        lemma_place(sessions, p);
    }
    lemma_place(sessions, i);
    assert(by_guild(after) =~= by_guild(sessions).insert(session@.guild, session@));
}

/// Adding a session of a guild that has none adds it to the map.
proof fn lemma_add(sessions: Seq<VoiceSession>, session: VoiceSession)
    requires
        one_per_guild(sessions),
        !holds(sessions, session@.guild),
    ensures
        one_per_guild(sessions.push(session)),
        by_guild(sessions.push(session)) == by_guild(sessions).insert(session@.guild, session@),
{
    let after = sessions.push(session);
    assert(one_per_guild(after)) by {
        assert forall|a: int, b: int| 0 <= a < b < after.len() implies (#[trigger] after[a])@.guild
            != (#[trigger] after[b])@.guild by {
            if b < sessions.len() {
                assert(sessions[a]@.guild != sessions[b]@.guild);
            } else {
                assert(sessions[a]@.guild != session@.guild);
            }
        }
    }
    assert forall|guild: GuildId| holds(after, guild) == (holds(sessions, guild) || guild
        == session@.guild) by {
        if holds(after, guild) {
            let p = place(after, guild);
            if p < sessions.len() {
                assert(sessions[p]@.guild == guild);
            }
        }
        if holds(sessions, guild) {
            let p = place(sessions, guild);
            assert(after[p]@.guild == guild);
        }
        if guild == session@.guild {
            assert(after[sessions.len() as int]@.guild == guild);
        }
    }
    assert forall|guild: GuildId| holds(after, guild) implies by_guild(after)[guild] == by_guild(
        sessions,
    ).insert(session@.guild, session@)[guild] by {
        let p = place(after, guild);
        lemma_place(after, p);
        if p < sessions.len() {
            lemma_place(sessions, p);
        }
    }
    assert(by_guild(after) =~= by_guild(sessions).insert(session@.guild, session@));
}

/// The sessions of all guilds, at most one per guild. A session, once made,
/// stays until the process ends.
pub struct VoiceSessionRegistry {
    sessions: Vec<VoiceSession>,
}

impl View for VoiceSessionRegistry {
    type V = Map<GuildId, SessionView>;

    closed spec fn view(&self) -> Map<GuildId, SessionView> {
        by_guild(self.sessions@)
    }
}

impl VoiceSessionRegistry {
    #[verifier::type_invariant]
    spec fn distinct(self) -> bool {
        one_per_guild(self.sessions@)
    }

    /// A registry without sessions.
    pub fn new() -> (r: VoiceSessionRegistry)
        ensures
            r@ == Map::<GuildId, SessionView>::empty(),
    {
        let r = VoiceSessionRegistry { sessions: Vec::new() };
        assert(r@ =~= Map::<GuildId, SessionView>::empty());
        r
    }

    /// The number of guilds with a session.
    pub fn len(&self) -> (n: usize)
        ensures
            n == self@.dom().len(),
            self@.dom().finite(),
    {
        proof {
            use_type_invariant(self);
            lemma_count(self.sessions@);
        }
        self.sessions.len()
    }

    /// The place of the guild's session among `sessions`.
    fn find(sessions: &Vec<VoiceSession>, guild: GuildId) -> (p: Option<usize>)
        ensures
            p is Some ==> p.unwrap() < sessions@.len() && sessions@[p.unwrap() as int]@.guild
                == guild,
            p is None ==> !holds(sessions@, guild),
    {
        let mut i: usize = 0;
        while i < sessions.len()
            invariant
                i <= sessions@.len(),
                forall|j: int| 0 <= j < i ==> (#[trigger] sessions@[j])@.guild != guild,
            decreases sessions@.len() - i,
        {
            if sessions[i].guild().0 == guild.0 {
                return Some(i);
            }
            i += 1;
        }
        None
    }

    /// The session of a guild, if it has one. Every session found here
    /// belongs to the guild it is filed under.
    pub fn get(&self, guild: GuildId) -> (s: Option<&VoiceSession>)
        ensures
            s is Some <==> self@.dom().contains(guild),
            s is Some ==> s.unwrap()@ == self@[guild] && s.unwrap()@.guild == guild,
    {
        proof {
            use_type_invariant(self);
        }
        match Self::find(&self.sessions, guild) {
            Some(i) => {
                proof {
                    lemma_place(self.sessions@, i as int);
                }
                Some(&self.sessions[i])
            },
            None => None,
        }
    }

    /// Resumes the operation that `pending` stands for in `guild` with the
    /// pipeline's answer to its last command. The guild's session is made
    /// here when its first join has succeeded.
    pub fn advance(&mut self, guild: GuildId, pending: Pending, result: EffectResult) -> (step:
        Step)
        ensures
            (final(self)@, step) == registry_after(old(self)@, guild, pending, result),
    {
        proof {
            use_type_invariant(&*self);
        }
        let mut sessions: Vec<VoiceSession> = Vec::new();
        core::mem::swap(&mut self.sessions, &mut sessions);
        let ghost before = sessions@;
        let step = match Self::find(&sessions, guild) {
            Some(i) => {
                proof {
                    lemma_place(before, i as int);
                }
                let mut session = sessions.remove(i);
                let step = session.advance(pending, result);
                proof {
                    lemma_replace(before, i as int, session);
                }
                sessions.insert(i, session);
                assert(sessions@ =~= before.update(i as int, session));
                step
            },
            None => {
                let joined = match (&pending, &result) {
                    (Pending::Joining { .. }, EffectResult::Done) => true,
                    (Pending::Connecting { .. }, EffectResult::Done) => true,
                    _ => false,
                };
                if joined {
                    let mut session = VoiceSession::new(guild);
                    let step = session.advance(pending, result);
                    proof {
                        lemma_add(before, session);
                    }
                    sessions.push(session);
                    step
                } else {
                    match pending {
                        Pending::Joining { source, .. } => end_without(
                            source,
                            CommandError::JoinFailed,
                        ),
                        Pending::Connecting { .. } => Step::Finish(Err(CommandError::JoinFailed)),
                        Pending::Enqueueing { source } => end_without(
                            source,
                            CommandError::NoActiveSession,
                        ),
                        _ => Step::Finish(Err(CommandError::NoActiveSession)),
                    }
                }
            },
        };
        self.sessions = sessions;
        step
    }

    /// Empties every queue, for the end of the process, and names the guilds
    /// whose pipelines are to be told to stop: each guild with a session,
    /// once.
    pub fn shutdown(&mut self) -> (guilds: Vec<GuildId>)
        ensures
            final(self)@ == all_stopped(old(self)@),
            guilds@.len() == old(self)@.dom().len(),
            guilds@.no_duplicates(),
            forall|guild: GuildId| guilds@.contains(guild) <==> old(self)@.dom().contains(guild),
    {
        proof {
            use_type_invariant(&*self);
        }
        let mut sessions: Vec<VoiceSession> = Vec::new();
        core::mem::swap(&mut self.sessions, &mut sessions);
        let ghost before = sessions@;
        let mut guilds: Vec<GuildId> = Vec::new();
        let mut i: usize = 0;
        while i < sessions.len()
            invariant
                i <= sessions@.len(),
                sessions@.len() == before.len(),
                guilds@.len() == i,
                forall|j: int| 0 <= j < i ==> guilds@[j] == (#[trigger] before[j])@.guild,
                forall|j: int|
                    0 <= j < i ==> (#[trigger] sessions@[j])@ == before[j]@.with_queue(
                        Seq::<QueueItem>::empty(),
                    ),
                forall|j: int| i <= j < before.len() ==> (#[trigger] sessions@[j]) == before[j],
            decreases sessions@.len() - i,
        {
            let mut session = sessions.remove(i);
            session.halt();
            guilds.push(session.guild());
            sessions.insert(i, session);
            i += 1;
        }
        proof {
            lemma_all_stopped(before, sessions@);
            lemma_count(before);
            assert(guilds@.no_duplicates()) by {
                assert forall|a: int, b: int|
                    0 <= a < guilds@.len() && 0 <= b < guilds@.len() && a != b implies guilds@[a]
                    != guilds@[b] by {
                    if a < b {
                        assert(before[a]@.guild != before[b]@.guild);
                    } else {
                        assert(before[b]@.guild != before[a]@.guild);
                    }
                }
            }
            assert forall|guild: GuildId| guilds@.contains(guild) <==> by_guild(
                before,
            ).dom().contains(guild) by {
                if guilds@.contains(guild) {
                    let a = choose|a: int| 0 <= a < guilds@.len() && guilds@[a] == guild;
                    assert(before[a]@.guild == guild);
                }
                if holds(before, guild) {
                    let p = place(before, guild);
                    assert(guilds@[p] == guild);
                }
            }
        }
        self.sessions = sessions;
        guilds
    }

    /// Takes note, in the session of `guild`, of a track that started or
    /// ended by itself. Without a session there is nothing to do.
    pub fn observe(&mut self, guild: GuildId, event: TrackEvent) -> (upkeep: Upkeep)
        ensures
            !old(self)@.dom().contains(guild) ==> final(self)@ == old(self)@ && upkeep
                == Upkeep::Nothing,
            old(self)@.dom().contains(guild) ==> final(self)@ == old(self)@.insert(
                guild,
                observed(old(self)@[guild], event),
            ) && is_upkeep_for(old(self)@[guild], event, upkeep),
    {
        proof {
            use_type_invariant(&*self);
        }
        let mut sessions: Vec<VoiceSession> = Vec::new();
        core::mem::swap(&mut self.sessions, &mut sessions);
        let ghost before = sessions@;
        let upkeep = match Self::find(&sessions, guild) {
            Some(i) => {
                proof {
                    lemma_place(before, i as int);
                }
                let mut session = sessions.remove(i);
                let upkeep = session.observe(event);
                proof {
                    lemma_replace(before, i as int, session);
                }
                sessions.insert(i, session);
                assert(sessions@ =~= before.update(i as int, session));
                upkeep
            },
            None => Upkeep::Nothing,
        };
        self.sessions = sessions;
        upkeep
    }
}

/// Emptying every queue in place empties every queue in the map.
proof fn lemma_all_stopped(before: Seq<VoiceSession>, after: Seq<VoiceSession>)
    requires
        one_per_guild(before),
        after.len() == before.len(),
        forall|j: int|
            0 <= j < before.len() ==> (#[trigger] after[j])@ == before[j]@.with_queue(
                Seq::<QueueItem>::empty(),
            ),
    ensures
        one_per_guild(after),
        by_guild(after) == all_stopped(by_guild(before)),
{
    assert(one_per_guild(after)) by {
        assert forall|a: int, b: int| 0 <= a < b < after.len() implies (#[trigger] after[a])@.guild
            != (#[trigger] after[b])@.guild by {
            assert(before[a]@.guild != before[b]@.guild);
        }
    }
    assert forall|guild: GuildId| holds(after, guild) == holds(before, guild) by {
        if holds(after, guild) {
            let p = place(after, guild);
            assert(before[p]@.guild == guild);
        }
        if holds(before, guild) {
            let p = place(before, guild);
            assert(after[p]@.guild == guild);
        }
    }
    assert forall|guild: GuildId| holds(after, guild) implies by_guild(after)[guild]
        == all_stopped(by_guild(before))[guild] by {
        let p = place(after, guild);
        lemma_place(after, p);
        lemma_place(before, p);
    }
    assert(by_guild(after) =~= all_stopped(by_guild(before)));
}

proof fn lemma_count(sessions: Seq<VoiceSession>)
    requires
        one_per_guild(sessions),
    ensures
        by_guild(sessions).dom().finite(),
        by_guild(sessions).dom().len() == sessions.len(),
    decreases sessions.len(),
{
    if sessions.len() == 0 {
        assert(by_guild(sessions).dom() =~= Set::<GuildId>::empty());
    } else {
        let front = sessions.drop_last();
        let last = sessions.last();
        assert(one_per_guild(front)) by {
            assert forall|a: int, b: int| 0 <= a < b < front.len() implies (
            #[trigger] front[a])@.guild != (#[trigger] front[b])@.guild by {
                assert(sessions[a]@.guild != sessions[b]@.guild);
            }
        }
        assert(!holds(front, last@.guild)) by {
            if holds(front, last@.guild) {
                let p = place(front, last@.guild);
                assert(sessions[p]@.guild != sessions[sessions.len() - 1]@.guild);
            }
        }
        lemma_count(front);
        lemma_add(front, last);
        assert(front.push(last) =~= sessions);
        assert(by_guild(sessions).dom() =~= by_guild(front).dom().insert(last@.guild));
    }
}

} // verus!
