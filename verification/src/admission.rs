//! Who may control playback: only requesters that share the bot's voice channel.

use vstd::prelude::*;

verus! {

/// Identifies a guild, the unit of session isolation.
#[derive(Clone, Copy, Debug, PartialEq, Eq, Structural)]
pub struct GuildId(pub u64);

/// Identifies a voice channel.
#[derive(Clone, Copy, Debug, PartialEq, Eq, Structural)]
pub struct ChannelId(pub u64);

/// Why a requester is refused.
#[derive(Clone, Copy, Debug, PartialEq, Eq, Structural)]
pub enum AdmissionError {
    /// The requester sits in no voice channel.
    NotInVoiceChannel,
    /// The bot is connected to another channel than the requester's.
    DifferentChannel,
}

/// The two facts an admission decision rests on, gathered per invocation.
#[derive(Clone, Copy, Debug, PartialEq, Eq, Structural)]
pub struct AdmissionContext {
    pub requester_channel: Option<ChannelId>,
    pub bot_channel: Option<ChannelId>,
}

/// The admission rule: a requester without a channel is refused; one in
/// another channel than the bot's is refused; everyone else is admitted,
/// also while the bot has no channel yet.
pub open spec fn admission_of(
    requester_channel: Option<ChannelId>,
    bot_channel: Option<ChannelId>,
) -> Result<(), AdmissionError> {
    match (requester_channel, bot_channel) {
        (None, _) => Err(AdmissionError::NotInVoiceChannel),
        (Some(r), Some(b)) => if r == b {
            Ok(())
        } else {
            Err(AdmissionError::DifferentChannel)
        },
        (Some(_), None) => Ok(()),
    }
}

impl AdmissionContext {
    /// Puts the two channels side by side.
    pub fn new(requester_channel: Option<ChannelId>, bot_channel: Option<ChannelId>) -> (ctx: Self)
        ensures
            ctx.requester_channel == requester_channel,
            ctx.bot_channel == bot_channel,
    {
        AdmissionContext { requester_channel, bot_channel }
    }

    /// Decides whether the requester may mutate the session.
    pub fn check(&self) -> (r: Result<(), AdmissionError>)
        ensures
            r == admission_of(self.requester_channel, self.bot_channel),
            r == Err::<(), AdmissionError>(AdmissionError::NotInVoiceChannel)
                <==> self.requester_channel is None,
            r == Err::<(), AdmissionError>(AdmissionError::DifferentChannel) <==> (
                self.requester_channel is Some && self.bot_channel is Some
                    && self.requester_channel != self.bot_channel),
            r is Ok <==> (self.requester_channel is Some && (self.bot_channel is None
                || self.bot_channel == self.requester_channel)),
    {
        match (self.requester_channel, self.bot_channel) {
            (None, _) => Err(AdmissionError::NotInVoiceChannel),
            (Some(r), Some(b)) => {
                if r.0 == b.0 {
                    Ok(())
                } else {
                    Err(AdmissionError::DifferentChannel)
                }
            },
            (Some(_), None) => Ok(()),
        }
    }
}

} // verus!
