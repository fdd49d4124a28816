//! A registry of voice sessions, one per guild, whose join, leave and play
//! steps are decided without I/O so that callers can perform the network work
//! between the steps without holding any lock.

pub mod laws;
pub mod registry;

pub use registry::{
    ChannelId, GuildId, JoinError, JoinSettled, JoinStep, LeaveError, PlayError, Ticket,
    VoiceConnectionRegistry,
};
pub use laws::{
    join_all, lemma_concurrent_joins_share_one_attempt, lemma_guilds_independent,
    lemma_join_other_channel_refused, lemma_join_twice_same_channel,
    lemma_leave_without_session, lemma_one_session_per_guild,
};
