//! Properties of the registry that relate several of its steps.

use crate::registry::{
    active_channel, entry, finish_map, join_map, join_step, leave_map, ChannelId, GuildId,
    JoinError, JoinStep, SessionState, Ticket,
};
use vstd::prelude::*;

verus! {

/// The registry after join requests of `guild` for `channel`, one for each of
/// `tickets`, in that order, with no attempt ending between them.
pub open spec fn join_all(
    m: Map<GuildId, SessionState>,
    guild: GuildId,
    channel: ChannelId,
    tickets: Seq<Ticket>,
) -> Map<GuildId, SessionState>
    decreases tickets.len(),
{
    if tickets.len() == 0 {
        m
    } else {
        join_map(join_all(m, guild, channel, tickets.drop_last()), guild, channel, tickets.last())
    }
}

/// A join request starts a connection exactly when its guild has no entry, and
/// leaves the guild with an entry: while an attempt is under way or a session
/// is active, no second connection is started for the guild, so a guild never
/// holds more than one session.
pub proof fn lemma_one_session_per_guild(
    m: Map<GuildId, SessionState>,
    guild: GuildId,
    channel: ChannelId,
    ticket: Ticket,
    other: ChannelId,
)
    ensures
        join_step(entry(m, guild), channel) is Connect <==> !m.contains_key(guild),
        join_map(m, guild, channel, ticket).contains_key(guild),
        !(join_step(entry(join_map(m, guild, channel, ticket), guild), other) is Connect),
{
}

/// Joining the same channel twice in a row: the first request connects, the
/// second succeeds at once, starts no connection and changes nothing, and the
/// guild keeps its single session on that channel.
pub proof fn lemma_join_twice_same_channel(
    m: Map<GuildId, SessionState>,
    guild: GuildId,
    channel: ChannelId,
    first: Ticket,
    second: Ticket,
)
    requires
        !m.contains_key(guild),
    ensures
        join_step(entry(m, guild), channel) is Connect,
        ({
            let joined = finish_map(join_map(m, guild, channel, first), guild, true);
            &&& entry(joined, guild) == Some(SessionState::Connected { channel })
            &&& join_step(entry(joined, guild), channel) == JoinStep::Done(Ok(()))
            &&& join_map(joined, guild, channel, second) == joined
        }),
{
    let joined = finish_map(join_map(m, guild, channel, first), guild, true);
    assert(join_map(joined, guild, channel, second) =~= joined);
}

/// Joining another channel while connected: the request is refused with
/// `AlreadyConnectedDifferentChannel` and the session on the first channel is
/// left as it was.
pub proof fn lemma_join_other_channel_refused(
    m: Map<GuildId, SessionState>,
    guild: GuildId,
    first_channel: ChannelId,
    second_channel: ChannelId,
    first: Ticket,
    second: Ticket,
)
    requires
        !m.contains_key(guild),
        first_channel != second_channel,
    ensures
        ({
            let joined = finish_map(join_map(m, guild, first_channel, first), guild, true);
            &&& join_step(entry(joined, guild), second_channel) == JoinStep::Done(
                Err(JoinError::AlreadyConnectedDifferentChannel),
            )
            &&& join_map(joined, guild, second_channel, second) == joined
            &&& entry(joined, guild) == Some(SessionState::Connected { channel: first_channel })
        }),
{
    let joined = finish_map(join_map(m, guild, first_channel, first), guild, true);
    assert(join_map(joined, guild, second_channel, second) =~= joined);
}

/// Leaving a guild that has no entry finds no session and changes nothing.
pub proof fn lemma_leave_without_session(m: Map<GuildId, SessionState>, guild: GuildId)
    requires
        !m.contains_key(guild),
    ensures
        active_channel(entry(m, guild)) is None,
        leave_map(m, guild) == m,
{
    assert(leave_map(m, guild) =~= m);
}

proof fn lemma_join_all_prefix(
    m: Map<GuildId, SessionState>,
    guild: GuildId,
    channel: ChannelId,
    tickets: Seq<Ticket>,
    k: int,
)
    requires
        !m.contains_key(guild),
        0 < k <= tickets.len(),
    ensures
        entry(join_all(m, guild, channel, tickets.take(k)), guild) == Some(
            SessionState::Connecting { channel, tickets: tickets.take(k) },
        ),
    decreases k,
{
    let pre = tickets.take(k);
    assert(pre.drop_last() =~= tickets.take(k - 1));
    if k == 1 {
        assert(tickets.take(0) =~= Seq::<Ticket>::empty());
        assert(pre =~= seq![tickets[0]]);
    } else {
        lemma_join_all_prefix(m, guild, channel, tickets, k - 1);
        assert(tickets.take(k - 1).push(pre.last()) =~= pre);
    }
}

/// Concurrent join requests of one guild for one channel, made while the guild
/// has no entry: the first one starts the only connection, every later one
/// waits on it, and all of them are recorded on that one attempt, so that when
/// it ends each receives its outcome. A failed attempt leaves the guild without
/// an entry; a successful one leaves it connected to the channel.
pub proof fn lemma_concurrent_joins_share_one_attempt(
    m: Map<GuildId, SessionState>,
    guild: GuildId,
    channel: ChannelId,
    tickets: Seq<Ticket>,
    connected: bool,
)
    requires
        !m.contains_key(guild),
        tickets.len() > 0,
    ensures
        join_step(entry(m, guild), channel) is Connect,
        forall|i: int|
            0 < i < tickets.len() ==> join_step(
                entry(#[trigger] join_all(m, guild, channel, tickets.take(i)), guild),
                channel,
            ) is Wait,
        entry(join_all(m, guild, channel, tickets), guild) == Some(
            SessionState::Connecting { channel, tickets },
        ),
        entry(finish_map(join_all(m, guild, channel, tickets), guild, connected), guild) == (if connected {
            Some(SessionState::Connected { channel })
        } else {
            None::<SessionState>
        }),
{
    assert forall|i: int| 0 < i < tickets.len() implies join_step(
        entry(#[trigger] join_all(m, guild, channel, tickets.take(i)), guild),
        channel,
    ) is Wait by {
        lemma_join_all_prefix(m, guild, channel, tickets, i);
    }
    lemma_join_all_prefix(m, guild, channel, tickets, tickets.len() as int);
    assert(tickets.take(tickets.len() as int) =~= tickets);
}

/// Steps for one guild neither read nor change the entry of another: what a
/// request of one guild returns depends on that guild's entry alone, and no
/// step waits on another guild's connection attempt.
pub proof fn lemma_guilds_independent(
    m: Map<GuildId, SessionState>,
    guild: GuildId,
    other: GuildId,
    channel: ChannelId,
    ticket: Ticket,
    connected: bool,
)
    requires
        guild != other,
    ensures
        entry(join_map(m, guild, channel, ticket), other) == entry(m, other),
        entry(finish_map(m, guild, connected), other) == entry(m, other),
        entry(leave_map(m, guild), other) == entry(m, other),
{
}

} // verus!
