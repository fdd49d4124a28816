use std::collections::HashMap;
use vstd::prelude::*;

verus! {

broadcast use vstd::std_specs::hash::group_hash_axioms;

/// Identifier of a guild (a chat community).
pub type GuildId = u64;

/// Identifier of a channel within a guild.
pub type ChannelId = u64;

/// Identifier that a caller attaches to one join request, so that it can be
/// handed the outcome of the connection attempt that the request waits on.
pub type Ticket = u64;

/// Why a join request was not satisfied.
#[derive(Clone, Copy, Debug, PartialEq, Eq, Structural)]
pub enum JoinError {
    /// The guild's session is bound (or being bound) to another channel.
    AlreadyConnectedDifferentChannel,
    /// The voice client could not connect.
    ConnectFailed,
}

/// Why a leave request had nothing to do.
#[derive(Clone, Copy, Debug, PartialEq, Eq, Structural)]
pub enum LeaveError {
    /// The guild has no active session.
    NotConnected,
}

/// Why a play request did not start playback.
#[derive(Clone, Copy, Debug, PartialEq, Eq, Structural)]
pub enum PlayError {
    /// The guild has no active session.
    NotConnected,
    /// The audio source could not be opened.
    SourceUnavailable,
}

/// What a join request asks of its caller.
#[derive(Clone, Copy, Debug)]
pub enum JoinStep {
    /// Connect to the channel, then report the outcome with `finish_join`.
    Connect,
    /// A connection to the same channel is under way: this request shares its
    /// outcome, which `finish_join` hands out under the request's ticket.
    Wait,
    /// The request is settled at once, without any connection attempt.
    Done(Result<(), JoinError>),
}

/// The state of one guild's session, as the registry sees it.
pub enum SessionState {
    /// A connection attempt to `channel` is under way; `tickets` are the
    /// requests that wait on it, the one that started it first.
    Connecting { channel: ChannelId, tickets: Seq<Ticket> },
    /// An active session bound to `channel`.
    Connected { channel: ChannelId },
}

/// A connection attempt that was under way, settled by `finish_join`.
pub struct JoinSettled {
    /// The channel the attempt was made to.
    pub channel: ChannelId,
    /// The outcome that every waiting request receives.
    pub outcome: Result<(), JoinError>,
    /// The requests that waited on the attempt, the one that started it first.
    pub tickets: Vec<Ticket>,
}

/// A join attempt under way for one guild.
struct PendingJoin {
    channel: ChannelId,
    tickets: Vec<Ticket>,
}

/// The process-wide table from guild to voice session.
///
/// Each operation is a short step that performs no I/O: a caller serialises the
/// steps (for instance under one mutex), and performs the connect, disconnect
/// and playback work of the voice client between them, outside that lock.
pub struct VoiceConnectionRegistry {
    connected: HashMap<GuildId, ChannelId>,
    pending: HashMap<GuildId, PendingJoin>,
}

/// The entry of `guild` in `m`, if any.
pub open spec fn entry(m: Map<GuildId, SessionState>, guild: GuildId) -> Option<SessionState> {
    if m.contains_key(guild) {
        Some(m[guild])
    } else {
        None
    }
}

/// `m` with the entry of `guild` set to `e` (removed where `e` is `None`).
pub open spec fn with_entry(
    m: Map<GuildId, SessionState>,
    guild: GuildId,
    e: Option<SessionState>,
) -> Map<GuildId, SessionState> {
    match e {
        Some(s) => m.insert(guild, s),
        None => m.remove(guild),
    }
}

/// What a join request for `channel` asks of its caller, given the guild's entry.
pub open spec fn join_step(e: Option<SessionState>, channel: ChannelId) -> JoinStep {
    match e {
        None => JoinStep::Connect,
        Some(SessionState::Connecting { channel: c, .. }) => if c == channel {
            JoinStep::Wait
        } else {
            JoinStep::Done(Err(JoinError::AlreadyConnectedDifferentChannel))
        },
        Some(SessionState::Connected { channel: c }) => if c == channel {
            JoinStep::Done(Ok(()))
        } else {
            JoinStep::Done(Err(JoinError::AlreadyConnectedDifferentChannel))
        },
    }
}

/// The guild's entry after a join request for `channel` under `ticket`.
pub open spec fn join_entry(e: Option<SessionState>, channel: ChannelId, ticket: Ticket) -> Option<
    SessionState,
> {
    match e {
        None => Some(SessionState::Connecting { channel, tickets: seq![ticket] }),
        Some(SessionState::Connecting { channel: c, tickets }) => if c == channel {
            Some(SessionState::Connecting { channel: c, tickets: tickets.push(ticket) })
        } else {
            e
        },
        Some(SessionState::Connected { .. }) => e,
    }
}

/// The registry after a join request of `guild` for `channel` under `ticket`.
pub open spec fn join_map(
    m: Map<GuildId, SessionState>,
    guild: GuildId,
    channel: ChannelId,
    ticket: Ticket,
) -> Map<GuildId, SessionState> {
    with_entry(m, guild, join_entry(entry(m, guild), channel, ticket))
}

/// The guild's entry once the connection attempt under way has ended,
/// successfully where `connected` holds.
pub open spec fn finish_entry(e: Option<SessionState>, connected: bool) -> Option<SessionState> {
    match e {
        Some(SessionState::Connecting { channel, .. }) => if connected {
            Some(SessionState::Connected { channel })
        } else {
            None
        },
        _ => e,
    }
}

/// The registry once the connection attempt of `guild` has ended.
pub open spec fn finish_map(m: Map<GuildId, SessionState>, guild: GuildId, connected: bool) -> Map<
    GuildId,
    SessionState,
> {
    with_entry(m, guild, finish_entry(entry(m, guild), connected))
}

/// The outcome of a connection attempt, for every request that waited on it.
pub open spec fn connect_outcome(connected: bool) -> Result<(), JoinError> {
    if connected {
        Ok(())
    } else {
        Err(JoinError::ConnectFailed)
    }
}

/// The guild's entry after a leave request.
pub open spec fn leave_entry(e: Option<SessionState>) -> Option<SessionState> {
    match e {
        Some(SessionState::Connected { .. }) => None,
        _ => e,
    }
}

/// The registry after a leave request of `guild`.
pub open spec fn leave_map(m: Map<GuildId, SessionState>, guild: GuildId) -> Map<
    GuildId,
    SessionState,
> {
    with_entry(m, guild, leave_entry(entry(m, guild)))
}

/// The channel of the guild's active session, if it has one.
pub open spec fn active_channel(e: Option<SessionState>) -> Option<ChannelId> {
    match e {
        Some(SessionState::Connected { channel }) => Some(channel),
        _ => None,
    }
}

/// What a play request returns once the guild's session was found, where
/// `started` tells whether the voice client began playing the source.
pub open spec fn playback_result(started: bool) -> Result<(), PlayError> {
    if started {
        Ok(())
    } else {
        Err(PlayError::SourceUnavailable)
    }
}

impl VoiceConnectionRegistry {
    /// The session of each guild that has one.
    pub closed spec fn view(&self) -> Map<GuildId, SessionState> {
        Map::new(
            |g: GuildId| self.connected@.contains_key(g) || self.pending@.contains_key(g),
            |g: GuildId|
                if self.connected@.contains_key(g) {
                    SessionState::Connected { channel: self.connected@[g] }
                } else {
                    SessionState::Connecting {
                        channel: self.pending@[g].channel,
                        tickets: self.pending@[g].tickets@,
                    }
                },
        )
    }

    /// A guild is never both connected and connecting.
    pub closed spec fn wf(&self) -> bool {
        forall|g: GuildId|
            !(#[trigger] self.connected@.contains_key(g) && self.pending@.contains_key(g))
    }

    /// An empty registry.
    pub fn new() -> (r: Self)
        ensures
            r.wf(),
            r@ == Map::<GuildId, SessionState>::empty(),
    {
        let r = VoiceConnectionRegistry { connected: HashMap::new(), pending: HashMap::new() };
        assert(r@ =~= Map::<GuildId, SessionState>::empty());
        r
    }

    /// Records a join request of `guild` for `channel` under `ticket` and says
    /// what its caller must do: connect, wait on the attempt under way, or
    /// nothing more.
    pub fn begin_join(&mut self, guild: GuildId, channel: ChannelId, ticket: Ticket) -> (r:
        JoinStep)
        requires
            old(self).wf(),
        ensures
            final(self).wf(),
            r == join_step(entry(old(self)@, guild), channel),
            final(self)@ == join_map(old(self)@, guild, channel, ticket),
    {
        match self.connected.get(&guild) {
            Some(c) => {
                let c = *c;
                proof {
                    assert(join_map(old(self)@, guild, channel, ticket) =~= old(self)@);
                }
                if c == channel {
                    JoinStep::Done(Ok(()))
                } else {
                    JoinStep::Done(Err(JoinError::AlreadyConnectedDifferentChannel))
                }
            },
            None => match self.pending.remove(&guild) {
                Some(p) => {
                    let mut p = p;
                    if p.channel == channel {
                        p.tickets.push(ticket);
                        self.pending.insert(guild, p);
                        assert(self@ =~= join_map(old(self)@, guild, channel, ticket));
                        JoinStep::Wait
                    } else {
                        self.pending.insert(guild, p);
                        assert(self@ =~= join_map(old(self)@, guild, channel, ticket));
                        JoinStep::Done(Err(JoinError::AlreadyConnectedDifferentChannel))
                    }
                },
                None => {
                    let mut tickets: Vec<Ticket> = Vec::new();
                    tickets.push(ticket);
                    self.pending.insert(guild, PendingJoin { channel, tickets });
                    assert(self@ =~= join_map(old(self)@, guild, channel, ticket));
                    JoinStep::Connect
                },
            },
        }
    }

    /// Ends the connection attempt of `guild`, successful where `connected`
    /// holds: the guild becomes connected, or loses its entry. Hands back the
    /// outcome and the tickets of every request that waited on the attempt;
    /// `None` where no attempt was under way.
    pub fn finish_join(&mut self, guild: GuildId, connected: bool) -> (r: Option<JoinSettled>)
        requires
            old(self).wf(),
        ensures
            final(self).wf(),
            final(self)@ == finish_map(old(self)@, guild, connected),
            r.is_some() <==> entry(old(self)@, guild) is Some && entry(old(self)@, guild)->0 is Connecting,
            r matches Some(s) ==> {
                &&& entry(old(self)@, guild) == Some(
                    SessionState::Connecting { channel: s.channel, tickets: s.tickets@ },
                )
                &&& s.outcome == connect_outcome(connected)
            },
    {
        match self.pending.remove(&guild) {
            Some(p) => {
                let outcome = if connected {
                    self.connected.insert(guild, p.channel);
                    Ok(())
                } else {
                    Err(JoinError::ConnectFailed)
                };
                assert(self@ =~= finish_map(old(self)@, guild, connected));
                Some(JoinSettled { channel: p.channel, outcome, tickets: p.tickets })
            },
            None => {
                assert(self@ =~= finish_map(old(self)@, guild, connected));
                None
            },
        }
    }

    /// Ends the active session of `guild`, handing back the channel it was
    /// bound to so that the caller can disconnect from it.
    pub fn leave(&mut self, guild: GuildId) -> (r: Result<ChannelId, LeaveError>)
        requires
            old(self).wf(),
        ensures
            final(self).wf(),
            final(self)@ == leave_map(old(self)@, guild),
            r == match active_channel(entry(old(self)@, guild)) {
                Some(c) => Ok(c),
                None => Err(LeaveError::NotConnected),
            },
    {
        match self.connected.remove(&guild) {
            Some(c) => {
                assert(self@ =~= leave_map(old(self)@, guild));
                Ok(c)
            },
            None => {
                assert(self@ =~= leave_map(old(self)@, guild));
                Err(LeaveError::NotConnected)
            },
        }
    }

    /// The channel of the active session of `guild` on which a play request
    /// may start playback.
    pub fn play(&self, guild: GuildId) -> (r: Result<ChannelId, PlayError>)
        requires
            self.wf(),
        ensures
            r == match active_channel(entry(self@, guild)) {
                Some(c) => Ok(c),
                None => Err(PlayError::NotConnected),
            },
    {
        match self.connected.get(&guild) {
            Some(c) => Ok(*c),
            None => Err(PlayError::NotConnected),
        }
    }

    /// The outcome of a play request whose session was found, where `started`
    /// tells whether the voice client began playing the source.
    pub fn playback_outcome(started: bool) -> (r: Result<(), PlayError>)
        ensures
            r == playback_result(started),
    {
        if started {
            Ok(())
        } else {
            Err(PlayError::SourceUnavailable)
        }
    }

    /// The channel of the active session of `guild`, if it has one.
    pub fn channel_of(&self, guild: GuildId) -> (r: Option<ChannelId>)
        requires
            self.wf(),
        ensures
            r == active_channel(entry(self@, guild)),
    {
        match self.connected.get(&guild) {
            Some(c) => Some(*c),
            None => None,
        }
    }

    /// Whether a connection attempt of `guild` is under way.
    pub fn is_connecting(&self, guild: GuildId) -> (r: bool)
        requires
            self.wf(),
        ensures
            r == (entry(self@, guild) is Some && entry(self@, guild)->0 is Connecting),
    {
        self.pending.contains_key(&guild)
    }
}

} // verus!
