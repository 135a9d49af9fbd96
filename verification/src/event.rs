use vstd::prelude::*;

verus! {

/// Where the platform last saw a user: the session (guild) and the voice
/// channel, either of which may be absent.
#[derive(Clone, Copy, Debug)]
pub struct VoiceState {
    pub guild_id: Option<u64>,
    pub channel_id: Option<u64>,
}

/// A user's arrival in a voice channel, as it travels over the event bus.
///
/// `context` is the platform's connection handle; the engine carries it
/// through and never looks inside.
#[derive(Clone, Debug)]
pub struct PresenceEvent<C> {
    pub session_id: u64,
    pub channel_id: u64,
    pub user_id: u64,
    pub context: C,
}

/// Whether a presence transition is worth an event.
///
/// The user is a person, has arrived in a channel other than the one they
/// were in, has a chime on record, and has entered a session other than the
/// one they were in (or was in none).
pub open spec fn qualifies(
    is_bot: bool,
    old: Option<VoiceState>,
    new: VoiceState,
    has_data: bool,
) -> bool {
    &&& !is_bot
    &&& new.channel_id is Some
    &&& new.guild_id is Some
    &&& has_data
    &&& (old is Some ==> old->Some_0.channel_id != new.channel_id)
    &&& (old is Some ==> old->Some_0.guild_id != new.guild_id)
}

/// The event that a qualifying transition gives rise to.
pub open spec fn event_of<C>(new: VoiceState, user_id: u64, context: C) -> PresenceEvent<C>
    recommends
        new.channel_id is Some,
        new.guild_id is Some,
{
    PresenceEvent {
        session_id: new.guild_id->Some_0,
        channel_id: new.channel_id->Some_0,
        user_id,
        context,
    }
}

fn same_id(a: Option<u64>, b: Option<u64>) -> (r: bool)
    ensures
        r == (a == b),
{
    match (a, b) {
        (Some(x), Some(y)) => x == y,
        (None, None) => true,
        _ => false,
    }
}

/// Whether a presence transition is worth an event.
pub fn is_qualifying(
    is_bot: bool,
    old: Option<VoiceState>,
    new: VoiceState,
    has_data: bool,
) -> (r: bool)
    ensures
        r == qualifies(is_bot, old, new, has_data),
{
    if is_bot || !has_data || new.channel_id.is_none() || new.guild_id.is_none() {
        return false;
    }
    match old {
        Some(prev) => !same_id(prev.channel_id, new.channel_id) && !same_id(
            prev.guild_id,
            new.guild_id,
        ),
        None => true,
    }
}

/// Turns a presence transition into the event to broadcast, or into nothing
/// where the transition does not qualify.
///
/// `has_data` is what the chime store answered for `user_id`.
pub fn presence_event<C>(
    is_bot: bool,
    old: Option<VoiceState>,
    new: VoiceState,
    user_id: u64,
    has_data: bool,
    context: C,
) -> (r: Option<PresenceEvent<C>>)
    ensures
        qualifies(is_bot, old, new, has_data) ==> r == Some(event_of(new, user_id, context)),
        !qualifies(is_bot, old, new, has_data) ==> r is None,
        !has_data ==> r is None,
{
    if !is_qualifying(is_bot, old, new, has_data) {
        return None;
    }
    match (new.guild_id, new.channel_id) {
        (Some(session_id), Some(channel_id)) => Some(
            PresenceEvent { session_id, channel_id, user_id, context },
        ),
        _ => None,
    }
}

} // verus!
