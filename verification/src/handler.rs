use vstd::prelude::*;
use std::collections::HashSet;
use std::time::Duration;
use crate::bus::{BroadcastError, EventBus, Stamped};
use crate::event::{event_of, is_qualifying, presence_event, qualifies, VoiceState};
use crate::span::Span;
use crate::supervisor::IdleSupervisor;
use crate::worker::{SessionWorker, Stage};

verus! {

broadcast use vstd::std_specs::hash::group_hash_axioms;

/// Collects the settings of a [`Handler`] one by one.
pub struct HandlerBuilder {
    bus_size: Option<usize>,
    file_size_limit_bytes: Option<isize>,
    file_duration_max: Option<Span>,
    command_root: Option<String>,
    disconnect_timeout: Option<Duration>,
    playback_wait_cap: Option<Span>,
}

impl Default for HandlerBuilder {
    fn default() -> (b: Self)
        ensures
            b.spec_bus_size() is None,
            b.spec_file_size_limit() is None,
            b.spec_file_duration_max() is None,
            b.spec_command_root() is None,
            b.spec_disconnect_timeout() is None,
            b.spec_playback_wait_cap() is None,
    {
        HandlerBuilder {
            bus_size: None,
            file_size_limit_bytes: None,
            file_duration_max: None,
            command_root: None,
            disconnect_timeout: None,
            playback_wait_cap: None,
        }
    }
}

impl HandlerBuilder {
    /// Everything that `build` needs has been set, and the bus size is one
    /// that a bus can be made with.
    pub open spec fn complete(&self) -> bool {
        &&& self.spec_bus_size() is Some
        &&& self.spec_bus_size()->Some_0 < usize::MAX
        &&& self.spec_file_size_limit() is Some
        &&& self.spec_file_duration_max() is Some
        &&& self.spec_command_root() is Some
        &&& self.spec_disconnect_timeout() is Some
    }

    /// The bus size set, if any.
    pub closed spec fn spec_bus_size(&self) -> Option<usize> {
        self.bus_size
    }

    /// The file size limit set, if any.
    pub closed spec fn spec_file_size_limit(&self) -> Option<isize> {
        self.file_size_limit_bytes
    }

    /// The longest chime set, if any.
    pub closed spec fn spec_file_duration_max(&self) -> Option<Span> {
        self.file_duration_max
    }

    /// The command root set, if any.
    pub closed spec fn spec_command_root(&self) -> Option<Seq<char>> {
        match self.command_root {
            Some(s) => Some(s@),
            None => None,
        }
    }

    /// The supervisor's period set, if any.
    pub closed spec fn spec_disconnect_timeout(&self) -> Option<Duration> {
        self.disconnect_timeout
    }

    /// The bound on a worker's wait set, if any.
    pub closed spec fn spec_playback_wait_cap(&self) -> Option<Span> {
        self.playback_wait_cap
    }

    /// Sets how many events the bus buffers for each subscriber.
    pub fn bus_size(self, size: usize) -> (b: HandlerBuilder)
        ensures
            b.spec_bus_size() == Some(size),
            b.spec_file_size_limit() == self.spec_file_size_limit(),
            b.spec_file_duration_max() == self.spec_file_duration_max(),
            b.spec_command_root() == self.spec_command_root(),
            b.spec_disconnect_timeout() == self.spec_disconnect_timeout(),
            b.spec_playback_wait_cap() == self.spec_playback_wait_cap(),
    {
        let mut b = self;
        b.bus_size = Some(size);
        b
    }

    /// Sets the name of the bot's root command.
    pub fn command_root(self, root: &str) -> (b: HandlerBuilder)
        ensures
            b.spec_command_root() == Some(root@),
            b.spec_bus_size() == self.spec_bus_size(),
            b.spec_file_size_limit() == self.spec_file_size_limit(),
            b.spec_file_duration_max() == self.spec_file_duration_max(),
            b.spec_disconnect_timeout() == self.spec_disconnect_timeout(),
            b.spec_playback_wait_cap() == self.spec_playback_wait_cap(),
    {
        let mut b = self;
        b.command_root = Some(root.to_string());
        b
    }

    /// Sets the idle supervisor's period.
    pub fn disconnect_timeout(self, timeout: Duration) -> (b: HandlerBuilder)
        ensures
            b.spec_disconnect_timeout() == Some(timeout),
            b.spec_bus_size() == self.spec_bus_size(),
            b.spec_file_size_limit() == self.spec_file_size_limit(),
            b.spec_file_duration_max() == self.spec_file_duration_max(),
            b.spec_command_root() == self.spec_command_root(),
            b.spec_playback_wait_cap() == self.spec_playback_wait_cap(),
    {
        let mut b = self;
        b.disconnect_timeout = Some(timeout);
        b
    }

    /// Sets the longest chime that is accepted.
    pub fn file_duration_max(self, duration: Span) -> (b: HandlerBuilder)
        ensures
            b.spec_file_duration_max() == Some(duration),
            b.spec_bus_size() == self.spec_bus_size(),
            b.spec_file_size_limit() == self.spec_file_size_limit(),
            b.spec_command_root() == self.spec_command_root(),
            b.spec_disconnect_timeout() == self.spec_disconnect_timeout(),
            b.spec_playback_wait_cap() == self.spec_playback_wait_cap(),
    {
        let mut b = self;
        b.file_duration_max = Some(duration);
        b
    }

    /// Sets the largest chime file that is accepted, in bytes; `-1` lifts
    /// the limit.
    pub fn file_size_limit(self, bytes: isize) -> (b: HandlerBuilder)
        ensures
            b.spec_file_size_limit() == Some(bytes),
            b.spec_bus_size() == self.spec_bus_size(),
            b.spec_file_duration_max() == self.spec_file_duration_max(),
            b.spec_command_root() == self.spec_command_root(),
            b.spec_disconnect_timeout() == self.spec_disconnect_timeout(),
            b.spec_playback_wait_cap() == self.spec_playback_wait_cap(),
    {
        let mut b = self;
        b.file_size_limit_bytes = Some(bytes);
        b
    }

    /// Bounds how long a worker waits for a chime to play out. Without it
    /// the wait is as long as the backend says the chime is.
    pub fn playback_wait_cap(self, cap: Span) -> (b: HandlerBuilder)
        ensures
            b.spec_playback_wait_cap() == Some(cap),
            b.spec_bus_size() == self.spec_bus_size(),
            b.spec_file_size_limit() == self.spec_file_size_limit(),
            b.spec_file_duration_max() == self.spec_file_duration_max(),
            b.spec_command_root() == self.spec_command_root(),
            b.spec_disconnect_timeout() == self.spec_disconnect_timeout(),
    {
        let mut b = self;
        b.playback_wait_cap = Some(cap);
        b
    }

    /// Whether `build` can be called.
    pub fn is_complete(&self) -> (r: bool)
        ensures
            r == self.complete(),
    {
        let size_ok = match self.bus_size {
            Some(size) => size < usize::MAX,
            None => false,
        };
        size_ok && self.file_size_limit_bytes.is_some() && self.file_duration_max.is_some()
            && self.command_root.is_some() && self.disconnect_timeout.is_some()
    }

    /// The handler with the settings collected: no session watched, nothing
    /// broadcast, no context seen, no supervisor started.
    pub fn build<C>(self) -> (h: Handler<C>)
        requires
            self.complete(),
        ensures
            h.wf(),
            h.watched() == Set::<u64>::empty(),
            h.log() == Seq::<Stamped<C>>::empty(),
            h.latest_context() is None,
            !h.supervised(),
            Some(h.spec_bus_size()) == self.spec_bus_size(),
            Some(h.spec_file_size_limit()) == self.spec_file_size_limit(),
            Some(h.spec_file_duration_max()) == self.spec_file_duration_max(),
            Some(h.spec_command_root()) == self.spec_command_root(),
            Some(h.spec_disconnect_timeout()) == self.spec_disconnect_timeout(),
            h.spec_playback_wait_cap() == self.spec_playback_wait_cap(),
    {
        Handler {
            file_size_limit_bytes: self.file_size_limit_bytes.unwrap(),
            command_root: self.command_root.unwrap(),
            disconnect_timeout: self.disconnect_timeout.unwrap(),
            file_duration_max: self.file_duration_max.unwrap(),
            playback_wait_cap: self.playback_wait_cap,
            watchers: HashSet::new(),
            supervised: false,
            bus: EventBus::new(self.bus_size.unwrap()),
            latest_context: None,
        }
    }
}

/// What became of a presence transition.
pub enum Dispatched<C> {
    /// The transition did not qualify; nothing was done.
    Ignored,
    /// An event went out on the bus.
    Sent,
    /// The transition qualified, but the bus did not take the event.
    Refused(BroadcastError<C>),
}

/// The single point of entry from the platform: it turns presence
/// transitions into bus events and sees to it that each session has one
/// worker.
#[verifier::reject_recursive_types(C)]
pub struct Handler<C> {
    file_size_limit_bytes: isize,
    command_root: String,
    disconnect_timeout: Duration,
    file_duration_max: Span,
    playback_wait_cap: Option<Span>,
    watchers: HashSet<u64>,
    supervised: bool,
    bus: EventBus<C>,
    latest_context: Option<C>,
}

impl<C> Handler<C> {
    /// The bus's stamps count its broadcasts.
    pub closed spec fn wf(&self) -> bool {
        self.bus.wf()
    }

    /// The sessions that have a worker.
    pub closed spec fn watched(&self) -> Set<u64> {
        self.watchers@
    }

    /// Every event that went out on the bus, oldest first, each with its
    /// stamp.
    pub closed spec fn log(&self) -> Seq<Stamped<C>> {
        self.bus.log()
    }

    /// The most recent platform context seen and not yet taken.
    pub closed spec fn latest_context(&self) -> Option<C> {
        self.latest_context
    }

    /// Whether the idle supervisor has been handed out.
    pub closed spec fn supervised(&self) -> bool {
        self.supervised
    }

    /// How many events the bus buffers for each subscriber.
    pub closed spec fn spec_bus_size(&self) -> usize {
        self.bus.spec_capacity()
    }

    /// The largest chime file that is accepted, in bytes; `-1` for no limit.
    pub closed spec fn spec_file_size_limit(&self) -> isize {
        self.file_size_limit_bytes
    }

    /// The longest chime that is accepted.
    pub closed spec fn spec_file_duration_max(&self) -> Span {
        self.file_duration_max
    }

    /// The name of the bot's root command.
    pub closed spec fn spec_command_root(&self) -> Seq<char> {
        self.command_root@
    }

    /// The idle supervisor's period.
    pub closed spec fn spec_disconnect_timeout(&self) -> Duration {
        self.disconnect_timeout
    }

    /// The bound on a worker's wait for a chime to play out, if any.
    pub closed spec fn spec_playback_wait_cap(&self) -> Option<Span> {
        self.playback_wait_cap
    }

    /// The settings stay as they were built.
    pub open spec fn same_settings(&self, other: &Self) -> bool {
        &&& self.spec_bus_size() == other.spec_bus_size()
        &&& self.spec_file_size_limit() == other.spec_file_size_limit()
        &&& self.spec_file_duration_max() == other.spec_file_duration_max()
        &&& self.spec_command_root() == other.spec_command_root()
        &&& self.spec_disconnect_timeout() == other.spec_disconnect_timeout()
        &&& self.spec_playback_wait_cap() == other.spec_playback_wait_cap()
    }

    /// How many events the bus buffers for each subscriber.
    pub fn bus_size(&self) -> (r: usize)
        ensures
            r == self.spec_bus_size(),
    {
        self.bus.capacity()
    }

    /// The largest chime file that is accepted, in bytes; `-1` for no limit.
    pub fn file_size_limit(&self) -> (r: isize)
        ensures
            r == self.spec_file_size_limit(),
    {
        self.file_size_limit_bytes
    }

    /// The longest chime that is accepted.
    pub fn file_duration_max(&self) -> (r: Span)
        ensures
            r == self.spec_file_duration_max(),
    {
        self.file_duration_max
    }

    /// The name of the bot's root command.
    pub fn command_root(&self) -> (r: &str)
        ensures
            r@ == self.spec_command_root(),
    {
        self.command_root.as_str()
    }

    /// The idle supervisor's period.
    pub fn disconnect_timeout(&self) -> (r: Duration)
        ensures
            r == self.spec_disconnect_timeout(),
    {
        self.disconnect_timeout
    }

    /// Whether `session_id` has a worker.
    pub fn is_watched(&self, session_id: u64) -> (r: bool)
        ensures
            r == self.watched().contains(session_id),
    {
        self.watchers.contains(&session_id)
    }

    /// Notes a usable platform context.
    pub fn observe_context(&mut self, context: C)
        requires
            old(self).wf(),
        ensures
            final(self).wf(),
            final(self).latest_context() == Some(context),
            final(self).watched() == old(self).watched(),
            final(self).log() == old(self).log(),
            final(self).supervised() == old(self).supervised(),
            final(self).same_settings(old(self)),
    {
        self.latest_context = Some(context);
    }

    /// Hands the latest context over to the idle supervisor and forgets it.
    pub fn take_latest_context(&mut self) -> (r: Option<C>)
        requires
            old(self).wf(),
        ensures
            final(self).wf(),
            r == old(self).latest_context(),
            final(self).latest_context() is None,
            final(self).watched() == old(self).watched(),
            final(self).log() == old(self).log(),
            final(self).supervised() == old(self).supervised(),
            final(self).same_settings(old(self)),
    {
        self.latest_context.take()
    }

    /// A session has been seen. The first time, and only then, a worker for
    /// it is returned: one that listens from now on and admits nothing that
    /// went out before. The context is noted the first time too.
    pub fn on_session_seen(&mut self, session_id: u64, context: C) -> (worker: Option<
        SessionWorker<C>,
    >)
        requires
            old(self).wf(),
        ensures
            final(self).wf(),
            worker is Some <==> !old(self).watched().contains(session_id),
            final(self).watched() == old(self).watched().insert(session_id),
            final(self).log() == old(self).log(),
            final(self).supervised() == old(self).supervised(),
            final(self).same_settings(old(self)),
            final(self).latest_context() == (if worker is Some {
                Some(context)
            } else {
                old(self).latest_context()
            }),
            worker matches Some(w) ==> {
                &&& w.session() == session_id
                &&& w.stage() == Stage::<C>::Listening
                &&& w.wait_cap() == old(self).spec_playback_wait_cap()
                &&& w.receiver().since() == old(self).log().len()
                &&& forall|i: int|
                    0 <= i < old(self).log().len() ==> !w.receiver().admits(
                        #[trigger] old(self).log()[i],
                    )
            },
    {
        if self.watchers.contains(&session_id) {
            assert(self.watchers@.insert(session_id) =~= self.watchers@);
            return None;
        }
        self.watchers.insert(session_id);
        let receiver = self.bus.subscribe();
        self.latest_context = Some(context);
        Some(SessionWorker::new(session_id, receiver, self.playback_wait_cap))
    }

    /// The platform connection is ready. The context is noted, and the first
    /// time, and only then, the idle supervisor is returned.
    pub fn on_ready(&mut self, context: C) -> (supervisor: Option<IdleSupervisor<C>>)
        requires
            old(self).wf(),
        ensures
            final(self).wf(),
            supervisor is Some <==> !old(self).supervised(),
            supervisor matches Some(s) ==> s.context() is None,
            final(self).supervised(),
            final(self).latest_context() == Some(context),
            final(self).watched() == old(self).watched(),
            final(self).log() == old(self).log(),
            final(self).same_settings(old(self)),
    {
        self.latest_context = Some(context);
        if self.supervised {
            None
        } else {
            self.supervised = true;
            Some(IdleSupervisor::new())
        }
    }
}

impl<C: Clone> Handler<C> {
    /// A user's voice state has changed. Where the transition qualifies, the
    /// context is noted and the event is offered to the bus; where it does
    /// not, nothing changes.
    ///
    /// `has_data` is what the chime store answered for `user_id`.
    pub fn on_presence_transition(
        &mut self,
        is_bot: bool,
        old_state: Option<VoiceState>,
        new_state: VoiceState,
        user_id: u64,
        has_data: bool,
        context: C,
    ) -> (r: Dispatched<C>)
        requires
            old(self).wf(),
        ensures
            final(self).wf(),
            final(self).watched() == old(self).watched(),
            final(self).supervised() == old(self).supervised(),
            final(self).same_settings(old(self)),
            !has_data ==> r is Ignored,
            r is Ignored <==> !qualifies(is_bot, old_state, new_state, has_data),
            r is Ignored ==> final(self).log() == old(self).log() && final(self).latest_context()
                == old(self).latest_context(),
            !(r is Ignored) ==> (final(self).latest_context() matches Some(c) && cloned(context, c)),
            r is Sent ==> final(self).log() == old(self).log().push(
                Stamped {
                    seq: old(self).log().len() as u64,
                    event: event_of(new_state, user_id, context),
                },
            ),
            r matches Dispatched::Refused(e) ==> final(self).log() == old(self).log() && e == (
                if old(self).log().len() < u64::MAX {
                    BroadcastError::Full(event_of(new_state, user_id, context))
                } else {
                    BroadcastError::Exhausted(event_of(new_state, user_id, context))
                }),
            r matches Dispatched::Refused(BroadcastError::Exhausted(_)) <==> qualifies(
                is_bot,
                old_state,
                new_state,
                has_data,
            ) && old(self).log().len() >= u64::MAX,
    {
        if !is_qualifying(is_bot, old_state, new_state, has_data) {
            return Dispatched::Ignored;
        }
        let noted = context.clone();
        match presence_event(is_bot, old_state, new_state, user_id, has_data, context) {
            None => Dispatched::Ignored,
            Some(event) => {
                self.latest_context = Some(noted);
                match self.bus.broadcast(event) {
                    Ok(()) => Dispatched::Sent,
                    Err(e) => Dispatched::Refused(e),
                }
            },
        }
    }
}

/// The sessions that have a worker once the sessions of `seen` have been
/// seen one after the other, starting from `start`.
pub open spec fn watched_after(start: Set<u64>, seen: Seq<u64>) -> Set<u64>
    decreases seen.len(),
{
    if seen.len() == 0 {
        start
    } else {
        watched_after(start, seen.drop_last()).insert(seen.last())
    }
}

/// Every session that has been seen is watched.
pub proof fn lemma_seen_is_watched(start: Set<u64>, seen: Seq<u64>, i: int)
    requires
        0 <= i < seen.len(),
    ensures
        watched_after(start, seen).contains(seen[i]),
    decreases seen.len(),
{
    if i < seen.len() - 1 {
        lemma_seen_is_watched(start, seen.drop_last(), i);
    }
}

/// One worker for each session: where a session is seen a second time,
/// it is already watched by then, so `on_session_seen` brings no second
/// worker, whatever was seen in between and in whatever order the calls
/// got their turn.
pub proof fn lemma_one_worker_per_session(start: Set<u64>, seen: Seq<u64>, i: int, j: int)
    requires
        0 <= i < j < seen.len(),
        seen[i] == seen[j],
    ensures
        watched_after(start, seen.take(j)).contains(seen[j]),
{
    lemma_seen_is_watched(start, seen.take(j), i);
}

} // verus!
