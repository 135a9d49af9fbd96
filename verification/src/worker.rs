use vstd::prelude::*;
use crate::bus::{Received, Receiver};
use crate::chimes::ChimeSinkError;
use crate::event::PresenceEvent;
use crate::span::Span;

verus! {

/// Where a session worker stands with the event at hand.
pub enum Stage<C> {
    /// No event at hand; the next thing is a look at the subscription.
    Listening,
    /// Waiting to hear which role, if any, the session is restricted to.
    Checking(PresenceEvent<C>),
    /// Waiting for the user's roles, to look for the given one among them.
    Resolving(PresenceEvent<C>, u64),
    /// Waiting for the connection to the event's channel.
    Joining(PresenceEvent<C>),
    /// Waiting for the user's chime.
    Fetching(PresenceEvent<C>),
    /// Waiting for playback to start and to tell its length.
    Starting(PresenceEvent<C>),
    /// Waiting for the chime to play out.
    Playing(PresenceEvent<C>),
    /// Waiting for the session's flag to be raised.
    Marking(PresenceEvent<C>),
    /// The bus is gone; the worker has ended.
    Stopped,
}

/// What the outside did or found, handed back to the worker.
pub enum Report<C> {
    /// What a look at the subscription brought.
    Received(Received<C>),
    /// The role the session is restricted to, if it is restricted.
    Policy(Option<u64>),
    /// The user's roles, or nothing where they could not be had.
    Roles(Option<Vec<u64>>),
    /// Whether the channel was joined.
    Joined(bool),
    /// Whether the chime was fetched.
    Fetched(Result<(), ChimeSinkError>),
    /// Playback has started; the chime's length where the backend knows it.
    Started(Option<Span>),
    /// The wait for the chime to play out is over.
    Slept,
    /// The session's flag is up.
    Marked,
}

/// What the worker asks of the outside next.
#[derive(Clone, Copy, Debug, PartialEq, Eq, Structural)]
pub enum Action {
    /// Look at the subscription.
    Look,
    /// Nothing is waiting: pause, then look at the subscription.
    Pause,
    /// End the worker.
    Stop,
    /// Ask the policy store for the session's restriction.
    QueryPolicy { session_id: u64 },
    /// Ask the platform for the user's roles in the session.
    QueryRoles { session_id: u64, user_id: u64 },
    /// Ask the connection manager for the channel.
    Join { session_id: u64, channel_id: u64 },
    /// Ask the chime store for the user's chime.
    Fetch { user_id: u64 },
    /// Mute the bot's own incoming audio if possible, then play the chime.
    Play,
    /// Wait this long for the chime to play out.
    Sleep(Span),
    /// Raise the session's activity flag.
    MarkActive { session_id: u64 },
}

/// What a listening worker makes of a look at its subscription.
pub open spec fn on_received<C>(session_id: u64, got: Received<C>) -> (Stage<C>, Action) {
    match got {
        Received::Message(msg) => if msg.event.session_id == session_id {
            (Stage::Checking(msg.event), Action::QueryPolicy { session_id })
        } else {
            (Stage::Listening, Action::Look)
        },
        Received::Empty => (Stage::Listening, Action::Pause),
        Received::Closed => (Stage::Stopped, Action::Stop),
    }
}

/// The worker's transition: from the stage it is in and the report it is
/// handed to the stage it enters and the action it asks for.
///
/// A report that the stage was not waiting for abandons the event at hand.
pub open spec fn next<C>(
    session_id: u64,
    wait_cap: Option<Span>,
    stage: Stage<C>,
    report: Report<C>,
) -> (Stage<C>, Action) {
    match (stage, report) {
        (Stage::Stopped, _) => (Stage::Stopped, Action::Stop),
        (Stage::Listening, Report::Received(got)) => on_received(session_id, got),
        (Stage::Checking(e), Report::Policy(None)) => (
            Stage::Joining(e),
            Action::Join { session_id: e.session_id, channel_id: e.channel_id },
        ),
        (Stage::Checking(e), Report::Policy(Some(role))) => (
            Stage::Resolving(e, role),
            Action::QueryRoles { session_id: e.session_id, user_id: e.user_id },
        ),
        (Stage::Resolving(e, role), Report::Roles(Some(roles))) => if roles@.contains(role) {
            (Stage::Joining(e), Action::Join { session_id: e.session_id, channel_id: e.channel_id })
        } else {
            (Stage::Listening, Action::Look)
        },
        (Stage::Joining(e), Report::Joined(true)) => (
            Stage::Fetching(e),
            Action::Fetch { user_id: e.user_id },
        ),
        (Stage::Fetching(e), Report::Fetched(Ok(()))) => (Stage::Starting(e), Action::Play),
        (Stage::Starting(e), Report::Started(Some(length))) => (
            Stage::Playing(e),
            Action::Sleep(length.capped(wait_cap)),
        ),
        (Stage::Starting(e), Report::Started(None)) => (
            Stage::Marking(e),
            Action::MarkActive { session_id },
        ),
        (Stage::Playing(e), Report::Slept) => (Stage::Marking(e), Action::MarkActive { session_id }),
        _ => (Stage::Listening, Action::Look),
    }
}

/// One session's worker: its subscription to the bus and its place in the
/// handling of the event at hand.
#[verifier::reject_recursive_types(C)]
pub struct SessionWorker<C> {
    session_id: u64,
    wait_cap: Option<Span>,
    receiver: Receiver<C>,
    stage: Stage<C>,
}

impl<C> SessionWorker<C> {
    /// The session that this worker serves.
    pub closed spec fn session(&self) -> u64 {
        self.session_id
    }

    /// The longest that the worker waits for a chime to play out, if bounded.
    pub closed spec fn wait_cap(&self) -> Option<Span> {
        self.wait_cap
    }

    /// The stage the worker is in.
    pub closed spec fn stage(&self) -> Stage<C> {
        self.stage
    }

    /// The worker's subscription.
    pub closed spec fn receiver(&self) -> Receiver<C> {
        self.receiver
    }

    /// A worker for `session_id` that listens on `receiver`.
    pub fn new(session_id: u64, receiver: Receiver<C>, wait_cap: Option<Span>) -> (w: Self)
        ensures
            w.session() == session_id,
            w.wait_cap() == wait_cap,
            w.receiver() == receiver,
            w.stage() == Stage::<C>::Listening,
    {
        SessionWorker { session_id, wait_cap, receiver, stage: Stage::Listening }
    }

    /// The session that this worker serves.
    pub fn session_id(&self) -> (r: u64)
        ensures
            r == self.session(),
    {
        self.session_id
    }

    /// Whether the worker has no event at hand and is still running, so
    /// that the next thing is a look at the subscription.
    pub fn is_listening(&self) -> (r: bool)
        ensures
            r == self.stage() is Listening,
    {
        match &self.stage {
            Stage::Listening => true,
            _ => false,
        }
    }

    /// The event at hand, if there is one.
    pub fn current_event(&self) -> (r: Option<&PresenceEvent<C>>)
        ensures
            r == stage_event(&self.stage()),
    {
        match &self.stage {
            Stage::Listening => None,
            Stage::Stopped => None,
            Stage::Checking(e) => Some(e),
            Stage::Resolving(e, _) => Some(e),
            Stage::Joining(e) => Some(e),
            Stage::Fetching(e) => Some(e),
            Stage::Starting(e) => Some(e),
            Stage::Playing(e) => Some(e),
            Stage::Marking(e) => Some(e),
        }
    }

    /// Takes a report and moves on: the stage entered and the action
    /// returned are those of `next`.
    pub fn step(&mut self, report: Report<C>) -> (action: Action)
        ensures
            final(self).session() == old(self).session(),
            final(self).wait_cap() == old(self).wait_cap(),
            final(self).receiver() == old(self).receiver(),
            (final(self).stage(), action) == next(
                old(self).session(),
                old(self).wait_cap(),
                old(self).stage(),
                report,
            ),
    {
        let mut stage = Stage::Listening;
        std::mem::swap(&mut self.stage, &mut stage);
        let session_id = self.session_id;
        let (entered, action) = match (stage, report) {
            (Stage::Stopped, _) => (Stage::Stopped, Action::Stop),
            (Stage::Listening, Report::Received(got)) => match got {
                Received::Message(msg) => if msg.event.session_id == session_id {
                    (Stage::Checking(msg.event), Action::QueryPolicy { session_id })
                } else {
                    (Stage::Listening, Action::Look)
                },
                Received::Empty => (Stage::Listening, Action::Pause),
                Received::Closed => (Stage::Stopped, Action::Stop),
            },
            (Stage::Checking(e), Report::Policy(None)) => {
                let action = Action::Join { session_id: e.session_id, channel_id: e.channel_id };
                (Stage::Joining(e), action)
            },
            (Stage::Checking(e), Report::Policy(Some(role))) => {
                let action = Action::QueryRoles { session_id: e.session_id, user_id: e.user_id };
                (Stage::Resolving(e, role), action)
            },
            (Stage::Resolving(e, role), Report::Roles(Some(roles))) => {
                if crate::activity::contains_id(&roles, role) {
                    let action = Action::Join {
                        session_id: e.session_id,
                        channel_id: e.channel_id,
                    };
                    (Stage::Joining(e), action)
                } else {
                    (Stage::Listening, Action::Look)
                }
            },
            (Stage::Joining(e), Report::Joined(true)) => {
                let action = Action::Fetch { user_id: e.user_id };
                (Stage::Fetching(e), action)
            },
            (Stage::Fetching(e), Report::Fetched(Ok(()))) => (Stage::Starting(e), Action::Play),
            (Stage::Starting(e), Report::Started(Some(length))) => (
                Stage::Playing(e),
                Action::Sleep(length.cap(self.wait_cap)),
            ),
            (Stage::Starting(e), Report::Started(None)) => (
                Stage::Marking(e),
                Action::MarkActive { session_id },
            ),
            (Stage::Playing(e), Report::Slept) => (
                Stage::Marking(e),
                Action::MarkActive { session_id },
            ),
            _ => (Stage::Listening, Action::Look),
        };
        self.stage = entered;
        action
    }
}

impl<C: Clone + Sync> SessionWorker<C> {
    /// Looks at the subscription and takes what it brought as the report.
    /// Only a listening worker looks.
    pub fn listen(&mut self) -> (action: Action)
        requires
            old(self).stage() is Listening,
        ensures
            final(self).session() == old(self).session(),
            final(self).wait_cap() == old(self).wait_cap(),
            final(self).receiver().since() == old(self).receiver().since(),
            exists|got: Received<C>|
                {
                    &&& (got matches Received::Message(msg) ==> old(self).receiver().admits(msg))
                    &&& (final(self).stage(), action) == on_received(old(self).session(), got)
                },
    {
        let got = self.receiver.look();
        let ghost seen = got;
        let action = self.step(Report::Received(got));
        assert((self.stage(), action) == on_received(old(self).session(), seen));
        action
    }
}

/// The event that a stage has at hand.
pub open spec fn stage_event<C>(stage: &Stage<C>) -> Option<&PresenceEvent<C>> {
    match stage {
        Stage::Listening => None,
        Stage::Stopped => None,
        Stage::Checking(e) => Some(e),
        Stage::Resolving(e, _) => Some(e),
        Stage::Joining(e) => Some(e),
        Stage::Fetching(e) => Some(e),
        Stage::Starting(e) => Some(e),
        Stage::Playing(e) => Some(e),
        Stage::Marking(e) => Some(e),
    }
}

/// A worker takes up only events of its own session: any other leaves it
/// listening, with nothing asked of the outside but the next look.
pub proof fn lemma_foreign_event_is_dropped<C>(
    session_id: u64,
    wait_cap: Option<Span>,
    msg: crate::bus::Stamped<C>,
)
    requires
        msg.event.session_id != session_id,
    ensures
        next(session_id, wait_cap, Stage::Listening, Report::Received(Received::Message(msg))) == (
            Stage::<C>::Listening,
            Action::Look,
        ),
{
}

/// A join is asked for only once the policy check has passed: the session is
/// unrestricted, or the user's roles were had and hold the restricted role.
/// The join is for the event's own session and channel.
pub proof fn lemma_join_needs_clearance<C>(
    session_id: u64,
    wait_cap: Option<Span>,
    stage: Stage<C>,
    report: Report<C>,
)
    requires
        next(session_id, wait_cap, stage, report).1 is Join,
    ensures
        (stage is Checking && report == Report::<C>::Policy(None)) || (stage is Resolving
            && report is Roles && report->Roles_0 is Some
            && report->Roles_0->Some_0@.contains(stage->Resolving_1)),
        stage_event(&stage) matches Some(e) && next(session_id, wait_cap, stage, report).1
            == (Action::Join { session_id: e.session_id, channel_id: e.channel_id }),
{
}

/// A user who lacks the restricted role, or whose roles could not be had, is
/// passed over: the event is dropped and no join is asked for.
pub proof fn lemma_restricted_user_is_passed_over<C>(
    session_id: u64,
    wait_cap: Option<Span>,
    event: PresenceEvent<C>,
    role: u64,
    roles: Option<Vec<u64>>,
)
    requires
        roles matches Some(held) ==> !held@.contains(role),
    ensures
        next(session_id, wait_cap, Stage::Resolving(event, role), Report::Roles(roles)) == (
            Stage::<C>::Listening,
            Action::Look,
        ),
{
}

/// The flag is raised only for the worker's own session, and only when a
/// chime has been fetched and played: right after playback started without a
/// known length, or after the wait for a known length.
pub proof fn lemma_mark_needs_playback<C>(
    session_id: u64,
    wait_cap: Option<Span>,
    stage: Stage<C>,
    report: Report<C>,
)
    requires
        next(session_id, wait_cap, stage, report).1 is MarkActive,
    ensures
        next(session_id, wait_cap, stage, report).1 == (Action::MarkActive { session_id }),
        (stage is Starting && report == Report::<C>::Started(None)) || (stage is Playing
            && report is Slept),
{
}

/// A failed join or a failed fetch drops the event; nothing is retried and
/// the flag is not raised.
pub proof fn lemma_failure_drops_event<C>(
    session_id: u64,
    wait_cap: Option<Span>,
    event: PresenceEvent<C>,
    error: ChimeSinkError,
)
    ensures
        next(session_id, wait_cap, Stage::Joining(event), Report::Joined(false)) == (
            Stage::<C>::Listening,
            Action::Look,
        ),
        next(session_id, wait_cap, Stage::Fetching(event), Report::Fetched(Err(error))) == (
            Stage::<C>::Listening,
            Action::Look,
        ),
{
}

} // verus!
