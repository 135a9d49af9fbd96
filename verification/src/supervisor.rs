use vstd::prelude::*;

verus! {

/// The one task that disconnects idle sessions. It remembers the last
/// platform context that it was handed, since it has no other way to reach
/// the connection manager.
pub struct IdleSupervisor<C> {
    context: Option<C>,
}

impl<C> IdleSupervisor<C> {
    /// The context that the supervisor works with.
    pub closed spec fn context(&self) -> Option<C> {
        self.context
    }

    /// A supervisor that has seen no context yet.
    pub fn new() -> (s: Self)
        ensures
            s.context() is None,
    {
        IdleSupervisor { context: None }
    }

    /// The first step of a tick. `latest` is what was taken out of the
    /// shared latest-context slot: a context there replaces the one held.
    /// The tick goes on only where a context is held afterwards.
    pub fn refresh(&mut self, latest: Option<C>) -> (proceed: bool)
        ensures
            final(self).context() == (if latest is Some {
                latest
            } else {
                old(self).context()
            }),
            proceed == final(self).context() is Some,
    {
        match latest {
            Some(ctx) => {
                self.context = Some(ctx);
            },
            None => {},
        }
        self.context.is_some()
    }

    /// The context held, if any.
    pub fn current(&self) -> (r: Option<&C>)
        ensures
            r is Some == self.context() is Some,
            r matches Some(c) ==> *c == self.context()->Some_0,
    {
        self.context.as_ref()
    }
}

} // verus!
