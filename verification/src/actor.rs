//! The contracts an actor and its messages fulfil.
use vstd::prelude::*;

pub mod actor_ref;
pub mod concurrent_runner;
pub mod handler;
pub mod runner;

verus! {

/// The address of an actor.
pub struct ActorPath {
    path: String,
}

impl View for ActorPath {
    type V = Seq<char>;

    closed spec fn view(&self) -> Seq<char> {
        self.path@
    }
}

impl ActorPath {
    /// The address written as `path`.
    pub fn from(path: &str) -> (address: ActorPath)
        ensures
            address@ == path@,
    {
        ActorPath { path: path.to_owned() }
    }

    /// The address as text.
    pub fn as_str(&self) -> (text: &str)
        ensures
            text@ == self@,
    {
        self.path.as_str()
    }
}

impl Clone for ActorPath {
    fn clone(&self) -> (copy: ActorPath)
        ensures
            copy@ == self@,
    {
        ActorPath { path: self.path.clone() }
    }
}

/// What a sequential handler is told about the delivery it serves: the
/// address of the actor and a handle to the system that owns it.
pub struct ActorContext<S> {
    pub path: ActorPath,
    pub system: S,
}

/// A message, paired once and for all with the type of its response.
pub trait Message: Sized + Send + Sync + 'static {
    type Response: Send + Sync + 'static;
}

/// State with lifecycle hooks. `S` is the handle to the owning system.
pub trait Actor<S>: Sized + Send + Sync + 'static {
    /// What `pre_start` may do to the actor.
    open spec fn started(before: Self, ctx: ActorContext<S>, after: Self) -> bool {
        true
    }

    /// What `post_stop` may do to the actor.
    open spec fn stopped(before: Self, ctx: ActorContext<S>, after: Self) -> bool {
        true
    }

    /// Runs before the first message is handled.
    fn pre_start(&mut self, ctx: &mut ActorContext<S>)
        ensures
            Self::started(*old(self), *old(ctx), *final(self)),
    ;

    /// Runs after the last message was handled.
    fn post_stop(&mut self, ctx: &mut ActorContext<S>)
        ensures
            Self::stopped(*old(self), *old(ctx), *final(self)),
    ;
}

/// The one handler of an actor for messages of type `M`, run with exclusive
/// access to the actor.
pub trait Handler<S, M: Message>: Actor<S> {
    /// What handling `msg` may do to the actor, and what it may answer.
    open spec fn handled(
        before: Self,
        msg: M,
        ctx: ActorContext<S>,
        after: Self,
        response: M::Response,
    ) -> bool {
        true
    }

    fn handle(&mut self, msg: M, ctx: &mut ActorContext<S>) -> (response: M::Response)
        ensures
            Self::handled(*old(self), msg, *old(ctx), *final(self), response),
    ;
}

/// The one handler of an actor for messages of type `M`, run by several
/// workers at once on the same actor.
///
/// The runtime takes no lock around the call. Whatever the handler changes
/// it changes through synchronisation of the actor's own (atomics, locks).
/// There is no delivery context: it could not be shared between handlers
/// that run side by side.
pub trait ConcurrentHandler<S, M: Message>: Actor<S> {
    /// What the handler may answer to `msg`.
    open spec fn answered(&self, msg: M, response: M::Response) -> bool {
        true
    }

    fn handle(&self, msg: M) -> (response: M::Response)
        ensures
            self.answered(msg, response),
    ;
}

} // verus!
