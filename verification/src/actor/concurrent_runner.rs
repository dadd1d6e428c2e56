//! The runner of a concurrent actor.
//!
//! A fixed number of workers read one mailbox and handle what they get side
//! by side, on one actor and without a lock of the runner's: this is the
//! caller-synchronised mode, kept apart from the sequential one by its own
//! handler trait, envelope, mailbox and runner. The runner counts its workers
//! out, and stops the actor only when the last of them has gone.
use vstd::prelude::*;
use crate::actor::{Actor, ActorContext, ActorPath};
use crate::actor::actor_ref::ConcurrentActorRef;
use crate::actor::handler::{
    BoxedConcurrentMessageHandler,
    ConcurrentActorMailbox,
    ConcurrentMailboxReceiver,
};
use crate::actor::runner::RunnerState;
use crate::error::{Delivery, RunnerError};

verus! {

/// A concurrent runner as contracts see it.
pub ghost struct ConcurrentRunnerView<A> {
    /// The actor's address.
    pub path: Seq<char>,
    /// The actor.
    pub actor: A,
    pub state: RunnerState,
    /// How many workers the runner was made for.
    pub workers: nat,
    /// How many of them have exited.
    pub exited: nat,
}

impl<A> ConcurrentRunnerView<A> {
    /// What holds of every concurrent runner: no worker exits before the
    /// start, none exits twice, and the actor is stopped only when all have
    /// exited.
    pub open spec fn wf(self) -> bool {
        &&& self.exited <= self.workers
        &&& self.state == RunnerState::Created ==> self.exited == 0
        &&& self.state == RunnerState::Stopped ==> self.exited == self.workers
    }
}

/// The runner of a concurrent actor.
#[verifier::reject_recursive_types(S)]
#[verifier::reject_recursive_types(A)]
pub struct ConcurrentActorRunner<S, A: Actor<S>> {
    path: ActorPath,
    actor: A,
    receiver: ConcurrentMailboxReceiver<S, A>,
    workers: usize,
    exited: usize,
    state: RunnerState,
}

impl<S, A: Actor<S>> View for ConcurrentActorRunner<S, A> {
    type V = ConcurrentRunnerView<A>;

    closed spec fn view(&self) -> ConcurrentRunnerView<A> {
        ConcurrentRunnerView {
            path: self.path@,
            actor: self.actor,
            state: self.state,
            workers: self.workers as nat,
            exited: self.exited as nat,
        }
    }
}

impl<S: Send + Sync + 'static, A: Actor<S>> ConcurrentActorRunner<S, A> {
    /// A runner for `actor` with a new mailbox that `workers` workers will
    /// read, and the first handle to it.
    pub fn create(path: ActorPath, workers: usize, actor: A) -> (made: (
        Self,
        ConcurrentActorRef<S, A>,
    ))
        ensures
            made.0@ == (ConcurrentRunnerView::<A> {
                path: path@,
                actor,
                state: RunnerState::Created,
                workers: workers as nat,
                exited: 0,
            }),
            made.0@.wf(),
            made.1@ == path@,
    {
        let (sender, receiver) = ConcurrentActorMailbox::<S, A>::create();
        let actor_ref = ConcurrentActorRef::new(path.clone(), sender);
        let runner = ConcurrentActorRunner {
            path,
            actor,
            receiver,
            workers,
            exited: 0,
            state: RunnerState::Created,
        };
        (runner, actor_ref)
    }

    /// The actor's address.
    pub fn path(&self) -> (path: &ActorPath)
        ensures
            path@ == self@.path,
    {
        &self.path
    }

    /// The actor.
    pub fn actor(&self) -> (actor: &A)
        ensures
            *actor == self@.actor,
    {
        &self.actor
    }

    pub fn state(&self) -> (state: RunnerState)
        ensures
            state == self@.state,
    {
        self.state
    }

    /// How many workers the runner was made for.
    pub fn workers(&self) -> (workers: usize)
        ensures
            workers == self@.workers,
    {
        self.workers
    }

    /// How many workers are still running.
    pub fn running_workers(&self) -> (running: usize)
        requires
            self@.wf(),
        ensures
            running == (if self@.state == RunnerState::Running {
                self@.workers - self@.exited
            } else {
                0
            }),
    {
        match self.state {
            RunnerState::Running => self.workers - self.exited,
            _ => 0,
        }
    }

    /// The receiving end of the actor's mailbox, which the workers share.
    pub fn mailbox(&self) -> (receiver: &ConcurrentMailboxReceiver<S, A>)
        ensures
            *receiver == self.inbox(),
    {
        &self.receiver
    }

    /// The receiving end of the actor's mailbox.
    pub closed spec fn inbox(&self) -> ConcurrentMailboxReceiver<S, A> {
        self.receiver
    }

    /// Runs the start hook, once, and says how many workers to set to work:
    /// as many as the runner was made for. A runner that was started before
    /// refuses.
    pub fn start(&mut self, system: S) -> (started: Result<usize, RunnerError>)
        requires
            old(self)@.wf(),
        ensures
            final(self)@.wf(),
            final(self)@.path == old(self)@.path,
            final(self)@.workers == old(self)@.workers,
            final(self)@.exited == old(self)@.exited,
            old(self)@.state == RunnerState::Created ==> {
                &&& started == Ok::<usize, RunnerError>(old(self)@.workers as usize)
                &&& final(self)@.state == RunnerState::Running
                &&& exists|ctx: ActorContext<S>|
                    {
                        &&& ctx.path@ == old(self)@.path
                        &&& ctx.system == system
                        &&& #[trigger] A::started(old(self)@.actor, ctx, final(self)@.actor)
                    }
            },
            old(self)@.state != RunnerState::Created ==> {
                &&& started == Err::<usize, RunnerError>(RunnerError::AlreadyStarted)
                &&& final(self)@ == old(self)@
            },
    {
        match self.state {
            RunnerState::Created => {
                let mut ctx = ActorContext { path: self.path.clone(), system };
                let ghost given = ctx;
                self.actor.pre_start(&mut ctx);
                self.state = RunnerState::Running;
                assert(A::started(old(self)@.actor, given, self@.actor));
                Ok(self.workers)
            },
            _ => Err(RunnerError::AlreadyStarted),
        }
    }

    /// Handles one envelope on behalf of a worker: the actor's handler runs
    /// on its message, and the response goes to the reply slot if there is
    /// one. Workers call this side by side. A runner that is not running
    /// refuses and drops the envelope, and with it the reply slot.
    pub fn dispatch(&self, envelope: BoxedConcurrentMessageHandler<S, A>) -> (delivered: Result<
        Delivery,
        RunnerError,
    >)
        ensures
            self@.state == RunnerState::Running ==> {
                &&& delivered matches Ok(delivery)
                &&& (delivery == Delivery::Unanswered <==> !envelope.expects_reply())
                &&& envelope.serves(self@.actor)
            },
            self@.state != RunnerState::Running ==> delivered == Err::<Delivery, RunnerError>(
                RunnerError::NotRunning,
            ),
    {
        match self.state {
            RunnerState::Running => Ok(envelope.handle(&self.actor)),
            _ => Err(RunnerError::NotRunning),
        }
    }

    /// Counts one worker out, and says how many are still running.
    pub fn worker_exited(&mut self) -> (left: Result<usize, RunnerError>)
        requires
            old(self)@.wf(),
        ensures
            final(self)@.wf(),
            old(self)@.state == RunnerState::Running && old(self)@.exited < old(self)@.workers ==> {
                &&& final(self)@ == (ConcurrentRunnerView::<A> {
                    exited: old(self)@.exited + 1,
                    ..old(self)@
                })
                &&& left == Ok::<usize, RunnerError>(
                    (old(self)@.workers - old(self)@.exited - 1) as usize,
                )
            },
            old(self)@.state == RunnerState::Running && old(self)@.exited == old(self)@.workers ==> {
                &&& left == Err::<usize, RunnerError>(RunnerError::NoWorkerRunning)
                &&& final(self)@ == old(self)@
            },
            old(self)@.state != RunnerState::Running ==> {
                &&& left == Err::<usize, RunnerError>(RunnerError::NotRunning)
                &&& final(self)@ == old(self)@
            },
    {
        match self.state {
            RunnerState::Running => {
                if self.exited < self.workers {
                    self.exited = self.exited + 1;
                    Ok(self.workers - self.exited)
                } else {
                    Err(RunnerError::NoWorkerRunning)
                }
            },
            _ => Err(RunnerError::NotRunning),
        }
    }

    /// Runs the stop hook, once, and ends the actor's life: but only when
    /// every worker has exited. Until then, and when not running, the runner
    /// refuses.
    pub fn stop(&mut self, system: S) -> (stopped: Result<(), RunnerError>)
        requires
            old(self)@.wf(),
        ensures
            final(self)@.wf(),
            final(self)@.path == old(self)@.path,
            final(self)@.workers == old(self)@.workers,
            final(self)@.exited == old(self)@.exited,
            old(self)@.state == RunnerState::Running && old(self)@.exited == old(self)@.workers ==> {
                &&& stopped is Ok
                &&& final(self)@.state == RunnerState::Stopped
                &&& exists|ctx: ActorContext<S>|
                    {
                        &&& ctx.path@ == old(self)@.path
                        &&& ctx.system == system
                        &&& #[trigger] A::stopped(old(self)@.actor, ctx, final(self)@.actor)
                    }
            },
            old(self)@.state == RunnerState::Running && old(self)@.exited < old(self)@.workers ==> {
                &&& stopped == Err::<(), RunnerError>(RunnerError::WorkersRunning)
                &&& final(self)@ == old(self)@
            },
            old(self)@.state != RunnerState::Running ==> {
                &&& stopped == Err::<(), RunnerError>(RunnerError::NotRunning)
                &&& final(self)@ == old(self)@
            },
    {
        match self.state {
            RunnerState::Running => {
                if self.exited < self.workers {
                    Err(RunnerError::WorkersRunning)
                } else {
                    let mut ctx = ActorContext { path: self.path.clone(), system };
                    let ghost given = ctx;
                    self.actor.post_stop(&mut ctx);
                    self.state = RunnerState::Stopped;
                    assert(A::stopped(old(self)@.actor, given, self@.actor));
                    Ok(())
                }
            },
            _ => Err(RunnerError::NotRunning),
        }
    }
}

} // verus!
