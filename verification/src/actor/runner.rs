//! The runner of a sequential actor.
//!
//! The runner owns the actor and the receiving end of its mailbox. Whoever
//! waits on the mailbox hands each envelope, and at last the end of the
//! stream, to the runner, which alone touches the actor: one envelope at a
//! time, in the order in which they are handed over.
use vstd::prelude::*;
use crate::actor::{Actor, ActorContext, ActorPath};
use crate::actor::actor_ref::ActorRef;
use crate::actor::handler::{ActorMailbox, BoxedMessageHandler, MailboxReceiver};
use crate::error::{Delivery, RunnerError};

verus! {

/// Where a runner is in the life of its actor.
#[derive(Clone, Copy, Debug, PartialEq, Eq, Structural)]
pub enum RunnerState {
    /// The actor has not been started.
    Created,
    /// The start hook has run; envelopes are handled as they come.
    Running,
    /// The stop hook has run; nothing is handled any more.
    Stopped,
}

/// What one turn of a runner's loop did.
#[derive(Clone, Copy, Debug, PartialEq, Eq, Structural)]
pub enum Turn {
    /// An envelope was handled; the loop goes on.
    Handled(Delivery),
    /// The mailbox had come to its end and the actor was stopped; the loop
    /// is over.
    Stopped,
}

/// One thing a runner did to its actor.
#[verifier::reject_recursive_types(S)]
#[verifier::reject_recursive_types(A)]
pub ghost enum Step<S, A: Actor<S>> {
    /// The start hook ran.
    Started { before: A, ctx: ActorContext<S>, after: A },
    /// The handler for the message of `envelope` ran.
    Handled { envelope: BoxedMessageHandler<S, A>, before: A, ctx: ActorContext<S>, after: A },
    /// The stop hook ran.
    Stopped { before: A, ctx: ActorContext<S>, after: A },
}

impl<S, A: Actor<S>> Step<S, A> {
    /// The actor as the step found it.
    pub open spec fn before(self) -> A {
        match self {
            Step::Started { before, .. } => before,
            Step::Handled { before, .. } => before,
            Step::Stopped { before, .. } => before,
        }
    }

    /// The actor as the step left it.
    pub open spec fn after(self) -> A {
        match self {
            Step::Started { after, .. } => after,
            Step::Handled { after, .. } => after,
            Step::Stopped { after, .. } => after,
        }
    }

    /// The context that the step's hook or handler was given.
    pub open spec fn ctx(self) -> ActorContext<S> {
        match self {
            Step::Started { ctx, .. } => ctx,
            Step::Handled { ctx, .. } => ctx,
            Step::Stopped { ctx, .. } => ctx,
        }
    }

    /// The step is one that the actor's own hook or handler allows.
    pub open spec fn justified(self) -> bool {
        match self {
            Step::Started { before, ctx, after } => A::started(before, ctx, after),
            Step::Handled { envelope, before, ctx, after } => envelope.delivers(before, ctx, after),
            Step::Stopped { before, ctx, after } => A::stopped(before, ctx, after),
        }
    }
}

/// A runner as contracts see it.
#[verifier::reject_recursive_types(S)]
#[verifier::reject_recursive_types(A)]
pub ghost struct RunnerView<S, A: Actor<S>> {
    /// The actor's address.
    pub path: Seq<char>,
    /// The actor.
    pub actor: A,
    pub state: RunnerState,
    /// Everything done to the actor so far, oldest first.
    pub history: Seq<Step<S, A>>,
}

impl<S, A: Actor<S>> RunnerView<S, A> {
    /// How many envelopes were handled so far.
    pub open spec fn handled_count(self) -> nat {
        match self.state {
            RunnerState::Created => 0,
            RunnerState::Running => (self.history.len() - 1) as nat,
            RunnerState::Stopped => (self.history.len() - 2) as nat,
        }
    }

    /// The envelopes handled so far, oldest first.
    pub open spec fn handled(self) -> Seq<BoxedMessageHandler<S, A>> {
        Seq::new(self.handled_count(), |i: int| self.history[i + 1]->Handled_envelope)
    }

    /// Each step was allowed by the actor and was given the actor's address.
    pub open spec fn justified(self) -> bool {
        forall|i: int|
            0 <= i < self.history.len() ==> {
                &&& (#[trigger] self.history[i]).justified()
                &&& self.history[i].ctx().path@ == self.path
            }
    }

    /// Step `i` found the actor as the step before it had left it.
    pub open spec fn follows(self, i: int) -> bool {
        self.history[i].before() == self.history[i - 1].after()
    }

    /// Each step found the actor as the step before it had left it, and the
    /// actor is as the last step left it.
    pub open spec fn serial(self) -> bool {
        &&& forall|i: int| 0 < i < self.history.len() ==> #[trigger] self.follows(i)
        &&& self.history.len() > 0 ==> self.actor == self.history.last().after()
    }

    /// The history has the shape of a life: a start, then envelopes, then a
    /// stop, as far as the state says it has come.
    pub open spec fn shaped(self) -> bool {
        let n = self.history.len();
        match self.state {
            RunnerState::Created => n == 0,
            RunnerState::Running => {
                &&& n >= 1
                &&& self.history[0] is Started
                &&& forall|i: int| 1 <= i < n ==> (#[trigger] self.history[i]) is Handled
            },
            RunnerState::Stopped => {
                &&& n >= 2
                &&& self.history[0] is Started
                &&& self.history[n - 1] is Stopped
                &&& forall|i: int| 1 <= i < n - 1 ==> (#[trigger] self.history[i]) is Handled
            },
        }
    }

    /// What holds of every runner.
    pub open spec fn wf(self) -> bool {
        &&& self.justified()
        &&& self.serial()
        &&& self.shaped()
    }

    /// Envelopes are handled one after the other, in the order in which
    /// they were delivered: the envelope delivered as number `k` is the one
    /// of step `k + 1`, which the actor's handler allows, and which found
    /// the actor as the step before it had left it.
    pub proof fn lemma_handled_in_delivery_order(self, k: int)
        requires
            self.wf(),
            0 <= k < self.handled().len(),
        ensures
            self.history[k + 1] is Handled,
            self.history[k + 1]->Handled_envelope == self.handled()[k],
            self.handled()[k].delivers(
                self.history[k].after(),
                self.history[k + 1].ctx(),
                self.history[k + 1].after(),
            ),
            self.history[k + 1].ctx().path@ == self.path,
            k + 1 < self.handled().len() ==> self.history[k + 2].before() == self.history[k
                + 1].after(),
    {
        assert(self.follows(k + 1));
        assert(self.history[k + 1].justified());
        if k + 1 < self.handled().len() {
            assert(self.follows(k + 2));
        }
    }

    /// Each hook runs at most once, the start hook first and the stop hook
    /// last: a step is the start hook's exactly if it is the first, and the
    /// stop hook's exactly if the runner has stopped and it is the last.
    pub proof fn lemma_hooks_run_once(self, i: int)
        requires
            self.wf(),
            0 <= i < self.history.len(),
        ensures
            self.history[i] is Started <==> i == 0,
            self.history[i] is Stopped <==> self.state == RunnerState::Stopped && i
                == self.history.len() - 1,
            self.state == RunnerState::Stopped ==> self.history.last() is Stopped,
            self.state != RunnerState::Created,
    {
    }

    /// A runner that has stopped has handled every envelope that it was
    /// given while it ran, and left the actor as the stop hook left it.
    pub proof fn lemma_stopped_after_draining(self)
        requires
            self.wf(),
            self.state == RunnerState::Stopped,
        ensures
            self.history.len() == self.handled().len() + 2,
            self.history.last() is Stopped,
            self.actor == self.history.last().after(),
            A::stopped(
                self.history.last().before(),
                self.history.last().ctx(),
                self.history.last().after(),
            ),
    {
        assert(self.history.last().justified());
    }
}

/// The runner of a sequential actor.
#[verifier::reject_recursive_types(S)]
#[verifier::reject_recursive_types(A)]
pub struct ActorRunner<S, A: Actor<S>> {
    path: ActorPath,
    actor: A,
    receiver: MailboxReceiver<S, A>,
    state: RunnerState,
    history: Ghost<Seq<Step<S, A>>>,
}

impl<S, A: Actor<S>> View for ActorRunner<S, A> {
    type V = RunnerView<S, A>;

    closed spec fn view(&self) -> RunnerView<S, A> {
        RunnerView {
            path: self.path@,
            actor: self.actor,
            state: self.state,
            history: self.history@,
        }
    }
}

impl<S: Send + Sync + 'static, A: Actor<S>> ActorRunner<S, A> {
    /// A runner for `actor` with a new mailbox, and the first handle to it.
    pub fn create(path: ActorPath, actor: A) -> (made: (Self, ActorRef<S, A>))
        ensures
            made.0@ == (RunnerView::<S, A> {
                path: path@,
                actor,
                state: RunnerState::Created,
                history: Seq::empty(),
            }),
            made.0@.wf(),
            made.1@ == path@,
    {
        let (sender, receiver) = ActorMailbox::<S, A>::create();
        let actor_ref = ActorRef::new(path.clone(), sender);
        let runner = ActorRunner {
            path,
            actor,
            receiver,
            state: RunnerState::Created,
            history: Ghost(Seq::empty()),
        };
        (runner, actor_ref)
    }

    /// The actor's address.
    pub fn path(&self) -> (path: &ActorPath)
        ensures
            path@ == self@.path,
    {
        &self.path
    }

    /// The actor.
    pub fn actor(&self) -> (actor: &A)
        ensures
            *actor == self@.actor,
    {
        &self.actor
    }

    pub fn state(&self) -> (state: RunnerState)
        ensures
            state == self@.state,
    {
        self.state
    }

    /// The receiving end of the actor's mailbox, to wait on.
    pub fn mailbox(&mut self) -> (receiver: &mut MailboxReceiver<S, A>)
        ensures
            *receiver == old(self).inbox(),
            final(self).inbox() == *final(receiver),
            final(self)@ == old(self)@,
    {
        &mut self.receiver
    }

    /// The receiving end of the actor's mailbox.
    pub closed spec fn inbox(&self) -> MailboxReceiver<S, A> {
        self.receiver
    }

    /// Runs the start hook, once: a runner that was started before refuses.
    pub fn start(&mut self, system: S) -> (started: Result<(), RunnerError>)
        requires
            old(self)@.wf(),
        ensures
            final(self)@.wf(),
            final(self)@.path == old(self)@.path,
            old(self)@.state == RunnerState::Created ==> {
                &&& started is Ok
                &&& final(self)@.state == RunnerState::Running
                &&& final(self)@.history.len() == 1
                &&& final(self)@.history[0].before() == old(self)@.actor
                &&& final(self)@.history[0].ctx().system == system
            },
            old(self)@.state != RunnerState::Created ==> {
                &&& started == Err::<(), RunnerError>(RunnerError::AlreadyStarted)
                &&& final(self)@ == old(self)@
            },
    {
        match self.state {
            RunnerState::Created => {
                let ghost before = self.actor;
                let mut ctx = ActorContext { path: self.path.clone(), system };
                let ghost given = ctx;
                self.actor.pre_start(&mut ctx);
                self.state = RunnerState::Running;
                let ghost step = Step::Started { before, ctx: given, after: self.actor };
                let ghost grown = seq![step];
                self.history = Ghost(grown);
                Ok(())
            },
            _ => Err(RunnerError::AlreadyStarted),
        }
    }

    /// Handles one envelope: the actor's handler runs on its message with a
    /// context made for this delivery, and the response goes to the reply
    /// slot if there is one. A runner that is not running refuses and drops
    /// the envelope, and with it the reply slot.
    pub fn deliver(&mut self, envelope: BoxedMessageHandler<S, A>, system: S) -> (delivered:
        Result<Delivery, RunnerError>)
        requires
            old(self)@.wf(),
        ensures
            final(self)@.wf(),
            final(self)@.path == old(self)@.path,
            final(self)@.state == old(self)@.state,
            old(self)@.state == RunnerState::Running ==> {
                &&& delivered matches Ok(delivery)
                &&& (delivery == Delivery::Unanswered <==> !envelope.expects_reply())
                &&& final(self)@.history == old(self)@.history.push(
                    Step::Handled {
                        envelope,
                        before: old(self)@.actor,
                        ctx: final(self)@.history.last().ctx(),
                        after: final(self)@.actor,
                    },
                )
                &&& final(self)@.history.last().ctx().system == system
                &&& final(self)@.handled() == old(self)@.handled().push(envelope)
            },
            old(self)@.state != RunnerState::Running ==> {
                &&& delivered == Err::<Delivery, RunnerError>(RunnerError::NotRunning)
                &&& final(self)@ == old(self)@
            },
    {
        match self.state {
            RunnerState::Running => {
                let ghost before = self.actor;
                let ghost prior = self.history@;
                let mut ctx = ActorContext { path: self.path.clone(), system };
                let ghost given = ctx;
                let delivery = envelope.handle(&mut self.actor, &mut ctx);
                let ghost step = Step::Handled { envelope, before, ctx: given, after: self.actor };
                let ghost grown = prior.push(step);
                self.history = Ghost(grown);
                proof {
                    Self::lemma_grown(old(self)@, self@, step);
                    assert(self@.handled() =~= old(self)@.handled().push(envelope));
                }
                Ok(delivery)
            },
            _ => Err(RunnerError::NotRunning),
        }
    }

    /// Runs the stop hook, once, and ends the actor's life. A runner that is
    /// not running refuses.
    pub fn stop(&mut self, system: S) -> (stopped: Result<(), RunnerError>)
        requires
            old(self)@.wf(),
        ensures
            final(self)@.wf(),
            final(self)@.path == old(self)@.path,
            old(self)@.state == RunnerState::Running ==> {
                &&& stopped is Ok
                &&& final(self)@.state == RunnerState::Stopped
                &&& final(self)@.history.len() == old(self)@.history.len() + 1
                &&& final(self)@.history.drop_last() == old(self)@.history
                &&& final(self)@.history.last().ctx().system == system
                &&& final(self)@.handled() == old(self)@.handled()
            },
            old(self)@.state != RunnerState::Running ==> {
                &&& stopped == Err::<(), RunnerError>(RunnerError::NotRunning)
                &&& final(self)@ == old(self)@
            },
    {
        match self.state {
            RunnerState::Running => {
                let ghost before = self.actor;
                let ghost prior = self.history@;
                let mut ctx = ActorContext { path: self.path.clone(), system };
                let ghost given = ctx;
                self.actor.post_stop(&mut ctx);
                self.state = RunnerState::Stopped;
                let ghost step = Step::Stopped { before, ctx: given, after: self.actor };
                let ghost grown = prior.push(step);
                self.history = Ghost(grown);
                proof {
                    Self::lemma_grown(old(self)@, self@, step);
                    assert(self@.history.drop_last() =~= prior);
                    assert(self@.handled() =~= old(self)@.handled());
                }
                Ok(())
            },
            _ => Err(RunnerError::NotRunning),
        }
    }

    /// One turn of the loop: what the mailbox gave is an envelope, which is
    /// handled, or the end of the stream, at which the actor is stopped.
    /// What comes back says whether to wait on the mailbox again.
    pub fn receive(&mut self, mail: Option<BoxedMessageHandler<S, A>>, system: S) -> (turn: Result<
        Turn,
        RunnerError,
    >)
        requires
            old(self)@.wf(),
        ensures
            final(self)@.wf(),
            final(self)@.path == old(self)@.path,
            old(self)@.state == RunnerState::Running ==> {
                &&& final(self)@.history.drop_last() == old(self)@.history
                &&& final(self)@.history.len() == old(self)@.history.len() + 1
                &&& final(self)@.history.last().ctx().system == system
                &&& match mail {
                    Some(envelope) => {
                        &&& turn matches Ok(Turn::Handled(delivery))
                        &&& (delivery == Delivery::Unanswered <==> !envelope.expects_reply())
                        &&& final(self)@.state == RunnerState::Running
                        &&& final(self)@.handled() == old(self)@.handled().push(envelope)
                    },
                    None => {
                        &&& turn == Ok::<Turn, RunnerError>(Turn::Stopped)
                        &&& final(self)@.state == RunnerState::Stopped
                        &&& final(self)@.handled() == old(self)@.handled()
                    },
                }
            },
            old(self)@.state != RunnerState::Running ==> {
                &&& turn == Err::<Turn, RunnerError>(RunnerError::NotRunning)
                &&& final(self)@ == old(self)@
            },
    {
        match mail {
            Some(envelope) => {
                let delivered = self.deliver(envelope, system);
                proof {
                    if old(self)@.state == RunnerState::Running {
                        assert(self@.history.drop_last() =~= old(self)@.history);
                    }
                }
                match delivered {
                    Ok(delivery) => Ok(Turn::Handled(delivery)),
                    Err(refused) => Err(refused),
                }
            },
            None => match self.stop(system) {
                Ok(_) => Ok(Turn::Stopped),
                Err(refused) => Err(refused),
            },
        }
    }

    /// A well-formed history stays so when a step is added that the actor
    /// allows, that was given the actor's address, and that took the actor
    /// from where the history left it to where it is now.
    proof fn lemma_grown(before: RunnerView<S, A>, after: RunnerView<S, A>, step: Step<S, A>)
        requires
            before.wf(),
            before.state == RunnerState::Running,
            after.path == before.path,
            after.history == before.history.push(step),
            step.justified(),
            step.ctx().path@ == before.path,
            step.before() == before.actor,
            step.after() == after.actor,
            step is Handled && after.state == RunnerState::Running || step is Stopped
                && after.state == RunnerState::Stopped,
        ensures
            after.wf(),
    {
        assert forall|i: int| 0 < i < after.history.len() implies #[trigger] after.follows(i) by {
            if i < before.history.len() {
                assert(before.follows(i));
            }
        }
        assert forall|i: int| 0 <= i < after.history.len() implies {
            &&& (#[trigger] after.history[i]).justified()
            &&& after.history[i].ctx().path@ == after.path
        } by {
            if i < before.history.len() {
                assert(after.history[i] == before.history[i]);
            }
        }
        assert forall|i: int| 1 <= i < before.history.len() implies (#[trigger] after.history[i])
            is Handled by {
            assert(after.history[i] == before.history[i]);
        }
    }
}

} // verus!
