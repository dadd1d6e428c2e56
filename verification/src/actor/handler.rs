//! Envelopes and mailboxes.
//!
//! An envelope owns one message and, where the sender waits for an answer,
//! the slot the answer goes into. Behind `MessageHandler` its message type is
//! forgotten, so that one mailbox carries envelopes of every message type
//! that the actor handles. Handling takes the envelope by value: there is no
//! second dispatch of the same envelope.
use vstd::prelude::*;
use std::marker::PhantomData;
use crate::actor::{Actor, ActorContext, ConcurrentHandler, Handler, Message};
use crate::error::{Delivery, SendFailure};

verus! {

/// `tokio::sync::mpsc::UnboundedSender`, carried through as it is.
#[verifier::external_type_specification]
#[verifier::external_body]
#[verifier::reject_recursive_types(T)]
pub struct ExUnboundedSender<T>(tokio::sync::mpsc::UnboundedSender<T>);

/// `tokio::sync::mpsc::UnboundedReceiver`, carried through as it is.
#[verifier::external_type_specification]
#[verifier::external_body]
#[verifier::reject_recursive_types(T)]
pub struct ExUnboundedReceiver<T>(tokio::sync::mpsc::UnboundedReceiver<T>);

/// `async_channel::Sender`, carried through as it is.
#[verifier::external_type_specification]
#[verifier::external_body]
#[verifier::reject_recursive_types(T)]
pub struct ExSharedSender<T>(async_channel::Sender<T>);

/// `async_channel::Receiver`, carried through as it is.
#[verifier::external_type_specification]
#[verifier::external_body]
#[verifier::reject_recursive_types(T)]
pub struct ExSharedReceiver<T>(async_channel::Receiver<T>);

/// `tokio::sync::oneshot::Sender`, carried through as it is.
#[verifier::external_type_specification]
#[verifier::external_body]
#[verifier::reject_recursive_types(T)]
pub struct ExReplySender<T>(tokio::sync::oneshot::Sender<T>);

/// `tokio::sync::oneshot::Receiver`, carried through as it is.
#[verifier::external_type_specification]
#[verifier::external_body]
#[verifier::reject_recursive_types(T)]
pub struct ExReplyReceiver<T>(tokio::sync::oneshot::Receiver<T>);

/// The slot a response is put into, once.
pub type ReplySender<R> = tokio::sync::oneshot::Sender<R>;

/// The end of a reply slot that the asker holds.
pub type ReplyReceiver<R> = tokio::sync::oneshot::Receiver<R>;

/// An envelope of a sequential actor, its message type forgotten.
pub trait MessageHandler<S, A: Actor<S>>: Send + Sync {
    /// Whether the sender waits for the response.
    spec fn expects_reply(&self) -> bool;

    /// Whether handling this envelope's message can take the actor from
    /// `before` to `after`.
    spec fn delivers(&self, before: A, ctx: ActorContext<S>, after: A) -> bool;

    /// Runs the actor's handler on the message, once, and routes the
    /// response to the reply slot if there is one.
    fn handle(self: Box<Self>, actor: &mut A, ctx: &mut ActorContext<S>) -> (delivery: Delivery)
        ensures
            self.delivers(*old(actor), *old(ctx), *final(actor)),
            delivery == Delivery::Unanswered <==> !self.expects_reply(),
    ;
}

/// An envelope of a concurrent actor, its message type forgotten.
///
/// Workers call `handle` side by side on one actor; the actor's handlers do
/// their own synchronisation.
pub trait ConcurrentMessageHandler<S, A: Actor<S>>: Send + Sync {
    /// Whether the sender waits for the response.
    spec fn expects_reply(&self) -> bool;

    /// Whether `actor` has an answer to this envelope's message.
    spec fn serves(&self, actor: A) -> bool;

    /// Runs the actor's handler on the message, once, and routes the
    /// response to the reply slot if there is one.
    fn handle(self: Box<Self>, actor: &A) -> (delivery: Delivery)
        ensures
            self.serves(*actor),
            delivery == Delivery::Unanswered <==> !self.expects_reply(),
    ;
}

/// An envelope as a sequential actor's mailbox carries it: a message of
/// which only the actor's type is still known.
#[verifier::reject_recursive_types(S)]
#[verifier::reject_recursive_types(A)]
pub struct BoxedMessageHandler<S, A: Actor<S>> {
    handler: Box<dyn MessageHandler<S, A>>,
}

/// An envelope as a concurrent actor's mailbox carries it.
#[verifier::reject_recursive_types(S)]
#[verifier::reject_recursive_types(A)]
pub struct BoxedConcurrentMessageHandler<S, A: Actor<S>> {
    handler: Box<dyn ConcurrentMessageHandler<S, A>>,
}

impl<S, A: Actor<S>> BoxedMessageHandler<S, A> {
    /// Whether the sender waits for the response.
    pub closed spec fn expects_reply(&self) -> bool {
        self.handler.expects_reply()
    }

    /// Whether handling this envelope's message can take the actor from
    /// `before` to `after`.
    pub closed spec fn delivers(&self, before: A, ctx: ActorContext<S>, after: A) -> bool {
        self.handler.delivers(before, ctx, after)
    }

    /// Forgets the message type of `handler`.
    pub fn new<H: MessageHandler<S, A> + 'static>(handler: H) -> (envelope: Self) {
        BoxedMessageHandler { handler: Box::new(handler) }
    }

    /// Runs the actor's handler on the message and routes the response.
    /// The envelope is used up.
    pub fn handle(self, actor: &mut A, ctx: &mut ActorContext<S>) -> (delivery: Delivery)
        ensures
            self.delivers(*old(actor), *old(ctx), *final(actor)),
            delivery == Delivery::Unanswered <==> !self.expects_reply(),
    {
        self.handler.handle(actor, ctx)
    }
}

impl<S, A: Actor<S>> BoxedConcurrentMessageHandler<S, A> {
    /// Whether the sender waits for the response.
    pub closed spec fn expects_reply(&self) -> bool {
        self.handler.expects_reply()
    }

    /// Whether `actor` has an answer to this envelope's message.
    pub closed spec fn serves(&self, actor: A) -> bool {
        self.handler.serves(actor)
    }

    /// Forgets the message type of `handler`.
    pub fn new<H: ConcurrentMessageHandler<S, A> + 'static>(handler: H) -> (envelope: Self) {
        BoxedConcurrentMessageHandler { handler: Box::new(handler) }
    }

    /// Runs the actor's handler on the message and routes the response.
    /// The envelope is used up.
    pub fn handle(self, actor: &A) -> (delivery: Delivery)
        ensures
            self.serves(*actor),
            delivery == Delivery::Unanswered <==> !self.expects_reply(),
    {
        self.handler.handle(actor)
    }
}

pub type MailboxReceiver<S, A> = tokio::sync::mpsc::UnboundedReceiver<BoxedMessageHandler<S, A>>;

pub type MailboxSender<S, A> = tokio::sync::mpsc::UnboundedSender<BoxedMessageHandler<S, A>>;

pub type ConcurrentMailboxReceiver<S, A> = async_channel::Receiver<
    BoxedConcurrentMessageHandler<S, A>,
>;

pub type ConcurrentMailboxSender<S, A> = async_channel::Sender<BoxedConcurrentMessageHandler<S, A>>;

/// `tokio::sync::oneshot::Sender::send`: puts `response` into the slot.
/// Claimed: when the call fails, it gives back the very value it was given.
/// It fails when the asker's end is gone; nothing here says when that is.
#[verifier::external_body]
fn reply_send<R>(slot: ReplySender<R>, response: R) -> (sent: Result<(), R>)
    ensures
        sent matches Err(returned) ==> returned == response,
{
    slot.send(response)
}

/// What a finished attempt to fill the reply slot amounts to.
pub fn reply_delivery<R>(sent: Result<(), R>) -> (delivery: Delivery)
    ensures
        delivery == (match sent {
            Ok(_) => Delivery::Replied,
            Err(_) => Delivery::ReplyDeliveryFailed,
        }),
{
    match sent {
        Ok(_) => Delivery::Replied,
        Err(_) => Delivery::ReplyDeliveryFailed,
    }
}

/// Routes a handler's response: into the reply slot where the sender waits
/// for it, nowhere otherwise. A slot whose asker has gone is no error: the
/// handler has run and what it did stands.
pub fn route_reply<R>(rsvp: Option<ReplySender<R>>, response: R) -> (delivery: Delivery)
    ensures
        rsvp is None <==> delivery == Delivery::Unanswered,
        rsvp is Some ==> delivery == Delivery::Replied || delivery
            == Delivery::ReplyDeliveryFailed,
{
    match rsvp {
        Some(slot) => reply_delivery(reply_send(slot, response)),
        None => Delivery::Unanswered,
    }
}

/// The envelope of a message of type `M` for a sequential actor `A`.
pub struct ActorMessage<M: Message, S, A: Handler<S, M>> {
    payload: M,
    rsvp: Option<ReplySender<M::Response>>,
    _phantom_actor: PhantomData<A>,
    _phantom_system: PhantomData<S>,
}

/// The envelope of a message of type `M` for a concurrent actor `A`.
pub struct ConcurrentActorMessage<M: Message, S, A: ConcurrentHandler<S, M>> {
    payload: M,
    rsvp: Option<ReplySender<M::Response>>,
    _phantom_actor: PhantomData<A>,
    _phantom_system: PhantomData<S>,
}

impl<M: Message, S, A: Handler<S, M>> ActorMessage<M, S, A> {
    /// The message in the envelope.
    pub closed spec fn payload(&self) -> M {
        self.payload
    }

    /// The reply slot in the envelope.
    pub closed spec fn rsvp(&self) -> Option<ReplySender<M::Response>> {
        self.rsvp
    }

    /// Seals `msg` in an envelope, with the slot for the response if the
    /// sender waits for one.
    pub fn new(msg: M, rsvp: Option<ReplySender<M::Response>>) -> (envelope: Self)
        ensures
            envelope.payload() == msg,
            envelope.rsvp() == rsvp,
    {
        ActorMessage { payload: msg, rsvp, _phantom_actor: PhantomData, _phantom_system: PhantomData }
    }

    /// Opens the envelope and runs the actor's handler on its message. The
    /// response comes back together with the envelope's reply slot.
    pub fn invoke(self, actor: &mut A, ctx: &mut ActorContext<S>) -> (done: (
        M::Response,
        Option<ReplySender<M::Response>>,
    ))
        ensures
            A::handled(*old(actor), self.payload(), *old(ctx), *final(actor), done.0),
            done.1 == self.rsvp(),
    {
        let response = actor.handle(self.payload, ctx);
        (response, self.rsvp)
    }
}

impl<M: Message, S: Send + Sync + 'static, A: Handler<S, M>> MessageHandler<S, A> for ActorMessage<
    M,
    S,
    A,
> {
    open spec fn expects_reply(&self) -> bool {
        self.rsvp() is Some
    }

    open spec fn delivers(&self, before: A, ctx: ActorContext<S>, after: A) -> bool {
        exists|response: M::Response| A::handled(before, self.payload(), ctx, after, response)
    }

    fn handle(self: Box<Self>, actor: &mut A, ctx: &mut ActorContext<S>) -> (delivery: Delivery) {
        let envelope = *self;
        let (response, rsvp) = envelope.invoke(actor, ctx);
        route_reply(rsvp, response)
    }
}

impl<M: Message, S, A: ConcurrentHandler<S, M>> ConcurrentActorMessage<M, S, A> {
    /// The message in the envelope.
    pub closed spec fn payload(&self) -> M {
        self.payload
    }

    /// The reply slot in the envelope.
    pub closed spec fn rsvp(&self) -> Option<ReplySender<M::Response>> {
        self.rsvp
    }

    /// Seals `msg` in an envelope, with the slot for the response if the
    /// sender waits for one.
    pub fn new(msg: M, rsvp: Option<ReplySender<M::Response>>) -> (envelope: Self)
        ensures
            envelope.payload() == msg,
            envelope.rsvp() == rsvp,
    {
        ConcurrentActorMessage {
            payload: msg,
            rsvp,
            _phantom_actor: PhantomData,
            _phantom_system: PhantomData,
        }
    }

    /// Opens the envelope and runs the actor's handler on its message. The
    /// response comes back together with the envelope's reply slot.
    pub fn invoke(self, actor: &A) -> (done: (M::Response, Option<ReplySender<M::Response>>))
        ensures
            actor.answered(self.payload(), done.0),
            done.1 == self.rsvp(),
    {
        let response = actor.handle(self.payload);
        (response, self.rsvp)
    }
}

impl<M: Message, S: Send + Sync + 'static, A: ConcurrentHandler<S, M>> ConcurrentMessageHandler<
    S,
    A,
> for ConcurrentActorMessage<M, S, A> {
    open spec fn expects_reply(&self) -> bool {
        self.rsvp() is Some
    }

    open spec fn serves(&self, actor: A) -> bool {
        exists|response: M::Response| actor.answered(self.payload(), response)
    }

    fn handle(self: Box<Self>, actor: &A) -> (delivery: Delivery) {
        let envelope = *self;
        let (response, rsvp) = envelope.invoke(actor);
        route_reply(rsvp, response)
    }
}

/// The mailbox of a sequential actor: one reader, any number of senders, no
/// bound.
pub struct ActorMailbox<S, A: Actor<S>> {
    _phantom_actor: PhantomData<A>,
    _phantom_system: PhantomData<S>,
}

/// The mailbox of a concurrent actor: one queue that all workers read.
pub struct ConcurrentActorMailbox<S, A: Actor<S>> {
    _phantom_actor: PhantomData<A>,
    _phantom_system: PhantomData<S>,
}

impl<S, A: Actor<S>> ActorMailbox<S, A> {
    /// `tokio::sync::mpsc::unbounded_channel`: the two ends of a new, empty
    /// mailbox. Nothing is claimed of them.
    #[verifier::external_body]
    pub fn create() -> (ends: (MailboxSender<S, A>, MailboxReceiver<S, A>)) {
        tokio::sync::mpsc::unbounded_channel()
    }
}

impl<S, A: Actor<S>> ConcurrentActorMailbox<S, A> {
    /// `async_channel::unbounded`: the two ends of a new, empty mailbox.
    /// Nothing is claimed of them.
    #[verifier::external_body]
    pub fn create() -> (ends: (ConcurrentMailboxSender<S, A>, ConcurrentMailboxReceiver<S, A>)) {
        async_channel::unbounded()
    }
}

} // verus!
