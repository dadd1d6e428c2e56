//! The handles through which the rest of the program reaches an actor.
//!
//! A handle can enqueue and nothing else: it holds the sending end of the
//! mailbox and the actor's address, never the actor or the receiving end.
use vstd::prelude::*;
use crate::actor::{Actor, ActorPath, ConcurrentHandler, Handler, Message};
use crate::actor::handler::{
    ActorMessage,
    BoxedConcurrentMessageHandler,
    BoxedMessageHandler,
    ConcurrentActorMessage,
    ConcurrentMailboxSender,
    MailboxSender,
    ReplyReceiver,
    ReplySender,
};
use crate::error::{AskFailed, MailboxClosed, SendFailure};

verus! {

/// `tokio::sync::oneshot::error::RecvError`, carried through as it is.
#[verifier::external_type_specification]
#[verifier::external_body]
pub struct ExReplyRecvError(tokio::sync::oneshot::error::RecvError);

/// What a look at a reply slot finds.
pub enum ReplyPoll<R> {
    /// No response yet, and the actor may still give one.
    Pending,
    /// The response.
    Ready(R),
    /// The slot was dropped empty, or its response was taken before.
    Abandoned,
}

/// The asker's end of a request: the response arrives here, once.
#[verifier::reject_recursive_types(R)]
pub struct Reply<R> {
    receiver: ReplyReceiver<R>,
}

/// `tokio::sync::oneshot::channel`: a new reply slot and the end on which
/// its response arrives. Nothing is claimed of them.
#[verifier::external_body]
fn reply_channel<R>() -> (ends: (ReplySender<R>, ReplyReceiver<R>)) {
    tokio::sync::oneshot::channel()
}

/// `tokio::sync::oneshot::Receiver::try_recv`, its three outcomes told
/// apart. Nothing is claimed of which one comes.
#[verifier::external_body]
fn reply_poll<R>(receiver: &mut ReplyReceiver<R>) -> (found: ReplyPoll<R>) {
    match receiver.try_recv() {
        Ok(response) => ReplyPoll::Ready(response),
        Err(tokio::sync::oneshot::error::TryRecvError::Empty) => ReplyPoll::Pending,
        Err(tokio::sync::oneshot::error::TryRecvError::Closed) => ReplyPoll::Abandoned,
    }
}

/// `tokio::sync::mpsc::UnboundedSender::send`: enqueues `envelope`.
/// Claimed: when the call fails, it gives back the very envelope it was
/// given. It fails when the receiving end is closed or gone; nothing here
/// says when that is. (It ends the process rather than return when the
/// queue's counter of messages overflows, which memory does not allow.)
#[verifier::external_body]
fn mailbox_send<T>(sender: &tokio::sync::mpsc::UnboundedSender<T>, envelope: T) -> (sent: Result<
    (),
    T,
>)
    ensures
        sent matches Err(returned) ==> returned == envelope,
{
    sender.send(envelope).map_err(|refused| refused.0)
}

/// `async_channel::Sender::try_send`: enqueues `envelope` if there is room.
/// Claimed: when the call fails, it gives back the very envelope it was
/// given, with the reason. Nothing here says when it fails.
#[verifier::external_body]
fn shared_mailbox_send<T>(sender: &async_channel::Sender<T>, envelope: T) -> (sent: Result<
    (),
    (SendFailure, T),
>)
    ensures
        sent matches Err(refused) ==> refused.1 == envelope,
{
    match sender.try_send(envelope) {
        Ok(()) => Ok(()),
        Err(async_channel::TrySendError::Full(back)) => Err((SendFailure::MailboxFull, back)),
        Err(async_channel::TrySendError::Closed(back)) => Err((SendFailure::MailboxClosed, back)),
    }
}

/// `Clone::clone` of `tokio::sync::mpsc::UnboundedSender`: one more sending
/// end of the same mailbox. Nothing is claimed of it.
#[verifier::external_body]
fn another_sender<T>(sender: &tokio::sync::mpsc::UnboundedSender<T>) -> (copy:
    tokio::sync::mpsc::UnboundedSender<T>) {
    sender.clone()
}

/// `Clone::clone` of `async_channel::Sender`: one more sending end of the
/// same mailbox. Nothing is claimed of it.
#[verifier::external_body]
fn another_shared_sender<T>(sender: &async_channel::Sender<T>) -> (copy: async_channel::Sender<T>) {
    sender.clone()
}

/// What `tell` reports for an attempt to enqueue.
pub fn tell_outcome<T>(sent: Result<(), T>) -> (told: Result<(), MailboxClosed>)
    ensures
        told == (match sent {
            Ok(_) => Ok::<(), MailboxClosed>(()),
            Err(_) => Err(MailboxClosed),
        }),
{
    match sent {
        Ok(_) => Ok(()),
        Err(_) => Err(MailboxClosed),
    }
}

/// What `ask` reports for an attempt to enqueue: the asker's end of the
/// request if the envelope went in, and no second chance if it did not.
pub fn ask_outcome<T, R>(sent: Result<(), T>, reply: Reply<R>) -> (asked: Result<
    Reply<R>,
    AskFailed,
>)
    ensures
        asked == (match sent {
            Ok(_) => Ok::<Reply<R>, AskFailed>(reply),
            Err(_) => Err(AskFailed::MailboxClosed),
        }),
{
    match sent {
        Ok(_) => Ok(reply),
        Err(_) => Err(AskFailed::MailboxClosed),
    }
}

/// What a concurrent actor's `tell` reports for an attempt to enqueue.
pub fn shared_tell_outcome<T>(sent: Result<(), (SendFailure, T)>) -> (told: Result<
    (),
    SendFailure,
>)
    ensures
        told == (match sent {
            Ok(_) => Ok::<(), SendFailure>(()),
            Err(refused) => Err(refused.0),
        }),
{
    match sent {
        Ok(_) => Ok(()),
        Err(refused) => Err(refused.0),
    }
}

/// What a concurrent actor's `ask` reports for an attempt to enqueue.
pub fn shared_ask_outcome<T, R>(sent: Result<(), (SendFailure, T)>, reply: Reply<R>) -> (asked:
    Result<Reply<R>, AskFailed>)
    ensures
        asked == (match sent {
            Ok(_) => Ok::<Reply<R>, AskFailed>(reply),
            Err(refused) => Err(
                match refused.0 {
                    SendFailure::MailboxClosed => AskFailed::MailboxClosed,
                    SendFailure::MailboxFull => AskFailed::MailboxFull,
                },
            ),
        }),
{
    match sent {
        Ok(_) => Ok(reply),
        Err(refused) => Err(AskFailed::from(refused.0)),
    }
}

impl<R> Reply<R> {
    /// The receiving end of the reply slot.
    pub closed spec fn receiver(&self) -> ReplyReceiver<R> {
        self.receiver
    }

    /// The asker's end around the receiving end of a reply slot.
    pub fn new(receiver: ReplyReceiver<R>) -> (reply: Self)
        ensures
            reply.receiver() == receiver,
    {
        Reply { receiver }
    }

    /// Gives up the receiving end, for a caller that waits on it.
    pub fn into_receiver(self) -> (receiver: ReplyReceiver<R>)
        ensures
            receiver == self.receiver(),
    {
        self.receiver
    }

    /// What a finished wait on the receiving end amounts to: the response,
    /// or `NoResponse` where the slot was dropped empty.
    pub fn resolve(waited: Result<R, tokio::sync::oneshot::error::RecvError>) -> (answer: Result<
        R,
        AskFailed,
    >)
        ensures
            answer == (match waited {
                Ok(response) => Ok::<R, AskFailed>(response),
                Err(_) => Err(AskFailed::NoResponse),
            }),
    {
        match waited {
            Ok(response) => Ok(response),
            Err(_) => Err(AskFailed::NoResponse),
        }
    }

    /// What a look at the slot amounts to: nothing yet, the response, or
    /// `NoResponse`.
    pub fn settle(found: ReplyPoll<R>) -> (answer: Option<Result<R, AskFailed>>)
        ensures
            answer == (match found {
                ReplyPoll::Pending => None::<Result<R, AskFailed>>,
                ReplyPoll::Ready(response) => Some(Ok(response)),
                ReplyPoll::Abandoned => Some(Err(AskFailed::NoResponse)),
            }),
    {
        match found {
            ReplyPoll::Pending => None,
            ReplyPoll::Ready(response) => Some(Ok(response)),
            ReplyPoll::Abandoned => Some(Err(AskFailed::NoResponse)),
        }
    }

    /// Looks at the slot without waiting. `None` while the actor may still
    /// answer.
    pub fn try_take(&mut self) -> (answer: Option<Result<R, AskFailed>>)
        ensures
            answer matches Some(Err(failed)) ==> failed == AskFailed::NoResponse,
    {
        Self::settle(reply_poll(&mut self.receiver))
    }
}

/// The handle to a sequential actor.
#[verifier::reject_recursive_types(S)]
#[verifier::reject_recursive_types(A)]
pub struct ActorRef<S, A: Actor<S>> {
    path: ActorPath,
    sender: MailboxSender<S, A>,
}

impl<S, A: Actor<S>> View for ActorRef<S, A> {
    type V = Seq<char>;

    /// The actor's address.
    closed spec fn view(&self) -> Seq<char> {
        self.path@
    }
}

impl<S: Send + Sync + 'static, A: Actor<S>> ActorRef<S, A> {
    /// The sending end of the actor's mailbox.
    pub closed spec fn sender(&self) -> MailboxSender<S, A> {
        self.sender
    }

    /// The handle to the actor at `path` whose mailbox `sender` feeds.
    pub fn new(path: ActorPath, sender: MailboxSender<S, A>) -> (actor_ref: Self)
        ensures
            actor_ref@ == path@,
            actor_ref.sender() == sender,
    {
        ActorRef { path, sender }
    }

    /// The actor's address.
    pub fn path(&self) -> (path: &ActorPath)
        ensures
            path@ == self@,
    {
        &self.path
    }

    /// Sends `msg` and forgets it: no reply slot goes with it, and the
    /// caller does not learn whether or when the handler ran.
    pub fn tell<M: Message>(&self, msg: M) -> (told: Result<(), MailboxClosed>) where
        A: Handler<S, M>,
     {
        let envelope = ActorMessage::<M, S, A>::new(msg, None);
        let boxed = BoxedMessageHandler::new(envelope);
        tell_outcome(mailbox_send(&self.sender, boxed))
    }

    /// Sends `msg` with a fresh reply slot and hands out the end on which
    /// the handler's response arrives.
    pub fn ask<M: Message>(&self, msg: M) -> (asked: Result<Reply<M::Response>, AskFailed>) where
        A: Handler<S, M>,

        ensures
            asked matches Err(failed) ==> failed == AskFailed::MailboxClosed,
    {
        let (slot, receiver) = reply_channel::<M::Response>();
        let envelope = ActorMessage::<M, S, A>::new(msg, Some(slot));
        let boxed = BoxedMessageHandler::new(envelope);
        ask_outcome(mailbox_send(&self.sender, boxed), Reply::new(receiver))
    }
}

impl<S: Send + Sync + 'static, A: Actor<S>> Clone for ActorRef<S, A> {
    /// One more handle to the same actor.
    fn clone(&self) -> (copy: Self)
        ensures
            copy@ == self@,
    {
        ActorRef { path: self.path.clone(), sender: another_sender(&self.sender) }
    }
}

/// The handle to a concurrent actor.
#[verifier::reject_recursive_types(S)]
#[verifier::reject_recursive_types(A)]
pub struct ConcurrentActorRef<S, A: Actor<S>> {
    path: ActorPath,
    sender: ConcurrentMailboxSender<S, A>,
}

impl<S, A: Actor<S>> View for ConcurrentActorRef<S, A> {
    type V = Seq<char>;

    /// The actor's address.
    closed spec fn view(&self) -> Seq<char> {
        self.path@
    }
}

impl<S: Send + Sync + 'static, A: Actor<S>> ConcurrentActorRef<S, A> {
    /// The sending end of the actor's mailbox.
    pub closed spec fn sender(&self) -> ConcurrentMailboxSender<S, A> {
        self.sender
    }

    /// The handle to the actor at `path` whose mailbox `sender` feeds.
    pub fn new(path: ActorPath, sender: ConcurrentMailboxSender<S, A>) -> (actor_ref: Self)
        ensures
            actor_ref@ == path@,
            actor_ref.sender() == sender,
    {
        ConcurrentActorRef { path, sender }
    }

    /// The actor's address.
    pub fn path(&self) -> (path: &ActorPath)
        ensures
            path@ == self@,
    {
        &self.path
    }

    /// Sends `msg` and forgets it: no reply slot goes with it, and the
    /// caller does not learn whether or when a handler ran.
    pub fn tell<M: Message>(&self, msg: M) -> (told: Result<(), SendFailure>) where
        A: ConcurrentHandler<S, M>,
     {
        let envelope = ConcurrentActorMessage::<M, S, A>::new(msg, None);
        let boxed = BoxedConcurrentMessageHandler::new(envelope);
        shared_tell_outcome(shared_mailbox_send(&self.sender, boxed))
    }

    /// Sends `msg` with a fresh reply slot and hands out the end on which
    /// the handler's response arrives.
    pub fn ask<M: Message>(&self, msg: M) -> (asked: Result<Reply<M::Response>, AskFailed>) where
        A: ConcurrentHandler<S, M>,

        ensures
            asked matches Err(failed) ==> failed != AskFailed::NoResponse,
    {
        let (slot, receiver) = reply_channel::<M::Response>();
        let envelope = ConcurrentActorMessage::<M, S, A>::new(msg, Some(slot));
        let boxed = BoxedConcurrentMessageHandler::new(envelope);
        shared_ask_outcome(shared_mailbox_send(&self.sender, boxed), Reply::new(receiver))
    }
}

impl<S: Send + Sync + 'static, A: Actor<S>> Clone for ConcurrentActorRef<S, A> {
    /// One more handle to the same actor.
    fn clone(&self) -> (copy: Self)
        ensures
            copy@ == self@,
    {
        ConcurrentActorRef { path: self.path.clone(), sender: another_shared_sender(&self.sender) }
    }
}

} // verus!
