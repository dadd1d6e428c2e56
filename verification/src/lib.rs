//! A small actor runtime core: typed messages, type-erased envelopes,
//! mailboxes, and the dispatch rules of sequential and concurrent actors.
//!
//! Everything here is synchronous. Waiting on a mailbox or on a reply is left
//! to the embedding program, which feeds what it received to the runners.
pub mod actor;
pub mod error;

pub use actor::actor_ref::{ActorRef, ConcurrentActorRef, Reply, ReplyPoll};
pub use actor::concurrent_runner::ConcurrentActorRunner;
pub use actor::handler::{
    ActorMailbox, ActorMessage, BoxedConcurrentMessageHandler, BoxedMessageHandler,
    ConcurrentActorMailbox, ConcurrentActorMessage, ConcurrentMailboxReceiver,
    ConcurrentMailboxSender, ConcurrentMessageHandler, MailboxReceiver, MailboxSender,
    MessageHandler, ReplyReceiver, ReplySender,
};
pub use actor::runner::{ActorRunner, RunnerState, Turn};
pub use actor::{Actor, ActorContext, ActorPath, ConcurrentHandler, Handler, Message};
pub use error::{AskFailed, Delivery, MailboxClosed, RunnerError, SendFailure};
