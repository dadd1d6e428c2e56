use tiny_tokio_actor::{
    Actor, ActorContext, ActorMailbox, ActorMessage, ActorPath, BoxedConcurrentMessageHandler,
    BoxedMessageHandler, ConcurrentActorMailbox, ConcurrentActorMessage, ConcurrentHandler,
    ConcurrentMailboxReceiver, ConcurrentMailboxSender, Delivery, Handler, MailboxReceiver,
    MailboxSender, Message,
};
use tiny_tokio_actor::actor::handler::{reply_delivery, route_reply};
use tokio::sync::oneshot;

#[derive(Clone)]
struct ActorSystem {
    name: String,
    bus_capacity: usize,
}

impl ActorSystem {
    fn new(name: &str, bus_capacity: usize) -> Self {
        ActorSystem { name: name.to_string(), bus_capacity }
    }
}

#[derive(Default, Clone)]
struct MyActor {
    counter: usize,
}

#[derive(Debug, Clone)]
struct MyMessage(String);

impl Message for MyMessage {
    type Response = usize;
}

impl Handler<ActorSystem, MyMessage> for MyActor {
    fn handle(&mut self, _msg: MyMessage, _ctx: &mut ActorContext<ActorSystem>) -> usize {
        self.counter += 1;
        self.counter
    }
}

impl Actor<ActorSystem> for MyActor {
    fn pre_start(&mut self, _ctx: &mut ActorContext<ActorSystem>) {}

    fn post_stop(&mut self, _ctx: &mut ActorContext<ActorSystem>) {}
}

struct Shout(String);

impl Message for Shout {
    type Response = String;
}

impl Handler<ActorSystem, Shout> for MyActor {
    fn handle(&mut self, msg: Shout, ctx: &mut ActorContext<ActorSystem>) -> String {
        self.counter += 10;
        format!("{}{}!{}", ctx.path.as_str(), msg.0.to_uppercase(), ctx.system.name)
    }
}

impl ConcurrentHandler<ActorSystem, Shout> for MyActor {
    fn handle(&self, msg: Shout) -> String {
        format!("{}{}", msg.0.to_uppercase(), self.counter)
    }
}

fn test_context() -> ActorContext<ActorSystem> {
    let system = ActorSystem::new("test", 1000);
    assert_eq!(system.bus_capacity, 1000);
    let path = ActorPath::from("/test");
    ActorContext { path, system }
}

#[test]
fn actor_tell() {
    let runtime = tokio::runtime::Builder::new_current_thread().enable_all().build().unwrap();
    runtime.block_on(async {
        let mut actor = MyActor { counter: 0 };
        let msg = MyMessage("Hello World!".to_string());
        let (sender, mut receiver): (
            MailboxSender<ActorSystem, MyActor>,
            MailboxReceiver<ActorSystem, MyActor>,
        ) = ActorMailbox::create();

        let mut ctx = test_context();
        let (done_sender, done_receiver) = oneshot::channel();
        tokio::spawn(async move {
            while let Some(msg) = receiver.recv().await {
                msg.handle(&mut actor, &mut ctx);
            }
            done_sender.send(actor.counter).ok();
        });

        let message = ActorMessage::new(msg, None);
        sender.send(BoxedMessageHandler::new(message)).ok();

        tokio::time::sleep(tokio::time::Duration::from_millis(1000)).await;
        drop(sender);
        assert_eq!(done_receiver.await.unwrap(), 1);
    });
}

#[test]
fn actor_ask() {
    let runtime = tokio::runtime::Builder::new_current_thread().enable_all().build().unwrap();
    runtime.block_on(async {
        let mut actor = MyActor { counter: 0 };
        let msg = MyMessage("Hello World!".to_string());
        let (sender, mut receiver): (
            MailboxSender<ActorSystem, MyActor>,
            MailboxReceiver<ActorSystem, MyActor>,
        ) = ActorMailbox::create();

        let mut ctx = test_context();
        tokio::spawn(async move {
            while let Some(msg) = receiver.recv().await {
                msg.handle(&mut actor, &mut ctx);
            }
        });

        let (response_sender, response_receiver) = oneshot::channel();
        let message = ActorMessage::new(msg, Some(response_sender));
        sender.send(BoxedMessageHandler::new(message)).ok();
        let result = response_receiver.await.unwrap();
        assert_eq!(result, 1);
    });
}

#[test]
fn envelope_without_slot_is_unanswered() {
    let mut actor = MyActor { counter: 0 };
    let mut ctx = test_context();
    let envelope = BoxedMessageHandler::new(ActorMessage::new(MyMessage("a".to_string()), None));
    assert_eq!(envelope.handle(&mut actor, &mut ctx), Delivery::Unanswered);
    assert_eq!(actor.counter, 1);
}

#[test]
fn envelope_with_slot_replies_with_the_handlers_response() {
    let mut actor = MyActor { counter: 41 };
    let mut ctx = test_context();
    let (slot, mut receiver) = oneshot::channel();
    let envelope =
        BoxedMessageHandler::new(ActorMessage::new(MyMessage("a".to_string()), Some(slot)));
    assert_eq!(envelope.handle(&mut actor, &mut ctx), Delivery::Replied);
    assert_eq!(receiver.try_recv(), Ok(42));
    assert_eq!(actor.counter, 42);
}

#[test]
fn reply_to_an_asker_who_left_fails_and_the_handler_has_run() {
    let mut actor = MyActor { counter: 0 };
    let mut ctx = test_context();
    let (slot, receiver) = oneshot::channel();
    drop(receiver);
    let envelope =
        BoxedMessageHandler::new(ActorMessage::new(MyMessage("a".to_string()), Some(slot)));
    assert_eq!(envelope.handle(&mut actor, &mut ctx), Delivery::ReplyDeliveryFailed);
    assert_eq!(actor.counter, 1);
}

#[test]
fn invoke_hands_back_the_response_and_the_slot() {
    let mut actor = MyActor { counter: 6 };
    let mut ctx = test_context();
    let (slot, mut receiver) = oneshot::channel();
    let envelope: ActorMessage<MyMessage, ActorSystem, MyActor> =
        ActorMessage::new(MyMessage("a".to_string()), Some(slot));
    let (response, rsvp) = envelope.invoke(&mut actor, &mut ctx);
    assert_eq!(response, 7);
    assert_eq!(receiver.try_recv(), Err(oneshot::error::TryRecvError::Empty));
    rsvp.unwrap().send(response).unwrap();
    assert_eq!(receiver.try_recv(), Ok(7));

    let plain: ActorMessage<MyMessage, ActorSystem, MyActor> =
        ActorMessage::new(MyMessage("b".to_string()), None);
    let (response, rsvp) = plain.invoke(&mut actor, &mut ctx);
    assert_eq!(response, 8);
    assert!(rsvp.is_none());
}

#[test]
fn handler_sees_the_message_and_the_context() {
    let mut actor = MyActor { counter: 0 };
    let mut ctx = test_context();
    let (slot, mut receiver) = oneshot::channel();
    let envelope = BoxedMessageHandler::new(ActorMessage::new(Shout("hey".to_string()), Some(slot)));
    assert_eq!(envelope.handle(&mut actor, &mut ctx), Delivery::Replied);
    assert_eq!(receiver.try_recv(), Ok("/testHEY!test".to_string()));
    assert_eq!(actor.counter, 10);
}

#[test]
fn one_mailbox_carries_envelopes_of_several_message_types() {
    let mut actor = MyActor { counter: 0 };
    let mut ctx = test_context();
    let (sender, mut receiver): (
        MailboxSender<ActorSystem, MyActor>,
        MailboxReceiver<ActorSystem, MyActor>,
    ) = ActorMailbox::create();
    let (count_slot, mut count) = oneshot::channel();
    let (shout_slot, mut shout) = oneshot::channel();
    sender
        .send(BoxedMessageHandler::new(ActorMessage::new(Shout("x".to_string()), Some(shout_slot))))
        .ok();
    sender
        .send(BoxedMessageHandler::new(ActorMessage::new(
            MyMessage("y".to_string()),
            Some(count_slot),
        )))
        .ok();
    while let Ok(envelope) = receiver.try_recv() {
        envelope.handle(&mut actor, &mut ctx);
    }
    assert_eq!(shout.try_recv(), Ok("/testX!test".to_string()));
    assert_eq!(count.try_recv(), Ok(11));
}

#[test]
fn route_reply_without_a_slot_discards_the_response() {
    assert_eq!(route_reply::<usize>(None, 3), Delivery::Unanswered);
}

#[test]
fn route_reply_fills_the_slot_with_the_response() {
    let (slot, mut receiver) = oneshot::channel();
    assert_eq!(route_reply(Some(slot), 99usize), Delivery::Replied);
    assert_eq!(receiver.try_recv(), Ok(99));

    let (slot, receiver) = oneshot::channel();
    drop(receiver);
    assert_eq!(route_reply(Some(slot), 99usize), Delivery::ReplyDeliveryFailed);
}

#[test]
fn reply_delivery_names_both_outcomes() {
    assert_eq!(reply_delivery::<usize>(Ok(())), Delivery::Replied);
    assert_eq!(reply_delivery(Err(5usize)), Delivery::ReplyDeliveryFailed);
}

#[test]
fn concurrent_envelope_runs_the_handler_on_a_shared_actor() {
    let actor = MyActor { counter: 3 };
    let (slot, mut receiver) = oneshot::channel();
    let envelope = BoxedConcurrentMessageHandler::new(ConcurrentActorMessage::new(
        Shout("ab".to_string()),
        Some(slot),
    ));
    assert_eq!(envelope.handle(&actor), Delivery::Replied);
    assert_eq!(receiver.try_recv(), Ok("AB3".to_string()));

    let silent: BoxedConcurrentMessageHandler<ActorSystem, MyActor> =
        BoxedConcurrentMessageHandler::new(ConcurrentActorMessage::new(
            Shout("ab".to_string()),
            None,
        ));
    assert_eq!(silent.handle(&actor), Delivery::Unanswered);

    let (slot, receiver) = oneshot::channel();
    drop(receiver);
    let late: BoxedConcurrentMessageHandler<ActorSystem, MyActor> =
        BoxedConcurrentMessageHandler::new(ConcurrentActorMessage::new(
            Shout("ab".to_string()),
            Some(slot),
        ));
    assert_eq!(late.handle(&actor), Delivery::ReplyDeliveryFailed);
}

#[test]
fn concurrent_invoke_hands_back_the_response_and_the_slot() {
    let actor = MyActor { counter: 1 };
    let envelope: ConcurrentActorMessage<Shout, ActorSystem, MyActor> =
        ConcurrentActorMessage::new(Shout("q".to_string()), None);
    let (response, rsvp) = envelope.invoke(&actor);
    assert_eq!(response, "Q1".to_string());
    assert!(rsvp.is_none());
}

#[test]
fn concurrent_mailbox_hands_each_envelope_to_one_reader() {
    let actor = MyActor { counter: 0 };
    let (sender, receiver): (
        ConcurrentMailboxSender<ActorSystem, MyActor>,
        ConcurrentMailboxReceiver<ActorSystem, MyActor>,
    ) = ConcurrentActorMailbox::create();
    let other = receiver.clone();
    for text in ["a", "b", "c"] {
        let envelope = BoxedConcurrentMessageHandler::new(ConcurrentActorMessage::new(
            Shout(text.to_string()),
            None,
        ));
        assert!(sender.try_send(envelope).is_ok());
    }
    drop(sender);
    let mut taken = 0;
    loop {
        let first = receiver.try_recv();
        let second = other.try_recv();
        if first.is_err() && second.is_err() {
            break;
        }
        for envelope in [first, second].into_iter().flatten() {
            assert_eq!(envelope.handle(&actor), Delivery::Unanswered);
            taken += 1;
        }
    }
    assert_eq!(taken, 3);
    assert!(receiver.is_closed());
}
