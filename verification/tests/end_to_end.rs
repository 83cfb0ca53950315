use message_bus::bus::{BusAction, BusEvent, MessageBus};
use message_bus::channel::{create_channels, create_channels_with_depth};
use message_bus::message::{ActorAMessage, ActorBMessage, AllActorsMessage, Message};
use message_bus::role::ActorTypes;
use message_bus::subscriptions::Subscriptions;
use tokio::sync::mpsc::error::TryRecvError;
use tokio::sync::mpsc::{Receiver, Sender};

fn to_a(data: &str) -> Message {
    Message::ActorAMessage(ActorAMessage { data: data.to_string() })
}

fn to_b(data: &str) -> Message {
    Message::ActorBMessage(ActorBMessage { data: data.to_string() })
}

fn to_all(data: &str) -> Message {
    Message::AllActorsMessage(AllActorsMessage { data: data.to_string() })
}

/// What the bus had to pass over or lost while it ran.
struct Report {
    misses: Vec<ActorTypes>,
    failures: Vec<ActorTypes>,
}

/// Runs the bus on real queues until its inbound queue is closed.
async fn run_bus(
    mut inbound: Receiver<Message>,
    subscriptions: Subscriptions<Sender<Message>>,
) -> Report {
    let mut bus = MessageBus::start(subscriptions);
    let mut report = Report { misses: Vec::new(), failures: Vec::new() };
    let mut action = bus.action();
    loop {
        let event = match action {
            BusAction::Receive => match inbound.recv().await {
                Some(message) => BusEvent::Received(message),
                None => BusEvent::Closed,
            },
            BusAction::Send(copy) => {
                let queue = bus
                    .subscriptions()
                    .get(&copy.role)
                    .expect("the bus sends to subscribed roles only");
                match queue.send(copy.message).await {
                    Ok(()) => BusEvent::Sent,
                    Err(_) => {
                        report.failures.push(copy.role);
                        BusEvent::SendFailed
                    }
                }
            }
            BusAction::Stop => return report,
        };
        let step = bus.step(event).expect("the event answers the action");
        report.misses.extend(step.misses);
        action = step.action;
    }
}

fn block_on<F: std::future::Future>(future: F) -> F::Output {
    tokio::runtime::Builder::new_current_thread()
        .enable_time()
        .build()
        .expect("a runtime on the current thread")
        .block_on(future)
}

/// Lets every other task run until it has to wait.
async fn settle() {
    for _ in 0..64 {
        tokio::task::yield_now().await;
    }
}

fn drain(queue: &mut Receiver<Message>) -> Vec<(String, String)> {
    let mut seen = Vec::new();
    while let Ok(message) = queue.try_recv() {
        seen.push((message.variant_name().to_string(), message.data().clone()));
    }
    seen
}

fn named(variant: &str, data: &str) -> (String, String) {
    (variant.to_string(), data.to_string())
}

struct Wiring {
    to_bus: Sender<Message>,
    bus_inbound: Receiver<Message>,
    subscriptions: Subscriptions<Sender<Message>>,
    a_inbound: Receiver<Message>,
    b_inbound: Receiver<Message>,
}

fn wire() -> Wiring {
    let (to_a_queue, a_inbound) = create_channels();
    let (to_bus, bus_inbound) = create_channels();
    let (to_b_queue, b_inbound) = create_channels();
    let mut subscriptions = Subscriptions::new();
    assert!(subscriptions.insert(ActorTypes::ActorA, to_a_queue).is_none());
    assert!(subscriptions.insert(ActorTypes::ActorB, to_b_queue).is_none());
    Wiring { to_bus, bus_inbound, subscriptions, a_inbound, b_inbound }
}

#[test]
fn a_message_for_actor_a_reaches_only_actor_a() {
    block_on(async {
        let mut wiring = wire();
        let bus = tokio::spawn(run_bus(wiring.bus_inbound, wiring.subscriptions));
        wiring.to_bus.send(to_a("hello ActorA")).await.expect("the bus is listening");
        settle().await;
        assert_eq!(drain(&mut wiring.a_inbound), vec![named("ActorAMessage", "hello ActorA")]);
        assert_eq!(drain(&mut wiring.b_inbound), Vec::new());
        drop(wiring.to_bus);
        let report = bus.await.expect("the bus ends in peace");
        assert!(report.misses.is_empty());
        assert!(report.failures.is_empty());
    });
}

#[test]
fn a_message_for_actor_b_reaches_only_actor_b() {
    block_on(async {
        let mut wiring = wire();
        let bus = tokio::spawn(run_bus(wiring.bus_inbound, wiring.subscriptions));
        wiring.to_bus.send(to_b("hello ActorB")).await.expect("the bus is listening");
        settle().await;
        assert_eq!(drain(&mut wiring.a_inbound), Vec::new());
        assert_eq!(drain(&mut wiring.b_inbound), vec![named("ActorBMessage", "hello ActorB")]);
        drop(wiring.to_bus);
        bus.await.expect("the bus ends in peace");
    });
}

#[test]
fn a_message_for_all_reaches_both_with_copies_of_their_own() {
    block_on(async {
        let mut wiring = wire();
        let bus = tokio::spawn(run_bus(wiring.bus_inbound, wiring.subscriptions));
        wiring.to_bus.send(to_all("hello both")).await.expect("the bus is listening");
        settle().await;
        let mut for_a = wiring.a_inbound.try_recv().expect("one copy for ActorA");
        let for_b = wiring.b_inbound.try_recv().expect("one copy for ActorB");
        assert_eq!(for_a.variant_name(), "AllActorsMessage");
        assert_eq!(for_b.variant_name(), "AllActorsMessage");
        assert_eq!(for_a.data(), "hello both");
        assert_eq!(for_b.data(), "hello both");
        if let Message::AllActorsMessage(inner) = &mut for_a {
            inner.data.make_ascii_uppercase();
        }
        assert_eq!(for_a.data(), "HELLO BOTH");
        assert_eq!(for_b.data(), "hello both");
        assert_eq!(wiring.a_inbound.try_recv().err(), Some(TryRecvError::Empty));
        assert_eq!(wiring.b_inbound.try_recv().err(), Some(TryRecvError::Empty));
        drop(wiring.to_bus);
        bus.await.expect("the bus ends in peace");
    });
}

#[test]
fn every_routing_path_is_served_in_one_run() {
    block_on(async {
        let mut wiring = wire();
        let bus = tokio::spawn(run_bus(wiring.bus_inbound, wiring.subscriptions));
        wiring.to_bus.send(to_a("hello ActorA")).await.expect("the bus is listening");
        wiring.to_bus.send(to_b("hello ActorB")).await.expect("the bus is listening");
        wiring
            .to_bus
            .send(to_all("hello both ActorA and ActorB"))
            .await
            .expect("the bus is listening");
        drop(wiring.to_bus);
        let report = bus.await.expect("the bus ends in peace");
        assert!(report.misses.is_empty());
        assert!(report.failures.is_empty());
        assert_eq!(
            drain(&mut wiring.a_inbound),
            vec![
                named("ActorAMessage", "hello ActorA"),
                named("AllActorsMessage", "hello both ActorA and ActorB"),
            ]
        );
        assert_eq!(
            drain(&mut wiring.b_inbound),
            vec![
                named("ActorBMessage", "hello ActorB"),
                named("AllActorsMessage", "hello both ActorA and ActorB"),
            ]
        );
        assert_eq!(wiring.a_inbound.try_recv().err(), Some(TryRecvError::Disconnected));
        assert_eq!(wiring.b_inbound.try_recv().err(), Some(TryRecvError::Disconnected));
    });
}

#[test]
fn a_consumer_sees_messages_in_the_order_they_were_sent() {
    block_on(async {
        let mut wiring = wire();
        let bus = tokio::spawn(run_bus(wiring.bus_inbound, wiring.subscriptions));
        let mut expected_a = Vec::new();
        let mut expected_b = Vec::new();
        for round in 0..30u32 {
            let text = format!("message {}", round);
            match round % 3 {
                0 => {
                    expected_a.push(named("ActorAMessage", &text));
                    wiring.to_bus.send(to_a(&text)).await.expect("the bus is listening");
                }
                1 => {
                    expected_b.push(named("ActorBMessage", &text));
                    wiring.to_bus.send(to_b(&text)).await.expect("the bus is listening");
                }
                _ => {
                    expected_a.push(named("AllActorsMessage", &text));
                    expected_b.push(named("AllActorsMessage", &text));
                    wiring.to_bus.send(to_all(&text)).await.expect("the bus is listening");
                }
            }
        }
        drop(wiring.to_bus);
        bus.await.expect("the bus ends in peace");
        assert_eq!(drain(&mut wiring.a_inbound), expected_a);
        assert_eq!(drain(&mut wiring.b_inbound), expected_b);
    });
}

#[test]
fn a_full_queue_holds_the_bus_until_there_is_room() {
    block_on(async {
        let (to_a_queue, mut a_inbound) =
            create_channels_with_depth(1).expect("a depth of 1 is allowed");
        let (to_b_queue, mut b_inbound) = create_channels();
        let (to_bus, bus_inbound) = create_channels();
        let mut subscriptions = Subscriptions::new();
        subscriptions.insert(ActorTypes::ActorA, to_a_queue);
        subscriptions.insert(ActorTypes::ActorB, to_b_queue);
        let bus = tokio::spawn(run_bus(bus_inbound, subscriptions));

        to_bus.send(to_a("first")).await.expect("the bus is listening");
        to_bus.send(to_all("second")).await.expect("the bus is listening");
        to_bus.send(to_b("third")).await.expect("the bus is listening");
        settle().await;

        // The queue of ActorA holds "first" and is full. The bus waits with the copy
        // of "second" for ActorA, so nothing of "second" or "third" has reached ActorB,
        // and "third" still sits in the inbound queue.
        assert_eq!(a_inbound.len(), 1);
        assert_eq!(b_inbound.len(), 0);
        assert_eq!(to_bus.capacity(), to_bus.max_capacity() - 1);
        assert!(!bus.is_finished());

        let first = a_inbound.recv().await.expect("the first message");
        assert_eq!(first.data(), "first");
        settle().await;

        // With room in the queue of ActorA, everything follows in its order.
        assert_eq!(drain(&mut a_inbound), vec![named("AllActorsMessage", "second")]);
        assert_eq!(
            drain(&mut b_inbound),
            vec![named("AllActorsMessage", "second"), named("ActorBMessage", "third")]
        );
        assert_eq!(to_bus.capacity(), to_bus.max_capacity());
        drop(to_bus);
        let report = bus.await.expect("the bus ends in peace");
        assert!(report.failures.is_empty());
    });
}

#[test]
fn closing_the_inbound_queue_ends_the_bus() {
    block_on(async {
        let mut wiring = wire();
        let bus = tokio::spawn(run_bus(wiring.bus_inbound, wiring.subscriptions));
        settle().await;
        assert!(!bus.is_finished());
        drop(wiring.to_bus);
        let report = tokio::time::timeout(std::time::Duration::from_secs(5), bus)
            .await
            .expect("the bus ends once its inbound queue is closed")
            .expect("the bus ends in peace");
        assert!(report.misses.is_empty());
        assert!(report.failures.is_empty());
        assert_eq!(wiring.a_inbound.try_recv().err(), Some(TryRecvError::Disconnected));
        assert_eq!(wiring.b_inbound.try_recv().err(), Some(TryRecvError::Disconnected));
    });
}

#[test]
fn the_bus_runs_while_any_producer_is_left() {
    block_on(async {
        let mut wiring = wire();
        let second_producer = wiring.to_bus.clone();
        let bus = tokio::spawn(run_bus(wiring.bus_inbound, wiring.subscriptions));
        drop(wiring.to_bus);
        settle().await;
        assert!(!bus.is_finished());
        second_producer.send(to_b("still here")).await.expect("the bus is listening");
        drop(second_producer);
        bus.await.expect("the bus ends in peace");
        assert_eq!(drain(&mut wiring.b_inbound), vec![named("ActorBMessage", "still here")]);
        assert_eq!(drain(&mut wiring.a_inbound), Vec::new());
    });
}

#[test]
fn a_role_without_queue_is_missed_and_the_rest_is_served() {
    block_on(async {
        let (to_b_queue, mut b_inbound) = create_channels();
        let (to_bus, bus_inbound) = create_channels();
        let mut subscriptions = Subscriptions::new();
        subscriptions.insert(ActorTypes::ActorB, to_b_queue);
        let bus = tokio::spawn(run_bus(bus_inbound, subscriptions));
        to_bus.send(to_a("lost")).await.expect("the bus is listening");
        to_bus.send(to_all("half")).await.expect("the bus is listening");
        to_bus.send(to_b("whole")).await.expect("the bus is listening");
        drop(to_bus);
        let report = bus.await.expect("the bus ends in peace");
        assert_eq!(report.misses, vec![ActorTypes::ActorA, ActorTypes::ActorA]);
        assert!(report.failures.is_empty());
        assert_eq!(
            drain(&mut b_inbound),
            vec![named("AllActorsMessage", "half"), named("ActorBMessage", "whole")]
        );
    });
}

#[test]
fn a_consumer_that_is_gone_fails_its_sends_and_no_others() {
    block_on(async {
        let mut wiring = wire();
        drop(wiring.a_inbound);
        let bus = tokio::spawn(run_bus(wiring.bus_inbound, wiring.subscriptions));
        wiring.to_bus.send(to_all("one")).await.expect("the bus is listening");
        wiring.to_bus.send(to_a("two")).await.expect("the bus is listening");
        wiring.to_bus.send(to_b("three")).await.expect("the bus is listening");
        drop(wiring.to_bus);
        let report = bus.await.expect("the bus ends in peace");
        assert_eq!(report.failures, vec![ActorTypes::ActorA, ActorTypes::ActorA]);
        assert!(report.misses.is_empty());
        assert_eq!(
            drain(&mut wiring.b_inbound),
            vec![named("AllActorsMessage", "one"), named("ActorBMessage", "three")]
        );
    });
}
