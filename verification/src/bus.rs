//! The dispatch loop of the bus, as a state machine.
//!
//! The bus itself never waits. It is told what happened on its queues, one event
//! at a time, and answers with the one thing to wait for next: a message on the
//! inbound queue, or room for one copy on the queue of one role. Whoever owns the
//! queues performs that action and reports back.
use crate::message::Message;
use crate::role::ActorTypes;
use crate::subscriptions::{
    lemma_served_roles_are_subscribed_targets, missed_roles, served_roles, Subscriptions,
};
use vstd::prelude::*;

verus! {

/// One copy of a message, addressed to one role.
#[derive(Debug)]
pub struct Delivery {
    pub role: ActorTypes,
    pub message: Message,
}

/// What happened on the queues of the bus.
#[derive(Debug)]
pub enum BusEvent {
    /// The inbound queue handed over a message.
    Received(Message),
    /// The inbound queue is closed and drained: no message will follow.
    Closed,
    /// The copy that the bus asked to send was enqueued.
    Sent,
    /// The copy that the bus asked to send was refused: the queue has lost its
    /// consumer.
    SendFailed,
}

/// What the bus waits for next.
#[derive(Debug)]
pub enum BusAction {
    /// Wait for the next message on the inbound queue, or for its closure.
    Receive,
    /// Wait until the copy is enqueued on the queue of its role.
    Send(Delivery),
    /// The bus has stopped for good.
    Stop,
}

/// Why the bus did not take an event.
#[derive(Debug)]
pub enum BusError {
    /// The event does not answer the action that the bus is waiting for. It is
    /// handed back as it came, with the message it may hold.
    UnexpectedEvent(BusEvent),
}

/// The answer of the bus to an event.
#[derive(Debug)]
pub struct Step {
    /// What to wait for next.
    pub action: BusAction,
    /// The roles that the event's message is addressed to and that have no
    /// subscription: nothing is sent to them.
    pub misses: Vec<ActorTypes>,
}

/// One copy of a message for each of the given roles, in order.
pub open spec fn copies(message: Message, roles: Seq<ActorTypes>) -> Seq<Delivery> {
    roles.map_values(|role: ActorTypes| Delivery { role, message })
}

/// What the bus sends for a message with the given target list: one copy to each
/// target that has a subscription, in the order of the list.
pub open spec fn fan_out(
    message: Message,
    targets: Seq<ActorTypes>,
    subscribed: Set<ActorTypes>,
) -> Seq<Delivery> {
    copies(message, served_roles(targets, subscribed))
}

/// What the bus sends for a message.
pub open spec fn deliveries(message: Message, subscribed: Set<ActorTypes>) -> Seq<Delivery> {
    fan_out(message, message.target_roles(), subscribed)
}

/// The state of the dispatch loop.
pub struct BusState {
    /// Whether the loop has ended.
    pub stopped: bool,
    /// The copies of the current message that are not enqueued yet, next first.
    /// The first of them is the one the bus is waiting to send.
    pub outstanding: Seq<Delivery>,
}

impl BusState {
    /// The state in which the bus starts: running, with nothing to send.
    pub open spec fn initial() -> BusState {
        BusState { stopped: false, outstanding: Seq::empty() }
    }

    /// What the bus waits for in this state.
    pub open spec fn action(self) -> BusAction {
        if self.stopped {
            BusAction::Stop
        } else if self.outstanding.len() > 0 {
            BusAction::Send(self.outstanding[0])
        } else {
            BusAction::Receive
        }
    }

    /// Whether an event answers the action that the bus waits for. A stopped bus
    /// takes every event, and ignores it.
    pub open spec fn accepts(self, event: BusEvent) -> bool {
        match self.action() {
            BusAction::Stop => true,
            BusAction::Receive => event is Received || event is Closed,
            BusAction::Send(_) => event is Sent || event is SendFailed,
        }
    }

    /// The state after an event that the bus accepts.
    pub open spec fn next(self, subscribed: Set<ActorTypes>, event: BusEvent) -> BusState {
        if self.stopped {
            self
        } else {
            match event {
                BusEvent::Received(message) => BusState {
                    stopped: false,
                    outstanding: deliveries(message, subscribed),
                },
                BusEvent::Closed => BusState { stopped: true, outstanding: Seq::empty() },
                BusEvent::Sent | BusEvent::SendFailed => BusState {
                    stopped: false,
                    outstanding: self.outstanding.drop_first(),
                },
            }
        }
    }

    /// The roles that an accepted event leaves without a copy for want of a
    /// subscription.
    pub open spec fn misses(self, subscribed: Set<ActorTypes>, event: BusEvent) -> Seq<
        ActorTypes,
    > {
        match event {
            BusEvent::Received(message) if !self.stopped => missed_roles(
                message.target_roles(),
                subscribed,
            ),
            _ => Seq::empty(),
        }
    }
}

/// The message bus: the subscription table and the state of the dispatch loop.
pub struct MessageBus<S> {
    subscriptions: Subscriptions<S>,
    stopped: bool,
    current: Option<Message>,
    roles: Vec<ActorTypes>,
    cursor: usize,
}

impl<S> View for MessageBus<S> {
    type V = BusState;

    closed spec fn view(&self) -> BusState {
        BusState {
            stopped: self.stopped,
            outstanding: match self.current {
                Some(message) => copies(message, self.roles@.skip(self.cursor as int)),
                None => Seq::empty(),
            },
        }
    }
}

impl<S> MessageBus<S> {
    #[verifier::type_invariant]
    spec fn inv(self) -> bool {
        &&& self.cursor <= self.roles.len()
        &&& self.cursor < self.roles.len() ==> self.current is Some && !self.stopped
        &&& forall|i: int|
            0 <= i < self.roles.len() ==> self.subscriptions@.contains_key(#[trigger] self.roles[i])
    }

    /// The subscription table of the bus. It never changes.
    pub closed spec fn table(&self) -> Subscriptions<S> {
        self.subscriptions
    }

    /// The roles that have a subscription.
    pub open spec fn subscribed(&self) -> Set<ActorTypes> {
        self.table().subscribed()
    }

    /// Hands the subscription table over to a new bus. The bus is running and
    /// waits for its first inbound message.
    pub fn start(subscriptions: Subscriptions<S>) -> (bus: Self)
        ensures
            bus.table() == subscriptions,
            bus@ == BusState::initial(),
    {
        MessageBus { subscriptions, stopped: false, current: None, roles: Vec::new(), cursor: 0 }
    }

    /// The subscription table of the bus.
    pub fn subscriptions(&self) -> (table: &Subscriptions<S>)
        ensures
            *table == self.table(),
    {
        &self.subscriptions
    }

    /// Whether the dispatch loop has ended.
    pub fn is_stopped(&self) -> (stopped: bool)
        ensures
            stopped == self@.stopped,
    {
        self.stopped
    }

    /// The action that the bus is waiting for. A copy to send is addressed to a
    /// role that has a subscription.
    pub fn action(&self) -> (action: BusAction)
        ensures
            action == self@.action(),
            action matches BusAction::Send(copy) ==> self.subscribed().contains(copy.role),
    {
        proof {
            use_type_invariant(self);
        }
        if self.stopped {
            BusAction::Stop
        } else if self.cursor < self.roles.len() {
            match &self.current {
                Some(message) => BusAction::Send(
                    Delivery { role: self.roles[self.cursor], message: message.clone() },
                ),
                None => BusAction::Receive,
            }
        } else {
            BusAction::Receive
        }
    }

    /// Tells the bus what happened, and returns what it waits for next.
    ///
    /// A running bus with nothing left to send takes a received message or the
    /// closure of the inbound queue. A message is parted into the copies to send,
    /// one for each subscribed target in order, and the targets without a
    /// subscription, which are reported and otherwise passed over. Closure stops
    /// the bus. A bus that waits for a copy to be enqueued takes the outcome of
    /// that send and nothing else, and goes on to the next copy whether the send
    /// succeeded or failed. An event of the wrong kind is refused, handed back
    /// and changes nothing. A stopped bus ignores every event. The bus never
    /// asks to send to a role without a subscription.
    pub fn step(&mut self, event: BusEvent) -> (outcome: Result<Step, BusError>)
        ensures
            final(self).table() == old(self).table(),
            outcome is Ok <==> old(self)@.accepts(event),
            outcome matches Ok(step) ==> {
                &&& final(self)@ == old(self)@.next(old(self).subscribed(), event)
                &&& step.action == final(self)@.action()
                &&& step.action matches BusAction::Send(copy) ==> old(self).subscribed().contains(
                    copy.role,
                )
                &&& step.misses@ == old(self)@.misses(old(self).subscribed(), event)
            },
            outcome matches Err(error) ==> {
                &&& final(self)@ == old(self)@
                &&& error == BusError::UnexpectedEvent(event)
            },
    {
        proof {
            use_type_invariant(&*self);
        }
        if self.stopped {
            return Ok(Step { action: BusAction::Stop, misses: Vec::new() });
        }
        let sending: bool = self.cursor < self.roles.len();
        match event {
            BusEvent::Received(message) => {
                if sending {
                    return Err(BusError::UnexpectedEvent(BusEvent::Received(message)));
                }
                let targets = message.actors();
                let routing = self.subscriptions.route(&targets);
                proof {
                    lemma_served_roles_are_subscribed_targets(targets@, self.subscribed());
                }
                if routing.served.len() > 0 {
                    self.current = Some(message);
                    self.cursor = 0;
                    self.roles = routing.served;
                    assert(self.roles@.skip(0) =~= self.roles@);
                } else {
                    assert(self@.outstanding =~= deliveries(message, self.subscribed()));
                }
                Ok(Step { action: self.action(), misses: routing.missed })
            },
            BusEvent::Closed => {
                if sending {
                    return Err(BusError::UnexpectedEvent(BusEvent::Closed));
                }
                self.stopped = true;
                self.current = None;
                Ok(Step { action: BusAction::Stop, misses: Vec::new() })
            },
            BusEvent::Sent | BusEvent::SendFailed => {
                if !sending {
                    return Err(BusError::UnexpectedEvent(event));
                }
                assert(old(self)@.outstanding.drop_first() =~= copies(
                    old(self).current->0,
                    old(self).roles@.skip(old(self).cursor + 1),
                ));
                self.cursor = self.cursor + 1;
                if self.cursor == self.roles.len() {
                    self.current = None;
                    assert(self@.outstanding =~= old(self)@.outstanding.drop_first());
                }
                Ok(Step { action: self.action(), misses: Vec::new() })
            },
        }
    }

    /// What the bus sends for a message: one copy to each role that the message
    /// is addressed to and that has a subscription, in the order of the target
    /// list. The state of the bus plays no part in it.
    pub fn dispatch(&self, message: &Message) -> (plan: Vec<Delivery>)
        ensures
            plan@ == deliveries(*message, self.subscribed()),
    {
        let targets = message.actors();
        let routing = self.subscriptions.route(&targets);
        let mut plan: Vec<Delivery> = Vec::new();
        let mut i: usize = 0;
        while i < routing.served.len()
            invariant
                i <= routing.served.len(),
                plan@ == copies(*message, routing.served@.take(i as int)),
            decreases routing.served.len() - i,
        {
            plan.push(Delivery { role: routing.served[i], message: message.clone() });
            i += 1;
        }
        plan
    }
}

} // verus!
