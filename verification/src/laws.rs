//! What holds of the bus for every message, in every state and on every run.
use crate::bus::{copies, deliveries, fan_out, BusAction, BusEvent, BusState, Delivery};
use crate::message::Message;
use crate::role::ActorTypes;
use crate::subscriptions::{missed_roles, served_roles};
use vstd::prelude::*;

verus! {

/// The messages that a sequence of deliveries brings to one role, in order.
pub open spec fn messages_for(sent: Seq<Delivery>, role: ActorTypes) -> Seq<Message> {
    sent.filter(|delivery: Delivery| delivery.role == role).map_values(
        |delivery: Delivery| delivery.message,
    )
}

/// What the bus sends for a sequence of messages: the copies for the first
/// message, then those for the second, and so on.
pub open spec fn deliveries_of_all(messages: Seq<Message>, subscribed: Set<ActorTypes>) -> Seq<
    Delivery,
> {
    messages.flat_map(|message: Message| deliveries(message, subscribed))
}

/// The messages of a sequence that reach a role: those addressed to it, if it
/// has a subscription.
pub open spec fn addressed_to(
    messages: Seq<Message>,
    subscribed: Set<ActorTypes>,
    role: ActorTypes,
) -> Seq<Message> {
    messages.filter(
        |message: Message| message.target_roles().contains(role) && subscribed.contains(role),
    )
}

/// The state of the bus after a sequence of events. An event that the bus
/// refuses changes nothing.
pub open spec fn run(state: BusState, subscribed: Set<ActorTypes>, events: Seq<BusEvent>) -> BusState
    decreases events.len(),
{
    if events.len() == 0 {
        state
    } else {
        let before = run(state, subscribed, events.drop_last());
        if before.accepts(events.last()) {
            before.next(subscribed, events.last())
        } else {
            before
        }
    }
}

/// The messages that the bus took from the inbound queue on a run, in order.
pub open spec fn taken(state: BusState, subscribed: Set<ActorTypes>, events: Seq<BusEvent>) -> Seq<
    Message,
>
    decreases events.len(),
{
    if events.len() == 0 {
        Seq::empty()
    } else {
        let before = run(state, subscribed, events.drop_last());
        let so_far = taken(state, subscribed, events.drop_last());
        match events.last() {
            BusEvent::Received(message) if before.action() is Receive => so_far.push(message),
            _ => so_far,
        }
    }
}

/// The copies whose send was answered on a run, whether they were enqueued or
/// refused, in order.
pub open spec fn settled(state: BusState, subscribed: Set<ActorTypes>, events: Seq<BusEvent>) -> Seq<
    Delivery,
>
    decreases events.len(),
{
    if events.len() == 0 {
        Seq::empty()
    } else {
        let before = run(state, subscribed, events.drop_last());
        let so_far = settled(state, subscribed, events.drop_last());
        match before.action() {
            BusAction::Send(copy) if events.last() is Sent || events.last() is SendFailed =>
                so_far.push(copy),
            _ => so_far,
        }
    }
}

/// The copies that were enqueued on a run, in order.
pub open spec fn enqueued(state: BusState, subscribed: Set<ActorTypes>, events: Seq<BusEvent>) -> Seq<
    Delivery,
>
    decreases events.len(),
{
    if events.len() == 0 {
        Seq::empty()
    } else {
        let before = run(state, subscribed, events.drop_last());
        let so_far = enqueued(state, subscribed, events.drop_last());
        match before.action() {
            BusAction::Send(copy) if events.last() is Sent => so_far.push(copy),
            _ => so_far,
        }
    }
}

/// What one more target adds to the roles that are served and to those that are
/// missed.
pub proof fn lemma_route_push(
    targets: Seq<ActorTypes>,
    role: ActorTypes,
    subscribed: Set<ActorTypes>,
)
    ensures
        served_roles(targets.push(role), subscribed) == if subscribed.contains(role) {
            served_roles(targets, subscribed).push(role)
        } else {
            served_roles(targets, subscribed)
        },
        missed_roles(targets.push(role), subscribed) == if subscribed.contains(role) {
            missed_roles(targets, subscribed)
        } else {
            missed_roles(targets, subscribed).push(role)
        },
{
    reveal(Seq::filter);
    assert(targets.push(role).drop_last() =~= targets);
}

/// No target is dropped in silence: every target of a list is either served or
/// missed, so the two lists together are as long as the target list, and each
/// target is found in the one that its subscription assigns it to.
pub proof fn lemma_every_target_is_served_or_missed(
    targets: Seq<ActorTypes>,
    subscribed: Set<ActorTypes>,
)
    ensures
        served_roles(targets, subscribed).len() + missed_roles(targets, subscribed).len()
            == targets.len(),
        forall|i: int|
            0 <= i < targets.len() ==> if subscribed.contains(#[trigger] targets[i]) {
                served_roles(targets, subscribed).contains(targets[i])
            } else {
                missed_roles(targets, subscribed).contains(targets[i])
            },
    decreases targets.len(),
{
    if targets.len() == 0 {
        reveal(Seq::filter);
    } else {
        let init = targets.drop_last();
        let last = targets.last();
        let served = served_roles(targets, subscribed);
        let missed = missed_roles(targets, subscribed);
        lemma_every_target_is_served_or_missed(init, subscribed);
        assert(targets =~= init.push(last));
        lemma_route_push(init, last, subscribed);
        assert forall|i: int| 0 <= i < targets.len() implies if subscribed.contains(
            #[trigger] targets[i],
        ) {
            served.contains(targets[i])
        } else {
            missed.contains(targets[i])
        } by {
            if i < init.len() {
                // The lists of `init` are the start of those of `targets`.
                assert(init[i] == targets[i]);
            }
        }
    }
}

/// A table in which every role has a subscription serves every target and
/// misses none.
pub proof fn lemma_complete_table_misses_nothing(
    targets: Seq<ActorTypes>,
    subscribed: Set<ActorTypes>,
)
    requires
        forall|role: ActorTypes| subscribed.contains(role),
    ensures
        served_roles(targets, subscribed) == targets,
        missed_roles(targets, subscribed) == Seq::<ActorTypes>::empty(),
    decreases targets.len(),
{
    if targets.len() == 0 {
        reveal(Seq::filter);
    } else {
        lemma_complete_table_misses_nothing(targets.drop_last(), subscribed);
        assert(targets =~= targets.drop_last().push(targets.last()));
        lemma_route_push(targets.drop_last(), targets.last(), subscribed);
    }
}

/// What one more delivery adds to the messages that reach a role.
pub proof fn lemma_messages_for_push(sent: Seq<Delivery>, delivery: Delivery, role: ActorTypes)
    ensures
        messages_for(sent.push(delivery), role) == if delivery.role == role {
            messages_for(sent, role).push(delivery.message)
        } else {
            messages_for(sent, role)
        },
{
    reveal(Seq::filter);
    assert(sent.push(delivery).drop_last() =~= sent);
}

/// The messages that reach a role by two runs of deliveries, one after the
/// other, are those of the first followed by those of the second.
pub proof fn lemma_messages_for_add(first: Seq<Delivery>, second: Seq<Delivery>, role: ActorTypes)
    ensures
        messages_for(first + second, role) == messages_for(first, role) + messages_for(
            second,
            role,
        ),
    decreases second.len(),
{
    if second.len() == 0 {
        assert(messages_for(second, role) =~= Seq::<Message>::empty()) by {
            reveal(Seq::filter);
        }
    } else {
        let init = second.drop_last();
        let last = second.last();
        lemma_messages_for_add(first, init, role);
        assert(first + second =~= (first + init).push(last));
        lemma_messages_for_push(first + init, last, role);
        lemma_messages_for_push(init, last, role);
    }
}

/// Exact fan-out over a target list that names no role twice: a role that is a
/// target and has a subscription gets one copy of the message, and every other
/// role gets none.
pub proof fn lemma_fan_out_of_distinct_targets(
    message: Message,
    targets: Seq<ActorTypes>,
    subscribed: Set<ActorTypes>,
    role: ActorTypes,
)
    requires
        targets.no_duplicates(),
    ensures
        messages_for(fan_out(message, targets, subscribed), role) == if targets.contains(role)
            && subscribed.contains(role) {
            seq![message]
        } else {
            Seq::<Message>::empty()
        },
    decreases targets.len(),
{
    if targets.len() == 0 {
        reveal(Seq::filter);
    } else {
        let init = targets.drop_last();
        let last = targets.last();
        assert(targets =~= init.push(last));
        lemma_fan_out_of_distinct_targets(message, init, subscribed, role);
        lemma_route_push(init, last, subscribed);
        assert(targets.contains(role) <==> init.contains(role) || last == role);
        // No role is named twice, so the last target is not among the others.
        assert(!init.contains(last));
        if subscribed.contains(last) {
            let copy = Delivery { role: last, message };
            assert(fan_out(message, targets, subscribed) =~= fan_out(
                message,
                init,
                subscribed,
            ).push(copy));
            lemma_messages_for_push(fan_out(message, init, subscribed), copy, role);
        }
    }
}

/// Exact fan-out: of a message, every role that it is addressed to and that has
/// a subscription gets one copy, equal to the message, and every other role gets
/// none. So where every addressed role has a subscription, each of them gets its
/// one copy.
pub proof fn lemma_exact_fan_out(message: Message, subscribed: Set<ActorTypes>, role: ActorTypes)
    ensures
        messages_for(deliveries(message, subscribed), role) == if message.target_roles().contains(
            role,
        ) && subscribed.contains(role) {
            seq![message]
        } else {
            Seq::<Message>::empty()
        },
{
    lemma_fan_out_of_distinct_targets(message, message.target_roles(), subscribed, role);
}

/// What one more message adds to what the bus sends.
pub proof fn lemma_deliveries_of_all_push(
    messages: Seq<Message>,
    message: Message,
    subscribed: Set<ActorTypes>,
)
    ensures
        deliveries_of_all(messages.push(message), subscribed) == deliveries_of_all(
            messages,
            subscribed,
        ) + deliveries(message, subscribed),
{
    let each = |message: Message| deliveries(message, subscribed);
    messages.lemma_push_map_commute(each, message);
    messages.map_values(each).lemma_flatten_push(each(message));
}

/// Of a sequence of messages, a role is sent the messages addressed to it, once
/// each and in the order of the sequence.
pub proof fn lemma_role_gets_its_messages_in_order(
    messages: Seq<Message>,
    subscribed: Set<ActorTypes>,
    role: ActorTypes,
)
    ensures
        messages_for(deliveries_of_all(messages, subscribed), role) == addressed_to(
            messages,
            subscribed,
            role,
        ),
    decreases messages.len(),
{
    reveal(Seq::filter);
    if messages.len() > 0 {
        let init = messages.drop_last();
        let last = messages.last();
        assert(messages =~= init.push(last));
        lemma_role_gets_its_messages_in_order(init, subscribed, role);
        lemma_deliveries_of_all_push(init, last, subscribed);
        lemma_messages_for_add(
            deliveries_of_all(init, subscribed),
            deliveries(last, subscribed),
            role,
        );
        lemma_exact_fan_out(last, subscribed, role);
    }
}

/// A message that no subscribed role is a target of is passed over: nothing is
/// sent for it, and a bus that waited for a message waits for the next one. A
/// message with an empty target list is the plainest such case.
pub proof fn lemma_no_target_is_no_op(
    state: BusState,
    message: Message,
    targets: Seq<ActorTypes>,
    subscribed: Set<ActorTypes>,
)
    requires
        state.action() is Receive,
    ensures
        targets.len() == 0 ==> fan_out(message, targets, subscribed).len() == 0,
        served_roles(targets, subscribed).len() == 0 ==> fan_out(
            message,
            targets,
            subscribed,
        ).len() == 0,
        deliveries(message, subscribed).len() == 0 ==> {
            &&& state.accepts(BusEvent::Received(message))
            &&& state.next(subscribed, BusEvent::Received(message)) == state
            &&& state.next(subscribed, BusEvent::Received(message)).action() is Receive
        },
{
    if targets.len() == 0 {
        reveal(Seq::filter);
    }
    if deliveries(message, subscribed).len() == 0 {
        assert(state.next(subscribed, BusEvent::Received(message)).outstanding
            =~= state.outstanding);
    }
}

/// Backpressure: while a copy waits to be enqueued, the bus asks for that send
/// and for nothing else. It takes no inbound message and no closure, so whatever
/// arrives queues up behind the waiting copy. Once the send is answered, the
/// copies that were behind it follow in their order.
pub proof fn lemma_waiting_send_holds_the_loop(
    state: BusState,
    subscribed: Set<ActorTypes>,
    event: BusEvent,
)
    requires
        !state.stopped,
        state.outstanding.len() > 0,
    ensures
        state.action() == BusAction::Send(state.outstanding[0]),
        state.accepts(event) <==> event is Sent || event is SendFailed,
        state.accepts(event) ==> state.next(subscribed, event).outstanding
            == state.outstanding.drop_first(),
        state.accepts(event) ==> !state.next(subscribed, event).stopped,
{
}

/// Closure of the inbound queue ends the loop: a bus that waits for a message
/// and learns of the closure stops, and asks for nothing more. A stopped bus
/// stays as it is, whatever it is told.
pub proof fn lemma_closure_stops_the_bus(
    state: BusState,
    subscribed: Set<ActorTypes>,
    event: BusEvent,
)
    ensures
        state.action() is Receive ==> {
            &&& state.accepts(BusEvent::Closed)
            &&& state.next(subscribed, BusEvent::Closed).stopped
            &&& state.next(subscribed, BusEvent::Closed).action() is Stop
        },
        state.stopped ==> {
            &&& state.action() is Stop
            &&& state.accepts(event)
            &&& state.next(subscribed, event) == state
        },
{
}

/// A stopped bus never runs again.
pub proof fn lemma_stopped_bus_stays_stopped(
    state: BusState,
    subscribed: Set<ActorTypes>,
    events: Seq<BusEvent>,
)
    requires
        state.stopped,
    ensures
        run(state, subscribed, events) == state,
        taken(state, subscribed, events) == Seq::<Message>::empty(),
        settled(state, subscribed, events) == Seq::<Delivery>::empty(),
        enqueued(state, subscribed, events) == Seq::<Delivery>::empty(),
    decreases events.len(),
{
    if events.len() > 0 {
        lemma_stopped_bus_stays_stopped(state, subscribed, events.drop_last());
    }
}

/// Every copy is accounted for: on every run of a bus that starts afresh, the
/// copies whose send was answered, followed by those that still wait, are the
/// copies for the messages that the bus took, message by message in the order in
/// which they came in. Nothing is sent twice, nothing is left out, and nothing is
/// sent that no message called for.
pub proof fn lemma_run_accounts_for_every_copy(subscribed: Set<ActorTypes>, events: Seq<BusEvent>)
    ensures
        settled(BusState::initial(), subscribed, events) + run(
            BusState::initial(),
            subscribed,
            events,
        ).outstanding == deliveries_of_all(
            taken(BusState::initial(), subscribed, events),
            subscribed,
        ),
        run(BusState::initial(), subscribed, events).stopped ==> run(
            BusState::initial(),
            subscribed,
            events,
        ).outstanding.len() == 0,
    decreases events.len(),
{
    let start = BusState::initial();
    if events.len() > 0 {
        let earlier = events.drop_last();
        lemma_run_accounts_for_every_copy(subscribed, earlier);
        let before = run(start, subscribed, earlier);
        let done = settled(start, subscribed, earlier);
        match (before.action(), events.last()) {
            (BusAction::Receive, BusEvent::Received(message)) => {
                // A new message: its copies are all still to be sent.
                lemma_deliveries_of_all_push(
                    taken(start, subscribed, earlier),
                    message,
                    subscribed,
                );
            },
            (BusAction::Send(copy), BusEvent::Sent)
            | (BusAction::Send(copy), BusEvent::SendFailed) => {
                // One copy moves from those that wait to those that are settled.
                assert(done.push(copy) + before.outstanding.drop_first() =~= done
                    + before.outstanding);
            },
            _ => {},
        }
    }
}

/// Where no send is refused, what was settled is what was enqueued.
pub proof fn lemma_settled_is_enqueued(
    state: BusState,
    subscribed: Set<ActorTypes>,
    events: Seq<BusEvent>,
)
    requires
        forall|i: int| 0 <= i < events.len() ==> !(#[trigger] events[i] is SendFailed),
    ensures
        enqueued(state, subscribed, events) == settled(state, subscribed, events),
    decreases events.len(),
{
    if events.len() > 0 {
        let earlier = events.drop_last();
        assert forall|i: int| 0 <= i < earlier.len() implies !(#[trigger] earlier[i]
            is SendFailed) by {
            assert(earlier[i] == events[i]);
        }
        lemma_settled_is_enqueued(state, subscribed, earlier);
    }
}

/// First in, first out, from the inbound queue to the queue of each role: on a
/// run of a bus that starts afresh and on which no send is refused, the messages
/// enqueued for a role, followed by those that still wait for it, are the
/// messages that the bus took and that are addressed to that role, once each and
/// in the order in which they came in.
pub proof fn lemma_queues_keep_inbound_order(
    subscribed: Set<ActorTypes>,
    events: Seq<BusEvent>,
    role: ActorTypes,
)
    requires
        forall|i: int| 0 <= i < events.len() ==> !(#[trigger] events[i] is SendFailed),
    ensures
        messages_for(enqueued(BusState::initial(), subscribed, events), role) + messages_for(
            run(BusState::initial(), subscribed, events).outstanding,
            role,
        ) == addressed_to(taken(BusState::initial(), subscribed, events), subscribed, role),
{
    let start = BusState::initial();
    lemma_settled_is_enqueued(start, subscribed, events);
    lemma_run_accounts_for_every_copy(subscribed, events);
    lemma_messages_for_add(
        enqueued(start, subscribed, events),
        run(start, subscribed, events).outstanding,
        role,
    );
    lemma_role_gets_its_messages_in_order(taken(start, subscribed, events), subscribed, role);
}

} // verus!
