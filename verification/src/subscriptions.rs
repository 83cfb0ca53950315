//! The subscription table: the delivery handle of each subscribed role.
use crate::role::ActorTypes;
use std::collections::HashMap;
use vstd::prelude::*;

verus! {

broadcast use vstd::std_specs::hash::group_hash_axioms;

/// The roles of a target list that have a subscription, in the order of the list.
pub open spec fn served_roles(targets: Seq<ActorTypes>, subscribed: Set<ActorTypes>) -> Seq<
    ActorTypes,
> {
    targets.filter(|role: ActorTypes| subscribed.contains(role))
}

/// The roles of a target list that have no subscription, in the order of the list.
pub open spec fn missed_roles(targets: Seq<ActorTypes>, subscribed: Set<ActorTypes>) -> Seq<
    ActorTypes,
> {
    targets.filter(|role: ActorTypes| !subscribed.contains(role))
}

/// A target list, parted by whether a role has a subscription.
#[derive(Debug)]
pub struct Routing {
    /// The roles to deliver to, in the order of the target list.
    pub served: Vec<ActorTypes>,
    /// The roles that nothing can be delivered to, in the order of the target list.
    pub missed: Vec<ActorTypes>,
}

/// Maps each subscribed role to the handle on which its messages are delivered.
/// The table does not look into the handles: `S` is whatever the owner of the
/// queues uses as the producing end of one.
pub struct Subscriptions<S> {
    handles: HashMap<u8, S>,
}

impl<S> View for Subscriptions<S> {
    type V = Map<ActorTypes, S>;

    closed spec fn view(&self) -> Map<ActorTypes, S> {
        Map::new(
            |role: ActorTypes| self.handles@.contains_key(role.spec_code()),
            |role: ActorTypes| self.handles@[role.spec_code()],
        )
    }
}

impl<S> Subscriptions<S> {
    /// The roles that have a subscription.
    pub open spec fn subscribed(&self) -> Set<ActorTypes> {
        self@.dom()
    }

    /// A table without subscriptions.
    pub fn new() -> (table: Self)
        ensures
            table@ == Map::<ActorTypes, S>::empty(),
    {
        Subscriptions { handles: HashMap::new() }
    }

    /// Subscribes a role. A role has one subscription: a new one replaces the
    /// old one, whose handle is returned.
    pub fn insert(&mut self, role: ActorTypes, handle: S) -> (replaced: Option<S>)
        ensures
            final(self)@ == old(self)@.insert(role, handle),
            replaced == if old(self)@.contains_key(role) {
                Some(old(self)@[role])
            } else {
                None
            },
    {
        self.handles.insert(role.code(), handle)
    }

    /// The handle of a role's subscription, if the role has one.
    pub fn get(&self, role: &ActorTypes) -> (handle: Option<&S>)
        ensures
            handle == if self@.contains_key(*role) {
                Some(&self@[*role])
            } else {
                None
            },
    {
        let code: u8 = role.code();
        self.handles.get(&code)
    }

    /// Parts a target list by whether a role has a subscription. Every target is
    /// looked up once, in order; nothing is reordered, merged or dropped.
    pub fn route(&self, targets: &Vec<ActorTypes>) -> (routing: Routing)
        ensures
            routing.served@ == served_roles(targets@, self.subscribed()),
            routing.missed@ == missed_roles(targets@, self.subscribed()),
    {
        let mut routing = Routing { served: Vec::new(), missed: Vec::new() };
        let mut i: usize = 0;
        proof {
            reveal(Seq::filter);
        }
        while i < targets.len()
            invariant
                i <= targets.len(),
                routing.served@ == served_roles(targets@.take(i as int), self.subscribed()),
                routing.missed@ == missed_roles(targets@.take(i as int), self.subscribed()),
            decreases targets.len() - i,
        {
            let role: ActorTypes = targets[i];
            proof {
                reveal(Seq::filter);
                assert(targets@.take(i + 1).drop_last() =~= targets@.take(i as int));
            }
            if self.contains_key(&role) {
                routing.served.push(role);
            } else {
                routing.missed.push(role);
            }
            i += 1;
        }
        assert(targets@.take(i as int) =~= targets@);
        routing
    }

    /// Whether every role has a subscription.
    pub fn is_complete(&self) -> (complete: bool)
        ensures
            complete == (forall|role: ActorTypes| self@.contains_key(role)),
    {
        let complete = self.contains_key(&ActorTypes::ActorA) && self.contains_key(
            &ActorTypes::ActorB,
        );
        proof {
            if complete {
                assert forall|role: ActorTypes| self@.contains_key(role) by {
                    match role {
                        ActorTypes::ActorA => {},
                        ActorTypes::ActorB => {},
                    }
                }
            }
        }
        complete
    }

    /// Whether a role has a subscription.
    pub fn contains_key(&self, role: &ActorTypes) -> (subscribed: bool)
        ensures
            subscribed == self@.contains_key(*role),
    {
        let code: u8 = role.code();
        self.handles.contains_key(&code)
    }
}

/// The roles that are served are targets, and they have a subscription.
pub proof fn lemma_served_roles_are_subscribed_targets(
    targets: Seq<ActorTypes>,
    subscribed: Set<ActorTypes>,
)
    ensures
        forall|i: int|
            0 <= i < served_roles(targets, subscribed).len() ==> {
                &&& subscribed.contains(#[trigger] served_roles(targets, subscribed)[i])
                &&& targets.contains(served_roles(targets, subscribed)[i])
            },
    decreases targets.len(),
{
    reveal(Seq::filter);
    if targets.len() > 0 {
        let init = targets.drop_last();
        let served = served_roles(targets, subscribed);
        let before = served_roles(init, subscribed);
        lemma_served_roles_are_subscribed_targets(init, subscribed);
        assert forall|i: int| 0 <= i < served.len() implies {
            &&& subscribed.contains(#[trigger] served[i])
            &&& targets.contains(served[i])
        } by {
            if i < before.len() {
                let k = choose|k: int| 0 <= k < init.len() && init[k] == before[i];
                assert(targets[k] == served[i]);
            }
        }
    }
}

} // verus!
