//! The message taxonomy, and the roles that each variant is addressed to.
use crate::resolution::{
    lemma_names_push, lemma_split_names_append, lemma_split_names_plain, names_without_role,
    resolve_roles, resolved_roles, unknown_names,
};
use crate::role::ActorTypes;
use crate::text::same_text;
use vstd::prelude::*;

verus! {

/// A message for the recipient with role `ActorA`.
#[derive(Debug)]
pub struct ActorAMessage {
    pub data: String,
}

/// A message for the recipient with role `ActorB`.
#[derive(Debug)]
pub struct ActorBMessage {
    pub data: String,
}

/// A message for every recipient.
#[derive(Debug)]
pub struct AllActorsMessage {
    pub data: String,
}

impl Clone for ActorAMessage {
    fn clone(&self) -> (copy: Self)
        ensures
            copy == *self,
    {
        ActorAMessage { data: self.data.clone() }
    }
}

impl Clone for ActorBMessage {
    fn clone(&self) -> (copy: Self)
        ensures
            copy == *self,
    {
        ActorBMessage { data: self.data.clone() }
    }
}

impl Clone for AllActorsMessage {
    fn clone(&self) -> (copy: Self)
        ensures
            copy == *self,
    {
        AllActorsMessage { data: self.data.clone() }
    }
}

impl Default for ActorAMessage {
    fn default() -> (message: Self)
        ensures
            message.data@ == Seq::<char>::empty(),
    {
        ActorAMessage { data: String::new() }
    }
}

impl Default for ActorBMessage {
    fn default() -> (message: Self)
        ensures
            message.data@ == Seq::<char>::empty(),
    {
        ActorBMessage { data: String::new() }
    }
}

impl Default for AllActorsMessage {
    fn default() -> (message: Self)
        ensures
            message.data@ == Seq::<char>::empty(),
    {
        AllActorsMessage { data: String::new() }
    }
}

/// The closed set of messages that the bus carries.
#[derive(Debug)]
pub enum Message {
    ActorAMessage(ActorAMessage),
    ActorBMessage(ActorBMessage),
    AllActorsMessage(AllActorsMessage),
}

impl Clone for Message {
    fn clone(&self) -> (copy: Self)
        ensures
            copy == *self,
    {
        match self {
            Message::ActorAMessage(message) => Message::ActorAMessage(message.clone()),
            Message::ActorBMessage(message) => Message::ActorBMessage(message.clone()),
            Message::AllActorsMessage(message) => Message::AllActorsMessage(message.clone()),
        }
    }
}

impl Message {
    /// The text that the message carries.
    pub open spec fn payload(self) -> Seq<char> {
        match self {
            Message::ActorAMessage(message) => message.data@,
            Message::ActorBMessage(message) => message.data@,
            Message::AllActorsMessage(message) => message.data@,
        }
    }

    /// Whether two messages are of the same variant, whatever they carry.
    pub open spec fn same_variant(self, other: Message) -> bool {
        match self {
            Message::ActorAMessage(_) => other is ActorAMessage,
            Message::ActorBMessage(_) => other is ActorBMessage,
            Message::AllActorsMessage(_) => other is AllActorsMessage,
        }
    }

    /// The name of the variant, as a sequence of characters.
    pub open spec fn spec_variant_name(self) -> Seq<char> {
        match self {
            Message::ActorAMessage(_) => "ActorAMessage"@,
            Message::ActorBMessage(_) => "ActorBMessage"@,
            Message::AllActorsMessage(_) => "AllActorsMessage"@,
        }
    }

    /// The comma-separated role names that the variant declares under the
    /// property `actors`.
    pub open spec fn declared_actors(self) -> Seq<char> {
        match self {
            Message::ActorAMessage(_) => "ActorA"@,
            Message::ActorBMessage(_) => "ActorB"@,
            Message::AllActorsMessage(_) => "ActorA,ActorB"@,
        }
    }

    /// The roles that the variant is addressed to, in delivery order.
    pub open spec fn target_roles(self) -> Seq<ActorTypes> {
        match self {
            Message::ActorAMessage(_) => seq![ActorTypes::ActorA],
            Message::ActorBMessage(_) => seq![ActorTypes::ActorB],
            Message::AllActorsMessage(_) => seq![ActorTypes::ActorA, ActorTypes::ActorB],
        }
    }

    /// The text that the message carries.
    pub fn data(&self) -> (data: &String)
        ensures
            data@ == self.payload(),
    {
        match self {
            Message::ActorAMessage(message) => &message.data,
            Message::ActorBMessage(message) => &message.data,
            Message::AllActorsMessage(message) => &message.data,
        }
    }

    /// The name of the variant.
    pub fn variant_name(&self) -> (name: &'static str)
        ensures
            name@ == self.spec_variant_name(),
    {
        match self {
            Message::ActorAMessage(_) => "ActorAMessage",
            Message::ActorBMessage(_) => "ActorBMessage",
            Message::AllActorsMessage(_) => "AllActorsMessage",
        }
    }

    /// The text property that the variant declares under a key. The one key that
    /// the variants declare is `actors`.
    pub fn get_str(&self, prop: &str) -> (value: Option<&'static str>)
        ensures
            value is Some <==> prop@ == "actors"@,
            value matches Some(text) ==> text@ == self.declared_actors(),
    {
        if same_text(prop, "actors") {
            match self {
                Message::ActorAMessage(_) => Some("ActorA"),
                Message::ActorBMessage(_) => Some("ActorB"),
                Message::AllActorsMessage(_) => Some("ActorA,ActorB"),
            }
        } else {
            None
        }
    }

    /// The roles that the message is addressed to, in delivery order. They depend
    /// on the variant alone.
    pub fn actors(&self) -> (roles: Vec<ActorTypes>)
        ensures
            roles@ == self.target_roles(),
    {
        proof {
            lemma_declared_actors_resolve(*self);
        }
        match self.get_str("actors") {
            Some(declared) => resolve_roles(declared).roles,
            None => Vec::new(),
        }
    }
}

/// The role names that a variant declares all resolve, to the roles that the
/// variant is addressed to: no declared name is unknown.
pub proof fn lemma_declared_actors_resolve(message: Message)
    ensures
        resolved_roles(message.declared_actors()) == message.target_roles(),
        unknown_names(message.declared_actors()) == Seq::<Seq<char>>::empty(),
{
    reveal_strlit("ActorA");
    reveal_strlit("ActorB");
    reveal_strlit("ActorA,ActorB");
    let a = "ActorA"@;
    let b = "ActorB"@;
    let none = Seq::<Seq<char>>::empty();
    lemma_split_names_plain(a);
    lemma_split_names_plain(b);
    lemma_split_names_append(a, b);
    assert("ActorA,ActorB"@ =~= a + seq![','] + b);
    assert(names_without_role(none) =~= none) by {
        reveal(Seq::filter);
    }
    lemma_names_push(none, a);
    lemma_names_push(none, b);
    lemma_names_push(seq![a], b);
}

/// Routing does not look into the payload: two messages of one variant declare
/// the same role names and are addressed to the same roles.
pub proof fn lemma_routing_ignores_payload(first: Message, second: Message)
    requires
        first.same_variant(second),
    ensures
        first.declared_actors() == second.declared_actors(),
        first.target_roles() == second.target_roles(),
{
}

} // verus!
