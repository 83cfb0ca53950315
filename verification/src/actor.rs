//! The two recipients: what each does with a message that reaches it, and what
//! the second one publishes of its own accord. A recipient's task waits on its
//! queue and asks here what to do with each message.
use crate::message::{ActorBMessage, Message};
use crate::role::ActorTypes;
use vstd::prelude::*;
use vstd::string::*;

verus! {

/// The seconds between two messages that `ActorB` publishes of its own accord.
pub const HEARTBEAT_PERIOD_SECS: u64 = 3;

/// The recipient with role `ActorA`. It reacts to what reaches it and publishes
/// nothing.
pub struct ActorA {}

/// The recipient with role `ActorB`. It reacts to what reaches it, and publishes
/// a message of its own at a fixed period.
pub struct ActorB {}

impl ActorA {
    /// The role under which the recipient subscribes.
    pub open spec fn role() -> ActorTypes {
        ActorTypes::ActorA
    }

    /// Whether the recipient reacts to a message. It passes over every other
    /// message in silence.
    pub open spec fn handles(message: Message) -> bool {
        message is ActorAMessage || message is AllActorsMessage
    }

    /// The line that the recipient reports for a message it reacts to.
    pub open spec fn report(message: Message) -> Seq<char> {
        "ActorA Received message - message data: "@ + message.payload()
    }

    /// The reaction to a message: the line to report, or nothing.
    pub fn react(message: &Message) -> (line: Option<String>)
        ensures
            line is Some <==> Self::handles(*message),
            line matches Some(text) ==> text@ == Self::report(*message),
    {
        match message {
            Message::ActorAMessage(_) | Message::AllActorsMessage(_) => Some(
                String::from_str("ActorA Received message - message data: ").concat(
                    message.data().as_str(),
                ),
            ),
            Message::ActorBMessage(_) => None,
        }
    }
}

impl ActorB {
    /// The role under which the recipient subscribes.
    pub open spec fn role() -> ActorTypes {
        ActorTypes::ActorB
    }

    /// Whether the recipient reacts to a message. It passes over every other
    /// message in silence.
    pub open spec fn handles(message: Message) -> bool {
        message is ActorBMessage || message is AllActorsMessage
    }

    /// The line that the recipient reports for a message it reacts to.
    pub open spec fn report(message: Message) -> Seq<char> {
        "ActorB Received message - message data: "@ + message.payload()
    }

    /// The reaction to a message: the line to report, or nothing.
    pub fn react(message: &Message) -> (line: Option<String>)
        ensures
            line is Some <==> Self::handles(*message),
            line matches Some(text) ==> text@ == Self::report(*message),
    {
        match message {
            Message::ActorBMessage(_) | Message::AllActorsMessage(_) => Some(
                String::from_str("ActorB Received message - message data: ").concat(
                    message.data().as_str(),
                ),
            ),
            Message::ActorAMessage(_) => None,
        }
    }

    /// The message that the recipient publishes at every period.
    pub fn heartbeat() -> (message: Message)
        ensures
            message is ActorBMessage,
            message.payload() == "A, are you still theading? from B"@,
    {
        Message::ActorBMessage(
            ActorBMessage { data: String::from_str("A, are you still theading? from B") },
        )
    }
}

/// A recipient reacts to exactly the messages that are addressed to its role.
pub proof fn lemma_recipients_react_to_their_mail(message: Message)
    ensures
        ActorA::handles(message) <==> message.target_roles().contains(ActorA::role()),
        ActorB::handles(message) <==> message.target_roles().contains(ActorB::role()),
{
    let targets = message.target_roles();
    match message {
        Message::ActorAMessage(_) => {
            assert(targets[0] == ActorTypes::ActorA);
        },
        Message::ActorBMessage(_) => {
            assert(targets[0] == ActorTypes::ActorB);
        },
        Message::AllActorsMessage(_) => {
            assert(targets[0] == ActorTypes::ActorA);
            assert(targets[1] == ActorTypes::ActorB);
        },
    }
}

} // verus!
