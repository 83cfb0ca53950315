//! An in-process publish/subscribe message bus.
//!
//! Producers emit messages of a closed taxonomy. Every variant is addressed to a
//! fixed list of recipient roles, and the bus forwards one copy of each inbound
//! message to every addressed role that has a subscription.
//!
//! The library decides and never waits: [`bus::MessageBus`] is the dispatch loop
//! as a state machine, to be driven by whoever owns the queues.
pub mod actor;
pub mod bus;
pub mod channel;
pub mod laws;
pub mod message;
pub mod resolution;
pub mod role;
pub mod subscriptions;
mod text;

pub use actor::{ActorA, ActorB};
pub use bus::{BusAction, BusError, BusEvent, Delivery, MessageBus, Step};
pub use channel::{create_channels, create_channels_with_depth};
pub use message::{ActorAMessage, ActorBMessage, AllActorsMessage, Message};
pub use resolution::{resolve_roles, Resolution};
pub use role::{ActorTypes, ParseError};
pub use subscriptions::Subscriptions;
