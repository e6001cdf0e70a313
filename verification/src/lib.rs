//! An MQTT v3.1.1 client: the protocol decisions it takes, verified.
//!
//! The actors that carry messages between the socket and the user live outside
//! this crate's verified part. What they decide is a function here: what a
//! message does, what follows a step that could not be handed over, what the
//! checks made after a timeout conclude; the actors carry it out and keep the
//! timers.

pub mod consts;
pub mod failure;
pub mod ids;
pub mod topic;
pub mod packet;
pub mod codec;
pub mod status;
pub mod plan;
pub mod connect;
pub mod ping;
pub mod publish;
pub mod subscribe;
pub mod unsubscribe;
pub mod disconnect;
pub mod stop;
pub mod dispatch;
pub mod transport;
pub mod client;
pub mod flows;
