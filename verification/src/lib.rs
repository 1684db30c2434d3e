//! The verified core of an Elm-style runtime: the command and message
//! algebra, the cancellation registry, and the decisions of the effect
//! dispatcher and of the program driver. Everything that has to suspend
//! (channel sends and receives, effect bodies, timers) is performed by the
//! caller, which hands each outcome back to the state machines defined here.

pub mod dispatch;
pub mod future_ext;
pub mod message;
pub mod program;
pub mod registry;
pub mod run;
pub mod terminal;
pub mod tester;
