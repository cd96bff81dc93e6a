//! Laws of the machine: what holds of every state and every instruction,
//! proved from the definitions in `instruction`, `semantics`, `display`,
//! `timer` and `cpu`.

pub mod arithmetic;
pub mod decoding;
pub mod drawing;
pub mod flow;
pub mod loading;
pub mod timers;
