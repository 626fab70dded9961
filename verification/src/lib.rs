//! Supervision of adapter processes: the rules that map an adapter type to
//! its executable, and the state machine that decides, tick by tick, which
//! process to query and which to start.

pub mod configs;
pub mod supervisor;
pub mod tick;
