//! A single-publisher, multi-subscriber media relay, written as a set of
//! verified decision procedures: the handshake codec and admission channel,
//! the fan-out broadcaster, the per-viewer session state machine, the repair
//! loop and the orchestrator that sequences them. The library performs no
//! I/O; a driver feeds it events and carries out the actions it returns.
pub mod broadcaster;
pub mod channel;
pub mod outbound;
pub mod relay;
pub mod repair;
pub mod signal;
pub mod session;
