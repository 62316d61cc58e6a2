//! A selector-driven I/O core for UDT sockets: interest and readiness sets,
//! the key registry that projects raw poller readiness through role rules,
//! the per-socket channel state machine, and the event loop step that turns
//! channel events into outbound triggers and poller changes.

pub mod buffer;
pub mod channel;
pub mod ev_loop;
pub mod ops;
pub mod selector;
pub mod transport;

pub use ops::Ops;
