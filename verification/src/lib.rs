//! The real-time core of a discrete-event simulation server: the mapping
//! between wall-clock time and in-game time, the pausable clock built on it,
//! the interruptions that outside producers post to the running simulation,
//! the decisions of the server's scheduling cycle, the guard that tells a
//! clean shutdown from a fault, and the movement pad read from button events.

pub mod units;
pub mod wall;
pub mod conversion;
pub mod clock;
pub mod interruption;
pub mod server;
pub mod watcher;
pub mod buttons;
pub mod user_input;
