//! Logic of a one-digit "days without event" board: the counter state
//! machine and the bit-serial protocol that drives its seven-segment display.

pub mod counter;
pub mod display;
pub mod register;
pub mod runs;
pub mod segments;
