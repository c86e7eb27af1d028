//! Bare-metal firmware core: a typed view of memory-mapped GPIO registers,
//! the LED control unit built on it, the connection state machine that drives
//! a single TCP session, and the decision logic of the cooperative polling
//! loop. The volatile stores to hardware addresses, the network stack and the
//! log sink live outside this crate; everything here is plain computation on
//! the values they exchange.

pub mod driver;
pub mod led;
pub mod message;
pub mod register;
pub mod session;
pub mod timer;
