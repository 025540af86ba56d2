//! A persistent counter contract with a pass-through to an external token.
//!
//! The contract state holds one 256-bit number and one token address. The
//! arithmetic wraps modulo 2^256. The two token operations are split in two:
//! the library builds the outgoing call, the host performs it, and the
//! library turns the raw response into the operation's result.
pub mod abi;
pub mod address;
pub mod counter;
pub mod uint;
