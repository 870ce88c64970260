//! Decision logic of a transparent TCP relay.
//!
//! The relay listens on a local port, dials a fixed target for every accepted
//! connection and copies bytes in both directions. The socket work itself is
//! done by the caller; this library decides, step by step, what to do next:
//! - [`pump`]: one direction of one connection, from read and write results to
//!   the next action;
//! - [`accept`]: the accept loop, from accept and dial results to the next
//!   action;
//! - [`listen`]: the address the listening socket binds;
//! - [`fault`]: the kinds of I/O failure the decisions tell apart.
pub mod accept;
pub mod fault;
pub mod listen;
pub mod pump;
