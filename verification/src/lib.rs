//! A client for a trivial file transfer protocol over datagrams, verified with
//! Verus.
//!
//! The crate holds the protocol and nothing that touches a socket:
//!
//! - [`packet`] is the wire format: the five messages, their encoding, and a
//!   decoder that borrows from the datagram and fails on whatever is no message.
//! - [`session`] is one download as a state machine. It takes in events, such as
//!   "the socket is ready" or "this datagram arrived", and gives out actions, such
//!   as "send this" or "append that to the file". Whoever owns the socket performs
//!   them.
//! - [`laws`] states and proves what holds of every session: when a transfer ends,
//!   what reaches the file and in which order, what an acknowledgement that cannot
//!   leave holds back.
//!
//! Every function comes with a contract over a mathematical model of its data, and
//! none of them panics.

pub mod laws;
pub mod packet;
pub mod session;
