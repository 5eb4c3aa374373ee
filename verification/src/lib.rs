//! Harness library for a timing race between bulk-transfer completion and
//! idle-connection teardown on a multiplexed peer-to-peer transport.
//!
//! The crate holds the framed bulk-transfer codec and the
//! connection-lifecycle correlation state machine: everything that decides,
//! as opposed to everything that merely moves bytes on a real transport.

pub mod codec;
pub mod driver;
pub mod protocol;
