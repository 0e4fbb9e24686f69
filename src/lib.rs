//! Safe handles to the host network interfaces of a hypervisor connection.
//!
//! The foreign library itself is reached by the caller: every operation here
//! first produces a [`interface::Call`] (the entry point and its marshalled
//! arguments), and the raw reply of that entry point is then turned into a
//! result by [`interface::Call::complete`].
pub mod marshal;
pub mod error;
pub mod connect;
pub mod interface;
