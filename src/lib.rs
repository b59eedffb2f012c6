//! A thread-agnostic metric registry: named instruments grouped by kind,
//! created on first use, plus a text exposition of their current values.
//!
//! The registry itself is plain data changed through `&mut`: a host process
//! shares one instance behind a reader-writer lock, reads snapshots under
//! the read lock, and makes every change under the write lock, where each
//! operation checks again whether its instrument exists before creating it.

pub mod family;
pub mod names;
pub mod histogram;
pub mod store;
pub mod facade;
pub mod exposition;
pub mod theorems;
pub mod libwallet_error;
pub mod wallet_error;
pub mod file_adapter;
pub mod null_facade;
