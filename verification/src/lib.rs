//! Verified core of a GPU rendering context: the decision logic behind a
//! staged context-construction pipeline, the per-frame synchronization
//! discipline of a double/triple-buffered render loop, and the strict
//! reverse-order teardown of every created driver object.
//!
//! The driver itself (instance, device, swap chain, queues) lives behind a
//! foreign C API that only an embedding binary can call; this crate holds the
//! data snapshots those calls report and every decision made from them.

pub mod build_stages;
pub mod builder;
pub mod config;
pub mod debug;
pub mod exceptions;
pub mod instance;
pub mod logical_device;
pub mod names;
pub mod physical_device;
pub mod rendering_queue;
pub mod swap_chain;
pub mod teardown;
