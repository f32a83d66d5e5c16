//! On-demand paging: the decisions of a page-fault resolver and of the
//! process that drives faults, as plain verified functions. The processes,
//! the kernel handle and the sockets live around this library.
pub mod args;
pub mod channel;
pub mod driver;
pub mod engine;
pub mod error;
pub mod fill;
pub mod page;
