//! Lifecycle of the in-kernel interrupt controller of an aarch64 virtual
//! machine, and the activation protocol of event-driven virtio devices.
//!
//! The library holds the decisions: which controller revision is attempted,
//! which attributes are set and in which order, how a register access is
//! validated and packed, and how a device's registrations change when it is
//! activated. The kernel calls themselves are made by the caller, who reports
//! their outcomes back.

pub mod activation;
pub mod gic;
pub mod registers;
pub mod setup;
