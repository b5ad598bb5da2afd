//! A bidirectional asset converter: it exchanges a native chain coin for a
//! bridged token representation ("basset") and back, preserving value across
//! the two assets' decimal precisions.
//!
//! The crate holds the converter's logic: the decimal-rescaling arithmetic,
//! the write-once registration and two-step ownership handover, and the
//! orchestration that assembles the outbound mint / burn / bank-send
//! instructions for each conversion.

pub mod contract;
pub mod math;
pub mod msg;
pub mod numfmt;
pub mod response;
pub mod state;

pub use math::rescale;
