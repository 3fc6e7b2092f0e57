//! Bring-up sequencing and the self-hosted test harness of a freestanding
//! kernel, written as decisions over plain values.
//!
//! Nothing here touches hardware. The caller performs each step and each
//! port write that these functions decide on, and hands back what happened.

pub mod bringup;
pub mod harness;
pub mod report;
pub mod status;
