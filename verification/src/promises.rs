//! What the commands of a device are for.
//!
//! Everything here is said of the bytes of a request, of the objects that the
//! device holds, and of what comes back; how the device gets there is left to
//! the modules that carry the commands out.

pub mod attesting;
pub mod choosing;
pub mod computing;
pub mod granting;
pub mod holding;
pub mod hosting;
pub mod keeping;
pub mod listing;
pub mod logging;
pub mod moving;
pub mod numbering;
pub mod opening;
pub mod otp;
pub mod permitting;
pub mod refusing;
pub mod serving;
pub mod storing;
pub mod telling;
