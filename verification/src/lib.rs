//! A minimal desktop application shell: a greeting formatter, an exit
//! operation, and the one-time startup configuration of the main window.
//!
//! The shell's observable contract lives here; the host windowing framework's
//! glue (command registration, the run loop) stands outside the library and
//! consults these functions for every value it hands on.

pub mod greeting;
pub mod startup;
