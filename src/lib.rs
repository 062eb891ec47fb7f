//! Command-line front end of the Symbolic toolchain: resolves the process
//! arguments into a validated run configuration.
pub mod error;
pub mod namedrw;
pub mod parsearg;
pub mod laws;
