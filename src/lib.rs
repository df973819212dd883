//! Start-up of the image analytics bridge service: the verbosity chosen on
//! the command line, the version string, and the steps that bring up the
//! console and file log sinks exactly once.

pub mod verbosity;
pub mod version;
pub mod bootstrap;
