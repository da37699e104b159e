//! Launch a command with a customized environment.
//!
//! The library holds the verified logic of the tool: parsing an invocation
//! into flags, `KEY=VALUE` assignments and a command tail, constructing the
//! child environment, and deciding the message and exit code for every
//! outcome. The thin binary around it performs the actual spawn and wait.

pub mod environment;
pub mod launch;
pub mod parse;
