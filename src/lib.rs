//! Supervision of one long-running worker process: the decisions, the state
//! and the text framing, with the process, file and network work left to the
//! host program that drives them.

pub mod text;
pub mod events;
pub mod errors;
pub mod supervisor;
pub mod paths;
pub mod launch;
pub mod workspace;
pub mod locator;
pub mod license;
