//! Launch control for memory-encrypted guests: the platform's status-code
//! taxonomy, the block alignment of regions handed to the platform for
//! encryption, and the launch state machine that orders platform commands.

pub mod error;
pub mod launch;
pub mod region;
