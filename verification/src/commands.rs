//! What the tool does when it is asked to.

pub mod init;
pub mod sync;
