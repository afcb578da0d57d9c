//! Management of SSH key identities for one remote account.
//!
//! The library decides; its caller acts. Every operation (add, switch, check,
//! list) is a short conversation: the library names the next thing to ask of
//! the filesystem, the agent, the key generator or the remote endpoint, the
//! caller performs it and reports what happened, and the library answers with
//! the next request or with the operation's outcome.

pub mod paths;
pub mod listing;
pub mod protocol;
pub mod machine;
pub mod invocation;
pub mod render;
pub mod model;
