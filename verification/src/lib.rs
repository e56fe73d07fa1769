//! A local-first client library for keeping a remote conversational-assistant
//! resource (identity, instructions, attached knowledge files) in step with a
//! local project directory, and for driving multi-turn conversations against
//! it through an asynchronous submit/poll protocol.
//!
//! The library holds the decision logic: identity resolution, the file-sync
//! diff, conversation persistence, the run-polling state machine, and command
//! parsing. Every remote call is a suspension point performed by the caller,
//! which feeds the observed results back into these functions.

pub mod cmd;
pub mod conversation;
pub mod error;
pub mod identity;
pub mod ids;
pub mod render;
pub mod run;
pub mod session;
pub mod sync;

pub use error::Error;
pub use ids::{AssistantId, FileId, ThreadId};
