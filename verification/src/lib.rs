//! A chat client's core for a remote conversational-assistant service:
//! the requests it sends, the polling rule for a run, the bookkeeping that
//! keeps a message from being shown twice, and the conversation's state
//! machine. Nothing here performs I/O; a driver performs the actions that
//! these functions hand out and reports back what happened.

pub mod conversation;
pub mod dedup;
pub mod functions_ai;
pub mod openai_api_data;
pub mod seen;
pub mod text;
