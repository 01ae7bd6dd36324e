//! Streaming chat-completion client: the request body sent to the remote
//! service, the reading of each server-sent-event frame, and the state
//! machine that turns an HTTP exchange into published progress records.
pub mod json;

pub mod payload;
pub mod frame;
pub mod body;
pub mod exchange;
pub mod transport;
