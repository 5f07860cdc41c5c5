//! Decision core of a chat bot that de-clickbaits video links.
//!
//! The bot watches a chat stream for messages that carry a link to a video,
//! looks up crowd-sourced replacement metadata (alternate titles and
//! thumbnails) for the video, and replies with a rewritten presentation.
//! This crate holds everything that can be stated and proved: the link
//! grammar and identifier extraction, the trust gates over crowd-sourced
//! candidates, the selection of a title and thumbnail under a policy, the
//! exact text of the reply, and the plan for suppressing the platform's own
//! link preview. The surrounding process (HTTP calls, the chat gateway,
//! argument parsing, logging) lives outside and hands this crate plain
//! values.

pub mod compose;
pub mod coordinate;
pub mod engine;
pub mod laws;
pub mod link;
pub mod model;
pub mod numfmt;
pub mod requests;
