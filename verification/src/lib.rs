//! Request orchestration and response normalisation for a gateway that answers
//! questions about YouTube content: similarity search, keyword search, channel
//! lookup, channel-embedding persistence and transcript retrieval.
//!
//! The library decides; the program around it performs the network and process
//! calls and hands the outcomes back as plain values.

pub mod config;
pub mod delegate;
pub mod embedding;
pub mod error;
pub mod gateway;
pub mod http;
pub mod json;
pub mod orchestrate;
pub mod platform;
pub mod response;
pub mod text;
pub mod vector_store;
pub mod video_id;
