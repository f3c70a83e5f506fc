//! The processing stage of a secrets-discovery pipeline.
//!
//! Events arrive as textual envelopes, are scanned against a corpus of
//! pattern-matching rules, and every event that matched is written, with its
//! matches, to a relational store. This library holds the rules of that stage:
//! how an envelope is decoded, how the engine's matches are flattened, in which
//! order the rows of one event are written, how the workers count their work
//! and in which order the queues between them are closed. Reading from the
//! queue, talking to the store and running threads are left to the caller.
pub mod cli;
pub mod config;
pub mod database;
pub mod engine;
pub mod entities;
pub mod errors;
pub mod event;
pub mod feeder;
pub mod json;
pub mod pipeline;
pub mod processing;
pub mod settings;
pub mod timestamp;
pub mod utils;
pub mod yaml;
