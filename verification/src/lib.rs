//! The verified core of the Dwight assistant.
//!
//! - `ai`: the reply engine, which answers an utterance from keyword rules
//!   and recent history; `reply_laws` holds what is proved of every reply.
//! - `audio`: heuristics over raw samples, which tell loud from quiet and
//!   find runs of peaks; `audio_laws` holds what is proved of every
//!   recording.
//! - `ai_models`: the registry of language models, the prompts sent to them
//!   and what is made of their answers.
//! - `whisper`, `transcripts`, `analysis`: the transcription engine's
//!   configuration and command line, and its stand-in results.
//! - `vision`: what is said of an image file.
//! - `records`: what is kept between sessions.
//! - `text`: the text helpers that the others share.
//!
//! Nothing here reads a file, asks a server or looks at the clock: callers
//! do that and hand over plain values.

pub mod ai;
pub mod ai_models;
pub mod analysis;
pub mod audio;
pub mod audio_laws;
pub mod records;
pub mod reply_laws;
pub mod text;
pub mod transcripts;
pub mod vision;
pub mod whisper;
