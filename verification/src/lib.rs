//! An IRC bouncer's protocol core: line framing, IRC line classification,
//! numeric reply tables and configuration resolution.
pub mod buffer;
pub mod seqs;
pub mod error;
pub mod intcodec;
pub mod text;
pub mod codec;
pub mod responses;
pub mod config;
pub mod args;
pub mod irc;
