//! Live DJ-console synchronisation: the state model of a four-deck mixing
//! console, the session protocol of the ingestion server, and the interpreter
//! that derives the current song, the next song and playlist corrections.

pub mod async_utils;
pub mod model;
pub mod paths;
pub mod server;
pub mod song_data_provider;
pub mod songinfo;
pub mod interpreter;
pub mod trusted;

