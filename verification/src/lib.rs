//! Authentication, token lifecycle and request description for a
//! music-streaming web API, with machine-checked contracts.
//!
//! The crate performs no I/O. Callers read the clock, talk to the network and
//! the disk, and hand the library plain values; the library decides what to
//! send, what a reply means and what the cache holds afterwards.

pub mod api_handler;
pub mod api_spec;
pub mod auth_client;
pub mod cache;
pub mod cli;
pub mod config;
pub mod describe;
pub mod encoding;
pub mod greet;
pub mod http;
pub mod leave;
pub mod music;
pub mod music_client;
pub mod params;
pub mod server;
pub mod spec_gen;
pub mod spotify_api_handler;
pub mod spotify_api_spec;
pub mod spotify_auth;
pub mod spotify_client;
pub mod spotify_model;
pub mod text;
pub mod time;
pub mod token;
