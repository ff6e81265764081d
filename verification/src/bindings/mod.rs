//! Contracts for the functions of other crates that the library calls.

pub mod body_hint;
pub mod byte_buf;
pub mod collections;
pub mod cookie_codec;
pub mod crypto;
pub mod http_types;
pub mod io;
pub mod json;
pub mod text;
pub mod websocket;
