//! Request and response bodies.

pub mod aggregate;
pub mod body_reader;
pub mod buffer_body;
pub mod buffered;
pub mod data_stream;
pub mod either;
pub mod frames;
pub mod limit;
pub mod map;
pub mod request;
pub mod response_body;
pub mod size_hint;
pub mod stream_body;
pub mod tee_body;
