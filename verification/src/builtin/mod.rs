//! Middleware that comes with the framework.

pub mod allow;
pub mod cookies;
pub mod filter;
pub mod method;
pub mod rescue;
pub mod resource;
pub mod timeout;
pub mod ws;
