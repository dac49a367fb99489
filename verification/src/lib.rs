//! Routing, rewriting and request-plugin engine of a configuration-driven
//! HTTP reverse proxy.
//!
//! The library decides, for a request handed over by a transport layer, which
//! backend receives it, under which rewritten target, after which ordered
//! chain of request plugins, and which response is owed when a step fails.
pub mod settings;
pub mod text;
pub mod rewrite;
pub mod pattern;
pub mod message;
pub mod request_filter;
pub mod request_handler;
pub mod logging;
pub mod diagnostics;
