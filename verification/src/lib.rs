//! Typed client library for the Datadog HTTP API.
//!
//! The library says what is sent for a call and what a response means. It opens no
//! connection: a caller hands each `HttpRequest` to a transport of its choice and brings the
//! `HttpResponse` back.
pub mod authentication;
pub mod client;
pub mod dashboard_lists;
pub mod dashboards;
pub mod json;
pub mod logs;
pub mod monitors;
pub mod security_monitoring;
pub mod text;

pub use client::{
    resolve, resolve_value, Call, Client, DatadogError, DatadogErrorResponse, DatadogResult,
    Header, HttpRequest, HttpResponse, Method, DEFAULT_HOST, EU_HOST,
};
