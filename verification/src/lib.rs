//! Instance-launch service core: request validation, launch-plan
//! construction, provider-result mapping, and CORS decisions for a
//! single-endpoint HTTP service that creates one virtual machine per
//! accepted request.

pub mod config;
pub mod cors;
pub mod json;
pub mod launch;
pub mod laws;
pub mod request;
pub mod response;
pub mod service;
