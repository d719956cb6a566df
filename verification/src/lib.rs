//! Verified core of a browser's service worker job queue.

pub mod call_laws;
pub mod fetch;
pub mod handler;
pub mod headers;
pub mod job;
pub mod laws;
pub mod limit_laws;
pub mod queue;
pub mod queue_laws;
pub mod reading_laws;
pub mod registration;
pub mod response;
pub mod response_laws;
pub mod script_laws;
pub mod servo_url;
pub mod text;
pub mod update;
