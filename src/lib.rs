//! Typed service errors rendered as JSON bodies, application settings, and a
//! pooled key-value store client that maps its failures onto those errors.

pub mod config;
pub mod health;
pub mod json;
pub mod model;
pub mod redis_client;
