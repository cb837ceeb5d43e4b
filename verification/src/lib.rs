//! Request-handling logic of a family of Spin applications: key-value
//! showcases, an A/B screen-mode switch, an outbound-HTTP fan-out, a sound
//! level logger and an application-variables echo.
//!
//! Every function here maps plain values (request parameters, outcomes of
//! store operations, configuration values) to plain values (HTTP responses,
//! store commands, records to persist). The host interactions themselves
//! (opening stores, reading variables, sending requests) are left to the
//! component that embeds this library.

pub mod app_vars;
pub mod booth_volume;
pub mod decimal;
pub mod json;
pub mod kv_showcase;
pub mod outbound;
pub mod response;
pub mod screen_mode;
pub mod simple_kv;
pub mod text;
pub mod utf8_text;
pub mod wasi_kv;
