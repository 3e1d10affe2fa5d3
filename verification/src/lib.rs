//! Background job core of a terminal repository client: a single-flight
//! fetch job with live progress, a result slot and wake-up notifications,
//! plus the small vocabulary shared by the client's components.

pub mod components;
pub mod error;
pub mod fetch;
pub mod lifecycle;
pub mod progress;
