//! Marshaling and lifetime logic for a foreign-callable HTTP request
//! facility.
//!
//! The library owns every decision the facility makes on plain values:
//! recognising a method name (trimmed, case-insensitively), deciding when a
//! body is required, and shaping every outcome — real transport responses
//! and failures alike — into one uniform, safely releasable response value
//! marked by a reserved sentinel status on error. The actual transport,
//! the C-style pointer boundary and the worker thread of the asynchronous
//! path live outside the library and hand it plain values.

pub mod method;
pub mod response;
pub mod dispatch;
