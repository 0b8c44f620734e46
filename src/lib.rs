//! A single-slot cache for one lazily computed value that carries its own
//! expiry deadline.

pub mod cache;
pub mod laws;
pub mod time;

pub use cache::{Expiring, HasTtl, TtlCache};
pub use time::Timestamp;
