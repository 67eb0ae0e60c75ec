//! Shared pieces of the SQLx-backed session stores: the error that the stores
//! raise and its conversion into the session layer's error, and the two
//! ways of stamping a session's expiry, one for stores that keep `time`'s
//! dates and one for stores that keep `chrono`'s.

pub mod error;
pub mod offset_date_time;
pub mod with_chrono;
pub mod with_time;

pub use sqlx;

pub use crate::error::Category;
pub use crate::error::SqlxStoreError;
