//! Small verified building blocks around ownership, borrowing and
//! thread-based concurrency: a lock-guarded shared record, the report that a
//! join barrier produces, and message channels with their draining logic.

pub mod borrowing;
pub mod channel;
pub mod drain;
pub mod generics;
pub mod join;
pub mod lifetime;
pub mod ownership;
pub mod record;
