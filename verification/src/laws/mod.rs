//! What the operations of the library are for, stated over their calls.

pub mod access;
pub mod dispatch;
pub mod happenings;
pub mod identity;
pub mod listings;
pub mod refusals;
pub mod replies;
pub mod rosters;
pub mod server;
pub mod shelves;
pub mod streams;
pub mod subjects;
pub mod subscription;
pub mod verbs;
pub mod wire;
