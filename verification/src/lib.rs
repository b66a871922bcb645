//! Steward control plane.

pub mod access;
pub mod capabilities;
pub mod catalogue;
pub mod claimant;
pub mod codec;
pub mod connection;
pub mod custody;
pub mod disclosure;
pub mod dispatch;
pub mod errors;
pub mod frames;
pub mod grammar;
pub mod happening_kinds;
pub mod happenings;
pub mod interactions;
pub mod inventory;
pub mod json;
pub mod laws;
pub mod lifecycle;
pub mod listings;
pub mod op_tags;
pub mod paging;
pub mod plugin_requests;
pub mod projections;
pub mod reconciliation;
pub mod requests;
pub mod resolution;
pub mod responses;
pub mod schedules;
pub mod server;
pub mod shelf_dispatcher;
pub mod source_verb_dispatch;
pub mod state;
pub mod streams;
pub mod subject_stream;
pub mod subjects;
pub mod subscription;
pub mod text;
pub mod time;
