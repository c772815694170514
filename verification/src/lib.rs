//! Domain rules of a task-list service: validation of identifiers and colours,
//! conversions between rows and entities, and the protocols that keep
//! references between users, lists, tasks and their audit records consistent.
//!
//! A service never touches the store. It says what it wants to know or to
//! have written (`store::StoreRequest`) and goes on when it is told what the
//! store answered (`store::StoreReply`); `services::operation` takes an
//! operation from one answer to its next request. `store::MemoryStore` is a
//! store in memory that answers as a relational store does, and
//! `services::memory` runs the operations against it. What each operation
//! comes to is said in `services::outcomes`, and what holds of the service as
//! a whole in `laws`.

pub mod constants;
pub mod digest;
pub mod errors;
pub mod identifiers;
pub mod json;
pub mod laws;
pub mod models;
pub mod pattern;
pub mod services;
pub mod store;
pub mod text;
pub mod timestamps;
pub mod validators;
