//! Decision logic of a small PostgreSQL logical-replication manager.
//!
//! Every screen of the manager is a state machine: it takes a message and
//! returns the task the runtime should carry out next. Database access,
//! rendering and the event loop are left to the embedding application; this
//! crate decides what happens and which SQL is sent.
pub mod traits;
pub mod task;
pub mod sql;
pub mod input;
pub mod auth;
pub mod manage;
pub mod root;
pub mod theme;
pub mod widgets;
pub mod laws;
