//! Job dispatch and status tracking for recipe-embedding requests.
//!
//! A submission creates a job record in the store, which assigns it an
//! id; a background pipeline then drives the job through a fixed
//! sequence of stages, committing each stage to the store as it is
//! reached; callers poll the store by id for the job's current stage.

pub mod dispatcher;
pub mod pipeline;
pub mod stage;
pub mod store;
