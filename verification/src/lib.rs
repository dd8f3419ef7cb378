//! Verified core of an electronic document management system: the job
//! and task vocabulary shared between the API and its workers, the
//! validation rules of the request models, the shape of API errors and
//! the planning of stored files.

pub mod text;
pub mod task;
pub mod job;
pub mod errors;
pub mod validation;
pub mod models;
pub mod files;
pub mod worker;
