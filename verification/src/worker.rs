//! What the workers read: the file records of the API and the messages
//! that name the jobs to run on a stored file.

use vstd::prelude::*;

pub use crate::models::document_file::DocumentFile;

verus! {

/// A stored file and the names of the jobs to run on it.
pub struct JobMessage {
    pub filename: String,
    pub jobs: Vec<String>,
}

} // verus!
