//! The records that the API stores and the request bodies that create or
//! change them, with the checks each body must pass.

pub mod document;
pub mod document_file;
pub mod document_tag;
pub mod document_type;
pub mod tag;
