//! The files stored for a document, and the message that announces a
//! stored file to the workers.

use vstd::prelude::*;
use crate::errors::ValidationErrors;
use crate::validation::{lemma_no_failed_fields, FieldFailures, MAX_TEXT_LENGTH, MAX_ID, text_failures, id_failures, opt_text, validation_outcome, outcome_matches, check_text, check_id, checks_view, collect_failures};

verus! {

/// A stored file of a document.
#[derive(Clone, Debug)]
pub struct DocumentFile {
    pub id: i64,
    pub label: String,
    pub document_id: i64,
    pub version: String,
    pub filename: String,
}

/// The record of a file to be stored for a document.
pub struct NewDocumentFile {
    pub label: Option<String>,
    pub document_id: Option<i64>,
    pub version: Option<String>,
    pub filename: Option<String>,
}

/// A stored file and the jobs to run on it.
pub struct DocumentFileMessage {
    pub filename: String,
    pub jobs: Vec<String>,
}

/// The checks of a new file record: label, version and file name are
/// required and at most 100 characters long; the document is required.
pub open spec fn new_document_file_checks(file: NewDocumentFile) -> Seq<FieldFailures> {
    seq![
        ("label"@, text_failures(opt_text(file.label), true, true, None, Some(MAX_TEXT_LENGTH), None, false)),
        ("document_id"@, id_failures(file.document_id, true, None, Some(MAX_ID))),
        ("version"@, text_failures(opt_text(file.version), true, true, None, Some(MAX_TEXT_LENGTH), None, false)),
        ("filename"@, text_failures(opt_text(file.filename), true, true, None, Some(MAX_TEXT_LENGTH), None, false)),
    ]
}

impl NewDocumentFile {
    /// Checks the record; on failure, the failed checks of each field.
    pub fn validate(&self) -> (result: Result<(), ValidationErrors>)
        ensures
            outcome_matches(result, validation_outcome(new_document_file_checks(*self))),
    {
        let mut checks = Vec::new();
        checks.push(
            (
                String::from_str("label"),
                check_text(&self.label, true, true, None, Some(MAX_TEXT_LENGTH), None, false),
            ),
        );
        checks.push((String::from_str("document_id"), check_id(&self.document_id, true, None, Some(MAX_ID))));
        checks.push(
            (
                String::from_str("version"),
                check_text(&self.version, true, true, None, Some(MAX_TEXT_LENGTH), None, false),
            ),
        );
        checks.push(
            (
                String::from_str("filename"),
                check_text(&self.filename, true, true, None, Some(MAX_TEXT_LENGTH), None, false),
            ),
        );
        assert(checks_view(checks@) =~= new_document_file_checks(*self));
        collect_failures(checks)
    }
}

/// A new file record passes its checks exactly when it names its
/// document and has a label, a version and a file name of at most 100
/// characters each.
pub proof fn lemma_new_document_file_valid(file: NewDocumentFile)
    ensures
        validation_outcome(new_document_file_checks(file)) is Ok <==> {
            &&& file.label matches Some(label) && label@.len() <= MAX_TEXT_LENGTH
            &&& file.document_id is Some
            &&& file.version matches Some(version) && version@.len() <= MAX_TEXT_LENGTH
            &&& file.filename matches Some(filename) && filename@.len() <= MAX_TEXT_LENGTH
        },
{
    lemma_no_failed_fields(new_document_file_checks(file));
    assert(new_document_file_checks(file)[0].1 == text_failures(opt_text(file.label), true, true, None, Some(MAX_TEXT_LENGTH), None, false));
    assert(new_document_file_checks(file)[1].1 == id_failures(file.document_id, true, None, Some(MAX_ID)));
    assert(new_document_file_checks(file)[2].1 == text_failures(opt_text(file.version), true, true, None, Some(MAX_TEXT_LENGTH), None, false));
    assert(new_document_file_checks(file)[3].1 == text_failures(opt_text(file.filename), true, true, None, Some(MAX_TEXT_LENGTH), None, false));
}

} // verus!
