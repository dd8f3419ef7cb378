//! Document types, which sort documents into kinds.

use vstd::prelude::*;
use crate::errors::ValidationErrors;
use crate::validation::{lemma_no_failed_fields, FieldFailures, MAX_TEXT_LENGTH, text_failures, opt_text, validation_outcome, outcome_matches, check_text, checks_view, collect_failures};

verus! {

/// A stored document type.
#[derive(Clone, Debug)]
pub struct DocumentType {
    pub id: i64,
    pub label: String,
}

/// The body of a request that creates a document type.
pub struct NewDocumentType {
    pub label: Option<String>,
}

/// The body of a request that changes a document type.
pub struct UpdateDocumentType {
    pub label: Option<String>,
}

/// The checks of a new document type: the label is required and at most
/// 100 characters long.
pub open spec fn new_document_type_checks(document_type: NewDocumentType) -> Seq<FieldFailures> {
    seq![
        ("label"@, text_failures(opt_text(document_type.label), true, true, None, Some(MAX_TEXT_LENGTH), None, false)),
    ]
}

/// The checks of a document type change: a label, where given, is at most
/// 100 characters long.
pub open spec fn update_document_type_checks(document_type: UpdateDocumentType) -> Seq<FieldFailures> {
    seq![
        ("label"@, text_failures(opt_text(document_type.label), false, true, None, Some(MAX_TEXT_LENGTH), None, false)),
    ]
}

impl NewDocumentType {
    /// Checks the body; on failure, the failed checks of each field.
    pub fn validate(&self) -> (result: Result<(), ValidationErrors>)
        ensures
            outcome_matches(result, validation_outcome(new_document_type_checks(*self))),
    {
        let mut checks = Vec::new();
        checks.push(
            (
                String::from_str("label"),
                check_text(&self.label, true, true, None, Some(MAX_TEXT_LENGTH), None, false),
            ),
        );
        assert(checks_view(checks@) =~= new_document_type_checks(*self));
        collect_failures(checks)
    }
}

impl UpdateDocumentType {
    /// Checks the body; on failure, the failed checks of each field.
    pub fn validate(&self) -> (result: Result<(), ValidationErrors>)
        ensures
            outcome_matches(result, validation_outcome(update_document_type_checks(*self))),
    {
        let mut checks = Vec::new();
        checks.push(
            (
                String::from_str("label"),
                check_text(&self.label, false, true, None, Some(MAX_TEXT_LENGTH), None, false),
            ),
        );
        assert(checks_view(checks@) =~= update_document_type_checks(*self));
        collect_failures(checks)
    }
}

/// A new document type passes its checks exactly when it has a label of
/// at most 100 characters.
pub proof fn lemma_new_document_type_valid(document_type: NewDocumentType)
    ensures
        validation_outcome(new_document_type_checks(document_type)) is Ok <==> (document_type.label matches Some(
            label,
        ) && label@.len() <= MAX_TEXT_LENGTH),
{
    lemma_no_failed_fields(new_document_type_checks(document_type));
    assert(new_document_type_checks(document_type)[0].1 == text_failures(opt_text(document_type.label), true, true, None, Some(MAX_TEXT_LENGTH), None, false));
}

/// A document type change passes its checks exactly when its label, if
/// given, is at most 100 characters long.
pub proof fn lemma_update_document_type_valid(document_type: UpdateDocumentType)
    ensures
        validation_outcome(update_document_type_checks(document_type)) is Ok <==> (document_type.label matches Some(
            label,
        ) ==> label@.len() <= MAX_TEXT_LENGTH),
{
    lemma_no_failed_fields(update_document_type_checks(document_type));
    assert(update_document_type_checks(document_type)[0].1 == text_failures(opt_text(document_type.label), false, true, None, Some(MAX_TEXT_LENGTH), None, false));
}

} // verus!
