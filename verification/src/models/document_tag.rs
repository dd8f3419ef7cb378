//! The attachment of tags to documents.

use vstd::prelude::*;
use crate::errors::ValidationErrors;
use crate::validation::{lemma_no_failed_fields, FieldFailures, MAX_ID, id_failures, validation_outcome, outcome_matches, failed_fields, check_id, checks_view, collect_failures};

verus! {

/// A stored attachment of a tag to a document.
#[derive(Clone, Debug)]
pub struct DocumentTag {
    pub id: i64,
    pub tag_id: i64,
    pub document_id: i64,
}

/// The body of a request that attaches a tag to a document; the document
/// is taken from the request's path.
#[derive(Clone, Copy, Debug)]
pub struct NewDocumentTag {
    pub tag_id: Option<i64>,
    pub document_id: Option<i64>,
}

/// The checks of a tag attachment: the tag is required.
pub open spec fn new_document_tag_checks(document_tag: NewDocumentTag) -> Seq<FieldFailures> {
    seq![("tag_id"@, id_failures(document_tag.tag_id, true, None, Some(MAX_ID)))]
}

impl NewDocumentTag {
    /// Checks the body; on failure, the failed checks of each field.
    pub fn validate(&self) -> (result: Result<(), ValidationErrors>)
        ensures
            outcome_matches(result, validation_outcome(new_document_tag_checks(*self))),
    {
        let mut checks = Vec::new();
        checks.push((String::from_str("tag_id"), check_id(&self.tag_id, true, None, Some(MAX_ID))));
        assert(checks_view(checks@) =~= new_document_tag_checks(*self));
        collect_failures(checks)
    }

    /// The attachment of the same tag to the document `document_id`.
    pub fn attached_to(&self, document_id: i64) -> (attachment: NewDocumentTag)
        ensures
            attachment.tag_id == self.tag_id,
            attachment.document_id == Some(document_id),
    {
        NewDocumentTag { tag_id: self.tag_id, document_id: Some(document_id) }
    }
}

/// Checks each attachment in order; the outcome is that of the first
/// attachment that fails, or success when none does.
pub fn validate_each(tags: &[NewDocumentTag]) -> (result: Result<(), ValidationErrors>)
    ensures
        match result {
            Ok(()) => forall|i: int|
                0 <= i < tags@.len() ==> failed_fields(new_document_tag_checks(#[trigger] tags@[i])).len() == 0,
            Err(e) => exists|i: int|
                0 <= i < tags@.len() && (forall|j: int|
                    0 <= j < i ==> failed_fields(new_document_tag_checks(#[trigger] tags@[j])).len() == 0)
                    && e@ == failed_fields(new_document_tag_checks(#[trigger] tags@[i]))
                    && e@.len() > 0,
        },
{
    let n = tags.len();
    let mut i: usize = 0;
    while i < n
        invariant
            n == tags@.len(),
            i <= n,
            forall|j: int| 0 <= j < i ==> failed_fields(new_document_tag_checks(#[trigger] tags@[j])).len() == 0,
        decreases n - i,
    {
        match tags[i].validate() {
            Ok(()) => {},
            Err(e) => {
                return Err(e);
            },
        }
        i += 1;
    }
    Ok(())
}

/// The attachments `tags`, each moved to the document `document_id`.
pub fn attach_all(tags: &[NewDocumentTag], document_id: i64) -> (attachments: Vec<NewDocumentTag>)
    ensures
        attachments@.len() == tags@.len(),
        forall|i: int|
            0 <= i < tags@.len() ==> (#[trigger] attachments@[i]).tag_id == tags@[i].tag_id
                && attachments@[i].document_id == Some(document_id),
{
    let mut attachments: Vec<NewDocumentTag> = Vec::new();
    let n = tags.len();
    let mut i: usize = 0;
    while i < n
        invariant
            n == tags@.len(),
            i <= n,
            attachments@.len() == i,
            forall|j: int|
                0 <= j < i ==> (#[trigger] attachments@[j]).tag_id == tags@[j].tag_id
                    && attachments@[j].document_id == Some(document_id),
        decreases n - i,
    {
        attachments.push(tags[i].attached_to(document_id));
        i += 1;
    }
    attachments
}

/// A tag attachment passes its checks exactly when it names its tag.
pub proof fn lemma_new_document_tag_valid(document_tag: NewDocumentTag)
    ensures
        validation_outcome(new_document_tag_checks(document_tag)) is Ok <==> document_tag.tag_id is Some,
{
    lemma_no_failed_fields(new_document_tag_checks(document_tag));
    assert(new_document_tag_checks(document_tag)[0].1 == id_failures(document_tag.tag_id, true, None, Some(MAX_ID)));
}

} // verus!
