//! Documents, each of one document type and carrying any number of tags.

use vstd::prelude::*;
use crate::errors::ValidationErrors;
use crate::validation::{lemma_no_failed_fields, FieldFailures, MAX_TEXT_LENGTH, MAX_ID, text_failures, id_failures, opt_text, validation_outcome, outcome_matches, check_text, check_id, checks_view, collect_failures};
use crate::models::document_type::DocumentType;
use crate::models::tag::Tag;
use crate::models::document_tag::DocumentTag;

verus! {

/// A document with its tags, as the API answers with it.
pub struct FullDocument {
    pub id: i64,
    pub label: String,
    pub document_type_id: i64,
    pub document_type: DocumentType,
    pub tags: Option<Vec<Tag>>,
}

/// A stored document with its document type.
#[derive(Clone, Debug)]
pub struct Document {
    pub id: i64,
    pub label: String,
    pub document_type_id: i64,
    pub document_type: DocumentType,
}

/// The body of a request that creates a document.
pub struct NewDocument {
    pub label: Option<String>,
    pub document_type_id: i64,
}

/// The body of a request that changes a document.
pub struct UpdateDocument {
    pub label: Option<String>,
    pub document_type_id: Option<i64>,
}

impl FullDocument {
    /// The document `document` with the tags `tags`.
    pub fn new(document: Document, tags: Vec<Tag>) -> (full: FullDocument)
        ensures
            full.id == document.id,
            full.label == document.label,
            full.document_type_id == document.document_type_id,
            full.document_type == document.document_type,
            full.tags == Some(tags),
    {
        FullDocument {
            id: document.id,
            label: document.label,
            document_type_id: document.document_type_id,
            document_type: document.document_type,
            tags: Some(tags),
        }
    }
}

/// Whether `full` is the document `document` with the tags `tags`.
pub open spec fn full_of(full: FullDocument, document: Document, tags: Seq<Tag>) -> bool {
    &&& full.id == document.id
    &&& full.label == document.label
    &&& full.document_type_id == document.document_type_id
    &&& full.document_type == document.document_type
    &&& full.tags matches Some(t) && t@ == tags
}

/// The test of being an attachment to the document `id`.
pub open spec fn attached_to_document(id: i64) -> spec_fn((DocumentTag, Tag)) -> bool {
    |pair: (DocumentTag, Tag)| pair.0.document_id == id
}

/// The tags of the attachments of `pairs` to the document `id`, in the
/// order of `pairs`.
pub open spec fn tags_of_document(pairs: Seq<(DocumentTag, Tag)>, id: i64) -> Seq<Tag> {
    pairs.filter(attached_to_document(id)).map_values(|pair: (DocumentTag, Tag)| pair.1)
}

/// No attachments give no tags; one more attachment at the end adds its
/// tag at the end exactly when it is attached to the document, and
/// changes nothing otherwise.
pub proof fn lemma_tags_of_document_push(pairs: Seq<(DocumentTag, Tag)>, pair: (DocumentTag, Tag), id: i64)
    ensures
        tags_of_document(Seq::empty(), id) == Seq::<Tag>::empty(),
        tags_of_document(pairs.push(pair), id) == if pair.0.document_id == id {
            tags_of_document(pairs, id).push(pair.1)
        } else {
            tags_of_document(pairs, id)
        },
{
    reveal_with_fuel(Seq::<_>::filter, 1);
    assert(pairs.push(pair).drop_last() =~= pairs);
    assert(tags_of_document(Seq::empty(), id) =~= Seq::<Tag>::empty());
    if pair.0.document_id == id {
        assert(tags_of_document(pairs.push(pair), id) =~= tags_of_document(pairs, id).push(pair.1));
    }
}

/// The tags of a document are as many as its attachments, and the tag of
/// every attachment to it is among them.
pub proof fn lemma_tags_of_document_complete(pairs: Seq<(DocumentTag, Tag)>, id: i64)
    ensures
        tags_of_document(pairs, id).len() == pairs.filter(attached_to_document(id)).len(),
        forall|k: int|
            0 <= k < pairs.len() && (#[trigger] pairs[k]).0.document_id == id ==> tags_of_document(
                pairs,
                id,
            ).contains(pairs[k].1),
        forall|t: Tag|
            tags_of_document(pairs, id).contains(t) ==> exists|k: int|
                0 <= k < pairs.len() && (#[trigger] pairs[k]).0.document_id == id && pairs[k].1 == t,
    decreases pairs.len(),
{
    if pairs.len() == 0 {
        lemma_tags_of_document_push(pairs, pairs.last(), id);
        reveal_with_fuel(Seq::<_>::filter, 1);
    } else {
        let rest = pairs.drop_last();
        let last = pairs.last();
        assert(pairs =~= rest.push(last));
        lemma_tags_of_document_complete(rest, id);
        lemma_tags_of_document_push(rest, last, id);
        reveal_with_fuel(Seq::<_>::filter, 1);
        let all = tags_of_document(pairs, id);
        let before = tags_of_document(rest, id);
        assert forall|k: int| 0 <= k < pairs.len() && (#[trigger] pairs[k]).0.document_id == id implies all.contains(
            pairs[k].1,
        ) by {
            if k < rest.len() {
                assert(rest[k] == pairs[k]);
                let j = choose|j: int| 0 <= j < before.len() && before[j] == pairs[k].1;
                assert(all[j] == before[j]);
            } else {
                assert(all[all.len() - 1] == last.1);
            }
        }
        assert forall|t: Tag| all.contains(t) implies exists|k: int|
            0 <= k < pairs.len() && (#[trigger] pairs[k]).0.document_id == id && pairs[k].1 == t by {
            let j = choose|j: int| 0 <= j < all.len() && all[j] == t;
            if j < before.len() {
                assert(before[j] == t);
                assert(before.contains(t));
                let k = choose|k: int| 0 <= k < rest.len() && (#[trigger] rest[k]).0.document_id == id && rest[k].1 == t;
                assert(pairs[k] == rest[k]);
            } else {
                assert(pairs[pairs.len() - 1] == last);
            }
        }
    }
}

/// Whether a document after the one at `i` has the same identifier.
pub open spec fn shadowed(documents: Seq<Document>, i: int) -> bool {
    exists|j: int| i < j < documents.len() && (#[trigger] documents[j]).id == documents[i].id
}

/// The tags that go to the document at `i`: the tags attached to its
/// identifier, unless a later document has the same identifier and takes
/// them instead.
pub open spec fn grouped_tags(documents: Seq<Document>, pairs: Seq<(DocumentTag, Tag)>, i: int) -> Seq<Tag> {
    if shadowed(documents, i) {
        Seq::empty()
    } else {
        tags_of_document(pairs, documents[i].id)
    }
}

/// The document at `i` gets no tags when a later document has the same
/// identifier, and otherwise the tags of all attachments to its
/// identifier.
pub proof fn lemma_grouped_tags(documents: Seq<Document>, pairs: Seq<(DocumentTag, Tag)>, i: int)
    requires
        0 <= i < documents.len(),
    ensures
        (exists|j: int| i < j < documents.len() && (#[trigger] documents[j]).id == documents[i].id) ==> grouped_tags(
            documents,
            pairs,
            i,
        ).len() == 0,
        (forall|j: int| i < j < documents.len() ==> (#[trigger] documents[j]).id != documents[i].id) ==> grouped_tags(
            documents,
            pairs,
            i,
        ) == tags_of_document(pairs, documents[i].id),
{
}

/// The tags of the attachments of `pairs` to the document `id`.
fn tags_for(pairs: &Vec<(DocumentTag, Tag)>, id: i64) -> (tags: Vec<Tag>)
    ensures
        tags@ == tags_of_document(pairs@, id),
{
    let mut tags: Vec<Tag> = Vec::new();
    let n = pairs.len();
    let mut k: usize = 0;
    while k < n
        invariant
            n == pairs@.len(),
            k <= n,
            tags@ == tags_of_document(pairs@.take(k as int), id),
        decreases n - k,
    {
        proof {
            reveal_with_fuel(Seq::<_>::filter, 1);
            assert(pairs@.take(k + 1).drop_last() =~= pairs@.take(k as int));
            assert(pairs@.take(k + 1).last() == pairs@[k as int]);
        }
        let ghost before = tags@;
        let pair = &pairs[k];
        if pair.0.document_id == id {
            tags.push(pair.1.duplicate());
            proof {
                let kept = pairs@.take(k as int).filter(attached_to_document(id));
                assert(tags@ =~= kept.push(pairs@[k as int]).map_values(|p: (DocumentTag, Tag)| p.1));
            }
        }
        k += 1;
    }
    assert(pairs@.take(n as int) =~= pairs@);
    tags
}

/// Whether a document after the one at `i` has the same identifier,
/// among the identifiers `ids`.
fn has_later_duplicate(ids: &Vec<i64>, i: usize) -> (found: bool)
    requires
        i < ids@.len(),
    ensures
        found == exists|j: int| i < j < ids@.len() && ids@[j] == ids@[i as int],
{
    let n = ids.len();
    let mut j: usize = i + 1;
    while j < n
        invariant
            n == ids@.len(),
            i < j <= n,
            forall|k: int| i < k < j ==> ids@[k] != ids@[i as int],
        decreases n - j,
    {
        if ids[j] == ids[i] {
            return true;
        }
        j += 1;
    }
    false
}

/// The documents `documents`, each with its tags: the tag of each
/// attachment of `pairs` goes to the document it is attached to (the last
/// one with that identifier), in the order of `pairs`; attachments to no
/// listed document are dropped.
pub fn full_documents(documents: Vec<Document>, pairs: Vec<(DocumentTag, Tag)>) -> (full: Vec<FullDocument>)
    ensures
        full@.len() == documents@.len(),
        forall|i: int|
            0 <= i < documents@.len() ==> full_of(#[trigger] full@[i], documents@[i], grouped_tags(documents@, pairs@, i)),
{
    let ghost all = documents@;
    let mut ids: Vec<i64> = Vec::new();
    let n = documents.len();
    let mut k: usize = 0;
    while k < n
        invariant
            n == documents@.len(),
            k <= n,
            ids@.len() == k,
            forall|j: int| 0 <= j < k ==> #[trigger] ids@[j] == documents@[j].id,
        decreases n - k,
    {
        ids.push(documents[k].id);
        k += 1;
    }
    let mut documents = documents;
    let mut full: Vec<FullDocument> = Vec::new();
    let mut i: usize = 0;
    while i < n
        invariant
            n == all.len(),
            ids@.len() == n,
            forall|j: int| 0 <= j < n ==> #[trigger] ids@[j] == all[j].id,
            i <= n,
            documents@ == all.skip(i as int),
            full@.len() == i,
            forall|j: int| 0 <= j < i ==> full_of(#[trigger] full@[j], all[j], grouped_tags(all, pairs@, j)),
        decreases n - i,
    {
        let ghost before = documents@;
        let document = documents.remove(0);
        proof {
            assert(before[0] == all[i as int]);
            assert(documents@ =~= all.skip(i + 1));
        }
        let later = has_later_duplicate(&ids, i);
        proof {
            if later {
                let j = choose|j: int| i < j < ids@.len() && ids@[j] == ids@[i as int];
                assert(all[j].id == all[i as int].id);
                assert(shadowed(all, i as int));
            } else {
                assert forall|j: int| i < j < all.len() implies (#[trigger] all[j]).id != all[i as int].id by {
                    assert(ids@[j] == all[j].id);
                }
                assert(!shadowed(all, i as int));
            }
        }
        let tags = if later {
            Vec::new()
        } else {
            tags_for(&pairs, document.id)
        };
        proof {
            assert(tags@ =~= grouped_tags(all, pairs@, i as int));
        }
        full.push(FullDocument::new(document, tags));
        i += 1;
    }
    full
}

/// The checks of a new document: the label is required and at most 100
/// characters long; the document type is a positive identifier.
pub open spec fn new_document_checks(document: NewDocument) -> Seq<FieldFailures> {
    seq![
        ("label"@, text_failures(opt_text(document.label), true, true, None, Some(MAX_TEXT_LENGTH), None, false)),
        ("document_type_id"@, id_failures(Some(document.document_type_id), false, Some(1), Some(MAX_ID))),
    ]
}

/// The checks of a document change: a label, where given, is at most 100
/// characters long; a document type, where given, is a positive
/// identifier.
pub open spec fn update_document_checks(document: UpdateDocument) -> Seq<FieldFailures> {
    seq![
        ("label"@, text_failures(opt_text(document.label), false, true, None, Some(MAX_TEXT_LENGTH), None, false)),
        ("document_type_id"@, id_failures(document.document_type_id, false, Some(1), Some(MAX_ID))),
    ]
}

impl NewDocument {
    /// Checks the body; on failure, the failed checks of each field.
    pub fn validate(&self) -> (result: Result<(), ValidationErrors>)
        ensures
            outcome_matches(result, validation_outcome(new_document_checks(*self))),
    {
        let mut checks = Vec::new();
        checks.push(
            (
                String::from_str("label"),
                check_text(&self.label, true, true, None, Some(MAX_TEXT_LENGTH), None, false),
            ),
        );
        checks.push(
            (
                String::from_str("document_type_id"),
                check_id(&Some(self.document_type_id), false, Some(1), Some(MAX_ID)),
            ),
        );
        assert(checks_view(checks@) =~= new_document_checks(*self));
        collect_failures(checks)
    }
}

impl UpdateDocument {
    /// Checks the body; on failure, the failed checks of each field.
    pub fn validate(&self) -> (result: Result<(), ValidationErrors>)
        ensures
            outcome_matches(result, validation_outcome(update_document_checks(*self))),
    {
        let mut checks = Vec::new();
        checks.push(
            (
                String::from_str("label"),
                check_text(&self.label, false, true, None, Some(MAX_TEXT_LENGTH), None, false),
            ),
        );
        checks.push(
            (
                String::from_str("document_type_id"),
                check_id(&self.document_type_id, false, Some(1), Some(MAX_ID)),
            ),
        );
        assert(checks_view(checks@) =~= update_document_checks(*self));
        collect_failures(checks)
    }
}

/// A new document passes its checks exactly when it has a label of at
/// most 100 characters and a positive document type.
pub proof fn lemma_new_document_valid(document: NewDocument)
    ensures
        validation_outcome(new_document_checks(document)) is Ok <==> {
            &&& document.label matches Some(label) && label@.len() <= MAX_TEXT_LENGTH
            &&& document.document_type_id >= 1
        },
{
    lemma_no_failed_fields(new_document_checks(document));
    assert(new_document_checks(document)[0].1 == text_failures(opt_text(document.label), true, true, None, Some(MAX_TEXT_LENGTH), None, false));
    assert(new_document_checks(document)[1].1 == id_failures(Some(document.document_type_id), false, Some(1), Some(MAX_ID)));
}

/// A document change passes its checks exactly when its label, if given,
/// is at most 100 characters long and its document type, if given, is
/// positive.
pub proof fn lemma_update_document_valid(document: UpdateDocument)
    ensures
        validation_outcome(update_document_checks(document)) is Ok <==> {
            &&& document.label matches Some(label) ==> label@.len() <= MAX_TEXT_LENGTH
            &&& document.document_type_id matches Some(id) ==> id >= 1
        },
{
    lemma_no_failed_fields(update_document_checks(document));
    assert(update_document_checks(document)[0].1 == text_failures(opt_text(document.label), false, true, None, Some(MAX_TEXT_LENGTH), None, false));
    assert(update_document_checks(document)[1].1 == id_failures(document.document_type_id, false, Some(1), Some(MAX_ID)));
}

} // verus!
