use docrab::models::document::{Document, FullDocument, NewDocument, UpdateDocument};
use docrab::models::document_file::NewDocumentFile;
use docrab::models::document_tag::{attach_all, validate_each, NewDocumentTag};
use docrab::models::document_type::{DocumentType, NewDocumentType, UpdateDocumentType};
use docrab::models::tag::Tag;

#[test]
fn new_document_checks_label_and_type() {
    assert!(NewDocument { label: Some("Invoice".to_string()), document_type_id: 1 }.validate().is_ok());
    let errors = NewDocument { label: None, document_type_id: 0 }.validate().unwrap_err();
    assert_eq!(errors.fields.len(), 2);
    assert_eq!(errors.fields[0].0, "label");
    assert_eq!(errors.fields[0].1[0].code, "required");
    assert_eq!(errors.fields[1].0, "document_type_id");
    assert_eq!(errors.fields[1].1[0].code, "range");
    assert!(NewDocument { label: Some("x".to_string()), document_type_id: i64::MAX }.validate().is_ok());
    assert!(NewDocument { label: Some("x".to_string()), document_type_id: -5 }.validate().is_err());
}

#[test]
fn update_document_allows_missing_fields() {
    assert!(UpdateDocument { label: None, document_type_id: None }.validate().is_ok());
    let errors = UpdateDocument { label: None, document_type_id: Some(0) }.validate().unwrap_err();
    assert_eq!(errors.fields.len(), 1);
    assert_eq!(errors.fields[0].0, "document_type_id");
}

#[test]
fn document_type_label_rules() {
    assert!(NewDocumentType { label: Some("Letters".to_string()) }.validate().is_ok());
    assert!(NewDocumentType { label: None }.validate().is_err());
    assert!(UpdateDocumentType { label: None }.validate().is_ok());
    let errors = UpdateDocumentType { label: Some("x".repeat(101)) }.validate().unwrap_err();
    assert_eq!(errors.fields[0].1[0].code, "length");
}

#[test]
fn new_document_file_requires_every_field() {
    let file = NewDocumentFile {
        label: Some("scan".to_string()),
        document_id: Some(3),
        version: Some(String::new()),
        filename: Some("scan-1".to_string()),
    };
    assert!(file.validate().is_ok());
    let empty = NewDocumentFile { label: None, document_id: None, version: None, filename: None };
    let errors = empty.validate().unwrap_err();
    let fields: Vec<&str> = errors.fields.iter().map(|f| f.0.as_str()).collect();
    assert_eq!(fields, vec!["label", "document_id", "version", "filename"]);
}

#[test]
fn document_tags_are_checked_in_order_and_attached() {
    let tags = vec![
        NewDocumentTag { tag_id: Some(4), document_id: None },
        NewDocumentTag { tag_id: None, document_id: Some(9) },
    ];
    let errors = validate_each(&tags).unwrap_err();
    assert_eq!(errors.fields[0].0, "tag_id");
    assert!(validate_each(&tags[..1]).is_ok());
    let attached = attach_all(&tags, 12);
    assert_eq!(attached.len(), 2);
    assert_eq!(attached[0].tag_id, Some(4));
    assert_eq!(attached[0].document_id, Some(12));
    assert_eq!(attached[1].tag_id, None);
    assert_eq!(attached[1].document_id, Some(12));
    let one = NewDocumentTag { tag_id: Some(1), document_id: None }.attached_to(2);
    assert_eq!((one.tag_id, one.document_id), (Some(1), Some(2)));
}

#[test]
fn full_document_carries_its_tags() {
    let document = Document {
        id: 7,
        label: "Contract".to_string(),
        document_type_id: 2,
        document_type: DocumentType { id: 2, label: "Legal".to_string() },
    };
    let tags = vec![Tag { id: 1, label: "urgent".to_string(), color: "#ff0000".to_string() }];
    let full = FullDocument::new(document, tags);
    assert_eq!(full.id, 7);
    assert_eq!(full.label, "Contract");
    assert_eq!(full.document_type_id, 2);
    assert_eq!(full.document_type.label, "Legal");
    assert_eq!(full.tags.as_ref().map(|t| t.len()), Some(1));
    assert_eq!(full.tags.unwrap()[0].color, "#ff0000");
}

fn doc(id: i64, label: &str) -> Document {
    Document {
        id,
        label: label.to_string(),
        document_type_id: 1,
        document_type: DocumentType { id: 1, label: "Letter".to_string() },
    }
}

fn pair(document_id: i64, tag_id: i64) -> (docrab::models::document_tag::DocumentTag, Tag) {
    (
        docrab::models::document_tag::DocumentTag { id: tag_id * 100 + document_id, tag_id, document_id },
        Tag { id: tag_id, label: format!("tag{}", tag_id), color: "#000000".to_string() },
    )
}

#[test]
fn full_documents_group_tags_by_document() {
    let documents = vec![doc(1, "a"), doc(2, "b"), doc(3, "c")];
    let pairs = vec![pair(2, 10), pair(1, 11), pair(2, 12), pair(9, 13)];
    let full = docrab::models::document::full_documents(documents, pairs);
    assert_eq!(full.len(), 3);
    let tag_ids = |i: usize| full[i].tags.as_ref().unwrap().iter().map(|t| t.id).collect::<Vec<i64>>();
    assert_eq!(tag_ids(0), vec![11]);
    assert_eq!(tag_ids(1), vec![10, 12]);
    assert_eq!(tag_ids(2), Vec::<i64>::new());
    assert_eq!(full[1].label, "b");
    assert_eq!(full[2].id, 3);
}

#[test]
fn full_documents_give_shared_identifiers_tags_to_the_last() {
    let documents = vec![doc(5, "first"), doc(5, "second")];
    let full = docrab::models::document::full_documents(documents, vec![pair(5, 1)]);
    assert!(full[0].tags.as_ref().unwrap().is_empty());
    assert_eq!(full[1].tags.as_ref().unwrap().len(), 1);
    assert!(docrab::models::document::full_documents(Vec::new(), vec![pair(1, 1)]).is_empty());
}
