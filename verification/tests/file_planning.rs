use docrab::files::{directory_name, file_name_with_uuid, plan_file, prepare_file};

const ID: &str = "67e55044-10b1-426f-9247-bb680e5fe0c8";

#[test]
fn stored_name_appends_the_identifier() {
    assert_eq!(file_name_with_uuid(Some("invoice"), ID), format!("invoice-{}", ID));
    assert_eq!(file_name_with_uuid(None, ID), ID);
}

#[test]
fn directory_is_the_stem_of_the_stored_name() {
    assert_eq!(directory_name(&format!("invoice-{}", ID), ID), format!("invoice-{}", ID));
    assert_eq!(directory_name(&format!("scan.v2-{}", ID), ID), "scan");
    assert_eq!(directory_name(&format!(".hidden-{}", ID), ID), format!(".hidden-{}", ID));
    assert_eq!(directory_name("", ID), ID);
}

#[test]
fn plan_of_a_named_upload() {
    let plan = plan_file(3, Some("report".to_string()), ID.to_string());
    let stored = format!("report-{}", ID);
    assert_eq!(plan.uuid, ID);
    assert_eq!(plan.directory, stored);
    assert_eq!(plan.document_file.label.as_deref(), Some("report"));
    assert_eq!(plan.document_file.document_id, Some(3));
    assert_eq!(plan.document_file.version.as_deref(), Some(""));
    assert_eq!(plan.document_file.filename.as_deref(), Some(stored.as_str()));
    assert!(plan.document_file.validate().is_ok());
}

#[test]
fn plan_of_an_unnamed_upload() {
    let plan = plan_file(8, None, ID.to_string());
    assert_eq!(plan.directory, ID);
    assert_eq!(plan.document_file.label.as_deref(), Some(""));
    assert_eq!(plan.document_file.filename.as_deref(), Some(ID));
}

#[test]
fn fresh_identifiers_are_hyphenated_lowercase_uuids() {
    let plan = prepare_file(1, Some("x".to_string()));
    assert_eq!(plan.uuid.len(), 36);
    assert_eq!(plan.uuid.as_bytes()[14], b'4');
    assert!([b'8', b'9', b'a', b'b'].contains(&plan.uuid.as_bytes()[19]));
    for (i, c) in plan.uuid.chars().enumerate() {
        if [8, 13, 18, 23].contains(&i) {
            assert_eq!(c, '-');
        } else {
            assert!(c.is_ascii_digit() || ('a'..='f').contains(&c));
        }
    }
    assert_eq!(plan.document_file.filename, Some(format!("x-{}", plan.uuid)));
    let other = prepare_file(1, Some("x".to_string()));
    assert_ne!(plan.uuid, other.uuid);
}

#[test]
fn planned_record_accepts_names_up_to_sixty_three_characters() {
    let plan = plan_file(1, Some("n".repeat(63)), ID.to_string());
    assert!(plan.document_file.validate().is_ok());
    let plan = plan_file(1, Some("n".repeat(64)), ID.to_string());
    let errors = plan.document_file.validate().unwrap_err();
    assert_eq!(errors.fields.len(), 1);
    assert_eq!(errors.fields[0].0, "filename");
    assert!(plan_file(1, None, ID.to_string()).document_file.validate().is_ok());
}
