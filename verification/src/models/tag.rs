//! Tags, which label documents with a name and a colour.

use vstd::prelude::*;
use crate::errors::ValidationErrors;
use crate::validation::{hex_color, lemma_no_failed_fields, FieldFailures, MAX_TEXT_LENGTH, text_failures, opt_text, validation_outcome, outcome_matches, check_text, checks_view, collect_failures};

verus! {

/// A stored tag.
#[derive(Clone, Debug)]
pub struct Tag {
    pub id: i64,
    pub label: String,
    pub color: String,
}

impl Tag {
    /// A copy of the tag.
    pub fn duplicate(&self) -> (copy: Tag)
        ensures
            copy == *self,
    {
        Tag { id: self.id, label: self.label.clone(), color: self.color.clone() }
    }
}

/// The body of a request that creates a tag.
pub struct NewTag {
    pub label: Option<String>,
    pub color: Option<String>,
}

/// The body of a request that changes a tag; missing fields stay as
/// they are.
pub struct UpdateTag {
    pub label: Option<String>,
    pub color: Option<String>,
}

/// The checks of a new tag: the label is required and at most 100
/// characters long; the colour is required and in hexadecimal notation.
pub open spec fn new_tag_checks(tag: NewTag) -> Seq<FieldFailures> {
    seq![
        ("label"@, text_failures(opt_text(tag.label), true, true, None, Some(MAX_TEXT_LENGTH), None, false)),
        ("color"@, text_failures(opt_text(tag.color), true, false, None, None, None, true)),
    ]
}

/// The checks of a tag change: a label, where given, is at most 100
/// characters long; a colour, where given, is 7 characters long and in
/// hexadecimal notation.
pub open spec fn update_tag_checks(tag: UpdateTag) -> Seq<FieldFailures> {
    seq![
        ("label"@, text_failures(opt_text(tag.label), false, true, None, Some(MAX_TEXT_LENGTH), None, false)),
        ("color"@, text_failures(opt_text(tag.color), false, true, None, None, Some(7), true)),
    ]
}

impl NewTag {
    /// Checks the body; on failure, the failed checks of each field.
    pub fn validate(&self) -> (result: Result<(), ValidationErrors>)
        ensures
            outcome_matches(result, validation_outcome(new_tag_checks(*self))),
    {
        let mut checks = Vec::new();
        checks.push(
            (
                String::from_str("label"),
                check_text(&self.label, true, true, None, Some(MAX_TEXT_LENGTH), None, false),
            ),
        );
        checks.push((String::from_str("color"), check_text(&self.color, true, false, None, None, None, true)));
        assert(checks_view(checks@) =~= new_tag_checks(*self));
        collect_failures(checks)
    }
}

impl UpdateTag {
    /// Checks the body; on failure, the failed checks of each field.
    pub fn validate(&self) -> (result: Result<(), ValidationErrors>)
        ensures
            outcome_matches(result, validation_outcome(update_tag_checks(*self))),
    {
        let mut checks = Vec::new();
        checks.push(
            (
                String::from_str("label"),
                check_text(&self.label, false, true, None, Some(MAX_TEXT_LENGTH), None, false),
            ),
        );
        checks.push((String::from_str("color"), check_text(&self.color, false, true, None, None, Some(7), true)));
        assert(checks_view(checks@) =~= update_tag_checks(*self));
        collect_failures(checks)
    }
}

/// A new tag passes its checks exactly when it has a label of at most
/// 100 characters and a colour in hexadecimal notation.
pub proof fn lemma_new_tag_valid(tag: NewTag)
    ensures
        validation_outcome(new_tag_checks(tag)) is Ok <==> {
            &&& tag.label matches Some(label) && label@.len() <= MAX_TEXT_LENGTH
            &&& tag.color matches Some(color) && hex_color(color@)
        },
{
    lemma_no_failed_fields(new_tag_checks(tag));
    assert(new_tag_checks(tag)[0].1 == text_failures(opt_text(tag.label), true, true, None, Some(MAX_TEXT_LENGTH), None, false));
    assert(new_tag_checks(tag)[1].1 == text_failures(opt_text(tag.color), true, false, None, None, None, true));
}

/// A tag change passes its checks exactly when its label, if given, is
/// at most 100 characters long and its colour, if given, is in
/// hexadecimal notation.
pub proof fn lemma_update_tag_valid(tag: UpdateTag)
    ensures
        validation_outcome(update_tag_checks(tag)) is Ok <==> {
            &&& tag.label matches Some(label) ==> label@.len() <= MAX_TEXT_LENGTH
            &&& tag.color matches Some(color) ==> hex_color(color@)
        },
{
    lemma_no_failed_fields(update_tag_checks(tag));
    assert(update_tag_checks(tag)[0].1 == text_failures(opt_text(tag.label), false, true, None, Some(MAX_TEXT_LENGTH), None, false));
    assert(update_tag_checks(tag)[1].1 == text_failures(opt_text(tag.color), false, true, None, None, Some(7), true));
}

} // verus!
