//! The errors that the API answers with: an HTTP status, a reason, and
//! for a refused request body the validation failures of each field.

use vstd::prelude::*;
use convert_case::{Case, Casing};

verus! {

/// An HTTP status code.
#[derive(Clone, Copy, PartialEq, Eq, Structural, Debug)]
pub struct Status {
    pub code: u16,
}

impl Status {
    /// The status with the given code.
    pub fn new(code: u16) -> (status: Status)
        ensures
            status.code == code,
    {
        Status { code }
    }

    /// `400 Bad Request`.
    pub fn bad_request() -> (status: Status)
        ensures
            status.code == 400,
    {
        Status { code: 400 }
    }

    /// `404 Not Found`.
    pub fn not_found() -> (status: Status)
        ensures
            status.code == 404,
    {
        Status { code: 404 }
    }

    /// `500 Internal Server Error`.
    pub fn internal_server_error() -> (status: Status)
        ensures
            status.code == 500,
    {
        Status { code: 500 }
    }
}

/// The text of a status as the web framework writes it: the code, a
/// space, and the reason phrase.
pub uninterp spec fn status_line(code: u16) -> Seq<char>;

/// Writes a status as text, through the `Display` impl of
/// `rocket::http::Status` (`"{code} {reason_lossy}"`). Claimed: the text
/// depends on the code alone, and for the codes that this library answers
/// with it is the code followed by the canonical reason phrase of
/// rocket's status table. The phrases of other codes are left unsaid.
#[verifier::external_body]
fn status_text(code: u16) -> (text: String)
    ensures
        text@ == status_line(code),
        code == 400 ==> text@ == "400 Bad Request"@,
        code == 404 ==> text@ == "404 Not Found"@,
        code == 500 ==> text@ == "500 Internal Server Error"@,
{
    rocket::http::Status::new(code).to_string()
}

/// A field name written in snake case, turned into title case (words
/// split at underscores, each word capitalised, joined by spaces).
pub uninterp spec fn snake_to_title(field: Seq<char>) -> Seq<char>;

/// Converts a snake-case field name to title case with `convert_case`
/// (`from_case(Case::Snake).to_case(Case::Title)`). Claimed: the result
/// depends on the name alone; what the conversion does is left to the
/// outside crate.
#[verifier::external_body]
fn title_from_snake(field: &str) -> (title: String)
    ensures
        title@ == snake_to_title(field@),
{
    field.from_case(Case::Snake).to_case(Case::Title)
}

/// One failed check of one field of a request body.
pub struct ValidationError {
    /// The kind of check that failed (`"required"`, `"length"`,
    /// `"range"`, `"regex"`).
    pub code: String,
    /// The message that the check carries, if it has one.
    pub message: Option<String>,
}

impl View for ValidationError {
    type V = (Seq<char>, Option<Seq<char>>);

    open spec fn view(&self) -> (Seq<char>, Option<Seq<char>>) {
        (
            self.code@,
            match self.message {
                Some(m) => Some(m@),
                None => None,
            },
        )
    }
}

/// The failed checks of a request body, field by field, in the order of
/// the fields; only fields with at least one failed check appear.
pub struct ValidationErrors {
    pub fields: Vec<(String, Vec<ValidationError>)>,
}

/// The abstract value of one field's failed checks.
pub open spec fn field_failures_view(f: (String, Vec<ValidationError>)) -> (
    Seq<char>,
    Seq<(Seq<char>, Option<Seq<char>>)>,
) {
    (f.0@, f.1@.map_values(|e: ValidationError| e@))
}

impl View for ValidationErrors {
    type V = Seq<(Seq<char>, Seq<(Seq<char>, Option<Seq<char>>)>)>;

    open spec fn view(&self) -> Seq<(Seq<char>, Seq<(Seq<char>, Option<Seq<char>>)>)> {
        self.fields@.map_values(|f: (String, Vec<ValidationError>)| field_failures_view(f))
    }
}

/// The failed checks of one field as the API reports them.
pub struct FieldError {
    pub field: String,
    pub errors: Vec<String>,
}

impl View for FieldError {
    type V = (Seq<char>, Seq<Seq<char>>);

    open spec fn view(&self) -> (Seq<char>, Seq<Seq<char>>) {
        (self.field@, self.errors@.map_values(|s: String| s@))
    }
}

/// The body of an error answer.
pub struct ApiError {
    pub status: String,
    pub reason: String,
    pub validation_errors: Option<Vec<FieldError>>,
}

/// The text that the API reports for one failed check: its message, or
/// nothing where it has none.
pub open spec fn failure_text(e: (Seq<char>, Option<Seq<char>>)) -> Seq<char> {
    match e.1 {
        Some(m) => m,
        None => Seq::empty(),
    }
}

/// The report of one field with failed checks `errors`, under the title
/// `title`.
pub open spec fn field_report(title: Seq<char>, errors: Seq<(Seq<char>, Option<Seq<char>>)>) -> (
    Seq<char>,
    Seq<Seq<char>>,
) {
    (title, errors.map_values(|e: (Seq<char>, Option<Seq<char>>)| failure_text(e)))
}

/// The reports of all fields of a refused request body.
pub open spec fn field_reports(fields: Seq<(Seq<char>, Seq<(Seq<char>, Option<Seq<char>>)>)>) -> Seq<
    (Seq<char>, Seq<Seq<char>>),
> {
    fields.map_values(
        |f: (Seq<char>, Seq<(Seq<char>, Option<Seq<char>>)>)| field_report(snake_to_title(f.0), f.1),
    )
}

/// The report of one field carries the given title and, for each failed
/// check in order, the check's message or an empty text where it has none.
pub proof fn lemma_field_report(title: Seq<char>, errors: Seq<(Seq<char>, Option<Seq<char>>)>)
    ensures
        field_report(title, errors).0 == title,
        field_report(title, errors).1.len() == errors.len(),
        forall|k: int|
            0 <= k < errors.len() ==> #[trigger] field_report(title, errors).1[k] == match errors[k].1 {
                Some(m) => m,
                None => Seq::<char>::empty(),
            },
{
}

/// The report of a refused body has one entry per field with failed
/// checks, in the same order: the field's name in title case, and for
/// each of its failed checks, in order, the check's message or an empty
/// text where it has none.
pub proof fn lemma_field_reports(fields: Seq<(Seq<char>, Seq<(Seq<char>, Option<Seq<char>>)>)>)
    ensures
        field_reports(fields).len() == fields.len(),
        forall|i: int|
            0 <= i < fields.len() ==> {
                &&& (#[trigger] field_reports(fields)[i]).0 == snake_to_title(fields[i].0)
                &&& field_reports(fields)[i].1.len() == fields[i].1.len()
                &&& forall|k: int|
                    0 <= k < fields[i].1.len() ==> #[trigger] field_reports(fields)[i].1[k] == match fields[i].1[k].1 {
                        Some(m) => m,
                        None => Seq::<char>::empty(),
                    }
            },
{
}

/// The failure texts of `errors`, in order.
fn failure_texts(errors: &[ValidationError]) -> (texts: Vec<String>)
    ensures
        texts@.map_values(|s: String| s@) == errors@.map_values(|e: ValidationError| e@).map_values(
            |e: (Seq<char>, Option<Seq<char>>)| failure_text(e),
        ),
{
    let mut texts: Vec<String> = Vec::new();
    let n = errors.len();
    let mut i: usize = 0;
    while i < n
        invariant
            n == errors@.len(),
            i <= n,
            texts@.len() == i,
            forall|j: int| 0 <= j < i ==> #[trigger] texts@[j]@ == failure_text(errors@[j]@),
        decreases n - i,
    {
        let text = match &errors[i].message {
            Some(message) => message.clone(),
            None => String::new(),
        };
        texts.push(text);
        i += 1;
    }
    assert(texts@.map_values(|s: String| s@) =~= errors@.map_values(|e: ValidationError| e@).map_values(
        |e: (Seq<char>, Option<Seq<char>>)| failure_text(e),
    ));
    texts
}

impl FieldError {
    /// The report of a field, already titled, with failed checks `errors`.
    pub fn from_title(title: String, errors: &[ValidationError]) -> (report: FieldError)
        ensures
            report@ == field_report(title@, errors@.map_values(|e: ValidationError| e@)),
    {
        FieldError { field: title, errors: failure_texts(errors) }
    }

    /// The report of the field named `field` (in snake case) with failed
    /// checks `errors`: the field under its title-case name, and the
    /// message of each check, or an empty text where it has none.
    pub fn from_validation_error(field: &str, errors: &[ValidationError]) -> (report: FieldError)
        ensures
            report@ == field_report(snake_to_title(field@), errors@.map_values(|e: ValidationError| e@)),
    {
        let title = title_from_snake(field);
        FieldError::from_title(title, errors)
    }
}

/// What an answer says: its status code, its status text, its reason,
/// and whether it carries field reports.
pub open spec fn answer_view(answer: (Status, ApiError)) -> (u16, Seq<char>, Seq<char>, bool) {
    (answer.0.code, answer.1.status@, answer.1.reason@, answer.1.validation_errors is Some)
}

/// What the answer with status `code` and reason `reason` says.
pub open spec fn server_answer(code: u16, reason: Seq<char>) -> (u16, Seq<char>, Seq<char>, bool) {
    (code, status_line(code), reason, false)
}

impl ApiError {
    /// The answer with status `status` and reason `reason`.
    pub fn server_error(status: Status, reason: &str) -> (answer: (Status, ApiError))
        ensures
            answer.0 == status,
            answer_view(answer) == server_answer(status.code, reason@),
            answer.1.status@ == status_line(status.code),
            status.code == 400 ==> answer.1.status@ == "400 Bad Request"@,
            status.code == 404 ==> answer.1.status@ == "404 Not Found"@,
            status.code == 500 ==> answer.1.status@ == "500 Internal Server Error"@,
            answer.1.reason@ == reason@,
            answer.1.validation_errors is None,
    {
        (status, ApiError { status: status_text(status.code), reason: reason.to_owned(), validation_errors: None })
    }

    /// The answer `500 Internal Server Error` with reason `reason`: the
    /// same as [`ApiError::server_error`] with that status.
    pub fn internal_server_error(reason: &str) -> (answer: (Status, ApiError))
        ensures
            answer.0.code == 500,
            answer_view(answer) == server_answer(500, reason@),
            answer.1.status@ == "500 Internal Server Error"@,
            answer.1.reason@ == reason@,
            answer.1.validation_errors is None,
    {
        ApiError::server_error(Status::internal_server_error(), reason)
    }

    /// The answer `404 Not Found` with reason `reason`: the same as
    /// [`ApiError::server_error`] with that status.
    pub fn not_found(reason: &str) -> (answer: (Status, ApiError))
        ensures
            answer.0.code == 404,
            answer_view(answer) == server_answer(404, reason@),
            answer.1.status@ == "404 Not Found"@,
            answer.1.reason@ == reason@,
            answer.1.validation_errors is None,
    {
        ApiError::server_error(Status::not_found(), reason)
    }

    /// The answer `400 Bad Request` to a request body that failed
    /// validation: no reason, and the report of every field that failed,
    /// in the order of the fields.
    pub fn validation_error(validation_errors: ValidationErrors) -> (answer: (Status, ApiError))
        ensures
            answer.0.code == 400,
            answer.1.status@ == "400 Bad Request"@,
            answer.1.reason@ == Seq::<char>::empty(),
            answer.1.validation_errors matches Some(reports)
                && reports@.map_values(|f: FieldError| f@) == field_reports(validation_errors@),
    {
        let status = Status::bad_request();
        let mut reports: Vec<FieldError> = Vec::new();
        let n = validation_errors.fields.len();
        let mut i: usize = 0;
        while i < n
            invariant
                n == validation_errors.fields@.len(),
                i <= n,
                reports@.len() == i,
                forall|j: int| 0 <= j < i ==> #[trigger] reports@[j]@ == field_report(
                    snake_to_title(validation_errors.fields@[j].0@),
                    validation_errors.fields@[j].1@.map_values(|e: ValidationError| e@),
                ),
            decreases n - i,
        {
            let (field, errors) = &validation_errors.fields[i];
            let report = FieldError::from_validation_error(field.as_str(), errors.as_slice());
            reports.push(report);
            i += 1;
        }
        assert(reports@.map_values(|f: FieldError| f@) =~= field_reports(validation_errors@));
        (status, ApiError { status: status_text(status.code), reason: String::new(), validation_errors: Some(reports) })
    }
}

/// The answer to a request that matches no route.
pub fn not_found() -> (answer: (Status, ApiError))
    ensures
        answer.0.code == 404,
        answer.1.status@ == "404 Not Found"@,
        answer.1.reason@ == "no matching routes found"@,
        answer.1.validation_errors is None,
{
    ApiError::not_found("no matching routes found")
}

} // verus!
