//! Where and under which name an uploaded file of a document is stored.
//! Each upload gets a fresh identifier; the file is stored under its
//! name followed by that identifier, in a directory named after the
//! stem of that name, below the configured root.

use vstd::prelude::*;
use crate::models::document_file::{NewDocumentFile, new_document_file_checks, lemma_new_document_file_valid};
use crate::validation::validation_outcome;
use crate::validation::opt_text;

verus! {

/// The root directory under which document files are stored.
pub struct FileDirectory(pub String);

/// Whether `c` is a lowercase hexadecimal digit.
pub open spec fn is_lower_hex_digit(c: char) -> bool {
    ('0' <= c && c <= '9') || ('a' <= c && c <= 'f')
}

/// Whether `s` is a UUID in hyphenated lowercase notation, such as
/// `67e55044-10b1-426f-9247-bb680e5fe0c8`.
pub open spec fn hyphenated_uuid(s: Seq<char>) -> bool {
    &&& s.len() == 36
    &&& forall|i: int|
        0 <= i < 36 ==> if i == 8 || i == 13 || i == 18 || i == 23 {
            s[i] == '-'
        } else {
            is_lower_hex_digit(#[trigger] s[i])
        }
}

/// Whether `s` is a random (version 4, RFC 4122 variant) UUID in
/// hyphenated lowercase notation: the version digit is `4` and the
/// variant digit is one of `8`, `9`, `a`, `b`.
pub open spec fn random_uuid(s: Seq<char>) -> bool {
    &&& hyphenated_uuid(s)
    &&& s[14] == '4'
    &&& (s[19] == '8' || s[19] == '9' || s[19] == 'a' || s[19] == 'b')
}

/// A fresh random identifier, from `uuid::Uuid::new_v4` written with its
/// `Display` impl. Claimed: the text is a random UUID in hyphenated
/// lowercase notation, with version digit `4` and an RFC 4122 variant
/// digit. Which identifier comes out is chance and left unsaid.
#[verifier::external_body]
fn new_uuid() -> (id: String)
    ensures
        random_uuid(id@),
{
    uuid::Uuid::new_v4().to_string()
}

/// The stem of the last component of a path: the file name without its
/// extension.
pub uninterp spec fn path_file_stem(path: Seq<char>) -> Option<Seq<char>>;

/// The index of the last `.` in `s`, or -1 where there is none.
pub open spec fn last_dot(s: Seq<char>) -> int
    decreases s.len(),
{
    if s.len() == 0 {
        -1
    } else if s.last() == '.' {
        s.len() - 1
    } else {
        last_dot(s.drop_last())
    }
}

/// The stem of a file name, as `std::path::Path::file_stem` documents it:
/// the whole name where it has no `.` other than a leading one, else the
/// part before the last `.`.
pub open spec fn name_stem(name: Seq<char>) -> Seq<char> {
    if last_dot(name) <= 0 {
        name
    } else {
        name.subrange(0, last_dot(name))
    }
}

/// Where the last `.` of a text is: at no position when the text has no
/// `.`, else at a position holding `.` with no `.` after it.
pub proof fn lemma_last_dot(s: Seq<char>)
    ensures
        -1 <= last_dot(s) < s.len(),
        last_dot(s) == -1 <==> !s.contains('.'),
        last_dot(s) >= 0 ==> s[last_dot(s)] == '.',
        forall|j: int| last_dot(s) < j < s.len() ==> s[j] != '.',
    decreases s.len(),
{
    if s.len() > 0 {
        let rest = s.drop_last();
        lemma_last_dot(rest);
        assert(forall|j: int| 0 <= j < rest.len() ==> rest[j] == s[j]);
        if s.last() != '.' {
            if rest.contains('.') {
                let j = choose|j: int| 0 <= j < rest.len() && rest[j] == '.';
                assert(s[j] == '.');
            }
            if s.contains('.') {
                let j = choose|j: int| 0 <= j < s.len() && s[j] == '.';
                assert(j < rest.len());
                assert(rest[j] == '.');
            }
        } else {
            assert(s[s.len() - 1] == '.');
        }
    }
}

/// The stem of a file name: the whole name where it has no `.`, or where
/// its only `.` is its first character; otherwise everything before its
/// last `.`.
pub proof fn lemma_name_stem(name: Seq<char>, k: int)
    ensures
        !name.contains('.') ==> name_stem(name) == name,
        (name.len() > 0 && name[0] == '.' && forall|j: int| 0 < j < name.len() ==> name[j] != '.') ==> name_stem(
            name,
        ) == name,
        (0 < k < name.len() && name[k] == '.' && forall|j: int| k < j < name.len() ==> name[j] != '.') ==> name_stem(
            name,
        ) == name.take(k),
{
    lemma_last_dot(name);
    if 0 < k < name.len() && name[k] == '.' && forall|j: int| k < j < name.len() ==> name[j] != '.' {
        assert(last_dot(name) == k);
    }
    if name.len() > 0 && name[0] == '.' && forall|j: int| 0 < j < name.len() ==> name[j] != '.' {
        assert(name.contains('.'));
        assert(last_dot(name) == 0);
    }
}

/// Whether `path` is a single file name: not empty, without a path
/// separator (`/` or a backslash) or a drive mark (`:`), and neither `.` nor `..`.
pub open spec fn plain_file_name(path: Seq<char>) -> bool {
    &&& path.len() > 0
    &&& !path.contains('/')
    &&& !path.contains('\\')
    &&& !path.contains(':')
    &&& path != seq!['.']
    &&& path != seq!['.', '.']
}

/// The stem of a path, through `std::path::Path::file_stem` and
/// `OsStr::to_str`. Claimed, from the documentation of `file_stem`: the
/// result depends on the path alone, and for a single file name it is
/// that name's stem ([`name_stem`]). Other paths are left unsaid.
#[verifier::external_body]
fn file_stem(path: &str) -> (stem: Option<String>)
    ensures
        opt_text(stem) == path_file_stem(path@),
        plain_file_name(path@) ==> opt_text(stem) == Some(name_stem(path@)),
{
    match std::path::Path::new(path).file_stem() {
        Some(stem) => match stem.to_str() {
            Some(text) => Some(text.to_owned()),
            None => None,
        },
        None => None,
    }
}

/// The name under which an upload is stored: its own name, a hyphen and
/// the identifier; only the identifier where the upload has no name.
pub open spec fn stored_name(name: Option<Seq<char>>, uuid: Seq<char>) -> Seq<char> {
    match name {
        Some(n) => n + seq!['-'] + uuid,
        None => uuid,
    }
}

/// The directory, below the root, that holds a stored file: the stem of
/// the stored name, or the identifier where the name has no stem.
pub open spec fn stored_directory(stored: Seq<char>, uuid: Seq<char>) -> Seq<char> {
    match path_file_stem(stored) {
        Some(stem) => stem,
        None => uuid,
    }
}

/// Where and how an upload is stored.
pub struct FilePlan {
    /// The identifier of this upload.
    pub uuid: String,
    /// The directory below the root that receives the file.
    pub directory: String,
    /// The record of the stored file.
    pub document_file: NewDocumentFile,
}

/// Whether `plan` stores the upload named `name` of the document
/// `document_id` under the identifier `uuid`.
pub open spec fn plans_upload(plan: FilePlan, document_id: i64, name: Option<Seq<char>>, uuid: Seq<char>) -> bool {
    let stored = stored_name(name, uuid);
    &&& plan.uuid@ == uuid
    &&& plan.directory@ == stored_directory(stored, uuid)
    &&& plain_file_name(stored) ==> plan.directory@ == name_stem(stored)
    &&& opt_text(plan.document_file.label) == Some(
        match name {
            Some(n) => n,
            None => Seq::<char>::empty(),
        },
    )
    &&& plan.document_file.document_id == Some(document_id)
    &&& opt_text(plan.document_file.version) == Some(Seq::<char>::empty())
    &&& opt_text(plan.document_file.filename) == Some(stored)
}

/// The name under which an upload named `name` is stored with the
/// identifier `uuid`.
pub fn file_name_with_uuid(name: Option<&str>, uuid: &str) -> (stored: String)
    ensures
        stored@ == stored_name(
            match name {
                Some(n) => Some(n@),
                None => None,
            },
            uuid@,
        ),
{
    match name {
        Some(n) => {
            let mut stored = n.to_owned();
            stored.append("-");
            stored.append(uuid);
            proof {
                reveal_strlit("-");
            }
            stored
        },
        None => uuid.to_owned(),
    }
}

/// The directory below the root that holds the file stored under
/// `stored`, with the identifier `uuid` as the fallback.
pub fn directory_name(stored: &str, uuid: &str) -> (directory: String)
    ensures
        directory@ == stored_directory(stored@, uuid@),
        plain_file_name(stored@) ==> directory@ == name_stem(stored@),
{
    match file_stem(stored) {
        Some(stem) => stem,
        None => uuid.to_owned(),
    }
}

/// How the upload named `name` of the document `document_id` is stored
/// under the identifier `uuid`.
pub fn plan_file(document_id: i64, name: Option<String>, uuid: String) -> (plan: FilePlan)
    ensures
        plans_upload(plan, document_id, opt_text(name), uuid@),
{
    let label = match &name {
        Some(n) => n.clone(),
        None => String::new(),
    };
    let stored = match &name {
        Some(n) => file_name_with_uuid(Some(n.as_str()), uuid.as_str()),
        None => file_name_with_uuid(None, uuid.as_str()),
    };
    let directory = directory_name(stored.as_str(), uuid.as_str());
    FilePlan {
        uuid,
        directory,
        document_file: NewDocumentFile {
            label: Some(label),
            document_id: Some(document_id),
            version: Some(String::new()),
            filename: Some(stored),
        },
    }
}

/// How the upload named `name` of the document `document_id` is stored,
/// under a fresh identifier.
pub fn prepare_file(document_id: i64, name: Option<String>) -> (plan: FilePlan)
    ensures
        random_uuid(plan.uuid@),
        plans_upload(plan, document_id, opt_text(name), plan.uuid@),
{
    let uuid = new_uuid();
    plan_file(document_id, name, uuid)
}

/// The record planned for an upload passes the checks of a file record
/// exactly when the upload has no name or a name of at most 63
/// characters: the stored name adds a hyphen and the 36 characters of
/// the identifier, and may have at most 100.
pub proof fn lemma_planned_record_valid(plan: FilePlan, document_id: i64, name: Option<Seq<char>>, uuid: Seq<char>)
    requires
        plans_upload(plan, document_id, name, uuid),
        hyphenated_uuid(uuid),
    ensures
        validation_outcome(new_document_file_checks(plan.document_file)) is Ok <==> (name matches Some(n) ==> n.len()
            <= 63),
{
    lemma_new_document_file_valid(plan.document_file);
}

/// A named upload is stored under its name, a hyphen and the identifier,
/// in that order and nothing else; an unnamed upload under the identifier
/// alone.
pub proof fn lemma_stored_name_parts(name: Option<Seq<char>>, uuid: Seq<char>)
    ensures
        name matches Some(n) ==> {
            let stored = stored_name(name, uuid);
            &&& stored.len() == n.len() + 1 + uuid.len()
            &&& stored.take(n.len() as int) == n
            &&& stored[n.len() as int] == '-'
            &&& stored.skip(n.len() as int + 1) == uuid
        },
        name is None ==> stored_name(name, uuid) == uuid,
{
    if let Some(n) = name {
        let stored = stored_name(name, uuid);
        assert(stored.take(n.len() as int) =~= n);
        assert(stored.skip(n.len() as int + 1) =~= uuid);
    }
}

/// The record planned for an upload belongs to the given document, has
/// the upload's name unchanged as its label (the empty text where the
/// upload has none), an empty version, and the stored name (the name, a
/// hyphen and the identifier) as its file name.
pub proof fn lemma_planned_record(plan: FilePlan, document_id: i64, name: Option<Seq<char>>, uuid: Seq<char>)
    requires
        plans_upload(plan, document_id, name, uuid),
    ensures
        plan.document_file.document_id == Some(document_id),
        plan.document_file.version matches Some(v) && v@.len() == 0,
        plan.uuid@ == uuid,
        name matches Some(n) ==> (plan.document_file.label matches Some(l) && l@ == n),
        name is None ==> (plan.document_file.label matches Some(l) && l@.len() == 0),
        name matches Some(n) ==> (plan.document_file.filename matches Some(f) && f@ == n + seq!['-'] + uuid),
        name is None ==> (plan.document_file.filename matches Some(f) && f@ == uuid),
{
}

} // verus!
