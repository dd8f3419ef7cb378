//! The job vocabulary of the first message format between the API and
//! the workers: a job names one kind of work and carries the file it
//! applies to.

use vstd::prelude::*;
use crate::text::same_text;

verus! {

/// The queues of the message broker.
pub enum RoutingKeys {
    WorkerQueue,
}

/// The name of the queue that a routing key stands for.
pub open spec fn routing_key_name(key: RoutingKeys) -> Seq<char> {
    match key {
        RoutingKeys::WorkerQueue => "docrab-workers"@,
    }
}

impl RoutingKeys {
    /// The name of the queue, as the broker knows it.
    pub fn to_string(&self) -> (name: &'static str)
        ensures
            name@ == routing_key_name(*self),
    {
        match self {
            RoutingKeys::WorkerQueue => "docrab-workers",
        }
    }
}

/// One kind of work that a worker performs on a file.
#[derive(Clone, Copy, PartialEq, Eq, Structural, Debug)]
pub enum Job {
    Convert,
    Ocr,
    Delete,
}

/// The canonical name of a job.
pub open spec fn job_name(job: Job) -> Seq<char> {
    match job {
        Job::Convert => "CONVERT"@,
        Job::Ocr => "OCR"@,
        Job::Delete => "DELETE"@,
    }
}

/// The job whose canonical name is `name`, if any.
pub open spec fn parse_job(name: Seq<char>) -> Result<Job, ()> {
    if name == "CONVERT"@ {
        Ok(Job::Convert)
    } else if name == "OCR"@ {
        Ok(Job::Ocr)
    } else if name == "DELETE"@ {
        Ok(Job::Delete)
    } else {
        Err(())
    }
}

impl Job {
    /// The canonical name of the job.
    pub fn to_string(&self) -> (name: String)
        ensures
            name@ == job_name(*self),
    {
        match self {
            Job::Convert => String::from_str("CONVERT"),
            Job::Ocr => String::from_str("OCR"),
            Job::Delete => String::from_str("DELETE"),
        }
    }

    /// The job named `input`; `Err(())` where `input` names no job.
    pub fn from_string(input: &str) -> (job: Result<Job, ()>)
        ensures
            job == parse_job(input@),
    {
        if same_text(input, "CONVERT") {
            Ok(Job::Convert)
        } else if same_text(input, "OCR") {
            Ok(Job::Ocr)
        } else if same_text(input, "DELETE") {
            Ok(Job::Delete)
        } else {
            Err(())
        }
    }
}

/// Reading the name of a job gives the job back.
pub proof fn lemma_job_name_round_trip(job: Job)
    ensures
        parse_job(job_name(job)) == Ok::<Job, ()>(job),
{
    reveal_strlit("CONVERT");
    reveal_strlit("OCR");
    reveal_strlit("DELETE");
    assert("CONVERT"@.len() == 7);
    assert("OCR"@.len() == 3);
    assert("DELETE"@.len() == 6);
}

/// A name is read as a job only when it is that job's name.
pub proof fn lemma_parsed_job_has_name(name: Seq<char>, job: Job)
    requires
        parse_job(name) == Ok::<Job, ()>(job),
    ensures
        job_name(job) == name,
{
}

/// A file as a job carries it: its bytes, its name, its size and the
/// identifier under which it is stored.
pub struct File {
    pub file: Vec<u8>,
    pub file_name: String,
    pub file_size: usize,
    pub uuid: String,
}

/// One job and the file it applies to.
pub struct JobPayload {
    pub job: Job,
    pub file: File,
}

} // verus!
