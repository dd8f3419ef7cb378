use docrab::job::{File, Job, JobPayload, RoutingKeys};

#[test]
fn job_names() {
    assert_eq!(Job::Convert.to_string(), "CONVERT");
    assert_eq!(Job::Ocr.to_string(), "OCR");
    assert_eq!(Job::Delete.to_string(), "DELETE");
}

#[test]
fn job_names_read_back() {
    for job in [Job::Convert, Job::Ocr, Job::Delete] {
        assert_eq!(Job::from_string(&job.to_string()), Ok(job));
    }
    assert_eq!(Job::from_string("CONVERT_TO_PNG"), Err(()));
    assert_eq!(Job::from_string("Delete"), Err(()));
}

#[test]
fn job_queue_name() {
    assert_eq!(RoutingKeys::WorkerQueue.to_string(), "docrab-workers");
}

#[test]
fn job_payload_holds_its_file() {
    let payload = JobPayload {
        job: Job::Ocr,
        file: File { file: vec![1, 2, 3], file_name: "a.pdf".to_string(), file_size: 3, uuid: "u".to_string() },
    };
    assert_eq!(payload.job, Job::Ocr);
    assert_eq!(payload.file.file_size, payload.file.file.len());
}
