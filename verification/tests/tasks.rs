use docrab::task::{prioritize_tasks, JobPayload, RoutingKeys, Task};

const ALL: [Task; 4] = [Task::ConvertToPng, Task::CreatePreviews, Task::Ocr, Task::Delete];

#[test]
fn task_names() {
    assert_eq!(Task::ConvertToPng.to_string(), "CONVERT_TO_PNG");
    assert_eq!(Task::CreatePreviews.to_string(), "CREATE_PREVIEWS");
    assert_eq!(Task::Ocr.to_string(), "OCR");
    assert_eq!(Task::Delete.to_string(), "DELETE");
}

#[test]
fn task_names_read_back() {
    for task in ALL {
        assert_eq!(Task::from_string(&task.to_string()), Ok(task));
    }
    assert_eq!(Task::from_string("ocr"), Err(()));
    assert_eq!(Task::from_string(""), Err(()));
    assert_eq!(Task::from_string("CONVERT"), Err(()));
    assert_eq!(Task::from_string("DELETE "), Err(()));
}

#[test]
fn task_priorities() {
    let priorities: Vec<u64> = ALL.iter().map(|t| t.task_to_priority()).collect();
    assert_eq!(priorities, vec![0, 1, 2, 10]);
}

#[test]
fn tasks_are_ordered_by_priority() {
    let mut tasks = vec![Task::Delete, Task::Ocr, Task::ConvertToPng, Task::Ocr, Task::CreatePreviews];
    prioritize_tasks(&mut tasks);
    assert_eq!(tasks, vec![Task::ConvertToPng, Task::CreatePreviews, Task::Ocr, Task::Ocr, Task::Delete]);
    let mut empty: Vec<Task> = Vec::new();
    prioritize_tasks(&mut empty);
    assert!(empty.is_empty());
}

#[test]
fn payload_prioritize_keeps_the_file() {
    let mut payload = JobPayload { task: vec![Task::Ocr, Task::ConvertToPng], document_file_id: 41 };
    payload.prioritize();
    assert_eq!(payload.task, vec![Task::ConvertToPng, Task::Ocr]);
    assert_eq!(payload.document_file_id, 41);
}

#[test]
fn upload_and_deletion_jobs() {
    let upload = JobPayload::for_upload(5);
    assert_eq!(upload.task, vec![Task::ConvertToPng, Task::CreatePreviews, Task::Ocr]);
    assert_eq!(upload.document_file_id, 5);
    let deletion = JobPayload::for_deletion(6);
    assert_eq!(deletion.task, vec![Task::Delete]);
    assert_eq!(deletion.document_file_id, 6);
}

#[test]
fn worker_queue_name() {
    assert_eq!(RoutingKeys::WorkerQueue.to_string(), "docrab-workers");
}

#[test]
fn text_comparison_is_by_character() {
    assert!(docrab::text::same_text("é", "é"));
    assert!(!docrab::text::same_text("e", "é"));
    assert!(!docrab::text::same_text("ab", "abc"));
    assert!(docrab::text::same_text("", ""));
}

#[test]
fn tasks_in_priority_order_stay_as_they_are() {
    let ordered = vec![Task::ConvertToPng, Task::ConvertToPng, Task::Ocr, Task::Delete];
    let mut tasks = ordered.clone();
    prioritize_tasks(&mut tasks);
    assert_eq!(tasks, ordered);
    prioritize_tasks(&mut tasks);
    assert_eq!(tasks, ordered);
}
