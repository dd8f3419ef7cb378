//! The task vocabulary that the API hands to the workers through the
//! message queue, with the priority by which a worker orders the tasks
//! of one job.

use vstd::prelude::*;
use crate::text::same_text;

verus! {

/// The queues of the message broker.
pub enum RoutingKeys {
    WorkerQueue,
}

/// The name of the queue that a routing key stands for.
pub open spec fn routing_key_name(key: RoutingKeys) -> Seq<char> {
    match key {
        RoutingKeys::WorkerQueue => "docrab-workers"@,
    }
}

impl RoutingKeys {
    /// The name of the queue, as the broker knows it.
    pub fn to_string(&self) -> (name: &'static str)
        ensures
            name@ == routing_key_name(*self),
    {
        match self {
            RoutingKeys::WorkerQueue => "docrab-workers",
        }
    }
}

/// One piece of work that a worker performs on a stored document file.
#[derive(Clone, Copy, PartialEq, Eq, Structural, Debug)]
pub enum Task {
    ConvertToPng,
    CreatePreviews,
    Ocr,
    Delete,
}

/// The canonical name of a task.
pub open spec fn task_name(task: Task) -> Seq<char> {
    match task {
        Task::ConvertToPng => "CONVERT_TO_PNG"@,
        Task::CreatePreviews => "CREATE_PREVIEWS"@,
        Task::Ocr => "OCR"@,
        Task::Delete => "DELETE"@,
    }
}

/// The task whose canonical name is `name`, if any.
pub open spec fn parse_task(name: Seq<char>) -> Result<Task, ()> {
    if name == "CONVERT_TO_PNG"@ {
        Ok(Task::ConvertToPng)
    } else if name == "CREATE_PREVIEWS"@ {
        Ok(Task::CreatePreviews)
    } else if name == "OCR"@ {
        Ok(Task::Ocr)
    } else if name == "DELETE"@ {
        Ok(Task::Delete)
    } else {
        Err(())
    }
}

/// The priority of a task: tasks of smaller priority run first.
pub open spec fn task_priority(task: Task) -> u64 {
    match task {
        Task::ConvertToPng => 0,
        Task::CreatePreviews => 1,
        Task::Ocr => 2,
        Task::Delete => 10,
    }
}

impl Task {
    /// The canonical name of the task.
    pub fn to_string(&self) -> (name: String)
        ensures
            name@ == task_name(*self),
    {
        match self {
            Task::ConvertToPng => String::from_str("CONVERT_TO_PNG"),
            Task::CreatePreviews => String::from_str("CREATE_PREVIEWS"),
            Task::Ocr => String::from_str("OCR"),
            Task::Delete => String::from_str("DELETE"),
        }
    }

    /// The task named `input`; `Err(())` where `input` names no task.
    pub fn from_string(input: &str) -> (task: Result<Task, ()>)
        ensures
            task == parse_task(input@),
    {
        if same_text(input, "CONVERT_TO_PNG") {
            Ok(Task::ConvertToPng)
        } else if same_text(input, "CREATE_PREVIEWS") {
            Ok(Task::CreatePreviews)
        } else if same_text(input, "OCR") {
            Ok(Task::Ocr)
        } else if same_text(input, "DELETE") {
            Ok(Task::Delete)
        } else {
            Err(())
        }
    }

    /// The priority of the task: tasks of smaller priority run first.
    pub fn task_to_priority(&self) -> (priority: u64)
        ensures
            priority == task_priority(*self),
    {
        match self {
            Task::ConvertToPng => 0,
            Task::CreatePreviews => 1,
            Task::Ocr => 2,
            Task::Delete => 10,
        }
    }
}

/// Reading the name of a task gives the task back.
pub proof fn lemma_task_name_round_trip(task: Task)
    ensures
        parse_task(task_name(task)) == Ok::<Task, ()>(task),
{
    reveal_strlit("CONVERT_TO_PNG");
    reveal_strlit("CREATE_PREVIEWS");
    reveal_strlit("OCR");
    reveal_strlit("DELETE");
    assert("CONVERT_TO_PNG"@.len() == 14);
    assert("CREATE_PREVIEWS"@.len() == 15);
    assert("OCR"@.len() == 3);
    assert("DELETE"@.len() == 6);
}

/// A name is read as a task only when it is that task's name.
pub proof fn lemma_parsed_task_has_name(name: Seq<char>, task: Task)
    requires
        parse_task(name) == Ok::<Task, ()>(task),
    ensures
        task_name(task) == name,
{
}

/// Two different tasks never share a priority, and the priorities order
/// the tasks as conversion, previews, text recognition, deletion.
pub proof fn lemma_priorities_order_tasks(a: Task, b: Task)
    ensures
        a != b ==> task_priority(a) != task_priority(b),
        task_priority(Task::ConvertToPng) < task_priority(Task::CreatePreviews),
        task_priority(Task::CreatePreviews) < task_priority(Task::Ocr),
        task_priority(Task::Ocr) < task_priority(Task::Delete),
{
}

/// The work a worker is asked to do on one stored document file.
pub struct JobPayload {
    pub task: Vec<Task>,
    pub document_file_id: i64,
}

/// The tasks of `tasks` that are `kind`, in their order.
pub open spec fn tasks_of_kind(tasks: Seq<Task>, kind: Task) -> Seq<Task> {
    tasks.filter(is_kind(kind))
}

/// The test of being a task of `kind`.
pub open spec fn is_kind(kind: Task) -> spec_fn(Task) -> bool {
    |t: Task| t == kind
}

/// Adding a task at the end adds it at the end of its own kind's tasks.
proof fn lemma_tasks_of_kind_push(tasks: Seq<Task>, x: Task, kind: Task)
    ensures
        tasks_of_kind(tasks.push(x), kind) == if x == kind {
            tasks_of_kind(tasks, kind).push(x)
        } else {
            tasks_of_kind(tasks, kind)
        },
{
    reveal_with_fuel(Seq::<_>::filter, 1);
    assert(tasks.push(x).drop_last() =~= tasks);
}

/// The tasks of `tasks` ordered by priority; tasks of one priority keep
/// their order.
#[verifier::opaque]
pub open spec fn by_priority(tasks: Seq<Task>) -> Seq<Task> {
    tasks_of_kind(tasks, Task::ConvertToPng) + tasks_of_kind(tasks, Task::CreatePreviews)
        + tasks_of_kind(tasks, Task::Ocr) + tasks_of_kind(tasks, Task::Delete)
}

/// Appends to `out` the tasks of `tasks` that are `kind`, in their order.
fn append_tasks_of_kind(tasks: &Vec<Task>, kind: Task, out: &mut Vec<Task>)
    ensures
        final(out)@ == old(out)@ + tasks_of_kind(tasks@, kind),
{
    let ghost start = out@;
    let n = tasks.len();
    let mut i: usize = 0;
    while i < n
        invariant
            n == tasks@.len(),
            i <= n,
            out@ == start + tasks_of_kind(tasks@.take(i as int), kind),
        decreases n - i,
    {
        proof {
            reveal_with_fuel(Seq::<_>::filter, 1);
            assert(tasks@.take(i + 1).drop_last() =~= tasks@.take(i as int));
        }
        let t = tasks[i];
        if t == kind {
            out.push(t);
        }
        i += 1;
    }
    assert(tasks@.take(n as int) =~= tasks@);
}

/// Orders the tasks of a job by priority, so that the tasks that others
/// depend on run first; tasks of one priority keep their order.
pub fn prioritize_tasks(tasks: &mut Vec<Task>)
    ensures
        final(tasks)@ == by_priority(old(tasks)@),
        forall|i: int, j: int|
            0 <= i < j < final(tasks)@.len() ==> task_priority(#[trigger] final(tasks)@[i]) <= task_priority(
                #[trigger] final(tasks)@[j],
            ),
        final(tasks)@.to_multiset() == old(tasks)@.to_multiset(),
{
    proof {
        lemma_by_priority_sorted(tasks@);
        lemma_by_priority_permutes(tasks@);
    }
    let mut ordered: Vec<Task> = Vec::new();
    append_tasks_of_kind(tasks, Task::ConvertToPng, &mut ordered);
    append_tasks_of_kind(tasks, Task::CreatePreviews, &mut ordered);
    append_tasks_of_kind(tasks, Task::Ocr, &mut ordered);
    append_tasks_of_kind(tasks, Task::Delete, &mut ordered);
    reveal(by_priority);
    assert(ordered@ =~= by_priority(tasks@));
    *tasks = ordered;
}

impl JobPayload {
    /// The job announced for a freshly uploaded file: convert it, make its
    /// previews and recognise its text.
    pub fn for_upload(document_file_id: i64) -> (payload: JobPayload)
        ensures
            payload.task@ == seq![Task::ConvertToPng, Task::CreatePreviews, Task::Ocr],
            payload.document_file_id == document_file_id,
    {
        let mut task = Vec::new();
        task.push(Task::ConvertToPng);
        task.push(Task::CreatePreviews);
        task.push(Task::Ocr);
        assert(task@ =~= seq![Task::ConvertToPng, Task::CreatePreviews, Task::Ocr]);
        JobPayload { task, document_file_id }
    }

    /// The job announced for a file that is to be deleted.
    pub fn for_deletion(document_file_id: i64) -> (payload: JobPayload)
        ensures
            payload.task@ == seq![Task::Delete],
            payload.document_file_id == document_file_id,
    {
        let mut task = Vec::new();
        task.push(Task::Delete);
        assert(task@ =~= seq![Task::Delete]);
        JobPayload { task, document_file_id }
    }

    /// Orders the tasks of the job by priority (see [`prioritize_tasks`]).
    pub fn prioritize(&mut self)
        ensures
            final(self).task@ == by_priority(old(self).task@),
            forall|i: int, j: int|
                0 <= i < j < final(self).task@.len() ==> task_priority(#[trigger] final(self).task@[i])
                    <= task_priority(#[trigger] final(self).task@[j]),
            final(self).task@.to_multiset() == old(self).task@.to_multiset(),
            final(self).document_file_id == old(self).document_file_id,
    {
        prioritize_tasks(&mut self.task);
    }
}

/// Every task that `tasks_of_kind` keeps is of that kind.
proof fn lemma_tasks_of_kind_are_kind(tasks: Seq<Task>, kind: Task)
    ensures
        forall|i: int| 0 <= i < tasks_of_kind(tasks, kind).len()
            ==> #[trigger] tasks_of_kind(tasks, kind)[i] == kind,
{
    broadcast use Seq::lemma_filter_pred;
}

/// Ordering by priority gives tasks of non-decreasing priority.
pub proof fn lemma_by_priority_sorted(tasks: Seq<Task>)
    ensures
        forall|i: int, j: int| 0 <= i < j < by_priority(tasks).len()
            ==> task_priority(#[trigger] by_priority(tasks)[i])
                <= task_priority(#[trigger] by_priority(tasks)[j]),
{
    reveal(by_priority);
    lemma_tasks_of_kind_are_kind(tasks, Task::ConvertToPng);
    lemma_tasks_of_kind_are_kind(tasks, Task::CreatePreviews);
    lemma_tasks_of_kind_are_kind(tasks, Task::Ocr);
    lemma_tasks_of_kind_are_kind(tasks, Task::Delete);
}

/// Ordering by priority keeps every task, as often as it occurs.
pub proof fn lemma_by_priority_permutes(tasks: Seq<Task>)
    ensures
        by_priority(tasks).to_multiset() == tasks.to_multiset(),
    decreases tasks.len(),
{
    reveal(by_priority);
    broadcast use vstd::seq_lib::group_to_multiset_ensures;
    let a = tasks_of_kind(tasks, Task::ConvertToPng);
    let b = tasks_of_kind(tasks, Task::CreatePreviews);
    let c = tasks_of_kind(tasks, Task::Ocr);
    let d = tasks_of_kind(tasks, Task::Delete);
    vstd::seq_lib::lemma_multiset_commutative(a + b + c, d);
    vstd::seq_lib::lemma_multiset_commutative(a + b, c);
    vstd::seq_lib::lemma_multiset_commutative(a, b);
    if tasks.len() == 0 {
        reveal_with_fuel(Seq::<_>::filter, 1);
        assert(a.len() == 0 && b.len() == 0 && c.len() == 0 && d.len() == 0);
        assert(by_priority(tasks) =~= Seq::<Task>::empty());
    } else {
        let rest = tasks.drop_last();
        let x = tasks.last();
        lemma_by_priority_permutes(rest);
        let ra = tasks_of_kind(rest, Task::ConvertToPng);
        let rb = tasks_of_kind(rest, Task::CreatePreviews);
        let rc = tasks_of_kind(rest, Task::Ocr);
        let rd = tasks_of_kind(rest, Task::Delete);
        vstd::seq_lib::lemma_multiset_commutative(ra + rb + rc, rd);
        vstd::seq_lib::lemma_multiset_commutative(ra + rb, rc);
        vstd::seq_lib::lemma_multiset_commutative(ra, rb);
        reveal_with_fuel(Seq::<_>::filter, 1);
        assert(tasks =~= rest.push(x));
        assert(a == if x == Task::ConvertToPng { ra.push(x) } else { ra });
        assert(b == if x == Task::CreatePreviews { rb.push(x) } else { rb });
        assert(c == if x == Task::Ocr { rc.push(x) } else { rc });
        assert(d == if x == Task::Delete { rd.push(x) } else { rd });
        assert(tasks.to_multiset() == rest.to_multiset().insert(x));
        assert(by_priority(tasks).to_multiset() =~= tasks.to_multiset());
    }
}

/// Whether the tasks are in non-decreasing order of priority.
#[verifier::opaque]
pub open spec fn priority_sorted(tasks: Seq<Task>) -> bool {
    forall|i: int, j: int|
        0 <= i < j < tasks.len() ==> task_priority(#[trigger] tasks[i]) <= task_priority(#[trigger] tasks[j])
}

/// Tasks whose priorities are all at most `bound` hold no task of a kind
/// with a greater priority.
proof fn lemma_no_task_above(tasks: Seq<Task>, bound: u64, kind: Task)
    requires
        forall|i: int| 0 <= i < tasks.len() ==> task_priority(#[trigger] tasks[i]) <= bound,
        task_priority(kind) > bound,
    ensures
        tasks_of_kind(tasks, kind).len() == 0,
{
    let kept = tasks_of_kind(tasks, kind);
    if kept.len() > 0 {
        tasks.lemma_filter_pred(is_kind(kind), 0);
        assert(kept.contains(kept[0]));
        tasks.lemma_filter_contains_rev(is_kind(kind), kept[0]);
        let i = choose|i: int| 0 <= i < tasks.len() && tasks[i] == kept[0];
        assert(task_priority(tasks[i]) <= bound);
    }
}

/// Dropping the last task keeps the rest in priority order, below the
/// last task's priority.
proof fn lemma_sorted_drop_last(tasks: Seq<Task>)
    requires
        priority_sorted(tasks),
        tasks.len() > 0,
    ensures
        priority_sorted(tasks.drop_last()),
        forall|i: int|
            0 <= i < tasks.drop_last().len() ==> task_priority(#[trigger] tasks.drop_last()[i]) <= task_priority(
                tasks.last(),
            ),
{
    reveal(priority_sorted);
    let rest = tasks.drop_last();
    assert forall|i: int, j: int| 0 <= i < j < rest.len() implies task_priority(#[trigger] rest[i])
        <= task_priority(#[trigger] rest[j]) by {
        assert(rest[i] == tasks[i] && rest[j] == tasks[j]);
    }
    assert forall|i: int| 0 <= i < rest.len() implies task_priority(#[trigger] rest[i]) <= task_priority(
        tasks.last(),
    ) by {
        assert(rest[i] == tasks[i]);
        assert(tasks[tasks.len() - 1] == tasks.last());
    }
}

/// Adding at the end a task of a priority at least that of every task
/// adds it at the end of the ordered tasks.
proof fn lemma_by_priority_push_last(rest: Seq<Task>, x: Task)
    requires
        forall|i: int| 0 <= i < rest.len() ==> task_priority(#[trigger] rest[i]) <= task_priority(x),
    ensures
        by_priority(rest.push(x)) == by_priority(rest).push(x),
{
    reveal(by_priority);
    let bound = task_priority(x);
    let ra = tasks_of_kind(rest, Task::ConvertToPng);
    let rb = tasks_of_kind(rest, Task::CreatePreviews);
    let rc = tasks_of_kind(rest, Task::Ocr);
    let rd = tasks_of_kind(rest, Task::Delete);
    lemma_tasks_of_kind_push(rest, x, Task::ConvertToPng);
    lemma_tasks_of_kind_push(rest, x, Task::CreatePreviews);
    lemma_tasks_of_kind_push(rest, x, Task::Ocr);
    lemma_tasks_of_kind_push(rest, x, Task::Delete);
    if x == Task::ConvertToPng {
        lemma_no_task_above(rest, bound, Task::CreatePreviews);
        lemma_no_task_above(rest, bound, Task::Ocr);
        lemma_no_task_above(rest, bound, Task::Delete);
        assert(by_priority(rest.push(x)) =~= by_priority(rest).push(x));
    } else if x == Task::CreatePreviews {
        lemma_no_task_above(rest, bound, Task::Ocr);
        lemma_no_task_above(rest, bound, Task::Delete);
        assert(by_priority(rest.push(x)) =~= by_priority(rest).push(x));
    } else if x == Task::Ocr {
        lemma_no_task_above(rest, bound, Task::Delete);
        assert(by_priority(rest.push(x)) =~= by_priority(rest).push(x));
    } else {
        assert(by_priority(rest.push(x)) =~= by_priority(rest).push(x));
    }
}

/// No tasks, ordered, are no tasks.
proof fn lemma_by_priority_empty(tasks: Seq<Task>)
    requires
        tasks.len() == 0,
    ensures
        by_priority(tasks) == tasks,
{
    reveal(by_priority);
    reveal_with_fuel(Seq::<_>::filter, 1);
    assert(by_priority(tasks) =~= tasks);
}

/// Tasks already in priority order are left as they are.
pub proof fn lemma_by_priority_keeps_sorted(tasks: Seq<Task>)
    requires
        priority_sorted(tasks),
    ensures
        by_priority(tasks) == tasks,
    decreases tasks.len(),
{
    if tasks.len() == 0 {
        lemma_by_priority_empty(tasks);
    } else {
        let rest = tasks.drop_last();
        let x = tasks.last();
        assert(tasks == rest.push(x)) by {
            assert(tasks =~= rest.push(x));
        }
        lemma_sorted_drop_last(tasks);
        lemma_by_priority_keeps_sorted(rest);
        lemma_by_priority_push_last(rest, x);
    }
}

} // verus!
