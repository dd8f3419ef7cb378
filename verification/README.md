# docrab

The verified core of an electronic document management system whose API
stores documents, tags, document types and uploaded files, and hands work
on the files to workers through a message queue.

- `src/` is the library, checked by Verus:
  - `task` and `job`: the task and job names exchanged on the queue, the
    priorities of tasks and the ordering of a job's tasks;
  - `validation` and `models`: the request bodies and the checks each
    must pass before it is stored;
  - `errors`: the error answers of the API, including the report of a
    body that failed its checks;
  - `files`: where and under which name an upload is stored;
  - `worker`: the records and messages the workers read.
- `app/` is the program around it: the HTTP routes, the database and
  queue connections, the JSON encoding of messages and the worker loop.
  Run it with no argument for the API, or with `worker` for a worker.
- `tests/` exercises the library on concrete values.
