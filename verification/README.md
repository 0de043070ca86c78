# task-driver

The core of a task driver, verified with Verus.

A task runs in steps. After each step the state that it has come to is recorded in a
replicated task queue, with a payload from which another node can restore the task.
The library decides; the code around it awaits services and hands their replies in.

- `src/task_state.rs`: the states of all tasks, and how the queue records and reads them
- `src/resumption.rs`: how a queued task is taken up, or refused
- `src/running_task.rs`: the bookkeeping of a running task and of its cleanup
- `src/settlement/`: the task that settles an internal match
  - `resume.rs`: taking up a settlement that the queue holds
  - `submission.rs`, `recovery.rs`: the on-chain leg, submitted or recovered
  - `update.rs`: the local leg, applied by comparison
  - `validity.rs`: the validity proofs
  - `laws.rs`, `local_laws.rs`: what holds of all runs
- `src/json.rs`, `src/ids.rs`: what is taken on trust of `serde_json` and `uuid`
- `app/`: the asynchronous plumbing
