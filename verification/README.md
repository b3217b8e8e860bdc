# flowforge

A stage-based task pipeline. Agents (tasks) carry a list of stage parameters;
each stage's workers process an agent and hand it on to its next unprocessed
stage, retrying failed or timed-out attempts, until the agent has no stage left.

Layout:

- `src/` is the verified library (Verus):
  - `agent.rs`: agents, stages, stage parameters and statuses, with the laws on
    how an agent advances through its stages;
  - `pipeline.rs`: the stage registry (buffer sizes, routing of agents) and the
    completion counters;
  - `stage.rs`: the retry decisions of a stage run, the fallback from the
    asynchronous to the blocking process, and the stage error messages;
  - `error.rs`, `utils.rs`, `text.rs`: the error type, lock messages, and the
    decimal and substring helpers the messages are built with.
- `app/` is the tokio runtime around it: the `Stage` trait for users, the
  database traits, the pipeline's workers and channels, and the serde and
  `thiserror` forms of the library's types.
- `tests/` exercises the library on concrete values.
