//! The decisions a stage makes when it runs an agent: whether to retry a
//! failed or timed-out attempt, when to fall back from the asynchronous to the
//! blocking process, and the messages of the errors it gives.
use vstd::prelude::*;
use vstd::string::*;
use crate::agent::{AgentStage, stage_text};
use crate::text::{contains_seq, contains_text, decimal, decimal_string};

verus! {

/// How one attempt of a stage's process ended.
pub enum AttemptOutcome {
    Succeeded,
    /// The process returned an error, printed here.
    Failed(String),
    /// The process did not finish within the stage's timeout.
    TimedOut,
}

/// What a run does after an attempt.
pub enum RunStep {
    /// The attempt succeeded: the run returns `Ok`.
    Finished,
    /// Wait, then make another attempt.
    Retry,
    /// The run returns an error with this message.
    GiveUp(String),
}

/// The retry state of a run, by value.
pub struct RetryView {
    pub stage: AgentStage,
    pub attempts: nat,
    pub max_retries: nat,
}

/// The retry state of one run of a stage on an agent.
pub struct RetryState {
    stage: AgentStage,
    attempts: u32,
    max_retries: u32,
}

impl View for RetryState {
    type V = RetryView;

    closed spec fn view(&self) -> RetryView {
        RetryView { stage: self.stage, attempts: self.attempts as nat, max_retries: self.max_retries as nat }
    }
}

/// The message of a run that gave up after `attempts` failed attempts, the
/// last with the printed error `err`.
pub open spec fn failed_after_text(stage: AgentStage, attempts: nat, err: Seq<char>) -> Seq<char> {
    "Stage "@ + stage_text(stage) + " failed after "@ + decimal(attempts) + " attempts: "@ + err
}

/// The message of a run that gave up after `attempts` attempts, the last of
/// which timed out.
pub open spec fn timed_out_after_text(stage: AgentStage, attempts: nat) -> Seq<char> {
    "Stage "@ + stage_text(stage) + " timed out after "@ + decimal(attempts) + " attempts"@
}

/// The number of attempts a run makes when every attempt fails.
pub open spec fn attempt_limit(max_retries: nat) -> nat {
    if max_retries == 0 {
        1
    } else {
        max_retries
    }
}

/// The retry state after one more attempt.
pub open spec fn after_attempt(v: RetryView) -> RetryView {
    RetryView { attempts: v.attempts + 1, ..v }
}

/// A run in state `v`, just after an attempt that did not succeed, tries
/// again: it has made fewer attempts than its number of retries.
pub open spec fn retries_after(v: RetryView) -> bool {
    v.attempts < v.max_retries
}

/// The number of attempts a run in state `v` makes when every attempt
/// fails: `on_attempt` once, then again as long as it retries.
pub open spec fn failing_attempts_from(v: RetryView) -> nat
    decreases v.max_retries - v.attempts,
{
    let w = after_attempt(v);
    if retries_after(w) {
        1 + failing_attempts_from(w)
    } else {
        1
    }
}

impl RetryState {
    /// A run may make another attempt: it has made none, or fewer than its
    /// number of retries.
    pub open spec fn can_attempt(&self) -> bool {
        self@.attempts == 0 || self@.attempts < self@.max_retries
    }

    /// The state of a run of `stage` that has made no attempt yet.
    pub fn new(stage: AgentStage, max_retries: u32) -> (r: Self)
        ensures
            r@ == (RetryView { stage, attempts: 0, max_retries: max_retries as nat }),
            r.can_attempt(),
    {
        RetryState { stage, attempts: 0, max_retries }
    }

    /// The number of attempts made so far.
    pub fn attempts(&self) -> (r: u32)
        ensures
            r == self@.attempts,
    {
        self.attempts
    }

    /// Records how an attempt ended and decides what the run does next: it
    /// returns on success, and retries a failed or timed-out attempt as long
    /// as it has made fewer attempts than its number of retries.
    pub fn on_attempt(&mut self, outcome: AttemptOutcome) -> (r: RunStep)
        requires
            old(self).can_attempt(),
        ensures
            final(self)@ == after_attempt(old(self)@),
            match outcome {
                AttemptOutcome::Succeeded => r is Finished,
                AttemptOutcome::Failed(e) => if retries_after(final(self)@) {
                    r is Retry
                } else {
                    r matches RunStep::GiveUp(m) && m@ == failed_after_text(
                        final(self)@.stage,
                        final(self)@.attempts,
                        e@,
                    )
                },
                AttemptOutcome::TimedOut => if retries_after(final(self)@) {
                    r is Retry
                } else {
                    r matches RunStep::GiveUp(m) && m@ == timed_out_after_text(
                        final(self)@.stage,
                        final(self)@.attempts,
                    )
                },
            },
            r is Retry ==> final(self).can_attempt(),
    {
        self.attempts = self.attempts + 1;
        match outcome {
            AttemptOutcome::Succeeded => RunStep::Finished,
            AttemptOutcome::Failed(e) => {
                if self.attempts >= self.max_retries {
                    let mut m = self.gave_up_prefix(" failed after ");
                    m.append(" attempts: ");
                    m.append(e.as_str());
                    RunStep::GiveUp(m)
                } else {
                    RunStep::Retry
                }
            },
            AttemptOutcome::TimedOut => {
                if self.attempts >= self.max_retries {
                    let mut m = self.gave_up_prefix(" timed out after ");
                    m.append(" attempts");
                    RunStep::GiveUp(m)
                } else {
                    RunStep::Retry
                }
            },
        }
    }

    fn gave_up_prefix(&self, middle: &str) -> (r: String)
        ensures
            r@ == "Stage "@ + stage_text(self@.stage) + middle@ + decimal(self@.attempts),
    {
        let mut m = String::from_str("Stage ");
        m.append(self.stage.to_string().as_str());
        m.append(middle);
        m.append(decimal_string(self.attempts).as_str());
        m
    }
}

proof fn lemma_failing_attempts_from(v: RetryView)
    ensures
        failing_attempts_from(v) == if v.attempts < v.max_retries {
            (v.max_retries - v.attempts) as nat
        } else {
            1
        },
    decreases v.max_retries - v.attempts,
{
    let w = after_attempt(v);
    if retries_after(w) {
        lemma_failing_attempts_from(w);
    }
}

/// A run of a stage whose every attempt fails makes `attempt_limit` attempts:
/// as many as its number of retries, and one when that number is 0. Each of
/// those attempts is allowed (`can_attempt` holds before it), since the run
/// retries after each attempt but the last and gives up after the last.
pub proof fn lemma_failing_run_attempts(stage: AgentStage, max_retries: u32)
    ensures
        failing_attempts_from(RetryView { stage, attempts: 0, max_retries: max_retries as nat })
            == attempt_limit(max_retries as nat),
        forall|k: nat|
            1 <= k < attempt_limit(max_retries as nat) ==> #[trigger] retries_after(
                RetryView { stage, attempts: k, max_retries: max_retries as nat },
            ),
        !retries_after(
            RetryView { stage, attempts: attempt_limit(max_retries as nat), max_retries: max_retries as nat },
        ),
{
    lemma_failing_attempts_from(RetryView { stage, attempts: 0, max_retries: max_retries as nat });
}

/// The error text that a stage's default asynchronous process gives.
pub open spec fn async_not_implemented_text() -> Seq<char> {
    "Async process not implemented"@
}

/// The error of a stage that does not implement its asynchronous process.
pub fn async_not_implemented() -> (r: String)
    ensures
        r@ == async_not_implemented_text(),
{
    String::from_str("Async process not implemented")
}

/// The error of a stage that does not implement its blocking process.
pub fn sync_not_implemented() -> (r: String)
    ensures
        r@ == "Sync process not implemented"@,
{
    String::from_str("Sync process not implemented")
}

/// Whether an error of a stage's asynchronous process, printed as `err`,
/// sends the run on to the blocking process: that is so when the error says
/// that the asynchronous process is not implemented.
pub fn needs_sync_fallback(err: &str) -> (r: bool)
    ensures
        r == contains_seq(err@, async_not_implemented_text()),
{
    contains_text(err, "Async process not implemented")
}

/// The error of a blocking process that panicked with `msg` (or with a
/// payload that is no string).
pub fn panic_error_message(msg: Option<&str>) -> (r: String)
    ensures
        r@ == "Task panicked: "@ + match msg {
            Some(m) => m@,
            None => "Unknown panic message"@,
        },
{
    let mut r = String::from_str("Task panicked: ");
    match msg {
        Some(m) => r.append(m),
        None => r.append("Unknown panic message"),
    }
    r
}

/// The error of a blocking process whose task could not be joined.
pub fn join_error_message(err: &str) -> (r: String)
    ensures
        r@ == "Task join error: "@ + err@,
{
    let mut r = String::from_str("Task join error: ");
    r.append(err);
    r
}

} // verus!
