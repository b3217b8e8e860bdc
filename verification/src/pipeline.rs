//! The decisions of the pipeline: which stages are registered and with what
//! buffers, where an agent goes after a stage, and how many agents were
//! submitted and finished.
use vstd::prelude::*;
use vstd::string::*;
use crate::agent::{
    Agent, AgentStage, StageStatus, StatusView, first_pending_is, lemma_next_stage_facts, next_stage_of,
    stage_text,
};

verus! {

/// A stage to register, with the number of workers it runs.
#[derive(Debug, Clone, Copy)]
pub struct StageConfig {
    pub stage: AgentStage,
    pub concurrency_limit: usize,
}

/// The stages of a list of configurations, in order.
pub open spec fn config_stages(configs: Seq<StageConfig>) -> Seq<AgentStage> {
    configs.map_values(|c: StageConfig| c.stage)
}

/// Registering the `i`-th of `stages` after `registered` and the stages before
/// it would register a stage twice.
pub open spec fn conflicts_at(registered: Seq<AgentStage>, stages: Seq<AgentStage>, i: int) -> bool {
    (registered + stages.take(i)).contains(stages[i])
}

/// The buffer of the `i`-th stage of one registration: the first holds 100
/// agents, each later one twice its number of workers.
pub open spec fn buffer_size(i: int, concurrency_limit: usize) -> int {
    if i == 0 {
        100
    } else {
        2 * concurrency_limit
    }
}

/// The largest buffer that a tokio bounded channel takes
/// (`Semaphore::MAX_PERMITS`, `usize::MAX >> 3`); it also refuses 0.
pub const CHANNEL_CAPACITY_MAX: usize = usize::MAX / 8;

/// A channel can be made with a buffer of `size`.
pub open spec fn channel_capacity_ok(size: int) -> bool {
    1 <= size <= CHANNEL_CAPACITY_MAX
}

/// Why a registration stops.
#[derive(Debug, Clone, Copy, PartialEq, Eq, Structural)]
pub enum RegistrationStop {
    /// This stage is registered already, or earlier in the same list.
    AlreadyRegistered(AgentStage),
    /// The buffer of the stage at `index` (twice its workers) overflows.
    BufferOverflow { index: usize },
    /// The buffer of the stage at `index` is empty or larger than a channel
    /// takes.
    BufferRejected { index: usize, size: usize },
}

/// What stops the registration of `configs` after `registered` at the
/// `i`-th configuration, if anything: a stage registered twice, then a buffer
/// size that overflows, then one that no channel takes.
pub open spec fn stop_at(registered: Seq<AgentStage>, configs: Seq<StageConfig>, i: int) -> Option<RegistrationStop> {
    let stages = config_stages(configs);
    let size = buffer_size(i, configs[i].concurrency_limit);
    if conflicts_at(registered, stages, i) {
        Some(RegistrationStop::AlreadyRegistered(stages[i]))
    } else if size > usize::MAX {
        Some(RegistrationStop::BufferOverflow { index: i as usize })
    } else if !channel_capacity_ok(size) {
        Some(RegistrationStop::BufferRejected { index: i as usize, size: size as usize })
    } else {
        None
    }
}

/// The index of the first configuration, at or after `i`, where the
/// registration stops, or -1.
pub open spec fn first_stop_from(registered: Seq<AgentStage>, configs: Seq<StageConfig>, i: int) -> int
    decreases configs.len() - i,
{
    if i < 0 || i >= configs.len() {
        -1
    } else if stop_at(registered, configs, i) is Some {
        i
    } else {
        first_stop_from(registered, configs, i + 1)
    }
}

/// The index of the first configuration where the registration stops, or -1.
pub open spec fn first_stop(registered: Seq<AgentStage>, configs: Seq<StageConfig>) -> int {
    first_stop_from(registered, configs, 0)
}

/// `x + 1`, wrapping to 0 after `usize::MAX`, as an atomic counter adds.
pub open spec fn wrapping_inc(x: usize) -> usize {
    if x == usize::MAX {
        0
    } else {
        (x + 1) as usize
    }
}

/// The agents in flight: submitted and not yet counted finished.
pub open spec fn in_flight(v: PipelineView) -> Set<nat> {
    v.recorded.difference(v.finished)
}

/// The state after a ticket was issued for an agent about to be submitted.
pub open spec fn issued_view(v: PipelineView) -> PipelineView {
    PipelineView { issued: v.issued.insert(v.next_ticket), next_ticket: v.next_ticket + 1, ..v }
}

/// The state after the agent of ticket `t` was handed to its first stage and
/// counted as submitted. The count stays faithful if `t` was issued and not
/// recorded before, and the counter does not wrap.
pub open spec fn submitted_view(v: PipelineView, t: nat) -> PipelineView {
    PipelineView {
        total_agents: wrapping_inc(v.total_agents),
        recorded: v.recorded.insert(t),
        consistent: v.consistent && v.issued.contains(t) && !v.recorded.contains(t) && v.total_agents
            < usize::MAX,
        ..v
    }
}

/// The state after the agent of ticket `t` was counted as finished. The count
/// stays faithful if `t` was issued and not counted before, and the counter
/// does not wrap.
pub open spec fn finished_view(v: PipelineView, t: nat) -> PipelineView {
    PipelineView {
        completed_agents: wrapping_inc(v.completed_agents),
        finished: v.finished.insert(t),
        consistent: v.consistent && v.issued.contains(t) && !v.finished.contains(t) && v.completed_agents
            < usize::MAX,
        ..v
    }
}

/// The state after the agent of ticket `t` could not be handed to its first
/// stage: its ticket is withdrawn. This is faithful if the agent was neither
/// counted as submitted nor as finished.
pub open spec fn abandoned_view(v: PipelineView, t: nat) -> PipelineView {
    PipelineView {
        issued: v.issued.remove(t),
        consistent: v.consistent && !v.recorded.contains(t) && !v.finished.contains(t),
        ..v
    }
}

/// The state of a new or re-initialised pipeline; tickets go on being
/// numbered from `next_ticket`.
pub open spec fn initial_view(next_ticket: nat) -> PipelineView {
    PipelineView {
        total_agents: 0,
        completed_agents: 0,
        is_terminated: false,
        issued: Set::empty(),
        recorded: Set::empty(),
        finished: Set::empty(),
        next_ticket,
        consistent: true,
    }
}

/// The invariant of a pipeline's counters: every ticket is numbered below
/// `next_ticket`, and as long as the counting was faithful, the submitted and
/// the finished agents are issued ones and the counters count them.
pub open spec fn counting_inv(v: PipelineView) -> bool {
    &&& forall|x: nat| v.issued.contains(x) ==> x < v.next_ticket
    &&& v.consistent ==> {
        &&& v.recorded.finite()
        &&& v.finished.finite()
        &&& v.recorded.subset_of(v.issued)
        &&& v.finished.subset_of(v.issued)
        &&& v.total_agents == v.recorded.len()
        &&& v.completed_agents == v.finished.len()
    }
}

/// No submission is half done: every agent that got a ticket was submitted.
pub open spec fn no_submission_pending(v: PipelineView) -> bool {
    v.issued.subset_of(v.recorded)
}

/// The counting law: while each agent was counted finished at most once and
/// only once it had a ticket, and no submission is half done, the finished
/// count does not exceed the submitted count, and the two are equal exactly
/// when no agent is in flight.
pub open spec fn counting_law(v: PipelineView) -> bool {
    v.consistent && no_submission_pending(v) ==> {
        &&& v.completed_agents <= v.total_agents
        &&& (v.completed_agents == v.total_agents) == (in_flight(v) =~= Set::empty())
    }
}

/// The stages a pipeline routes agents to, in the order they were
/// registered.
#[derive(Debug, Clone)]
pub struct StageRegistry {
    stages: Vec<AgentStage>,
}

impl View for StageRegistry {
    type V = Seq<AgentStage>;

    closed spec fn view(&self) -> Seq<AgentStage> {
        self.stages@
    }
}

/// What one registration did: the buffer size of each stage it registered,
/// in order, and what stopped it, if anything did.
pub struct Registration {
    pub buffer_sizes: Vec<usize>,
    pub stop: Option<RegistrationStop>,
}

/// The state of a pipeline, by value: its counters and termination flag,
/// and the agents it has seen since it was created or re-initialised, by
/// ticket number: those that got a ticket (`issued`), those counted as
/// submitted (`recorded`) and those counted as finished (`finished`).
/// `consistent` says that every count so far was faithful: no agent was
/// counted twice or without a ticket, and no counter wrapped.
pub struct PipelineView {
    pub total_agents: usize,
    pub completed_agents: usize,
    pub is_terminated: bool,
    pub issued: Set<nat>,
    pub recorded: Set<nat>,
    pub finished: Set<nat>,
    pub next_ticket: nat,
    pub consistent: bool,
}

/// The token of one submitted agent, which travels with the agent from stage
/// to stage until the agent is counted as finished. It names the agent by a
/// number and holds nothing at run time.
#[derive(Clone, Copy)]
pub struct AgentTicket {
    id: Ghost<nat>,
}

impl View for AgentTicket {
    type V = nat;

    closed spec fn view(&self) -> nat {
        self.id@
    }
}

/// The counters that the pipeline's completion is decided on: the numbers of
/// agents submitted and finished, and whether the pipeline was told to
/// terminate, with the agents behind the counts.
pub struct PipelineState {
    total_agents: usize,
    completed_agents: usize,
    is_terminated: bool,
    issued: Ghost<Set<nat>>,
    recorded: Ghost<Set<nat>>,
    finished: Ghost<Set<nat>>,
    next_ticket: Ghost<nat>,
    consistent: Ghost<bool>,
}

impl View for PipelineState {
    type V = PipelineView;

    closed spec fn view(&self) -> PipelineView {
        PipelineView {
            total_agents: self.total_agents,
            completed_agents: self.completed_agents,
            is_terminated: self.is_terminated,
            issued: self.issued@,
            recorded: self.recorded@,
            finished: self.finished@,
            next_ticket: self.next_ticket@,
            consistent: self.consistent@,
        }
    }
}

/// Where a worker sends an agent after its stage.
pub enum WorkerAction {
    /// On to the buffer of this registered stage.
    Forward(AgentStage),
    /// Nowhere: the agent ends in this status.
    Finish(StageStatus),
}

/// What a worker does with an agent it has taken from its buffer.
pub enum Admission {
    /// Run the stage on it; the agent keeps its ticket.
    Process(AgentTicket),
    /// Leave it: the pipeline is terminated. The agent was counted as
    /// finished; `all_done` tells whether every submitted agent now is.
    Skip { all_done: bool },
}

/// Where a new agent is sent.
pub enum SubmitRoute {
    /// The agent has no stage left.
    NoNextStage,
    /// The agent's next stage is not registered.
    NotRegistered(AgentStage),
    /// Into the buffer of this registered stage.
    Send(AgentStage),
}

/// The route of an agent whose next stage is `next` into a pipeline that has
/// `registered` stages.
pub open spec fn submit_route_of(registered: Seq<AgentStage>, next: Option<AgentStage>) -> SubmitRoute {
    match next {
        None => SubmitRoute::NoNextStage,
        Some(s) => if registered.contains(s) {
            SubmitRoute::Send(s)
        } else {
            SubmitRoute::NotRegistered(s)
        },
    }
}

fn concat3(a: &str, b: &String, c: &str) -> (r: String)
    ensures
        r@ == a@ + b@ + c@,
{
    let mut r = String::from_str(a);
    r.append(b.as_str());
    r.append(c);
    r
}

fn suffixed(a: String, b: &str) -> (r: String)
    ensures
        r@ == a@ + b@,
{
    let mut r = a;
    r.append(b);
    r
}

/// The status of an agent whose stage failed with the printed error `err`.
pub open spec fn failed_status_text(stage: AgentStage, err: Seq<char>) -> Seq<char> {
    stage_text(stage) + " failed: "@ + err
}

/// The status that a stage's run gives its agent: completed when the run
/// succeeded, failed with the printed error otherwise.
pub open spec fn status_after_run_view(stage: AgentStage, run: Result<(), Seq<char>>) -> StatusView {
    match run {
        Ok(()) => StatusView::Completed(stage_text(stage) + " completed"@),
        Err(e) => StatusView::Failed(failed_status_text(stage, e)),
    }
}

/// The status an agent is given while `stage` processes it.
pub fn processing_status(stage: AgentStage) -> (r: StageStatus)
    ensures
        r@ == StatusView::Processing(stage_text(stage) + " processing"@),
{
    StageStatus::Processing(suffixed(stage.to_string(), " processing"))
}

/// The status a stage's run gives its agent: `Ok` or the printed error.
pub fn status_after_run(stage: AgentStage, run: &Result<(), String>) -> (r: StageStatus)
    ensures
        (r is Completed) == (run is Ok),
        run is Ok ==> r@ == StatusView::Completed(stage_text(stage) + " completed"@),
        forall|e: String| *run == Err::<(), String>(e) ==> r@ == StatusView::Failed(
            stage_text(stage) + " failed: "@ + e@,
        ),
        r@ == status_after_run_view(
            stage,
            match run {
                Ok(()) => Ok(()),
                Err(e) => Err(e@),
            },
        ),
{
    match run {
        Ok(()) => StageStatus::Completed(suffixed(stage.to_string(), " completed")),
        Err(e) => {
            let mut s = suffixed(stage.to_string(), " failed: ");
            s.append(e.as_str());
            StageStatus::Failed(s)
        },
    }
}

/// After `stage` ran on `agent` and gave `status`: marks the stage as processed
/// and, when the stage completed, names the agent's next stage.
pub fn advance_agent<D>(agent: &mut Agent<D>, stage: AgentStage, status: &StageStatus) -> (next: Option<AgentStage>)
    requires
        crate::agent::first_stage_index(old(agent).stage_params@, stage) >= 0,
    ensures
        ({
            let i = crate::agent::first_stage_index(old(agent).stage_params@, stage);
            final(agent).stage_params@ == old(agent).stage_params@.update(
                i,
                crate::agent::with_flag(old(agent).stage_params@[i], true),
            )
        }),
        final(agent).id == old(agent).id,
        final(agent).status == old(agent).status,
        next == if status is Completed {
            next_stage_of(final(agent).stage_params@)
        } else {
            None
        },
{
    agent.set_stage_flag(stage);
    match status {
        StageStatus::Completed(_) => agent.get_next_stage(),
        _ => None,
    }
}

/// The status of an agent that could not be handed to `next`.
pub fn transfer_failed_status(next: AgentStage) -> (r: StageStatus)
    ensures
        r@ == StatusView::Failed("failed in transfering to: "@ + stage_text(next)),
{
    proof {
        reveal_strlit("");
    }
    StageStatus::Failed(concat3("failed in transfering to: ", &next.to_string(), ""))
}

/// Whether an agent that ends in `status` is recorded as done.
pub fn marks_done(status: &StageStatus) -> (r: bool)
    ensures
        r == (status is Completed),
{
    match status {
        StageStatus::Completed(_) => true,
        _ => false,
    }
}

impl StageRegistry {
    /// The registry's invariant: no stage is registered twice.
    pub open spec fn wf(&self) -> bool {
        self@.no_duplicates()
    }

    /// A registry with no stages.
    pub fn new() -> (r: Self)
        ensures
            r.wf(),
            r@ == Seq::<AgentStage>::empty(),
    {
        StageRegistry { stages: Vec::new() }
    }

    /// Whether `stage` is registered.
    pub fn is_registered(&self, stage: AgentStage) -> (r: bool)
        ensures
            r == self@.contains(stage),
    {
        let mut i: usize = 0;
        while i < self.stages.len()
            invariant
                i <= self.stages@.len(),
                forall|j: int| 0 <= j < i ==> self.stages@[j] != stage,
            decreases self.stages@.len() - i,
        {
            if self.stages[i] == stage {
                return true;
            }
            i = i + 1;
        }
        false
    }

    /// The registered stages, in the order they were registered.
    pub fn registered_stages(&self) -> (r: Vec<AgentStage>)
        ensures
            r@ == self@,
    {
        self.stages.clone()
    }

    /// Registers `configs` in order and gives each its buffer size. The
    /// registration stops at the first stage that is already registered (or
    /// comes twice in `configs`), whose buffer size overflows, or whose buffer
    /// no channel takes; the stages before it stay registered.
    pub fn register_stages(&mut self, configs: &Vec<StageConfig>) -> (r: Registration)
        requires
            old(self).wf(),
        ensures
            final(self).wf(),
            ({
                let k = first_stop(old(self)@, configs@);
                let n = if k == -1 {
                    configs@.len() as int
                } else {
                    k
                };
                &&& -1 <= k < configs@.len()
                &&& r.stop == if k == -1 {
                    None
                } else {
                    stop_at(old(self)@, configs@, k)
                }
                &&& final(self)@ == old(self)@ + config_stages(configs@).take(n)
                &&& r.buffer_sizes@.len() == n
                &&& forall|i: int|
                    0 <= i < n ==> r.buffer_sizes@[i] == buffer_size(
                        i,
                        #[trigger] configs@[i].concurrency_limit,
                    )
            }),
            configs@.len() == 1 && !old(self)@.contains(configs@[0].stage) ==> {
                &&& r.stop is None
                &&& r.buffer_sizes@ == seq![100usize]
                &&& final(self)@ == old(self)@.push(configs@[0].stage)
            },
            forall|s: AgentStage|
                r.stop == Some(RegistrationStop::AlreadyRegistered(s)) ==> (#[trigger] final(self)@.contains(
                    s,
                )),
            forall|index: usize|
                r.stop == Some(RegistrationStop::BufferOverflow { index }) ==> {
                    &&& 1 <= index < configs@.len()
                    &&& 2 * configs@[index as int].concurrency_limit > usize::MAX
                },
            forall|index: usize, size: usize|
                r.stop == Some(RegistrationStop::BufferRejected { index, size }) ==> {
                    &&& index < configs@.len()
                    &&& size == buffer_size(index as int, configs@[index as int].concurrency_limit)
                    &&& (size == 0 || size > CHANNEL_CAPACITY_MAX)
                },
    {
        let ghost old_registered = self.stages@;
        let ghost stages = config_stages(configs@);
        let mut sizes: Vec<usize> = Vec::new();
        let mut i: usize = 0;
        while i < configs.len()
            invariant
                0 <= i <= configs@.len(),
                stages == config_stages(configs@),
                old(self)@ == old_registered,
                stages.len() == configs@.len(),
                self.stages@ == old_registered + stages.take(i as int),
                self.stages@.no_duplicates(),
                first_stop(old_registered, configs@) == first_stop_from(old_registered, configs@, i as int),
                sizes@.len() == i,
                forall|j: int| 0 <= j < i ==> sizes@[j] == buffer_size(j, #[trigger] configs@[j].concurrency_limit),
            decreases configs@.len() - i,
        {
            let stage = configs[i].stage;
            let limit = configs[i].concurrency_limit;
            assert(stage == stages[i as int]);
            if self.is_registered(stage) {
                assert(conflicts_at(old_registered, stages, i as int));
                assert(first_stop_from(old_registered, configs@, i as int) == i as int);
                return Registration { buffer_sizes: sizes, stop: Some(RegistrationStop::AlreadyRegistered(stage)) };
            }
            assert(!conflicts_at(old_registered, stages, i as int));
            let size: usize = if i == 0 {
                100
            } else if limit > usize::MAX / 2 {
                assert(first_stop_from(old_registered, configs@, i as int) == i as int);
                return Registration { buffer_sizes: sizes, stop: Some(RegistrationStop::BufferOverflow { index: i }) };
            } else {
                limit * 2
            };
            if size == 0 || size > CHANNEL_CAPACITY_MAX {
                assert(first_stop_from(old_registered, configs@, i as int) == i as int);
                return Registration {
                    buffer_sizes: sizes,
                    stop: Some(RegistrationStop::BufferRejected { index: i, size }),
                };
            }
            assert(stop_at(old_registered, configs@, i as int) is None);
            self.stages.push(stage);
            assert(stages.take(i + 1) == stages.take(i as int).push(stage));
            sizes.push(size);
            i = i + 1;
        }
        assert(stages.take(i as int) == stages);
        Registration { buffer_sizes: sizes, stop: None }
    }

    /// Where a newly submitted agent goes: to its next stage, if that stage is
    /// registered.
    pub fn submit_route<D>(&self, agent: &Agent<D>) -> (r: SubmitRoute)
        ensures
            (forall|i: int| 0 <= i < agent.stage_params@.len() ==> agent.stage_params@[i].flag) ==> r
                is NoNextStage,
            r is NoNextStage ==> forall|i: int|
                0 <= i < agent.stage_params@.len() ==> agent.stage_params@[i].flag,
            forall|s: AgentStage|
                r == SubmitRoute::Send(s) ==> self@.contains(s) && first_pending_is(agent.stage_params@, s),
            forall|s: AgentStage|
                r == SubmitRoute::NotRegistered(s) ==> !self@.contains(s) && first_pending_is(
                    agent.stage_params@,
                    s,
                ),
            r == submit_route_of(self@, next_stage_of(agent.stage_params@)),
    {
        proof {
            lemma_next_stage_facts(agent.stage_params@);
        }
        match agent.get_next_stage() {
            None => SubmitRoute::NoNextStage,
            Some(stage) => if self.is_registered(stage) {
                SubmitRoute::Send(stage)
            } else {
                SubmitRoute::NotRegistered(stage)
            },
        }
    }

    /// Where a worker of `stage_type` sends its agent after processing it.
    /// `outcome` is what processing gave: the agent's next stage and status,
    /// or the printed error. An agent goes on only to a registered stage.
    pub fn route_after_process(
        &self,
        stage_type: AgentStage,
        outcome: Result<(Option<AgentStage>, StageStatus), String>,
    ) -> (r: WorkerAction)
        ensures
            match outcome {
                Err(e) => r matches WorkerAction::Finish(st) && st@ == StatusView::Failed(
                    stage_text(stage_type) + " failed: "@ + e@,
                ),
                Ok((None, status)) => r == WorkerAction::Finish(status),
                Ok((Some(next), _)) => if self@.contains(next) {
                    r == WorkerAction::Forward(next)
                } else {
                    r matches WorkerAction::Finish(st) && st@ == StatusView::Failed(
                        "No "@ + stage_text(next) + " stage registered"@,
                    )
                },
            },
    {
        match outcome {
            Err(e) => WorkerAction::Finish(status_after_run(stage_type, &Err(e))),
            Ok((None, status)) => WorkerAction::Finish(status),
            Ok((Some(next), _)) => if self.is_registered(next) {
                WorkerAction::Forward(next)
            } else {
                WorkerAction::Finish(StageStatus::Failed(concat3("No ", &next.to_string(), " stage registered")))
            },
        }
    }
}

impl PipelineState {
    #[verifier::type_invariant]
    spec fn inv(self) -> bool {
        counting_inv(self@)
    }

    /// A pipeline with no agents, not terminated.
    pub fn new() -> (r: Self)
        ensures
            r@ == initial_view(0),
            counting_inv(r@),
    {
        PipelineState {
            total_agents: 0,
            completed_agents: 0,
            is_terminated: false,
            issued: Ghost(Set::empty()),
            recorded: Ghost(Set::empty()),
            finished: Ghost(Set::empty()),
            next_ticket: Ghost(0),
            consistent: Ghost(true),
        }
    }

    pub fn is_terminated(&self) -> (r: bool)
        ensures
            r == self@.is_terminated,
    {
        self.is_terminated
    }

    /// A ticket for an agent about to be submitted, numbered anew.
    pub fn issue_ticket(&mut self) -> (t: AgentTicket)
        ensures
            final(self)@ == issued_view(old(self)@),
            t@ == old(self)@.next_ticket,
            counting_inv(final(self)@),
    {
        proof {
            use_type_invariant(&*self);
        }
        let ghost n = self.next_ticket@;
        proof {
            lemma_steps_keep_inv(self@, n);
        }
        *self = PipelineState {
            issued: Ghost(self.issued@.insert(n)),
            next_ticket: Ghost(n + 1),
            ..*self
        };
        AgentTicket { id: Ghost(n) }
    }

    /// Decides on an agent that a worker has taken from its buffer: once the
    /// pipeline is terminated, the agent is not processed but counted as
    /// finished at once (and `Skip` tells whether every submitted agent has
    /// now finished); before, it is processed and nothing is counted yet.
    pub fn admit_agent(&mut self, ticket: AgentTicket) -> (r: Admission)
        ensures
            old(self)@.is_terminated ==> ({
                &&& final(self)@ == finished_view(old(self)@, ticket@)
                &&& r == Admission::Skip { all_done: final(self)@.completed_agents == final(self)@.total_agents }
            }),
            !old(self)@.is_terminated ==> final(self)@ == old(self)@ && r == Admission::Process(ticket),
            counting_inv(final(self)@),
    {
        proof {
            use_type_invariant(&*self);
        }
        if self.is_terminated {
            let all_done = self.add_done_agent_count(ticket);
            Admission::Skip { all_done }
        } else {
            Admission::Process(ticket)
        }
    }

    /// Counts the agent of `ticket` as submitted, once it is in its first
    /// stage's buffer.
    pub fn record_submitted(&mut self, ticket: AgentTicket)
        ensures
            final(self)@ == submitted_view(old(self)@, ticket@),
            old(self)@.total_agents < usize::MAX ==> final(self)@.total_agents == old(self)@.total_agents + 1,
            old(self)@.total_agents == usize::MAX ==> final(self)@.total_agents == 0,
            final(self)@.completed_agents == old(self)@.completed_agents,
            old(self)@.consistent && old(self)@.issued.contains(ticket@) && !old(self)@.recorded.contains(
                ticket@,
            ) && old(self)@.total_agents < usize::MAX ==> final(self)@.consistent,
            counting_inv(final(self)@),
    {
        proof {
            use_type_invariant(&*self);
        }
        let ghost v = self@;
        let total = if self.total_agents == usize::MAX {
            0
        } else {
            self.total_agents + 1
        };
        proof {
            lemma_steps_keep_inv(v, ticket@);
        }
        let ghost c: bool = v.consistent && v.issued.contains(ticket@) && !v.recorded.contains(ticket@)
            && v.total_agents < usize::MAX;
        *self = PipelineState {
            total_agents: total,
            recorded: Ghost(v.recorded.insert(ticket@)),
            consistent: Ghost(c),
            ..*self
        };
    }

    /// Withdraws the ticket of an agent that could not be handed to its first
    /// stage.
    pub fn abandon_ticket(&mut self, ticket: AgentTicket)
        ensures
            final(self)@ == abandoned_view(old(self)@, ticket@),
            counting_inv(final(self)@),
    {
        proof {
            use_type_invariant(&*self);
        }
        let ghost v = self@;
        proof {
            lemma_steps_keep_inv(v, ticket@);
        }
        let ghost c: bool = v.consistent && !v.recorded.contains(ticket@) && !v.finished.contains(ticket@);
        *self = PipelineState { issued: Ghost(v.issued.remove(ticket@)), consistent: Ghost(c), ..*self };
    }

    /// Counts the agent of `ticket` as finished, and tells whether every
    /// submitted agent has now finished (so that those waiting for completion
    /// are woken).
    pub fn add_done_agent_count(&mut self, ticket: AgentTicket) -> (all_done: bool)
        ensures
            final(self)@ == finished_view(old(self)@, ticket@),
            all_done == (final(self)@.completed_agents == final(self)@.total_agents),
            old(self)@.completed_agents < usize::MAX ==> final(self)@.completed_agents
                == old(self)@.completed_agents + 1,
            old(self)@.completed_agents == usize::MAX ==> final(self)@.completed_agents == 0,
            final(self)@.total_agents == old(self)@.total_agents,
            old(self)@.consistent && old(self)@.issued.contains(ticket@) && !old(self)@.finished.contains(
                ticket@,
            ) && old(self)@.completed_agents < usize::MAX ==> final(self)@.consistent,
            counting_inv(final(self)@),
    {
        proof {
            use_type_invariant(&*self);
        }
        let ghost v = self@;
        let completed = if self.completed_agents == usize::MAX {
            0
        } else {
            self.completed_agents + 1
        };
        proof {
            lemma_steps_keep_inv(v, ticket@);
        }
        let ghost c: bool = v.consistent && v.issued.contains(ticket@) && !v.finished.contains(ticket@)
            && v.completed_agents < usize::MAX;
        *self = PipelineState {
            completed_agents: completed,
            finished: Ghost(v.finished.insert(ticket@)),
            consistent: Ghost(c),
            ..*self
        };
        self.completed_agents == self.total_agents
    }

    pub fn is_all_agents_completed(&self) -> (r: bool)
        ensures
            r == (self@.completed_agents == self@.total_agents),
    {
        self.completed_agents == self.total_agents
    }

    /// The numbers of finished and of submitted agents.
    pub fn get_completion_status(&self) -> (r: (usize, usize))
        ensures
            r == (self@.completed_agents, self@.total_agents),
    {
        (self.completed_agents, self.total_agents)
    }

    /// Starts counting anew and lifts termination. Agents still in flight
    /// keep their tickets, but the new count does not know them.
    pub fn init_pipeline(&mut self)
        ensures
            final(self)@ == initial_view(old(self)@.next_ticket),
            counting_inv(final(self)@),
    {
        let ghost n = self.next_ticket@;
        *self = PipelineState {
            total_agents: 0,
            completed_agents: 0,
            is_terminated: false,
            issued: Ghost(Set::empty()),
            recorded: Ghost(Set::empty()),
            finished: Ghost(Set::empty()),
            next_ticket: Ghost(n),
            consistent: Ghost(true),
        };
    }

    /// Tells the workers to stop processing, and tells whether every submitted
    /// agent had finished before.
    pub fn terminate_pipeline(&mut self) -> (was_complete: bool)
        ensures
            final(self)@ == (PipelineView { is_terminated: true, ..old(self)@ }),
            was_complete == (old(self)@.completed_agents == old(self)@.total_agents),
            counting_inv(final(self)@),
    {
        proof {
            use_type_invariant(&*self);
        }
        let was_complete = self.is_all_agents_completed();
        *self = PipelineState { is_terminated: true, ..*self };
        was_complete
    }
}

/// The error of a submission whose agent the store did not take, with the
/// store's printed error `err`.
pub fn insert_failure_message(err: &str) -> (r: String)
    ensures
        r@ == "Failed to insert agent to store: "@ + err@,
{
    let mut r = String::from_str("Failed to insert agent to store: ");
    r.append(err);
    r
}

/// Once every submitted agent has finished, one more submission makes the
/// pipeline wait again, and one more finished agent completes it again: the
/// counters wrap the same way, so the pipeline is complete exactly when the
/// two counts have advanced alike.
pub proof fn lemma_submit_then_finish_balances(completed: usize, total: usize)
    ensures
        completed == total ==> wrapping_inc(total) != completed,
        (wrapping_inc(completed) == wrapping_inc(total)) == (completed == total),
{
}

/// The error of a registration that met `stage` a second time.
pub fn already_registered_message(stage: AgentStage) -> (r: String)
    ensures
        r@ == "Stage "@ + stage_text(stage) + " already registered, skipping"@,
{
    concat3("Stage ", &stage.to_string(), " already registered, skipping")
}

/// Each step of the pipeline's state keeps its invariant.
proof fn lemma_steps_keep_inv(v: PipelineView, t: nat)
    requires
        counting_inv(v),
    ensures
        counting_inv(issued_view(v)),
        counting_inv(submitted_view(v, t)),
        counting_inv(finished_view(v, t)),
        counting_inv(abandoned_view(v, t)),
{
    let i = issued_view(v);
    assert forall|x: nat| i.issued.contains(x) implies x < i.next_ticket by {
        if x != v.next_ticket {
            assert(v.issued.contains(x));
        }
    }
    let s = submitted_view(v, t);
    if s.consistent {
        vstd::set::axiom_set_insert_len(v.recorded, t);
        vstd::set::axiom_set_insert_finite(v.recorded, t);
        assert(s.total_agents == v.total_agents + 1);
    }
    let f = finished_view(v, t);
    if f.consistent {
        vstd::set::axiom_set_insert_len(v.finished, t);
        vstd::set::axiom_set_insert_finite(v.finished, t);
        assert(f.completed_agents == v.completed_agents + 1);
    }
}

/// Each agent is counted finished at most once, and only once it had a
/// ticket: for every state of a pipeline (all of which hold `counting_inv`),
/// while the counting was faithful and no submission is half done, the number
/// of finished agents does not exceed the number of submitted agents, and the
/// two are equal, so that the pipeline is complete, exactly when no agent is
/// in flight.
pub proof fn lemma_agents_counted_once(v: PipelineView)
    requires
        counting_inv(v),
    ensures
        counting_law(v),
{
    if v.consistent && no_submission_pending(v) {
        assert(v.recorded =~= v.issued);
        vstd::set_lib::lemma_len_subset(v.finished, v.recorded);
        let f = in_flight(v);
        vstd::set_lib::lemma_set_difference_len(v.recorded, v.finished);
        assert(v.recorded.difference(v.finished).len() == v.recorded.len() - v.finished.len()) by {
            assert(v.recorded.intersect(v.finished) =~= v.finished);
        }
        if f.len() == 0 {
            vstd::set_lib::lemma_set_empty_equivalency_len(f);
        }
        if f =~= Set::empty() {
            assert(f.len() == 0);
        }
    }
}

/// Submitting an agent routes it by its first unprocessed stage: an agent
/// whose stages are all processed goes nowhere, and an agent is sent only into
/// the buffer of its first unprocessed stage, and only if that stage is
/// registered; otherwise that stage is reported as not registered.
pub proof fn lemma_submit_route<D>(registered: Seq<AgentStage>, params: Seq<crate::agent::StageParam<D>>)
    ensures
        ({
            let r = submit_route_of(registered, next_stage_of(params));
            &&& (forall|i: int| 0 <= i < params.len() ==> params[i].flag) <==> r is NoNextStage
            &&& forall|s: AgentStage|
                r == SubmitRoute::Send(s) <==> registered.contains(s) && first_pending_is(params, s)
            &&& forall|s: AgentStage|
                r == SubmitRoute::NotRegistered(s) <==> !registered.contains(s) && first_pending_is(params, s)
        }),
{
    lemma_next_stage_facts(params);
}

/// A stage's run gives its agent the completed status exactly when the run
/// succeeded; a run that failed with any error `e`, a timeout among them,
/// leaves the agent failed with `e` in its message.
pub proof fn lemma_status_after_run(stage: AgentStage, run: Result<(), Seq<char>>)
    ensures
        (status_after_run_view(stage, run) is Completed) == (run is Ok),
        run is Ok ==> status_after_run_view(stage, run) == StatusView::Completed(
            stage_text(stage) + " completed"@,
        ),
        forall|e: Seq<char>|
            run == Err::<(), Seq<char>>(e) ==> status_after_run_view(stage, run) == StatusView::Failed(
                stage_text(stage) + " failed: "@ + e,
            ),
{
}

/// Each counted submission or finish raises its counter by exactly one as
/// long as the counter is below `usize::MAX` (it wraps to 0 only there), and
/// leaves the count faithful when the agent's ticket was issued and not
/// counted before.
pub proof fn lemma_count_steps(v: PipelineView, t: nat)
    ensures
        v.total_agents < usize::MAX ==> submitted_view(v, t).total_agents == v.total_agents + 1,
        v.total_agents == usize::MAX ==> submitted_view(v, t).total_agents == 0,
        submitted_view(v, t).completed_agents == v.completed_agents,
        v.consistent && v.issued.contains(t) && !v.recorded.contains(t) && v.total_agents < usize::MAX
            ==> submitted_view(v, t).consistent,
        v.completed_agents < usize::MAX ==> finished_view(v, t).completed_agents == v.completed_agents + 1,
        v.completed_agents == usize::MAX ==> finished_view(v, t).completed_agents == 0,
        finished_view(v, t).total_agents == v.total_agents,
        v.consistent && v.issued.contains(t) && !v.finished.contains(t) && v.completed_agents < usize::MAX
            ==> finished_view(v, t).consistent,
{
}

/// Since a pipeline was created or re-initialised, while its count is
/// faithful, its counters count exactly the distinct agents recorded as
/// submitted and counted as finished: after `n` distinct recorded tickets the
/// total is `n`, and after `m` distinct finished tickets the completed count
/// is `m`.
pub proof fn lemma_counters_count_tickets(v: PipelineView)
    requires
        counting_inv(v),
        v.consistent,
    ensures
        v.total_agents == v.recorded.len(),
        v.completed_agents == v.finished.len(),
{
}

/// Registration refuses only what it must: a single stage that the registry
/// does not hold registers with a buffer of 100, whatever its number of
/// workers; and a registration stops at a stage only when that stage is
/// registered already (or listed earlier), when its buffer size overflows, or
/// when no channel takes its buffer size.
pub proof fn lemma_register_stops(registered: Seq<AgentStage>, configs: Seq<StageConfig>, i: int)
    requires
        0 <= i < configs.len(),
    ensures
        configs.len() == 1 && !registered.contains(configs[0].stage) ==> first_stop(registered, configs) == -1,
        stop_at(registered, configs, i) is Some ==> {
            ||| (registered + config_stages(configs).take(i)).contains(configs[i].stage)
            ||| (i >= 1 && 2 * configs[i].concurrency_limit > usize::MAX)
            ||| (i >= 1 && (configs[i].concurrency_limit == 0 || 2 * configs[i].concurrency_limit
                > CHANNEL_CAPACITY_MAX))
        },
{
    let stages = config_stages(configs);
    assert(stages[i] == configs[i].stage);
    if configs.len() == 1 && !registered.contains(configs[0].stage) {
        assert(stages.take(0) =~= Seq::<AgentStage>::empty());
        assert(registered + stages.take(0) =~= registered);
        assert(stop_at(registered, configs, 0) is None);
        assert(first_stop_from(registered, configs, 1) == -1);
    }
}

} // verus!
