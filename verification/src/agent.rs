//! Agents: the tasks that flow through the pipeline, with the per-stage
//! parameters that record which stages they still have to visit.
use vstd::prelude::*;
use vstd::string::*;

verus! {

/// The stages a pipeline is built from.
#[derive(Debug, Clone, Copy, PartialEq, Eq, Hash, Structural)]
pub enum AgentStage {
    TransformData,
}

/// The name of a stage, as it is printed.
pub open spec fn stage_text(stage: AgentStage) -> Seq<char> {
    match stage {
        AgentStage::TransformData => "TransformData"@,
    }
}

impl AgentStage {
    /// The printed name of the stage.
    pub fn to_string(&self) -> (s: String)
        ensures
            s@ == stage_text(*self),
    {
        match self {
            AgentStage::TransformData => String::from_str("TransformData"),
        }
    }
}

/// The parameter of one stage of an agent: which stage, the stage's own
/// payload, and whether the stage has been processed.
#[derive(Debug)]
pub struct StageParam<D> {
    pub stage_name: AgentStage,
    pub data: D,
    pub flag: bool,
}

/// `p` with its flag replaced by `flag`.
pub open spec fn with_flag<D>(p: StageParam<D>, flag: bool) -> StageParam<D> {
    StageParam { stage_name: p.stage_name, data: p.data, flag: flag }
}

impl<D> StageParam<D> {
    /// Marks the stage as processed (`true`) or not.
    pub fn set_flag(&mut self, flag: bool)
        ensures
            *final(self) == with_flag(*old(self), flag),
    {
        self.flag = flag;
    }
}

/// The state of an agent, as the store records it.
#[derive(Debug, Clone, PartialEq)]
pub enum StageStatus {
    Pending(String),
    Processing(String),
    Completed(String),
    Failed(String),
    Done,
}

/// A status with its message taken by value.
pub enum StatusView {
    Pending(Seq<char>),
    Processing(Seq<char>),
    Completed(Seq<char>),
    Failed(Seq<char>),
    Done,
}

impl View for StageStatus {
    type V = StatusView;

    open spec fn view(&self) -> StatusView {
        match self {
            StageStatus::Pending(s) => StatusView::Pending(s@),
            StageStatus::Processing(s) => StatusView::Processing(s@),
            StageStatus::Completed(s) => StatusView::Completed(s@),
            StageStatus::Failed(s) => StatusView::Failed(s@),
            StageStatus::Done => StatusView::Done,
        }
    }
}

/// A copy of `status` with the same view.
pub fn copy_status(status: &StageStatus) -> (r: StageStatus)
    ensures
        r@ == status@,
{
    match status {
        StageStatus::Pending(s) => StageStatus::Pending(s.clone()),
        StageStatus::Processing(s) => StageStatus::Processing(s.clone()),
        StageStatus::Completed(s) => StageStatus::Completed(s.clone()),
        StageStatus::Failed(s) => StageStatus::Failed(s.clone()),
        StageStatus::Done => StageStatus::Done,
    }
}

/// A task that flows through the pipeline.
#[derive(Debug)]
pub struct Agent<D> {
    pub id: String,
    pub status: StageStatus,
    pub stage_params: Vec<StageParam<D>>,
}

/// The index of the first parameter at or after `i` whose stage is `stage`,
/// or -1 if there is none.
pub open spec fn find_stage_from<D>(params: Seq<StageParam<D>>, stage: AgentStage, i: int) -> int
    decreases params.len() - i,
{
    if i < 0 || i >= params.len() {
        -1
    } else if params[i].stage_name == stage {
        i
    } else {
        find_stage_from(params, stage, i + 1)
    }
}

/// The index of the first parameter whose stage is `stage`, or -1.
pub open spec fn first_stage_index<D>(params: Seq<StageParam<D>>, stage: AgentStage) -> int {
    find_stage_from(params, stage, 0)
}

/// The index of the first parameter at or after `i` that is not yet
/// processed, or -1 if there is none.
pub open spec fn find_pending_from<D>(params: Seq<StageParam<D>>, i: int) -> int
    decreases params.len() - i,
{
    if i < 0 || i >= params.len() {
        -1
    } else if !params[i].flag {
        i
    } else {
        find_pending_from(params, i + 1)
    }
}

/// The stage an agent with these parameters goes to next: that of its first
/// parameter that is not yet processed.
pub open spec fn next_stage_of<D>(params: Seq<StageParam<D>>) -> Option<AgentStage> {
    let i = find_pending_from(params, 0);
    if i < 0 {
        None
    } else {
        Some(params[i].stage_name)
    }
}

/// The text of a hyphenated lower-case version-4 UUID.
pub open spec fn is_uuid_v4_text(s: Seq<char>) -> bool {
    &&& s.len() == 36
    &&& forall|i: int|
        0 <= i < 36 ==> if i == 8 || i == 13 || i == 18 || i == 23 {
            s[i] == '-'
        } else {
            ('0' <= #[trigger] s[i] <= '9') || ('a' <= s[i] <= 'f')
        }
    &&& s[14] == '4'
    &&& (s[19] == '8' || s[19] == '9' || s[19] == 'a' || s[19] == 'b')
}

/// Calls `uuid::Uuid::new_v4` and prints the result with `to_string`. The
/// uuid crate masks the version nibble to 4 and the variant bits to `10`, and
/// prints a UUID as 32 lower-case hex digits in groups of 8, 4, 4, 4 and 12
/// joined by hyphens. The other 122 bits are random and nothing is said of
/// them.
#[verifier::external_body]
fn new_uuid_v4_text() -> (s: String)
    ensures
        is_uuid_v4_text(s@),
{
    uuid::Uuid::new_v4().to_string()
}

impl<D> Agent<D> {
    /// A fresh agent with a random identifier, pending and with no stages.
    pub fn new() -> (agent: Self)
        ensures
            is_uuid_v4_text(agent.id@),
            agent.status@ == StatusView::Pending("Initialized"@),
            agent.stage_params@.len() == 0,
    {
        Self::with_id(new_uuid_v4_text())
    }

    /// A fresh agent with the given identifier, pending and with no stages.
    pub fn with_id(id: String) -> (agent: Self)
        ensures
            agent.id@ == id@,
            agent.status@ == StatusView::Pending("Initialized"@),
            agent.stage_params@.len() == 0,
    {
        Agent { id, status: StageStatus::Pending(String::from_str("Initialized")), stage_params: Vec::new() }
    }

    /// Adds a stage for the agent to visit after those it has.
    pub fn add_stage_param<P>(&mut self, stage_param: StageParam<D>)
        ensures
            final(self).stage_params@ == old(self).stage_params@.push(stage_param),
            final(self).id == old(self).id,
            final(self).status == old(self).status,
    {
        self.stage_params.push(stage_param);
    }

    /// The first parameter of stage `type_id`, to read or change in place.
    pub fn get_stage_param(&mut self, type_id: AgentStage) -> (r: Option<&mut StageParam<D>>)
        ensures
            ({
                let i = first_stage_index(old(self).stage_params@, type_id);
                match r {
                    Some(p) => {
                        &&& i >= 0
                        &&& *p == old(self).stage_params@[i]
                        &&& final(self).stage_params@ == old(self).stage_params@.update(i, *final(p))
                        &&& final(self).id == old(self).id
                        &&& final(self).status == old(self).status
                    },
                    None => {
                        &&& i < 0
                        &&& *final(self) == *old(self)
                    },
                }
            }),
    {
        let i = self.find_stage(type_id);
        if i < self.stage_params.len() {
            Some(&mut self.stage_params[i])
        } else {
            None
        }
    }

    /// The index of the first parameter of stage `stage`, or the number of
    /// parameters if there is none.
    fn find_stage(&self, stage: AgentStage) -> (i: usize)
        ensures
            i <= self.stage_params@.len(),
            i < self.stage_params@.len() ==> first_stage_index(self.stage_params@, stage) == i,
            i == self.stage_params@.len() ==> first_stage_index(self.stage_params@, stage) == -1,
    {
        let mut i: usize = 0;
        while i < self.stage_params.len()
            invariant
                i <= self.stage_params@.len(),
                first_stage_index(self.stage_params@, stage) == find_stage_from(
                    self.stage_params@,
                    stage,
                    i as int,
                ),
            decreases self.stage_params@.len() - i,
        {
            if self.stage_params[i].stage_name == stage {
                return i;
            }
            i = i + 1;
        }
        i
    }

    /// Marks the first parameter of stage `stage_name` as processed.
    pub fn set_stage_flag(&mut self, stage_name: AgentStage)
        requires
            first_stage_index(old(self).stage_params@, stage_name) >= 0,
        ensures
            ({
                let i = first_stage_index(old(self).stage_params@, stage_name);
                final(self).stage_params@ == old(self).stage_params@.update(
                    i,
                    with_flag(old(self).stage_params@[i], true),
                )
            }),
            final(self).id == old(self).id,
            final(self).status == old(self).status,
    {
        match self.get_stage_param(stage_name) {
            Some(p) => p.flag = true,
            None => {},
        }
    }

    /// The stage of the first parameter that is not yet processed.
    pub fn get_next_stage(&self) -> (r: Option<AgentStage>)
        ensures
            r == next_stage_of(self.stage_params@),
    {
        let mut i: usize = 0;
        while i < self.stage_params.len()
            invariant
                i <= self.stage_params@.len(),
                find_pending_from(self.stage_params@, 0) == find_pending_from(
                    self.stage_params@,
                    i as int,
                ),
            decreases self.stage_params@.len() - i,
        {
            if !self.stage_params[i].flag {
                return Some(self.stage_params[i].stage_name);
            }
            i = i + 1;
        }
        None
    }

    /// Replaces the agent's status; this never fails.
    pub fn set_status(&mut self, status: StageStatus) -> (r: Result<(), anyhow::Error>)
        ensures
            r is Ok,
            final(self).status == status,
            final(self).id == old(self).id,
            final(self).stage_params == old(self).stage_params,
    {
        self.status = status;
        Ok(())
    }

    /// The part of the agent that the store keeps.
    pub fn to_db_data(&self) -> (r: AgentDbData)
        ensures
            r.id@ == self.id@,
            r.status@ == self.status@,
    {
        AgentDbData { id: self.id.clone(), status: copy_status(&self.status) }
    }
}

/// The record of an agent in the store.
#[derive(Debug, Clone)]
pub struct AgentDbData {
    pub id: String,
    pub status: StageStatus,
}

/// The number of parameters that are not yet processed.
pub open spec fn pending_count<D>(params: Seq<StageParam<D>>) -> nat
    decreases params.len(),
{
    if params.len() == 0 {
        0
    } else {
        (if params.last().flag {
            0nat
        } else {
            1nat
        }) + pending_count(params.drop_last())
    }
}

/// No two parameters belong to the same stage.
pub open spec fn distinct_stages<D>(params: Seq<StageParam<D>>) -> bool {
    forall|i: int, j: int|
        0 <= i < j < params.len() ==> #[trigger] params[i].stage_name != #[trigger] params[j].stage_name
}

/// `find_stage_from` gives the first parameter of the stage at or after `i`.
pub proof fn lemma_find_stage_from<D>(params: Seq<StageParam<D>>, stage: AgentStage, i: int)
    requires
        0 <= i <= params.len(),
    ensures
        ({
            let r = find_stage_from(params, stage, i);
            &&& r == -1 ==> forall|j: int| i <= j < params.len() ==> params[j].stage_name != stage
            &&& r != -1 ==> {
                &&& i <= r < params.len()
                &&& params[r].stage_name == stage
                &&& forall|j: int| i <= j < r ==> params[j].stage_name != stage
            }
        }),
    decreases params.len() - i,
{
    if i < params.len() && params[i].stage_name != stage {
        lemma_find_stage_from(params, stage, i + 1);
    }
}

/// `find_pending_from` gives the first unprocessed parameter at or after `i`.
pub proof fn lemma_find_pending_from<D>(params: Seq<StageParam<D>>, i: int)
    requires
        0 <= i <= params.len(),
    ensures
        ({
            let r = find_pending_from(params, i);
            &&& r == -1 ==> forall|j: int| i <= j < params.len() ==> params[j].flag
            &&& r != -1 ==> {
                &&& i <= r < params.len()
                &&& !params[r].flag
                &&& forall|j: int| i <= j < r ==> params[j].flag
            }
        }),
    decreases params.len() - i,
{
    if i < params.len() && params[i].flag {
        lemma_find_pending_from(params, i + 1);
    }
}

/// Replacing one parameter changes the pending count only by that parameter.
pub proof fn lemma_pending_count_update<D>(params: Seq<StageParam<D>>, i: int, p: StageParam<D>)
    requires
        0 <= i < params.len(),
    ensures
        pending_count(params.update(i, p)) + (if params[i].flag {
            0int
        } else {
            1int
        }) == pending_count(params) + (if p.flag {
            0int
        } else {
            1int
        }),
    decreases params.len(),
{
    let u = params.update(i, p);
    if i == params.len() - 1 {
        assert(u.drop_last() =~= params.drop_last());
    } else {
        lemma_pending_count_update(params.drop_last(), i, p);
        assert(u.drop_last() =~= params.drop_last().update(i, p));
    }
}

/// When no stage occurs twice among an agent's parameters, the parameter that
/// `set_stage_flag` marks for the agent's next stage is the first unprocessed
/// one, and marking it leaves one stage fewer to process. So such an agent
/// visits its stages in order, each once, and then has no next stage.
pub proof fn lemma_next_stage_advances<D>(params: Seq<StageParam<D>>, stage: AgentStage)
    requires
        distinct_stages(params),
        next_stage_of(params) == Some(stage),
    ensures
        first_stage_index(params, stage) == find_pending_from(params, 0),
        ({
            let i = first_stage_index(params, stage);
            pending_count(params.update(i, with_flag(params[i], true))) + 1 == pending_count(params)
        }),
{
    lemma_find_pending_from(params, 0);
    lemma_find_stage_from(params, stage, 0);
    let p = find_pending_from(params, 0);
    let k = first_stage_index(params, stage);
    assert(params[p].stage_name == stage);
    if k < p {
        assert(params[k].stage_name != params[p].stage_name);
    }
    assert(k == p);
    lemma_pending_count_update(params, k, with_flag(params[k], true));
}

/// No parameter is pending exactly when every parameter is processed.
proof fn lemma_pending_count_zero<D>(params: Seq<StageParam<D>>)
    ensures
        (pending_count(params) == 0) == (forall|j: int| 0 <= j < params.len() ==> params[j].flag),
    decreases params.len(),
{
    if params.len() > 0 {
        let init = params.drop_last();
        lemma_pending_count_zero(init);
        if pending_count(params) == 0 {
            assert forall|j: int| 0 <= j < params.len() implies params[j].flag by {
                if j < params.len() - 1 {
                    assert(init[j] == params[j]);
                }
            }
        }
        if forall|j: int| 0 <= j < params.len() ==> params[j].flag {
            assert forall|j: int| 0 <= j < init.len() implies init[j].flag by {
                assert(init[j] == params[j]);
            }
        }
    }
}

/// An agent has a next stage exactly when some stage is left to process.
pub proof fn lemma_next_stage_iff_pending<D>(params: Seq<StageParam<D>>)
    ensures
        (next_stage_of(params) is None) == (pending_count(params) == 0),
{
    lemma_find_pending_from(params, 0);
    lemma_pending_count_zero(params);
}

/// `stage` is the stage of the first parameter that is not yet processed.
pub open spec fn first_pending_is<D>(params: Seq<StageParam<D>>, stage: AgentStage) -> bool {
    exists|i: int|
        0 <= i < params.len() && !params[i].flag && params[i].stage_name == stage && forall|j: int|
            0 <= j < i ==> #[trigger] params[j].flag
}

/// An agent's next stage is that of its first unprocessed parameter, and it
/// has none exactly when every parameter is processed.
pub proof fn lemma_next_stage_facts<D>(params: Seq<StageParam<D>>)
    ensures
        next_stage_of(params) is None <==> forall|i: int| 0 <= i < params.len() ==> params[i].flag,
        forall|s: AgentStage| next_stage_of(params) == Some(s) <==> first_pending_is(params, s),
{
    lemma_find_pending_from(params, 0);
    let p = find_pending_from(params, 0);
    assert forall|s: AgentStage| next_stage_of(params) == Some(s) <==> first_pending_is(params, s) by {
        if first_pending_is(params, s) {
            let i = choose|i: int|
                0 <= i < params.len() && !params[i].flag && params[i].stage_name == s && forall|j: int|
                    0 <= j < i ==> #[trigger] params[j].flag;
            if p == -1 {
                assert(params[i].flag);
            } else {
                if p < i {
                    assert(params[p].flag);
                }
                if i < p {
                    assert(params[i].flag);
                }
                assert(p == i);
            }
        }
        if next_stage_of(params) == Some(s) {
            assert(p != -1);
            assert(forall|j: int| 0 <= j < p ==> #[trigger] params[j].flag);
        }
    }
}

} // verus!
