use flowforge::agent::{Agent, AgentStage, StageParam, StageStatus};
use flowforge::pipeline::{
    Admission, RegistrationStop, CHANNEL_CAPACITY_MAX,
    advance_agent, insert_failure_message, marks_done, processing_status, status_after_run,
    transfer_failed_status, PipelineState, StageConfig, StageRegistry, SubmitRoute, WorkerAction,
};

fn config(concurrency_limit: usize) -> StageConfig {
    StageConfig { stage: AgentStage::TransformData, concurrency_limit }
}

fn agent_with(flags: &[bool]) -> Agent<()> {
    let mut agent = Agent::with_id("a".to_string());
    for f in flags {
        agent.add_stage_param::<()>(StageParam { stage_name: AgentStage::TransformData, data: (), flag: *f });
    }
    agent
}

#[test]
fn new_pipeline_is_empty_and_complete() {
    let p = PipelineState::new();
    assert_eq!(p.get_completion_status(), (0, 0));
    assert!(p.is_all_agents_completed());
    assert!(!p.is_terminated());
    assert!(StageRegistry::new().registered_stages().is_empty());
}

#[test]
fn first_stage_gets_a_buffer_of_100() {
    let mut r = StageRegistry::new();
    let reg = r.register_stages(&vec![config(5)]);
    assert_eq!(reg.buffer_sizes, vec![100]);
    assert_eq!(reg.stop, None);
    assert_eq!(r.registered_stages(), vec![AgentStage::TransformData]);
    assert!(r.is_registered(AgentStage::TransformData));
}

#[test]
fn registering_no_stages_changes_nothing() {
    let mut r = StageRegistry::new();
    let reg = r.register_stages(&vec![]);
    assert!(reg.buffer_sizes.is_empty());
    assert_eq!(reg.stop, None);
    assert!(!r.is_registered(AgentStage::TransformData));
}

#[test]
fn registering_a_stage_twice_fails() {
    let mut r = StageRegistry::new();
    r.register_stages(&vec![config(5)]);
    let reg = r.register_stages(&vec![config(3)]);
    assert_eq!(reg.stop, Some(RegistrationStop::AlreadyRegistered(AgentStage::TransformData)));
    assert!(reg.buffer_sizes.is_empty());
    assert_eq!(r.registered_stages(), vec![AgentStage::TransformData]);
}

#[test]
fn a_stage_listed_twice_fails_at_the_second_and_keeps_the_first() {
    let mut r = StageRegistry::new();
    let reg = r.register_stages(&vec![config(5), config(7)]);
    assert_eq!(reg.stop, Some(RegistrationStop::AlreadyRegistered(AgentStage::TransformData)));
    assert_eq!(reg.buffer_sizes, vec![100]);
    assert_eq!(r.registered_stages(), vec![AgentStage::TransformData]);
}

#[test]
fn submit_routes() {
    let mut p = StageRegistry::new();
    assert!(matches!(p.submit_route(&agent_with(&[])), SubmitRoute::NoNextStage));
    assert!(matches!(p.submit_route(&agent_with(&[true])), SubmitRoute::NoNextStage));
    assert!(matches!(
        p.submit_route(&agent_with(&[false])),
        SubmitRoute::NotRegistered(AgentStage::TransformData)
    ));
    p.register_stages(&vec![config(1)]);
    assert!(matches!(p.submit_route(&agent_with(&[true, false])), SubmitRoute::Send(AgentStage::TransformData)));
}

#[test]
fn worker_forwards_only_to_registered_stages() {
    let mut p = StageRegistry::new();
    let done = StageStatus::Completed("TransformData completed".to_string());
    match p.route_after_process(AgentStage::TransformData, Ok((Some(AgentStage::TransformData), done.clone()))) {
        WorkerAction::Finish(s) => assert_eq!(s, StageStatus::Failed("No TransformData stage registered".to_string())),
        WorkerAction::Forward(_) => panic!("forwarded to an unregistered stage"),
    }
    p.register_stages(&vec![config(1)]);
    assert!(matches!(
        p.route_after_process(AgentStage::TransformData, Ok((Some(AgentStage::TransformData), done.clone()))),
        WorkerAction::Forward(AgentStage::TransformData)
    ));
    match p.route_after_process(AgentStage::TransformData, Ok((None, done.clone()))) {
        WorkerAction::Finish(s) => assert_eq!(s, done),
        WorkerAction::Forward(_) => panic!("no next stage"),
    }
    match p.route_after_process(AgentStage::TransformData, Err("boom".to_string())) {
        WorkerAction::Finish(s) => assert_eq!(s, StageStatus::Failed("TransformData failed: boom".to_string())),
        WorkerAction::Forward(_) => panic!("failed agents stop"),
    }
}

#[test]
fn counters_follow_submissions_and_completions() {
    let mut p = PipelineState::new();
    let a = p.issue_ticket();
    let b = p.issue_ticket();
    assert_eq!(p.get_completion_status(), (0, 0));
    p.record_submitted(a);
    p.record_submitted(b);
    assert_eq!(p.get_completion_status(), (0, 2));
    assert!(!p.is_all_agents_completed());
    assert!(!p.add_done_agent_count(a));
    assert!(p.add_done_agent_count(b));
    assert_eq!(p.get_completion_status(), (2, 2));
    assert!(p.is_all_agents_completed());
}

#[test]
fn init_resets_counters_and_termination() {
    let mut p = PipelineState::new();
    let t = p.issue_ticket();
    p.record_submitted(t);
    assert!(!p.terminate_pipeline());
    assert!(p.is_terminated());
    p.init_pipeline();
    assert_eq!(p.get_completion_status(), (0, 0));
    assert!(!p.is_terminated());
    assert!(p.terminate_pipeline());
}

#[test]
fn status_messages() {
    assert_eq!(processing_status(AgentStage::TransformData), StageStatus::Processing("TransformData processing".to_string()));
    assert_eq!(status_after_run(AgentStage::TransformData, &Ok(())), StageStatus::Completed("TransformData completed".to_string()));
    assert_eq!(
        status_after_run(AgentStage::TransformData, &Err("bad input".to_string())),
        StageStatus::Failed("TransformData failed: bad input".to_string())
    );
    assert_eq!(transfer_failed_status(AgentStage::TransformData), StageStatus::Failed("failed in transfering to: TransformData".to_string()));
    assert_eq!(insert_failure_message("down"), "Failed to insert agent to store: down");
}

#[test]
fn only_completed_agents_are_marked_done() {
    assert!(marks_done(&StageStatus::Completed("c".to_string())));
    assert!(!marks_done(&StageStatus::Failed("f".to_string())));
    assert!(!marks_done(&StageStatus::Done));
    assert!(!marks_done(&StageStatus::Pending("p".to_string())));
}

#[test]
fn advancing_flags_the_stage_and_names_the_next_only_on_completion() {
    let mut agent = agent_with(&[false, false]);
    let completed = status_after_run(AgentStage::TransformData, &Ok(()));
    let next = advance_agent(&mut agent, AgentStage::TransformData, &completed);
    assert!(agent.stage_params[0].flag);
    assert_eq!(next, Some(AgentStage::TransformData));
    let mut agent = agent_with(&[false]);
    let failed = status_after_run(AgentStage::TransformData, &Err("e".to_string()));
    assert_eq!(advance_agent(&mut agent, AgentStage::TransformData, &failed), None);
    assert!(agent.stage_params[0].flag);
    let mut agent = agent_with(&[false]);
    assert_eq!(advance_agent(&mut agent, AgentStage::TransformData, &completed), None);
}

#[test]
fn terminated_pipeline_counts_agents_without_processing() {
    let mut p = PipelineState::new();
    let a = p.issue_ticket();
    let b = p.issue_ticket();
    p.record_submitted(a);
    p.record_submitted(b);
    let a = match p.admit_agent(a) {
        Admission::Process(t) => t,
        Admission::Skip { .. } => panic!("not terminated yet"),
    };
    assert_eq!(p.get_completion_status(), (0, 2));
    p.terminate_pipeline();
    assert!(matches!(p.admit_agent(a), Admission::Skip { all_done: false }));
    assert!(matches!(p.admit_agent(b), Admission::Skip { all_done: true }));
    assert!(p.is_all_agents_completed());
}

#[test]
fn duplicate_registration_message() {
    assert_eq!(
        flowforge::pipeline::already_registered_message(AgentStage::TransformData),
        "Stage TransformData already registered, skipping"
    );
}

#[test]
fn each_agent_counted_once_completes_the_pipeline() {
    // Two agents submitted and a third whose hand-over failed; one is
    // forwarded once and then finishes, the other fails: two finishes
    // balance two submissions.
    let mut p = PipelineState::new();
    let a = p.issue_ticket();
    let b = p.issue_ticket();
    let c = p.issue_ticket();
    p.record_submitted(a);
    p.abandon_ticket(c);
    p.record_submitted(b);
    assert!(!p.add_done_agent_count(a));
    assert_eq!(p.get_completion_status(), (1, 2));
    assert!(p.add_done_agent_count(b));
    assert_eq!(p.get_completion_status(), (2, 2));
    p.init_pipeline();
    assert_eq!(p.get_completion_status(), (0, 0));
}

#[test]
fn registration_stops_at_a_repeat_before_its_buffer() {
    // A later stage repeats the first, and the conflict is found before its
    // buffer (which would overflow, or be empty) is computed.
    let mut r = StageRegistry::new();
    let reg = r.register_stages(&vec![config(0), config(usize::MAX)]);
    assert_eq!(reg.stop, Some(RegistrationStop::AlreadyRegistered(AgentStage::TransformData)));
    assert_eq!(reg.buffer_sizes, vec![100]);
}

#[test]
fn channel_limit_is_tokios() {
    assert_eq!(CHANNEL_CAPACITY_MAX, usize::MAX >> 3);
}
