use flowforge::agent::{Agent, AgentDbData, AgentStage, StageParam, StageStatus};
use flowforge::error::FlowError;

fn param(flag: bool, data: u32) -> StageParam<u32> {
    StageParam { stage_name: AgentStage::TransformData, data, flag }
}

#[test]
fn new_agent_is_pending_with_uuid_v4_id() {
    let agent: Agent<u32> = Agent::new();
    assert_eq!(agent.status, StageStatus::Pending("Initialized".to_string()));
    assert!(agent.stage_params.is_empty());
    let id: Vec<char> = agent.id.chars().collect();
    assert_eq!(id.len(), 36);
    for (i, c) in id.iter().enumerate() {
        if i == 8 || i == 13 || i == 18 || i == 23 {
            assert_eq!(*c, '-');
        } else {
            assert!(c.is_ascii_digit() || ('a'..='f').contains(c));
        }
    }
    assert_eq!(id[14], '4');
    assert!("89ab".contains(id[19]));
}

#[test]
fn new_agents_get_different_ids() {
    let a: Agent<u32> = Agent::new();
    let b: Agent<u32> = Agent::new();
    assert_ne!(a.id, b.id);
}

#[test]
fn with_id_keeps_the_id() {
    let agent: Agent<u32> = Agent::with_id("agent-7".to_string());
    assert_eq!(agent.id, "agent-7");
    assert_eq!(agent.status, StageStatus::Pending("Initialized".to_string()));
}

#[test]
fn stage_prints_its_name() {
    assert_eq!(AgentStage::TransformData.to_string(), "TransformData");
}

#[test]
fn set_flag_sets_the_flag() {
    let mut p = param(false, 3);
    p.set_flag(true);
    assert!(p.flag);
    assert_eq!(p.data, 3);
    p.set_flag(false);
    assert!(!p.flag);
}

#[test]
fn add_stage_param_appends() {
    let mut agent: Agent<u32> = Agent::with_id("a".to_string());
    agent.add_stage_param::<u32>(param(false, 1));
    agent.add_stage_param::<u32>(param(true, 2));
    assert_eq!(agent.stage_params.len(), 2);
    assert_eq!(agent.stage_params[0].data, 1);
    assert_eq!(agent.stage_params[1].data, 2);
}

#[test]
fn next_stage_of_agent_without_params_is_none() {
    let agent: Agent<u32> = Agent::with_id("a".to_string());
    assert_eq!(agent.get_next_stage(), None);
}

#[test]
fn next_stage_skips_processed_params() {
    let mut agent: Agent<u32> = Agent::with_id("a".to_string());
    agent.add_stage_param::<u32>(param(true, 1));
    agent.add_stage_param::<u32>(param(false, 2));
    assert_eq!(agent.get_next_stage(), Some(AgentStage::TransformData));
}

#[test]
fn next_stage_is_none_when_all_processed() {
    let mut agent: Agent<u32> = Agent::with_id("a".to_string());
    agent.add_stage_param::<u32>(param(true, 1));
    agent.add_stage_param::<u32>(param(true, 2));
    assert_eq!(agent.get_next_stage(), None);
}

#[test]
fn get_stage_param_finds_the_first_and_changes_in_place() {
    let mut agent: Agent<u32> = Agent::with_id("a".to_string());
    agent.add_stage_param::<u32>(param(false, 1));
    agent.add_stage_param::<u32>(param(false, 2));
    let p = agent.get_stage_param(AgentStage::TransformData).unwrap();
    assert_eq!(p.data, 1);
    p.data = 10;
    p.set_flag(true);
    assert_eq!(agent.stage_params[0].data, 10);
    assert!(agent.stage_params[0].flag);
    assert!(!agent.stage_params[1].flag);
}

#[test]
fn get_stage_param_of_missing_stage_is_none() {
    let mut agent: Agent<u32> = Agent::with_id("a".to_string());
    assert!(agent.get_stage_param(AgentStage::TransformData).is_none());
}

#[test]
fn set_stage_flag_marks_the_first_param_of_the_stage() {
    let mut agent: Agent<u32> = Agent::with_id("a".to_string());
    agent.add_stage_param::<u32>(param(false, 1));
    agent.add_stage_param::<u32>(param(false, 2));
    agent.set_stage_flag(AgentStage::TransformData);
    assert!(agent.stage_params[0].flag);
    assert!(!agent.stage_params[1].flag);
    assert_eq!(agent.stage_params[0].data, 1);
}

#[test]
fn completing_the_only_stage_leaves_no_next_stage() {
    let mut agent: Agent<u32> = Agent::with_id("a".to_string());
    agent.add_stage_param::<u32>(param(false, 1));
    let next = agent.get_next_stage().unwrap();
    agent.set_stage_flag(next);
    assert_eq!(agent.get_next_stage(), None);
}

#[test]
fn repeated_stage_is_flagged_at_its_first_param_only() {
    // With a stage listed twice, marking it again hits the processed first
    // parameter, so the second is never reached.
    let mut agent: Agent<u32> = Agent::with_id("a".to_string());
    agent.add_stage_param::<u32>(param(true, 1));
    agent.add_stage_param::<u32>(param(false, 2));
    agent.set_stage_flag(AgentStage::TransformData);
    assert_eq!(agent.get_next_stage(), Some(AgentStage::TransformData));
    assert!(!agent.stage_params[1].flag);
}

#[test]
fn set_status_replaces_the_status() {
    let mut agent: Agent<u32> = Agent::with_id("a".to_string());
    assert!(agent.set_status(StageStatus::Done).is_ok());
    assert_eq!(agent.status, StageStatus::Done);
    assert!(agent.set_status(StageStatus::Failed("x".to_string())).is_ok());
    assert_eq!(agent.status, StageStatus::Failed("x".to_string()));
}

#[test]
fn db_data_copies_id_and_status() {
    let mut agent: Agent<u32> = Agent::with_id("a-1".to_string());
    agent.set_status(StageStatus::Processing("TransformData processing".to_string())).unwrap();
    let data: AgentDbData = agent.to_db_data();
    assert_eq!(data.id, "a-1");
    assert_eq!(data.status, StageStatus::Processing("TransformData processing".to_string()));
}

#[test]
fn error_messages() {
    let s = |e: FlowError| e.message();
    assert_eq!(s(FlowError::Stage("x".to_string())), "Stage error: x");
    assert_eq!(s(FlowError::Pipeline("x".to_string())), "Pipeline error: x");
    assert_eq!(s(FlowError::Agent("x".to_string())), "Agent error: x");
    assert_eq!(s(FlowError::Database("x".to_string())), "Database error: x");
    assert_eq!(s(FlowError::StageAlreadyRegistered("S".to_string())), "Stage S already registered");
    assert_eq!(s(FlowError::StageNotFound("S".to_string())), "Stage S not found");
    assert_eq!(s(FlowError::AgentNotFound("A".to_string())), "Agent A not found");
    assert_eq!(s(FlowError::Other(anyhow::Error::msg("boom"))), "boom");
}

#[test]
fn anyhow_errors_convert_to_other() {
    let e: FlowError = anyhow::Error::msg("inner").into();
    assert!(matches!(e, FlowError::Other(_)));
    assert_eq!(e.message(), "inner");
}

#[test]
fn sqlx_errors_convert_to_database() {
    let e: FlowError = sqlx::Error::RowNotFound.into();
    match &e {
        FlowError::Database(m) => assert_eq!(*m, sqlx::Error::RowNotFound.to_string()),
        _ => panic!("expected a database error"),
    }
    assert!(e.message().starts_with("Database error: "));
}
