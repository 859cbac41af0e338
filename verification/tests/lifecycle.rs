use evo_protocol::json::JsonValue;
use evo_protocol::memory::{
    MemoryAction, MemoryCategory, MemoryChanged, MemoryDirectory, MemoryScope, MemoryStore,
};
use evo_protocol::pipeline::{
    PipelineRun, PipelineRunStatus, PipelineStage, PipelineStageResult, StageOutcome,
};
use evo_protocol::room::{StreamError, TaskInvite, TaskOutput, TaskRoom, TaskSummary};
use evo_protocol::task::{Task, TaskCreate, TaskStatus, TaskUpdate, TaskUpdateError};

#[test]
fn claiming_a_task_must_name_the_owner() {
    let create = TaskCreate {
        task_type: "build".to_string(),
        agent_id: None,
        payload: JsonValue::empty_object(),
        parent_id: None,
    };
    let mut task = Task::create("t-2".to_string(), &create, "now");
    let anonymous = TaskUpdate {
        task_id: "t-2".to_string(),
        status: Some(TaskStatus::InProgress),
        agent_id: None,
        payload: None,
    };
    let err = task.apply_update(&anonymous, "later").unwrap_err();
    assert_eq!(err, TaskUpdateError::NoOwnerNamed);
    assert_eq!(task.status, TaskStatus::Pending);
}

fn s(text: &str) -> String {
    text.to_string()
}

fn stage_result(run: &str, stage: PipelineStage, status: PipelineRunStatus) -> PipelineStageResult {
    PipelineStageResult {
        run_id: s(run),
        stage,
        agent_id: s("agent-1"),
        status,
        artifact_id: s("artifact-1"),
        output: JsonValue::Null,
        error: None,
    }
}

fn chunk(task: &str, request: &str, source: &str, index: u32, is_final: bool) -> TaskOutput {
    TaskOutput {
        task_id: s(task),
        request_id: s(request),
        source: s(source),
        delta: s("data"),
        chunk_index: index,
        is_final,
    }
}

#[test]
fn task_transitions_pending_through_terminal() {
    assert!(TaskStatus::can_transition(TaskStatus::Pending, TaskStatus::InProgress));
    assert!(TaskStatus::can_transition(TaskStatus::InProgress, TaskStatus::Completed));
    assert!(TaskStatus::can_transition(TaskStatus::InProgress, TaskStatus::Failed));
    assert!(TaskStatus::can_transition(TaskStatus::InProgress, TaskStatus::Cancelled));
    assert!(TaskStatus::can_transition(TaskStatus::InProgress, TaskStatus::Pending));
    assert!(!TaskStatus::can_transition(TaskStatus::Pending, TaskStatus::Completed));
    assert!(!TaskStatus::can_transition(TaskStatus::Completed, TaskStatus::InProgress));
    assert!(!TaskStatus::can_transition(TaskStatus::Cancelled, TaskStatus::Pending));
    assert!(!TaskStatus::can_transition(TaskStatus::Failed, TaskStatus::Completed));
}

#[test]
fn task_rejects_status_change_after_terminal() {
    let create = TaskCreate {
        task_type: s("build"),
        agent_id: None,
        payload: JsonValue::empty_object(),
        parent_id: None,
    };
    let mut task = Task::create(s("t-1"), &create, "2024-01-01T00:00:00Z");
    assert_eq!(task.status, TaskStatus::Pending);

    let claim = TaskUpdate {
        task_id: s("t-1"),
        status: Some(TaskStatus::InProgress),
        agent_id: Some(s("building-001")),
        payload: None,
    };
    task.apply_update(&claim, "2024-01-01T00:00:01Z").unwrap();
    assert_eq!(task.status, TaskStatus::InProgress);
    assert_eq!(task.agent_id, "building-001");

    let finish = TaskUpdate {
        task_id: s("t-1"),
        status: Some(TaskStatus::Completed),
        agent_id: None,
        payload: None,
    };
    task.apply_update(&finish, "2024-01-01T00:00:02Z").unwrap();
    assert_eq!(task.status, TaskStatus::Completed);

    let reopen = TaskUpdate {
        task_id: s("t-1"),
        status: Some(TaskStatus::Failed),
        agent_id: None,
        payload: None,
    };
    let err = task.apply_update(&reopen, "2024-01-01T00:00:03Z").unwrap_err();
    assert_eq!(err, TaskUpdateError::IllegalTransition);
    assert_eq!(task.status, TaskStatus::Completed);

    let mutate = TaskUpdate {
        task_id: s("t-1"),
        status: None,
        agent_id: Some(s("someone-else")),
        payload: None,
    };
    let err = task.apply_update(&mutate, "2024-01-01T00:00:04Z").unwrap_err();
    assert_eq!(err, TaskUpdateError::TerminalTask);
    assert_eq!(task.agent_id, "building-001");
}

#[test]
fn task_update_redelivery_is_idempotent() {
    let create = TaskCreate {
        task_type: s("build"),
        agent_id: None,
        payload: JsonValue::empty_object(),
        parent_id: None,
    };
    let mut task = Task::create(s("t-1"), &create, "now");
    let claim = TaskUpdate {
        task_id: s("t-1"),
        status: Some(TaskStatus::InProgress),
        agent_id: Some(s("a-1")),
        payload: None,
    };
    task.apply_update(&claim, "later").unwrap();
    task.apply_update(&claim, "later").unwrap();
    assert_eq!(task.status, TaskStatus::InProgress);
    assert_eq!(task.agent_id, "a-1");
    assert_eq!(task.updated_at, "later");
}

#[test]
fn ordered_pipeline_run_completes() {
    let mut run = PipelineRun::start(s("run-1"), s("artifact-0"));
    assert_eq!(run.stage, PipelineStage::Learning);
    assert_eq!(run.status, PipelineRunStatus::Running);

    let stages = [
        PipelineStage::Learning,
        PipelineStage::Building,
        PipelineStage::PreLoad,
        PipelineStage::Evaluation,
        PipelineStage::SkillManage,
    ];
    for (i, stage) in stages.iter().enumerate() {
        let outcome =
            run.apply_stage_result(&stage_result("run-1", *stage, PipelineRunStatus::Completed));
        if i + 1 < stages.len() {
            assert_eq!(outcome, StageOutcome::Advanced(stages[i + 1]));
            assert_eq!(run.status, PipelineRunStatus::Running);
        } else {
            assert_eq!(outcome, StageOutcome::RunCompleted);
        }
    }
    assert_eq!(run.status, PipelineRunStatus::Completed);
    assert!(run.status.is_terminal());
}

#[test]
fn failed_building_stage_halts_run() {
    let mut run = PipelineRun::start(s("run-2"), s("artifact-0"));
    let outcome = run.apply_stage_result(&stage_result(
        "run-2",
        PipelineStage::Learning,
        PipelineRunStatus::Completed,
    ));
    assert_eq!(outcome, StageOutcome::Advanced(PipelineStage::Building));

    let outcome = run.apply_stage_result(&stage_result(
        "run-2",
        PipelineStage::Building,
        PipelineRunStatus::Failed,
    ));
    assert_eq!(outcome, StageOutcome::RunHalted(PipelineRunStatus::Failed));
    assert_eq!(run.status, PipelineRunStatus::Failed);

    let outcome = run.apply_stage_result(&stage_result(
        "run-2",
        PipelineStage::PreLoad,
        PipelineRunStatus::Completed,
    ));
    assert_eq!(outcome, StageOutcome::AlreadyTerminal);
    assert_eq!(run.status, PipelineRunStatus::Failed);
}

#[test]
fn stale_stage_result_is_discarded() {
    let mut run = PipelineRun::start(s("run-3"), s("artifact-0"));
    run.apply_stage_result(&stage_result(
        "run-3",
        PipelineStage::Learning,
        PipelineRunStatus::Completed,
    ));
    assert_eq!(run.stage, PipelineStage::Building);

    let outcome = run.apply_stage_result(&stage_result(
        "run-3",
        PipelineStage::Evaluation,
        PipelineRunStatus::Completed,
    ));
    assert_eq!(outcome, StageOutcome::Stale);
    assert_eq!(run.stage, PipelineStage::Building);
    assert_eq!(run.status, PipelineRunStatus::Running);
}

#[test]
fn stream_chunks_close_on_final() {
    let invite = TaskInvite {
        task_id: s("t1"),
        task_type: s("shell"),
        payload: JsonValue::Null,
    };
    let mut room = TaskRoom::open(&invite);
    room.accept_output(&chunk("t1", "r1", "llm", 0, false)).unwrap();
    room.accept_output(&chunk("t1", "r1", "llm", 1, false)).unwrap();
    room.accept_output(&chunk("t1", "r1", "llm", 2, true)).unwrap();
    let err = room.accept_output(&chunk("t1", "r1", "llm", 3, false)).unwrap_err();
    assert_eq!(err, StreamError::StreamFinished);
}

#[test]
fn stream_chunk_index_must_increase() {
    let invite = TaskInvite {
        task_id: s("t1"),
        task_type: s("shell"),
        payload: JsonValue::Null,
    };
    let mut room = TaskRoom::open(&invite);
    room.accept_output(&chunk("t1", "r1", "pty", 0, false)).unwrap();
    room.accept_output(&chunk("t1", "r1", "pty", 1, false)).unwrap();
    let err = room.accept_output(&chunk("t1", "r1", "pty", 1, false)).unwrap_err();
    assert_eq!(err, StreamError::OutOfOrder);
}

#[test]
fn stream_keys_are_independent() {
    let invite = TaskInvite {
        task_id: s("t1"),
        task_type: s("shell"),
        payload: JsonValue::Null,
    };
    let mut room = TaskRoom::open(&invite);
    room.accept_output(&chunk("t1", "r1", "pty", 0, false)).unwrap();
    room.accept_output(&chunk("t1", "r1", "llm", 0, false)).unwrap();
    room.accept_output(&chunk("t1", "r2", "llm", 0, true)).unwrap();
    room.accept_output(&chunk("t1", "r1", "pty", 1, true)).unwrap();
    let err = room.accept_output(&chunk("t1", "r2", "llm", 1, false)).unwrap_err();
    assert_eq!(err, StreamError::StreamFinished);
}

#[test]
fn summary_closes_the_room() {
    let invite = TaskInvite {
        task_id: s("t1"),
        task_type: s("shell"),
        payload: JsonValue::Null,
    };
    let mut room = TaskRoom::open(&invite);
    room.accept_output(&chunk("t1", "r1", "llm", 0, false)).unwrap();
    let summary = TaskSummary {
        task_id: s("t1"),
        agent_id: s("evaluation-001"),
        summary: s("looks good"),
        score: None,
        tags: vec![],
        evaluation: JsonValue::Null,
    };
    room.observe_summary(&summary);
    let err = room.accept_output(&chunk("t1", "r1", "llm", 1, false)).unwrap_err();
    assert_eq!(err, StreamError::RoomClosed);
}

#[test]
fn memory_store_same_key_updates_not_creates() {
    let mut dir = MemoryDirectory::new();
    let mut req = MemoryStore {
        scope: MemoryScope::Agent,
        category: MemoryCategory::Pattern,
        key: s("mem://x"),
        metadata: JsonValue::empty_object(),
        tags: vec![],
        agent_id: s("a-1"),
        run_id: s(""),
        skill_id: s(""),
        relevance_score: evo_protocol::json::JsonNumber::from_u64(1),
        tiers: vec![],
        task_id: None,
    };
    let first = dir.apply_store(&req);
    assert_eq!(first, MemoryAction::Created);
    let announced = MemoryChanged::announce(first, None, Some(s("mem-1")));
    assert_eq!(announced.action, "created");

    req.metadata = JsonValue::Obj(vec![(s("source"), JsonValue::Str(s("second write")))]);
    let second = dir.apply_store(&req);
    assert_eq!(second, MemoryAction::Updated);
    let announced = MemoryChanged::announce(second, None, Some(s("mem-1")));
    assert_eq!(announced.action, "updated");
}

#[test]
fn memory_store_distinct_scopes_create_separately() {
    let mut dir = MemoryDirectory::new();
    let mut req = MemoryStore {
        scope: MemoryScope::Agent,
        category: MemoryCategory::Fact,
        key: s("mem://x"),
        metadata: JsonValue::empty_object(),
        tags: vec![],
        agent_id: s(""),
        run_id: s(""),
        skill_id: s(""),
        relevance_score: evo_protocol::json::JsonNumber::from_u64(0),
        tiers: vec![],
        task_id: None,
    };
    assert_eq!(dir.apply_store(&req), MemoryAction::Created);
    req.scope = MemoryScope::System;
    assert_eq!(dir.apply_store(&req), MemoryAction::Created);
}

#[test]
fn memory_store_without_key_always_creates() {
    let mut dir = MemoryDirectory::new();
    let req = MemoryStore {
        scope: MemoryScope::Pipeline,
        category: MemoryCategory::Event,
        key: s(""),
        metadata: JsonValue::empty_object(),
        tags: vec![],
        agent_id: s(""),
        run_id: s(""),
        skill_id: s(""),
        relevance_score: evo_protocol::json::JsonNumber::from_u64(0),
        tiers: vec![],
        task_id: None,
    };
    assert_eq!(dir.apply_store(&req), MemoryAction::Created);
    assert_eq!(dir.apply_store(&req), MemoryAction::Created);
}

#[test]
fn memory_action_tokens() {
    assert_eq!(MemoryAction::Created.token(), "created");
    assert_eq!(MemoryAction::Updated.token(), "updated");
    assert_eq!(MemoryAction::Deleted.token(), "deleted");
    assert_eq!(MemoryAction::parse_token("updated"), Some(MemoryAction::Updated));
    assert_eq!(MemoryAction::parse_token("renamed"), None);
}
