use evo_protocol::json::{JsonNumber, JsonValue, SchemaError};
use evo_protocol::memory::{
    MemoryCategory, MemoryChanged, MemoryQuery, MemoryScope, MemoryStore, MemoryTierEntry,
};
use evo_protocol::pipeline::{PipelineNext, PipelineRunStatus, PipelineStage, PipelineStageResult};
use evo_protocol::roles::{AgentRegister, AgentRole};
use evo_protocol::task::{TaskCreate, TaskList, TaskStatus, TaskUpdate};

fn s(text: &str) -> String {
    text.to_string()
}

fn obj(entries: Vec<(&str, JsonValue)>) -> JsonValue {
    JsonValue::Obj(entries.into_iter().map(|(k, v)| (k.to_string(), v)).collect())
}

#[test]
fn serialize_agent_register() {
    let msg = AgentRegister {
        agent_id: s("learning-001"),
        role: AgentRole::Learning,
        capabilities: vec![s("discover"), s("evaluate")],
    };
    let json = msg.to_json();
    let deserialized = AgentRegister::from_json(&json).unwrap();
    assert_eq!(deserialized.agent_id, "learning-001");
    assert_eq!(deserialized.role, AgentRole::Learning);
}

#[test]
fn serialize_pipeline_next() {
    let msg = PipelineNext {
        stage: PipelineStage::Building,
        artifact_id: s("skill-xyz"),
        metadata: JsonValue::empty_object(),
    };
    let json = msg.to_json();
    let deserialized = PipelineNext::from_json(&json).unwrap();
    assert_eq!(deserialized.stage, PipelineStage::Building);
}

#[test]
fn serialize_task_status() {
    let status = TaskStatus::InProgress;
    let token = status.token();
    assert_eq!(token, "in_progress");
    let json = JsonValue::Str(token.to_string()).to_text();
    assert_eq!(json, r#""in_progress""#);
    let de = TaskStatus::parse_token(token).unwrap();
    assert_eq!(de, TaskStatus::InProgress);
}

#[test]
fn serialize_task_create() {
    let msg = TaskCreate {
        task_type: s("build"),
        agent_id: Some(s("building-001")),
        payload: obj(vec![("skill_id", JsonValue::Str(s("web-search")))]),
        parent_id: None,
    };
    let json = msg.to_json();
    let de = TaskCreate::from_json(&json).unwrap();
    assert_eq!(de.task_type, "build");
    assert_eq!(de.agent_id.unwrap(), "building-001");
}

#[test]
fn deserialize_task_list_defaults() {
    let msg = TaskList::from_json(&JsonValue::empty_object()).unwrap();
    assert_eq!(msg.limit, 50);
    assert!(msg.status.is_none());
    assert!(msg.agent_id.is_none());
}

#[test]
fn serialize_pipeline_run_status() {
    let status = PipelineRunStatus::Running;
    let token = status.token();
    assert_eq!(token, "running");
    let de = PipelineRunStatus::parse_token(token).unwrap();
    assert_eq!(de, PipelineRunStatus::Running);

    let timed_out = PipelineRunStatus::TimedOut;
    let token = timed_out.token();
    assert_eq!(token, "timed_out");
    let json = JsonValue::Str(token.to_string()).to_text();
    assert_eq!(json, r#""timed_out""#);
}

#[test]
fn serialize_pipeline_stage_result() {
    let result = PipelineStageResult {
        run_id: s("run-001"),
        stage: PipelineStage::Learning,
        agent_id: s("learning-001"),
        status: PipelineRunStatus::Completed,
        artifact_id: s("artifact-xyz"),
        output: obj(vec![("candidates", JsonValue::Num(JsonNumber::from_u64(3)))]),
        error: None,
    };
    let json = result.to_json();
    let de = PipelineStageResult::from_json(&json).unwrap();
    assert_eq!(de.run_id, "run-001");
    assert_eq!(de.stage, PipelineStage::Learning);
    assert_eq!(de.status, PipelineRunStatus::Completed);
    assert!(de.error.is_none());
}

#[test]
fn serialize_pipeline_stage_result_with_error() {
    let result = PipelineStageResult {
        run_id: s("run-002"),
        stage: PipelineStage::Building,
        agent_id: s("building-001"),
        status: PipelineRunStatus::Failed,
        artifact_id: s(""),
        output: JsonValue::Null,
        error: Some(s("build failed: missing dependency")),
    };
    let json = result.to_json();
    let de = PipelineStageResult::from_json(&json).unwrap();
    assert_eq!(de.status, PipelineRunStatus::Failed);
    assert_eq!(de.error.unwrap(), "build failed: missing dependency");
}

#[test]
fn serialize_task_update_partial() {
    let msg = TaskUpdate {
        task_id: s("abc-123"),
        status: Some(TaskStatus::Completed),
        agent_id: None,
        payload: None,
    };
    let json = msg.to_json();
    let de = TaskUpdate::from_json(&json).unwrap();
    assert_eq!(de.task_id, "abc-123");
    assert_eq!(de.status, Some(TaskStatus::Completed));
    assert!(de.agent_id.is_none());
}

#[test]
fn deserialize_task_create_with_parent_id() {
    let wire = obj(vec![
        ("task_type", JsonValue::Str(s("subtask"))),
        ("parent_id", JsonValue::Str(s("abc-123"))),
    ]);
    let msg = TaskCreate::from_json(&wire).unwrap();
    assert_eq!(msg.parent_id, Some("abc-123".to_string()));
}

#[test]
fn deserialize_task_create_without_parent_id() {
    let wire = obj(vec![("task_type", JsonValue::Str(s("test")))]);
    let msg = TaskCreate::from_json(&wire).unwrap();
    assert!(msg.parent_id.is_none());
}

#[test]
fn deserialize_task_list_with_parent_id() {
    let wire = obj(vec![("parent_id", JsonValue::Str(s("parent-001")))]);
    let msg = TaskList::from_json(&wire).unwrap();
    assert_eq!(msg.parent_id, Some("parent-001".to_string()));
    assert_eq!(msg.limit, 50);
}

#[test]
fn serialize_memory_scope() {
    let scope = MemoryScope::Agent;
    let token = scope.token();
    assert_eq!(token, "agent");
    let de = MemoryScope::parse_token(token).unwrap();
    assert_eq!(de, MemoryScope::Agent);
}

#[test]
fn serialize_memory_category() {
    let cat = MemoryCategory::Pattern;
    let token = cat.token();
    assert_eq!(token, "pattern");
    let de = MemoryCategory::parse_token(token).unwrap();
    assert_eq!(de, MemoryCategory::Pattern);
}

#[test]
fn serialize_memory_store() {
    let msg = MemoryStore {
        scope: MemoryScope::Agent,
        category: MemoryCategory::Pattern,
        key: s("memory://agent/learning/api_pattern"),
        metadata: obj(vec![("source", JsonValue::Str(s("pipeline")))]),
        tags: vec![s("discovery"), s("api")],
        agent_id: s("learning-001"),
        run_id: s(""),
        skill_id: s(""),
        relevance_score: JsonNumber { neg: false, int_part: 0, frac: vec![8, 5] },
        tiers: vec![
            MemoryTierEntry { tier: s("l0"), content: s("API discovery pattern") },
            MemoryTierEntry { tier: s("l2"), content: s("Full detailed content...") },
        ],
        task_id: None,
    };
    let json = msg.to_json();
    let de = MemoryStore::from_json(&json).unwrap();
    assert_eq!(de.scope, MemoryScope::Agent);
    assert_eq!(de.category, MemoryCategory::Pattern);
    assert_eq!(de.tiers.len(), 2);
}

#[test]
fn deserialize_memory_query_defaults() {
    let wire = obj(vec![("query", JsonValue::Str(s("api discovery")))]);
    let msg = MemoryQuery::from_json(&wire).unwrap();
    assert_eq!(msg.limit, 20);
    assert!(msg.scope.is_none());
    assert!(msg.task_id.is_none());
}

#[test]
fn serialize_memory_changed() {
    let msg = MemoryChanged {
        action: s("created"),
        memory: None,
        memory_id: Some(s("mem-001")),
    };
    let json = msg.to_json();
    let de = MemoryChanged::from_json(&json).unwrap();
    assert_eq!(de.action, "created");
    assert_eq!(de.memory_id.unwrap(), "mem-001");
}

#[test]
fn deserialize_task_create_missing_type_fails() {
    let wire = obj(vec![("agent_id", JsonValue::Str(s("a-1")))]);
    assert_eq!(TaskCreate::from_json(&wire).unwrap_err(), SchemaError::MissingField);
}

#[test]
fn deserialize_task_list_wrong_limit_type_fails() {
    let wire = obj(vec![("limit", JsonValue::Str(s("many")))]);
    assert_eq!(TaskList::from_json(&wire).unwrap_err(), SchemaError::WrongType);
}

#[test]
fn deserialize_task_update_unknown_status_fails() {
    let wire = obj(vec![
        ("task_id", JsonValue::Str(s("t-1"))),
        ("status", JsonValue::Str(s("paused"))),
    ]);
    assert_eq!(TaskUpdate::from_json(&wire).unwrap_err(), SchemaError::UnknownVariant);
}

#[test]
fn deserialize_from_non_object_fails() {
    let wire = JsonValue::Str(s("not an object"));
    assert_eq!(TaskList::from_json(&wire).unwrap_err(), SchemaError::WrongShape);
}

#[test]
fn unknown_extra_fields_are_ignored() {
    let wire = obj(vec![
        ("task_type", JsonValue::Str(s("build"))),
        ("brand_new_field", JsonValue::Bool(true)),
    ]);
    let msg = TaskCreate::from_json(&wire).unwrap();
    assert_eq!(msg.task_type, "build");
}

#[test]
fn task_create_payload_defaults_to_empty_object() {
    let wire = obj(vec![("task_type", JsonValue::Str(s("build")))]);
    let msg = TaskCreate::from_json(&wire).unwrap();
    assert_eq!(msg.payload, JsonValue::empty_object());
}

#[test]
fn task_list_wire_text_is_exact() {
    let msg = TaskList { limit: 50, status: None, agent_id: None, parent_id: None };
    assert_eq!(
        msg.to_json().to_text(),
        r#"{"limit":50,"status":null,"agent_id":null,"parent_id":null}"#
    );
}

#[test]
fn wire_text_numbers_and_escapes() {
    assert_eq!(JsonValue::Num(JsonNumber { neg: false, int_part: 0, frac: vec![8, 5] }).to_text(), "0.85");
    assert_eq!(JsonValue::from_i64(-3).to_text(), "-3");
    assert_eq!(JsonValue::Num(JsonNumber::from_u64(1234567890)).to_text(), "1234567890");
    assert_eq!(JsonValue::Bool(true).to_text(), "true");
    assert_eq!(JsonValue::Null.to_text(), "null");
    assert_eq!(
        JsonValue::Str("say \"hi\"\n".to_string()).to_text(),
        r#""say \"hi\"\n""#
    );
    assert_eq!(
        JsonValue::Arr(vec![JsonValue::Bool(false), JsonValue::Str("x".to_string())]).to_text(),
        r#"[false,"x"]"#
    );
    assert_eq!(
        JsonValue::Str("\u{1}".to_string()).to_text(),
        r#""\u0001""#
    );
}
