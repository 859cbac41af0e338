use evo_protocol::config::ProviderType;
use evo_protocol::events::{kernel_room, pipeline_next_room, role_room, task_room_name, EventName};
use evo_protocol::json::{JsonNumber, JsonValue, SchemaError};
use evo_protocol::memory::{MemoryChanged, MemoryRecord, MemoryTierRecord};
use evo_protocol::pipeline::PipelineStage;
use evo_protocol::roles::{
    AgentHealth, AgentRegister, AgentRole, AgentSkillReport, AgentStatus, HealthCheck,
    KingCommand, KingConfigUpdate, RunnerStatus, SkillResult,
};
use evo_protocol::room::{TaskEvaluate, TaskSummary};
use evo_protocol::skill::HttpMethod;
use evo_protocol::task::TaskRecord;

fn s(text: &str) -> String {
    text.to_string()
}

fn obj(entries: Vec<(&str, JsonValue)>) -> JsonValue {
    JsonValue::Obj(entries.into_iter().map(|(k, v)| (k.to_string(), v)).collect())
}

#[test]
fn user_role_round_trips_as_tagged_value() {
    let role = AgentRole::User(s("qa-bot"));
    let json = role.to_json();
    assert_eq!(json, obj(vec![("user", JsonValue::Str(s("qa-bot")))]));
    let de = AgentRole::from_json(&json).unwrap();
    assert_eq!(de, AgentRole::User(s("qa-bot")));
}

#[test]
fn unknown_role_string_fails_with_schema_error() {
    let wire = JsonValue::Str(s("qa-bot"));
    assert_eq!(AgentRole::from_json(&wire).unwrap_err(), SchemaError::UnknownVariant);
}

#[test]
fn fixed_role_tokens_round_trip() {
    for role in [
        AgentRole::SkillManage,
        AgentRole::Learning,
        AgentRole::PreLoad,
        AgentRole::Building,
        AgentRole::Evaluation,
    ] {
        let de = AgentRole::parse_token(role.token()).unwrap();
        assert_eq!(de, role);
    }
    assert_eq!(AgentRole::PreLoad.token(), "pre_load");
    assert_eq!(AgentRole::SkillManage.token(), "skill_manage");
}

#[test]
fn skill_result_round_trips_with_reason() {
    for result in [
        SkillResult::Success,
        SkillResult::Failure(s("missing dependency")),
        SkillResult::Partial(s("3 of 5 checks passed")),
    ] {
        let json = result.to_json();
        let de = SkillResult::from_json(&json).unwrap();
        assert_eq!(de, result);
    }
}

#[test]
fn runner_status_tokens_round_trip() {
    for status in [
        RunnerStatus::Starting,
        RunnerStatus::Ready,
        RunnerStatus::Busy,
        RunnerStatus::Error,
        RunnerStatus::Shutting,
    ] {
        assert_eq!(RunnerStatus::parse_token(status.token()), Some(status));
    }
    assert_eq!(RunnerStatus::parse_token("sleeping"), None);
}

#[test]
fn event_names_are_the_stable_wire_strings() {
    assert_eq!(EventName::AgentRegister.wire(), "agent:register");
    assert_eq!(EventName::AgentSkillReport.wire(), "agent:skill_report");
    assert_eq!(EventName::KingConfigUpdate.wire(), "king:config_update");
    assert_eq!(EventName::PipelineNext.wire(), "pipeline:next");
    assert_eq!(EventName::PipelineStageResult.wire(), "pipeline:stage_result");
    assert_eq!(EventName::TaskCreate.wire(), "task:create");
    assert_eq!(EventName::TaskChanged.wire(), "task:changed");
    assert_eq!(EventName::TaskInvite.wire(), "task:invite");
    assert_eq!(EventName::TaskSummary.wire(), "task:summary");
    assert_eq!(EventName::MemoryStore.wire(), "memory:store");
    assert_eq!(EventName::MemoryChanged.wire(), "memory:changed");
    assert_eq!(EventName::DebugStream.wire(), "debug:stream");
}

#[test]
fn event_names_parse_back() {
    let all = [
        EventName::AgentRegister,
        EventName::AgentStatus,
        EventName::AgentSkillReport,
        EventName::AgentHealth,
        EventName::KingCommand,
        EventName::KingConfigUpdate,
        EventName::PipelineNext,
        EventName::PipelineStageResult,
        EventName::TaskCreate,
        EventName::TaskUpdate,
        EventName::TaskGet,
        EventName::TaskList,
        EventName::TaskDelete,
        EventName::TaskChanged,
        EventName::TaskInvite,
        EventName::TaskJoin,
        EventName::TaskOutput,
        EventName::TaskEvaluate,
        EventName::TaskSummary,
        EventName::TaskLog,
        EventName::MemoryStore,
        EventName::MemoryQuery,
        EventName::MemoryUpdate,
        EventName::MemoryDelete,
        EventName::MemoryChanged,
        EventName::DebugPrompt,
        EventName::DebugResponse,
        EventName::DebugStream,
    ];
    for e in all {
        assert_eq!(EventName::parse_wire(e.wire()), Some(e));
    }
    assert_eq!(EventName::parse_wire("task:rename"), None);
}

#[test]
fn rooms_derive_from_message_content() {
    assert_eq!(kernel_room(), "kernel");
    assert_eq!(role_room(&AgentRole::Building), "role:building");
    assert_eq!(role_room(&AgentRole::User(s("qa-bot"))), "role:qa-bot");
    assert_eq!(task_room_name("abc-123"), "task:abc-123");
    assert_eq!(pipeline_next_room(&PipelineStage::Building), "role:building");
    assert_eq!(pipeline_next_room(&PipelineStage::PreLoad), "role:pre_load");
}

#[test]
fn provider_type_tokens_round_trip() {
    for t in [
        ProviderType::OpenAiCompatible,
        ProviderType::Anthropic,
        ProviderType::Cursor,
        ProviderType::ClaudeCode,
        ProviderType::CodexCli,
    ] {
        assert_eq!(ProviderType::parse_token(t.token()), Some(t));
    }
    assert_eq!(ProviderType::ClaudeCode.token(), "claude_code");
    assert_eq!(ProviderType::CodexCli.token(), "codex_cli");
    assert_eq!(ProviderType::Cursor.token(), "cursor");
    assert_eq!(ProviderType::default(), ProviderType::OpenAiCompatible);
}

#[test]
fn http_method_tokens_are_upper_case() {
    assert_eq!(HttpMethod::Get.token(), "GET");
    assert_eq!(HttpMethod::parse_token("GET"), Some(HttpMethod::Get));
    assert_eq!(HttpMethod::parse_token("get"), None);
    assert_eq!(HttpMethod::Patch.token(), "PATCH");
}

#[test]
fn agent_status_round_trips() {
    let msg = AgentStatus {
        agent_id: s("builder-1"),
        status: RunnerStatus::Busy,
        metrics: obj(vec![("queue_depth", JsonValue::Num(JsonNumber::from_u64(4)))]),
    };
    let json = msg.to_json();
    let de = AgentStatus::from_json(&json).unwrap();
    assert_eq!(de.agent_id, "builder-1");
    assert_eq!(de.status, RunnerStatus::Busy);
    assert_eq!(de.metrics, msg.metrics);
}

#[test]
fn agent_skill_report_round_trips() {
    let msg = AgentSkillReport {
        agent_id: s("evaluation-001"),
        skill_id: s("web-search"),
        result: SkillResult::Partial(s("flaky endpoint")),
        score: Some(JsonNumber { neg: false, int_part: 0, frac: vec![7, 5] }),
    };
    let json = msg.to_json();
    let de = AgentSkillReport::from_json(&json).unwrap();
    assert_eq!(de.skill_id, "web-search");
    assert_eq!(de.result, SkillResult::Partial(s("flaky endpoint")));
    assert_eq!(de.score, msg.score);
}

#[test]
fn agent_health_round_trips() {
    let msg = AgentHealth {
        agent_id: s("preload-1"),
        health_checks: vec![
            HealthCheck {
                name: s("db"),
                endpoint: s("postgres://localhost"),
                healthy: true,
                latency_ms: Some(12),
                error: None,
            },
            HealthCheck {
                name: s("bus"),
                endpoint: s("ws://localhost:9000"),
                healthy: false,
                latency_ms: None,
                error: Some(s("connection refused")),
            },
        ],
    };
    let json = msg.to_json();
    let de = AgentHealth::from_json(&json).unwrap();
    assert_eq!(de.health_checks.len(), 2);
    assert!(de.health_checks[0].healthy);
    assert_eq!(de.health_checks[0].latency_ms, Some(12));
    assert_eq!(de.health_checks[1].error.as_deref(), Some("connection refused"));
}

#[test]
fn king_messages_round_trip() {
    let cmd = KingCommand {
        command: s("drain"),
        target_agent: s("building-001"),
        params: obj(vec![("grace_seconds", JsonValue::Num(JsonNumber::from_u64(30)))]),
    };
    let de = KingCommand::from_json(&cmd.to_json()).unwrap();
    assert_eq!(de.command, "drain");
    assert_eq!(de.target_agent, "building-001");

    let upd = KingConfigUpdate { config_type: s("gateway"), new_config_hash: s("sha256:abcd") };
    let de = KingConfigUpdate::from_json(&upd.to_json()).unwrap();
    assert_eq!(de.config_type, "gateway");
    assert_eq!(de.new_config_hash, "sha256:abcd");
}

#[test]
fn task_evaluate_and_summary_round_trip() {
    let eval = TaskEvaluate {
        task_id: s("t-9"),
        task_type: s("shell"),
        output_summary: s("ran 4 commands"),
        exit_code: Some(-1),
        latency_ms: Some(532),
        metadata: JsonValue::Null,
    };
    let de = TaskEvaluate::from_json(&eval.to_json()).unwrap();
    assert_eq!(de.exit_code, Some(-1));
    assert_eq!(de.latency_ms, Some(532));
    assert_eq!(de.output_summary, "ran 4 commands");

    let summary = TaskSummary {
        task_id: s("t-9"),
        agent_id: s("evaluation-001"),
        summary: s("adequate"),
        score: Some(JsonNumber { neg: false, int_part: 0, frac: vec![9] }),
        tags: vec![s("shell"), s("fast")],
        evaluation: JsonValue::Null,
    };
    let de = TaskSummary::from_json(&summary.to_json()).unwrap();
    assert_eq!(de.summary, "adequate");
    assert_eq!(de.tags, vec![s("shell"), s("fast")]);
    assert_eq!(de.score, summary.score);
}

#[test]
fn task_record_round_trips() {
    let rec = TaskRecord {
        id: s("t-1"),
        task_type: s("build"),
        status: s("in_progress"),
        agent_id: s("building-001"),
        payload: JsonValue::empty_object(),
        parent_id: s(""),
        created_at: s("2024-01-01T00:00:00Z"),
        updated_at: s("2024-01-01T00:01:00Z"),
    };
    let de = TaskRecord::from_json(&rec.to_json()).unwrap();
    assert_eq!(de.id, "t-1");
    assert_eq!(de.status, "in_progress");
    assert_eq!(de.parent_id, "");
}

#[test]
fn memory_changed_with_full_record_round_trips() {
    let record = MemoryRecord {
        id: s("mem-7"),
        scope: s("agent"),
        category: s("pattern"),
        key: s("mem://x"),
        tiers: vec![MemoryTierRecord {
            id: s("tier-1"),
            memory_id: s("mem-7"),
            tier: s("l0"),
            content: s("summary"),
            created_at: s("2024-01-01T00:00:00Z"),
            updated_at: s("2024-01-01T00:00:00Z"),
        }],
        metadata: JsonValue::empty_object(),
        tags: vec![s("api")],
        agent_id: s("learning-001"),
        run_id: s(""),
        skill_id: s(""),
        relevance_score: JsonNumber { neg: false, int_part: 0, frac: vec![8, 5] },
        access_count: 3,
        created_at: s("2024-01-01T00:00:00Z"),
        updated_at: s("2024-01-02T00:00:00Z"),
    };
    let msg = MemoryChanged { action: s("updated"), memory: Some(record), memory_id: None };
    let de = MemoryChanged::from_json(&msg.to_json()).unwrap();
    assert_eq!(de.action, "updated");
    let got = de.memory.unwrap();
    assert_eq!(got.id, "mem-7");
    assert_eq!(got.tiers.len(), 1);
    assert_eq!(got.tiers[0].content, "summary");
    assert_eq!(got.access_count, 3);
    assert_eq!(got.relevance_score, JsonNumber { neg: false, int_part: 0, frac: vec![8, 5] });
}

#[test]
fn default_limits_are_fixed() {
    assert_eq!(evo_protocol::default_task_limit(), 50);
    assert_eq!(evo_protocol::default_memory_limit(), 20);
}

#[test]
fn json_number_integer_extraction() {
    let n = JsonNumber::from_u64(u32::MAX as u64);
    assert_eq!(n.as_u32(), Some(u32::MAX));
    let n = JsonNumber::from_u64(u32::MAX as u64 + 1);
    assert_eq!(n.as_u32(), None);
    assert_eq!(n.as_u64(), Some(u32::MAX as u64 + 1));
    let frac = JsonNumber { neg: false, int_part: 1, frac: vec![5] };
    assert_eq!(frac.as_u64(), None);
    let neg = JsonNumber { neg: true, int_part: 1, frac: vec![] };
    assert_eq!(neg.as_u64(), None);
}

#[test]
fn missing_required_register_fields_fail() {
    let wire = obj(vec![("agent_id", JsonValue::Str(s("a-1")))]);
    assert_eq!(AgentRegister::from_json(&wire).unwrap_err(), SchemaError::MissingField);
    let wire = obj(vec![
        ("agent_id", JsonValue::Str(s("a-1"))),
        ("role", JsonValue::Str(s("learning"))),
        ("capabilities", JsonValue::Str(s("oops"))),
    ]);
    assert_eq!(AgentRegister::from_json(&wire).unwrap_err(), SchemaError::WrongType);
}
