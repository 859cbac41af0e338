//! Event taxonomy and room topology: the closed vocabulary of event names,
//! their stable wire strings, and the room-addressing scheme that scopes
//! delivery. The set is compile-time checked so a typo cannot silently
//! create a new, unroutable event; names are only ever added, never
//! repurposed.

use vstd::prelude::*;
use vstd::string::*;
use crate::json::str_eq;
use crate::pipeline::PipelineStage;
use crate::roles::AgentRole;

verus! {

/// Every event name the protocol defines.
#[derive(Clone, Copy, Debug, PartialEq, Eq, Structural)]
pub enum EventName {
    AgentRegister,
    AgentStatus,
    AgentSkillReport,
    AgentHealth,
    KingCommand,
    KingConfigUpdate,
    PipelineNext,
    PipelineStageResult,
    TaskCreate,
    TaskUpdate,
    TaskGet,
    TaskList,
    TaskDelete,
    TaskChanged,
    TaskInvite,
    TaskJoin,
    TaskOutput,
    TaskEvaluate,
    TaskSummary,
    TaskLog,
    MemoryStore,
    MemoryQuery,
    MemoryUpdate,
    MemoryDelete,
    MemoryChanged,
    DebugPrompt,
    DebugResponse,
    DebugStream,
}

impl EventName {
    /// The stable, versionless wire string (`domain:action`).
    pub open spec fn spec_wire(self) -> Seq<char> {
        match self {
            EventName::AgentRegister => "agent:register"@,
            EventName::AgentStatus => "agent:status"@,
            EventName::AgentSkillReport => "agent:skill_report"@,
            EventName::AgentHealth => "agent:health"@,
            EventName::KingCommand => "king:command"@,
            EventName::KingConfigUpdate => "king:config_update"@,
            EventName::PipelineNext => "pipeline:next"@,
            EventName::PipelineStageResult => "pipeline:stage_result"@,
            EventName::TaskCreate => "task:create"@,
            EventName::TaskUpdate => "task:update"@,
            EventName::TaskGet => "task:get"@,
            EventName::TaskList => "task:list"@,
            EventName::TaskDelete => "task:delete"@,
            EventName::TaskChanged => "task:changed"@,
            EventName::TaskInvite => "task:invite"@,
            EventName::TaskJoin => "task:join"@,
            EventName::TaskOutput => "task:output"@,
            EventName::TaskEvaluate => "task:evaluate"@,
            EventName::TaskSummary => "task:summary"@,
            EventName::TaskLog => "task:log"@,
            EventName::MemoryStore => "memory:store"@,
            EventName::MemoryQuery => "memory:query"@,
            EventName::MemoryUpdate => "memory:update"@,
            EventName::MemoryDelete => "memory:delete"@,
            EventName::MemoryChanged => "memory:changed"@,
            EventName::DebugPrompt => "debug:prompt"@,
            EventName::DebugResponse => "debug:response"@,
            EventName::DebugStream => "debug:stream"@,
        }
    }

    /// The event a wire string names, if any.
    pub open spec fn spec_parse(s: Seq<char>) -> Option<EventName> {
        if s == "agent:register"@ {
            Some(EventName::AgentRegister)
        } else if s == "agent:status"@ {
            Some(EventName::AgentStatus)
        } else if s == "agent:skill_report"@ {
            Some(EventName::AgentSkillReport)
        } else if s == "agent:health"@ {
            Some(EventName::AgentHealth)
        } else if s == "king:command"@ {
            Some(EventName::KingCommand)
        } else if s == "king:config_update"@ {
            Some(EventName::KingConfigUpdate)
        } else if s == "pipeline:next"@ {
            Some(EventName::PipelineNext)
        } else if s == "pipeline:stage_result"@ {
            Some(EventName::PipelineStageResult)
        } else if s == "task:create"@ {
            Some(EventName::TaskCreate)
        } else if s == "task:update"@ {
            Some(EventName::TaskUpdate)
        } else if s == "task:get"@ {
            Some(EventName::TaskGet)
        } else if s == "task:list"@ {
            Some(EventName::TaskList)
        } else if s == "task:delete"@ {
            Some(EventName::TaskDelete)
        } else if s == "task:changed"@ {
            Some(EventName::TaskChanged)
        } else if s == "task:invite"@ {
            Some(EventName::TaskInvite)
        } else if s == "task:join"@ {
            Some(EventName::TaskJoin)
        } else if s == "task:output"@ {
            Some(EventName::TaskOutput)
        } else if s == "task:evaluate"@ {
            Some(EventName::TaskEvaluate)
        } else if s == "task:summary"@ {
            Some(EventName::TaskSummary)
        } else if s == "task:log"@ {
            Some(EventName::TaskLog)
        } else if s == "memory:store"@ {
            Some(EventName::MemoryStore)
        } else if s == "memory:query"@ {
            Some(EventName::MemoryQuery)
        } else if s == "memory:update"@ {
            Some(EventName::MemoryUpdate)
        } else if s == "memory:delete"@ {
            Some(EventName::MemoryDelete)
        } else if s == "memory:changed"@ {
            Some(EventName::MemoryChanged)
        } else if s == "debug:prompt"@ {
            Some(EventName::DebugPrompt)
        } else if s == "debug:response"@ {
            Some(EventName::DebugResponse)
        } else if s == "debug:stream"@ {
            Some(EventName::DebugStream)
        } else {
            None
        }
    }

    /// The stable, versionless wire string (`domain:action`).
    pub fn wire(&self) -> (r: &'static str)
        ensures
            r@ == self.spec_wire(),
    {
        match self {
            EventName::AgentRegister => "agent:register",
            EventName::AgentStatus => "agent:status",
            EventName::AgentSkillReport => "agent:skill_report",
            EventName::AgentHealth => "agent:health",
            EventName::KingCommand => "king:command",
            EventName::KingConfigUpdate => "king:config_update",
            EventName::PipelineNext => "pipeline:next",
            EventName::PipelineStageResult => "pipeline:stage_result",
            EventName::TaskCreate => "task:create",
            EventName::TaskUpdate => "task:update",
            EventName::TaskGet => "task:get",
            EventName::TaskList => "task:list",
            EventName::TaskDelete => "task:delete",
            EventName::TaskChanged => "task:changed",
            EventName::TaskInvite => "task:invite",
            EventName::TaskJoin => "task:join",
            EventName::TaskOutput => "task:output",
            EventName::TaskEvaluate => "task:evaluate",
            EventName::TaskSummary => "task:summary",
            EventName::TaskLog => "task:log",
            EventName::MemoryStore => "memory:store",
            EventName::MemoryQuery => "memory:query",
            EventName::MemoryUpdate => "memory:update",
            EventName::MemoryDelete => "memory:delete",
            EventName::MemoryChanged => "memory:changed",
            EventName::DebugPrompt => "debug:prompt",
            EventName::DebugResponse => "debug:response",
            EventName::DebugStream => "debug:stream",
        }
    }

    /// Parse a wire string back into the closed event set.
    pub fn parse_wire(s: &str) -> (r: Option<EventName>)
        ensures
            r == EventName::spec_parse(s@),
    {
        if str_eq(s, "agent:register") {
            Some(EventName::AgentRegister)
        } else if str_eq(s, "agent:status") {
            Some(EventName::AgentStatus)
        } else if str_eq(s, "agent:skill_report") {
            Some(EventName::AgentSkillReport)
        } else if str_eq(s, "agent:health") {
            Some(EventName::AgentHealth)
        } else if str_eq(s, "king:command") {
            Some(EventName::KingCommand)
        } else if str_eq(s, "king:config_update") {
            Some(EventName::KingConfigUpdate)
        } else if str_eq(s, "pipeline:next") {
            Some(EventName::PipelineNext)
        } else if str_eq(s, "pipeline:stage_result") {
            Some(EventName::PipelineStageResult)
        } else if str_eq(s, "task:create") {
            Some(EventName::TaskCreate)
        } else if str_eq(s, "task:update") {
            Some(EventName::TaskUpdate)
        } else if str_eq(s, "task:get") {
            Some(EventName::TaskGet)
        } else if str_eq(s, "task:list") {
            Some(EventName::TaskList)
        } else if str_eq(s, "task:delete") {
            Some(EventName::TaskDelete)
        } else if str_eq(s, "task:changed") {
            Some(EventName::TaskChanged)
        } else if str_eq(s, "task:invite") {
            Some(EventName::TaskInvite)
        } else if str_eq(s, "task:join") {
            Some(EventName::TaskJoin)
        } else if str_eq(s, "task:output") {
            Some(EventName::TaskOutput)
        } else if str_eq(s, "task:evaluate") {
            Some(EventName::TaskEvaluate)
        } else if str_eq(s, "task:summary") {
            Some(EventName::TaskSummary)
        } else if str_eq(s, "task:log") {
            Some(EventName::TaskLog)
        } else if str_eq(s, "memory:store") {
            Some(EventName::MemoryStore)
        } else if str_eq(s, "memory:query") {
            Some(EventName::MemoryQuery)
        } else if str_eq(s, "memory:update") {
            Some(EventName::MemoryUpdate)
        } else if str_eq(s, "memory:delete") {
            Some(EventName::MemoryDelete)
        } else if str_eq(s, "memory:changed") {
            Some(EventName::MemoryChanged)
        } else if str_eq(s, "debug:prompt") {
            Some(EventName::DebugPrompt)
        } else if str_eq(s, "debug:response") {
            Some(EventName::DebugResponse)
        } else if str_eq(s, "debug:stream") {
            Some(EventName::DebugStream)
        } else {
            None
        }
    }
}

/// Every event name decodes back from its own wire string; the wire strings
/// are therefore pairwise distinct.
pub proof fn lemma_event_name_round_trip(e: EventName)
    ensures
        EventName::spec_parse(e.spec_wire()) == Some(e),
{
    reveal_strlit("agent:register");
    reveal_strlit("agent:status");
    reveal_strlit("agent:skill_report");
    reveal_strlit("agent:health");
    reveal_strlit("king:command");
    reveal_strlit("king:config_update");
    reveal_strlit("pipeline:next");
    reveal_strlit("pipeline:stage_result");
    reveal_strlit("task:create");
    reveal_strlit("task:update");
    reveal_strlit("task:get");
    reveal_strlit("task:list");
    reveal_strlit("task:delete");
    reveal_strlit("task:changed");
    reveal_strlit("task:invite");
    reveal_strlit("task:join");
    reveal_strlit("task:output");
    reveal_strlit("task:evaluate");
    reveal_strlit("task:summary");
    reveal_strlit("task:log");
    reveal_strlit("memory:store");
    reveal_strlit("memory:query");
    reveal_strlit("memory:update");
    reveal_strlit("memory:delete");
    reveal_strlit("memory:changed");
    reveal_strlit("debug:prompt");
    reveal_strlit("debug:response");
    reveal_strlit("debug:stream");
    assert("agent:register"@.len() == 14);
    assert("agent:status"@.len() == 12);
    assert("agent:skill_report"@.len() == 18);
    assert("agent:health"@.len() == 12);
    assert("king:command"@.len() == 12);
    assert("king:config_update"@.len() == 18);
    assert("pipeline:next"@.len() == 13);
    assert("pipeline:stage_result"@.len() == 21);
    assert("task:create"@.len() == 11);
    assert("task:update"@.len() == 11);
    assert("task:get"@.len() == 8);
    assert("task:list"@.len() == 9);
    assert("task:delete"@.len() == 11);
    assert("task:changed"@.len() == 12);
    assert("task:invite"@.len() == 11);
    assert("task:join"@.len() == 9);
    assert("task:output"@.len() == 11);
    assert("task:evaluate"@.len() == 13);
    assert("task:summary"@.len() == 12);
    assert("task:log"@.len() == 8);
    assert("memory:store"@.len() == 12);
    assert("memory:query"@.len() == 12);
    assert("memory:update"@.len() == 13);
    assert("memory:delete"@.len() == 13);
    assert("memory:changed"@.len() == 14);
    assert("debug:prompt"@.len() == 12);
    assert("debug:response"@.len() == 14);
    assert("debug:stream"@.len() == 12);
    assert("task:get"@[5] == 'g' && "task:log"@[5] == 'l');
    assert("task:list"@[5] == 'l' && "task:join"@[5] == 'j');
    assert("task:create"@[5] == 'c' && "task:update"@[5] == 'u' && "task:delete"@[5] == 'd'
        && "task:invite"@[5] == 'i' && "task:output"@[5] == 'o');
    assert("agent:status"@[0] == 'a' && "agent:health"@[0] == 'a' && "king:command"@[0] == 'k'
        && "task:changed"@[0] == 't' && "task:summary"@[0] == 't' && "memory:store"@[0] == 'm'
        && "memory:query"@[0] == 'm' && "debug:prompt"@[0] == 'd' && "debug:stream"@[0] == 'd');
    assert("agent:status"@[6] == 's' && "agent:health"@[6] == 'h');
    assert("task:changed"@[5] == 'c' && "task:summary"@[5] == 's');
    assert("memory:store"@[7] == 's' && "memory:query"@[7] == 'q');
    assert("debug:prompt"@[6] == 'p' && "debug:stream"@[6] == 's');
    assert("pipeline:next"@[0] == 'p' && "task:evaluate"@[0] == 't' && "memory:update"@[0] == 'm'
        && "memory:delete"@[0] == 'm');
    assert("memory:update"@[7] == 'u' && "memory:delete"@[7] == 'd');
    assert("agent:register"@[0] == 'a' && "memory:changed"@[0] == 'm'
        && "debug:response"@[0] == 'd');
    assert("agent:skill_report"@[0] == 'a' && "king:config_update"@[0] == 'k');
}

/// The single room every king-side coordinator listens to.
pub fn kernel_room() -> (r: &'static str)
    ensures
        r@ == "kernel"@,
{
    "kernel"
}

/// The per-role room: `role:<role token>`. Pipeline hand-offs and command
/// dispatch for a role are delivered here.
pub fn role_room(role: &AgentRole) -> (r: String)
    ensures
        r@ == "role:"@ + role@.spec_token(),
{
    let mut s = String::from_str("role:");
    match role {
        AgentRole::User(label) => s.append(label.as_str()),
        _ => s.append(role.token()),
    }
    s
}

/// The per-task room: `task:<task_id>`. Room-scoped streaming for one task
/// or run is delivered here.
pub fn task_room_name(task_id: &str) -> (r: String)
    ensures
        r@ == "task:"@ + task_id@,
{
    let mut s = String::from_str("task:");
    s.append(task_id);
    s
}

/// Routing for a pipeline hand-off is a pure function of message content: a
/// `pipeline:next` carrying a stage is delivered to that stage's role room.
pub fn pipeline_next_room(stage: &PipelineStage) -> (r: String)
    ensures
        r@ == "role:"@ + stage.spec_token(),
{
    let mut s = String::from_str("role:");
    s.append(stage.token());
    s
}

} // verus!
