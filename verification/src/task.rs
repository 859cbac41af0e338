//! Task lifecycle: the status vocabulary, the legal transition set, and the
//! application of a `TaskUpdate` to a task.
//!
//! States move `Pending -> InProgress -> {Completed | Failed | Cancelled}`.
//! An in-progress task may be released back to `Pending`. Re-applying the
//! status a task already has is always legal, so a redelivered update is
//! idempotent by value. The terminal states accept no update at all: this
//! library rejects even non-status mutation after a terminal state (one of
//! the two policies the protocol leaves open; deletion stays unconditional).

use vstd::prelude::*;
use vstd::string::*;
use crate::json::{
    JVal, JsonValue, SchemaError, str_eq, jval_of_opt_string, jnum_of_u32,
    spec_req_string, spec_opt_string, spec_string_or_empty, spec_u32_or,
    spec_value_or_empty_object, spec_opt_value, spec_req_value, lemma_obj_get_at,
    lemma_obj_get_none,
};

verus! {

/// Lifecycle state of a unit of schedulable work.
#[derive(Clone, Copy, Debug, PartialEq, Eq, Structural)]
pub enum TaskStatus {
    Pending,
    InProgress,
    Completed,
    Failed,
    Cancelled,
}

impl TaskStatus {
    /// Wire token.
    pub open spec fn spec_token(self) -> Seq<char> {
        match self {
            TaskStatus::Pending => "pending"@,
            TaskStatus::InProgress => "in_progress"@,
            TaskStatus::Completed => "completed"@,
            TaskStatus::Failed => "failed"@,
            TaskStatus::Cancelled => "cancelled"@,
        }
    }

    /// The status a wire token names, if any.
    pub open spec fn spec_parse(s: Seq<char>) -> Option<TaskStatus> {
        if s == "pending"@ {
            Some(TaskStatus::Pending)
        } else if s == "in_progress"@ {
            Some(TaskStatus::InProgress)
        } else if s == "completed"@ {
            Some(TaskStatus::Completed)
        } else if s == "failed"@ {
            Some(TaskStatus::Failed)
        } else if s == "cancelled"@ {
            Some(TaskStatus::Cancelled)
        } else {
            None
        }
    }

    /// Wire token.
    pub fn token(&self) -> (r: &'static str)
        ensures
            r@ == self.spec_token(),
    {
        match self {
            TaskStatus::Pending => "pending",
            TaskStatus::InProgress => "in_progress",
            TaskStatus::Completed => "completed",
            TaskStatus::Failed => "failed",
            TaskStatus::Cancelled => "cancelled",
        }
    }

    /// Parse a wire token.
    pub fn parse_token(s: &str) -> (r: Option<TaskStatus>)
        ensures
            r == TaskStatus::spec_parse(s@),
    {
        if str_eq(s, "pending") {
            Some(TaskStatus::Pending)
        } else if str_eq(s, "in_progress") {
            Some(TaskStatus::InProgress)
        } else if str_eq(s, "completed") {
            Some(TaskStatus::Completed)
        } else if str_eq(s, "failed") {
            Some(TaskStatus::Failed)
        } else if str_eq(s, "cancelled") {
            Some(TaskStatus::Cancelled)
        } else {
            None
        }
    }

    /// A terminal state: the task's work is over, successfully or not.
    pub open spec fn spec_is_terminal(self) -> bool {
        match self {
            TaskStatus::Completed | TaskStatus::Failed | TaskStatus::Cancelled => true,
            _ => false,
        }
    }

    /// A terminal state: the task's work is over, successfully or not.
    pub fn is_terminal(&self) -> (r: bool)
        ensures
            r == self.spec_is_terminal(),
    {
        match self {
            TaskStatus::Completed | TaskStatus::Failed | TaskStatus::Cancelled => true,
            _ => false,
        }
    }

    /// The legal transition set. Setting the status a task already has is
    /// legal everywhere (idempotent redelivery); otherwise a pending task
    /// can only be claimed, and an in-progress task can be released back to
    /// pending or finish in exactly one terminal state.
    pub open spec fn spec_can_transition(from: TaskStatus, to: TaskStatus) -> bool {
        ||| from == to
        ||| (from == TaskStatus::Pending && to == TaskStatus::InProgress)
        ||| (from == TaskStatus::InProgress && (to == TaskStatus::Pending
            || to == TaskStatus::Completed || to == TaskStatus::Failed
            || to == TaskStatus::Cancelled))
    }

    /// Whether a status update from `from` to `to` is legal.
    pub fn can_transition(from: TaskStatus, to: TaskStatus) -> (r: bool)
        ensures
            r == TaskStatus::spec_can_transition(from, to),
    {
        if from == to {
            true
        } else {
            match (from, to) {
                (TaskStatus::Pending, TaskStatus::InProgress) => true,
                (TaskStatus::InProgress, TaskStatus::Pending) => true,
                (TaskStatus::InProgress, TaskStatus::Completed) => true,
                (TaskStatus::InProgress, TaskStatus::Failed) => true,
                (TaskStatus::InProgress, TaskStatus::Cancelled) => true,
                _ => false,
            }
        }
    }
}

/// Every task status decodes back from its own wire token.
pub proof fn lemma_task_status_round_trip(s: TaskStatus)
    ensures
        TaskStatus::spec_parse(s.spec_token()) == Some(s),
{
    reveal_strlit("pending");
    reveal_strlit("in_progress");
    reveal_strlit("completed");
    reveal_strlit("failed");
    reveal_strlit("cancelled");
    assert("pending"@.len() == 7);
    assert("in_progress"@.len() == 11);
    assert("completed"@.len() == 9);
    assert("failed"@.len() == 6);
    assert("cancelled"@.len() == 9);
    assert("completed"@[1] != "cancelled"@[1]);
}

/// Optional task-status field: absent or `null` is `None`; a string must
/// name a known status.
pub open spec fn spec_opt_status(v: JVal, key: Seq<char>) -> Result<
    Option<TaskStatus>,
    SchemaError,
> {
    match v.get(key) {
        Some(JVal::Str(s)) => match TaskStatus::spec_parse(s) {
            Some(st) => Ok(Some(st)),
            None => Err(SchemaError::UnknownVariant),
        },
        Some(JVal::Null) => Ok(None),
        Some(_) => Err(SchemaError::WrongType),
        None => Ok(None),
    }
}

/// Optional task-status field of a wire object.
pub fn opt_status_field(v: &JsonValue, key: &str) -> (r: Result<Option<TaskStatus>, SchemaError>)
    ensures
        match r {
            Ok(st) => spec_opt_status(v@, key@) == Ok::<Option<TaskStatus>, SchemaError>(st),
            Err(e) => spec_opt_status(v@, key@) == Err::<Option<TaskStatus>, SchemaError>(e),
        },
{
    match v.get(key) {
        Some(JsonValue::Str(s)) => match TaskStatus::parse_token(s.as_str()) {
            Some(st) => Ok(Some(st)),
            None => Err(SchemaError::UnknownVariant),
        },
        Some(JsonValue::Null) => Ok(None),
        Some(_) => Err(SchemaError::WrongType),
        None => Ok(None),
    }
}

/// Request for a page of tasks, with optional filters. A message that omits
/// `limit` means 50; the filters default to absent.
#[derive(Debug)]
pub struct TaskList {
    pub limit: u32,
    pub status: Option<TaskStatus>,
    pub agent_id: Option<String>,
    pub parent_id: Option<String>,
}

/// Mathematical form of a [`TaskList`].
pub struct TaskListV {
    pub limit: u32,
    pub status: Option<TaskStatus>,
    pub agent_id: Option<Seq<char>>,
    pub parent_id: Option<Seq<char>>,
}

impl View for TaskList {
    type V = TaskListV;

    open spec fn view(&self) -> TaskListV {
        TaskListV {
            limit: self.limit,
            status: self.status,
            agent_id: match self.agent_id {
                Some(a) => Some(a@),
                None => None,
            },
            parent_id: match self.parent_id {
                Some(p) => Some(p@),
                None => None,
            },
        }
    }
}

impl TaskListV {
    /// Wire encoding: every field written out, absent options as `null`.
    pub open spec fn spec_to_json(self) -> JVal {
        JVal::Obj(
            seq![
                ("limit"@, JVal::Num(jnum_of_u32(self.limit))),
                ("status"@, match self.status {
                    Some(st) => JVal::Str(st.spec_token()),
                    None => JVal::Null,
                }),
                ("agent_id"@, jval_of_opt_string(self.agent_id)),
                ("parent_id"@, jval_of_opt_string(self.parent_id)),
            ],
        )
    }

    /// Decoding, with the protocol's defaulting rules: a missing `limit`
    /// means 50, missing filters mean no filter, unknown extra fields are
    /// ignored, and a field of the wrong type is a schema error.
    pub open spec fn spec_from_json(v: JVal) -> Result<TaskListV, SchemaError> {
        if !(v is Obj) {
            Err(SchemaError::WrongShape)
        } else {
            match spec_u32_or(v, "limit"@, 50) {
                Err(e) => Err(e),
                Ok(limit) => match spec_opt_status(v, "status"@) {
                    Err(e) => Err(e),
                    Ok(status) => match spec_opt_string(v, "agent_id"@) {
                        Err(e) => Err(e),
                        Ok(agent_id) => match spec_opt_string(v, "parent_id"@) {
                            Err(e) => Err(e),
                            Ok(parent_id) => Ok(TaskListV { limit, status, agent_id, parent_id }),
                        },
                    },
                },
            }
        }
    }
}

impl TaskList {
    /// Encode for the wire.
    pub fn to_json(&self) -> (r: JsonValue)
        ensures
            r@ == self@.spec_to_json(),
    {
        let mut entries: Vec<(String, JsonValue)> = Vec::new();
        entries.push((String::from_str("limit"), JsonValue::of_u32(self.limit)));
        entries.push((
            String::from_str("status"),
            match &self.status {
                Some(st) => JsonValue::Str(String::from_str(st.token())),
                None => JsonValue::Null,
            },
        ));
        entries.push((String::from_str("agent_id"), JsonValue::of_opt_string(&self.agent_id)));
        entries.push((String::from_str("parent_id"), JsonValue::of_opt_string(&self.parent_id)));
        let r = JsonValue::Obj(entries);
        proof {
            reveal_with_fuel(crate::json::jval_of, 3);
            assert(r@->Obj_0 =~= self@.spec_to_json()->Obj_0);
        }
        r
    }

    /// Decode from the wire.
    pub fn from_json(v: &JsonValue) -> (r: Result<TaskList, SchemaError>)
        ensures
            match r {
                Ok(m) => TaskListV::spec_from_json(v@) == Ok::<TaskListV, SchemaError>(m@),
                Err(e) => TaskListV::spec_from_json(v@) == Err::<TaskListV, SchemaError>(e),
            },
    {
        if !v.is_object() {
            return Err(SchemaError::WrongShape);
        }
        let limit = match v.u32_field_or("limit", 50) {
            Ok(x) => x,
            Err(e) => return Err(e),
        };
        let status = match opt_status_field(v, "status") {
            Ok(x) => x,
            Err(e) => return Err(e),
        };
        let agent_id = match v.opt_string_field("agent_id") {
            Ok(x) => x,
            Err(e) => return Err(e),
        };
        let parent_id = match v.opt_string_field("parent_id") {
            Ok(x) => x,
            Err(e) => return Err(e),
        };
        Ok(TaskList { limit, status, agent_id, parent_id })
    }

}

/// A `TaskList` decodes back from its own encoding to an equal value.
pub proof fn lemma_task_list_round_trip(m: TaskListV)
    ensures
        TaskListV::spec_from_json(m.spec_to_json()) == Ok::<TaskListV, SchemaError>(m),
{
    reveal_strlit("limit");
    reveal_strlit("status");
    reveal_strlit("agent_id");
    reveal_strlit("parent_id");
    assert("limit"@.len() == 5);
    assert("status"@.len() == 6);
    assert("agent_id"@.len() == 8);
    assert("parent_id"@.len() == 9);
    let e = m.spec_to_json()->Obj_0;
    lemma_obj_get_at(e, "limit"@, 0);
    lemma_obj_get_at(e, "status"@, 1);
    lemma_obj_get_at(e, "agent_id"@, 2);
    lemma_obj_get_at(e, "parent_id"@, 3);
    match m.status {
        Some(st) => {
            lemma_task_status_round_trip(st);
        },
        None => {},
    }
}

/// An empty wire object decodes to the default page request: `limit` 50,
/// all filters absent.
pub proof fn lemma_task_list_defaults()
    ensures
        TaskListV::spec_from_json(JVal::Obj(Seq::empty())) == Ok::<TaskListV, SchemaError>(
            TaskListV { limit: 50, status: None, agent_id: None, parent_id: None },
        ),
{
    lemma_obj_get_none(Seq::empty(), "limit"@);
    lemma_obj_get_none(Seq::empty(), "status"@);
    lemma_obj_get_none(Seq::empty(), "agent_id"@);
    lemma_obj_get_none(Seq::empty(), "parent_id"@);
}

/// Request to create a task. The payload defaults to an empty structured
/// object, never to `null`.
#[derive(Debug)]
pub struct TaskCreate {
    pub task_type: String,
    pub agent_id: Option<String>,
    pub payload: JsonValue,
    pub parent_id: Option<String>,
}

/// Mathematical form of a [`TaskCreate`].
pub struct TaskCreateV {
    pub task_type: Seq<char>,
    pub agent_id: Option<Seq<char>>,
    pub payload: JVal,
    pub parent_id: Option<Seq<char>>,
}

impl View for TaskCreate {
    type V = TaskCreateV;

    open spec fn view(&self) -> TaskCreateV {
        TaskCreateV {
            task_type: self.task_type@,
            agent_id: match self.agent_id {
                Some(a) => Some(a@),
                None => None,
            },
            payload: self.payload@,
            parent_id: match self.parent_id {
                Some(p) => Some(p@),
                None => None,
            },
        }
    }
}

impl TaskCreateV {
    /// Wire encoding.
    pub open spec fn spec_to_json(self) -> JVal {
        JVal::Obj(
            seq![
                ("task_type"@, JVal::Str(self.task_type)),
                ("agent_id"@, jval_of_opt_string(self.agent_id)),
                ("payload"@, self.payload),
                ("parent_id"@, jval_of_opt_string(self.parent_id)),
            ],
        )
    }

    /// Decoding: `task_type` is required; a missing payload means the empty
    /// object.
    pub open spec fn spec_from_json(v: JVal) -> Result<TaskCreateV, SchemaError> {
        if !(v is Obj) {
            Err(SchemaError::WrongShape)
        } else {
            match spec_req_string(v, "task_type"@) {
                Err(e) => Err(e),
                Ok(task_type) => match spec_opt_string(v, "agent_id"@) {
                    Err(e) => Err(e),
                    Ok(agent_id) => match spec_opt_string(v, "parent_id"@) {
                        Err(e) => Err(e),
                        Ok(parent_id) => Ok(
                            TaskCreateV {
                                task_type,
                                agent_id,
                                payload: spec_value_or_empty_object(v, "payload"@),
                                parent_id,
                            },
                        ),
                    },
                },
            }
        }
    }
}

impl TaskCreate {
    /// Encode for the wire.
    pub fn to_json(&self) -> (r: JsonValue)
        ensures
            r@ == self@.spec_to_json(),
    {
        let mut entries: Vec<(String, JsonValue)> = Vec::new();
        entries.push((String::from_str("task_type"), JsonValue::Str(self.task_type.clone())));
        entries.push((String::from_str("agent_id"), JsonValue::of_opt_string(&self.agent_id)));
        entries.push((String::from_str("payload"), self.payload.clone()));
        entries.push((String::from_str("parent_id"), JsonValue::of_opt_string(&self.parent_id)));
        let r = JsonValue::Obj(entries);
        proof {
            reveal_with_fuel(crate::json::jval_of, 3);
            assert(r@->Obj_0 =~= self@.spec_to_json()->Obj_0);
        }
        r
    }

    /// Decode from the wire.
    pub fn from_json(v: &JsonValue) -> (r: Result<TaskCreate, SchemaError>)
        ensures
            match r {
                Ok(m) => TaskCreateV::spec_from_json(v@) == Ok::<TaskCreateV, SchemaError>(m@),
                Err(e) => TaskCreateV::spec_from_json(v@) == Err::<TaskCreateV, SchemaError>(e),
            },
    {
        if !v.is_object() {
            return Err(SchemaError::WrongShape);
        }
        let task_type = match v.req_string_field("task_type") {
            Ok(x) => x,
            Err(e) => return Err(e),
        };
        let agent_id = match v.opt_string_field("agent_id") {
            Ok(x) => x,
            Err(e) => return Err(e),
        };
        let parent_id = match v.opt_string_field("parent_id") {
            Ok(x) => x,
            Err(e) => return Err(e),
        };
        let payload = v.value_field_or_empty_object("payload");
        Ok(TaskCreate { task_type, agent_id, payload, parent_id })
    }
}

/// A `TaskCreate` decodes back from its own encoding to an equal value.
pub proof fn lemma_task_create_round_trip(m: TaskCreateV)
    ensures
        TaskCreateV::spec_from_json(m.spec_to_json()) == Ok::<TaskCreateV, SchemaError>(m),
{
    reveal_strlit("task_type");
    reveal_strlit("agent_id");
    reveal_strlit("payload");
    reveal_strlit("parent_id");
    assert("task_type"@.len() == 9);
    assert("agent_id"@.len() == 8);
    assert("payload"@.len() == 7);
    assert("parent_id"@.len() == 9);
    assert("task_type"@[0] == 't' && "parent_id"@[0] == 'p');
    let e = m.spec_to_json()->Obj_0;
    lemma_obj_get_at(e, "task_type"@, 0);
    lemma_obj_get_at(e, "agent_id"@, 1);
    lemma_obj_get_at(e, "payload"@, 2);
    lemma_obj_get_at(e, "parent_id"@, 3);
}

/// Partial update of a task: only the named fields change.
#[derive(Debug)]
pub struct TaskUpdate {
    pub task_id: String,
    pub status: Option<TaskStatus>,
    pub agent_id: Option<String>,
    pub payload: Option<JsonValue>,
}

/// Mathematical form of a [`TaskUpdate`].
pub struct TaskUpdateV {
    pub task_id: Seq<char>,
    pub status: Option<TaskStatus>,
    pub agent_id: Option<Seq<char>>,
    pub payload: Option<JVal>,
}

impl View for TaskUpdate {
    type V = TaskUpdateV;

    open spec fn view(&self) -> TaskUpdateV {
        TaskUpdateV {
            task_id: self.task_id@,
            status: self.status,
            agent_id: match self.agent_id {
                Some(a) => Some(a@),
                None => None,
            },
            payload: match self.payload {
                Some(p) => Some(p@),
                None => None,
            },
        }
    }
}

impl TaskUpdateV {
    /// Wire encoding.
    pub open spec fn spec_to_json(self) -> JVal {
        JVal::Obj(
            seq![
                ("task_id"@, JVal::Str(self.task_id)),
                ("status"@, match self.status {
                    Some(st) => JVal::Str(st.spec_token()),
                    None => JVal::Null,
                }),
                ("agent_id"@, jval_of_opt_string(self.agent_id)),
                ("payload"@, match self.payload {
                    Some(p) => p,
                    None => JVal::Null,
                }),
            ],
        )
    }

    /// Decoding: `task_id` is required, the rest are optional.
    pub open spec fn spec_from_json(v: JVal) -> Result<TaskUpdateV, SchemaError> {
        if !(v is Obj) {
            Err(SchemaError::WrongShape)
        } else {
            match spec_req_string(v, "task_id"@) {
                Err(e) => Err(e),
                Ok(task_id) => match spec_opt_status(v, "status"@) {
                    Err(e) => Err(e),
                    Ok(status) => match spec_opt_string(v, "agent_id"@) {
                        Err(e) => Err(e),
                        Ok(agent_id) => Ok(
                            TaskUpdateV {
                                task_id,
                                status,
                                agent_id,
                                payload: spec_opt_value(v, "payload"@),
                            },
                        ),
                    },
                },
            }
        }
    }
}

impl TaskUpdate {
    /// Encode for the wire.
    pub fn to_json(&self) -> (r: JsonValue)
        ensures
            r@ == self@.spec_to_json(),
    {
        let mut entries: Vec<(String, JsonValue)> = Vec::new();
        entries.push((String::from_str("task_id"), JsonValue::Str(self.task_id.clone())));
        entries.push((
            String::from_str("status"),
            match &self.status {
                Some(st) => JsonValue::Str(String::from_str(st.token())),
                None => JsonValue::Null,
            },
        ));
        entries.push((String::from_str("agent_id"), JsonValue::of_opt_string(&self.agent_id)));
        entries.push((
            String::from_str("payload"),
            match &self.payload {
                Some(p) => p.clone(),
                None => JsonValue::Null,
            },
        ));
        let r = JsonValue::Obj(entries);
        proof {
            reveal_with_fuel(crate::json::jval_of, 3);
            assert(r@->Obj_0 =~= self@.spec_to_json()->Obj_0);
        }
        r
    }

    /// Decode from the wire.
    pub fn from_json(v: &JsonValue) -> (r: Result<TaskUpdate, SchemaError>)
        ensures
            match r {
                Ok(m) => TaskUpdateV::spec_from_json(v@) == Ok::<TaskUpdateV, SchemaError>(m@),
                Err(e) => TaskUpdateV::spec_from_json(v@) == Err::<TaskUpdateV, SchemaError>(e),
            },
    {
        if !v.is_object() {
            return Err(SchemaError::WrongShape);
        }
        let task_id = match v.req_string_field("task_id") {
            Ok(x) => x,
            Err(e) => return Err(e),
        };
        let status = match opt_status_field(v, "status") {
            Ok(x) => x,
            Err(e) => return Err(e),
        };
        let agent_id = match v.opt_string_field("agent_id") {
            Ok(x) => x,
            Err(e) => return Err(e),
        };
        let payload = v.opt_value_field("payload");
        Ok(TaskUpdate { task_id, status, agent_id, payload })
    }
}

/// A `TaskUpdate` whose payload is not a bare `null` decodes back from its
/// own encoding to an equal value. (A payload of `Some(null)` encodes as
/// `null`, which decodes as no payload: `null` cannot round-trip through an
/// optional field.)
pub proof fn lemma_task_update_round_trip(m: TaskUpdateV)
    requires
        m.payload != Some(JVal::Null),
    ensures
        TaskUpdateV::spec_from_json(m.spec_to_json()) == Ok::<TaskUpdateV, SchemaError>(m),
{
    reveal_strlit("task_id");
    reveal_strlit("status");
    reveal_strlit("agent_id");
    reveal_strlit("payload");
    assert("task_id"@.len() == 7);
    assert("status"@.len() == 6);
    assert("agent_id"@.len() == 8);
    assert("payload"@.len() == 7);
    assert("task_id"@[0] == 't' && "payload"@[0] == 'p');
    let e = m.spec_to_json()->Obj_0;
    lemma_obj_get_at(e, "task_id"@, 0);
    lemma_obj_get_at(e, "status"@, 1);
    lemma_obj_get_at(e, "agent_id"@, 2);
    lemma_obj_get_at(e, "payload"@, 3);
    match m.status {
        Some(st) => {
            lemma_task_status_round_trip(st);
        },
        None => {},
    }
}

/// Request for one task by id.
#[derive(Debug)]
pub struct TaskGet {
    pub task_id: String,
}

/// Request to delete a task: legal in every state, terminal ones included;
/// the removal is permanent, with no soft-delete or tombstone.
#[derive(Debug)]
pub struct TaskDelete {
    pub task_id: String,
}

impl TaskGet {
    /// Encode for the wire.
    pub fn to_json(&self) -> (r: JsonValue)
        ensures
            r@ == JVal::Obj(seq![("task_id"@, JVal::Str(self.task_id@))]),
    {
        let mut entries: Vec<(String, JsonValue)> = Vec::new();
        entries.push((String::from_str("task_id"), JsonValue::Str(self.task_id.clone())));
        let r = JsonValue::Obj(entries);
        proof {
            reveal_with_fuel(crate::json::jval_of, 3);
            assert(r@->Obj_0 =~= seq![("task_id"@, JVal::Str(self.task_id@))]);
        }
        r
    }

    /// Decode from the wire: `task_id` is required.
    pub fn from_json(v: &JsonValue) -> (r: Result<TaskGet, SchemaError>)
        ensures
            match r {
                Ok(m) => v@ is Obj && spec_req_string(v@, "task_id"@) == Ok::<
                    Seq<char>,
                    SchemaError,
                >(m.task_id@),
                Err(e) => !(v@ is Obj) && e == SchemaError::WrongShape || v@ is Obj
                    && spec_req_string(v@, "task_id"@) == Err::<Seq<char>, SchemaError>(e),
            },
    {
        if !v.is_object() {
            return Err(SchemaError::WrongShape);
        }
        match v.req_string_field("task_id") {
            Ok(task_id) => Ok(TaskGet { task_id }),
            Err(e) => Err(e),
        }
    }
}

impl TaskDelete {
    /// Encode for the wire.
    pub fn to_json(&self) -> (r: JsonValue)
        ensures
            r@ == JVal::Obj(seq![("task_id"@, JVal::Str(self.task_id@))]),
    {
        let mut entries: Vec<(String, JsonValue)> = Vec::new();
        entries.push((String::from_str("task_id"), JsonValue::Str(self.task_id.clone())));
        let r = JsonValue::Obj(entries);
        proof {
            reveal_with_fuel(crate::json::jval_of, 3);
            assert(r@->Obj_0 =~= seq![("task_id"@, JVal::Str(self.task_id@))]);
        }
        r
    }

    /// Decode from the wire: `task_id` is required.
    pub fn from_json(v: &JsonValue) -> (r: Result<TaskDelete, SchemaError>)
        ensures
            match r {
                Ok(m) => v@ is Obj && spec_req_string(v@, "task_id"@) == Ok::<
                    Seq<char>,
                    SchemaError,
                >(m.task_id@),
                Err(e) => !(v@ is Obj) && e == SchemaError::WrongShape || v@ is Obj
                    && spec_req_string(v@, "task_id"@) == Err::<Seq<char>, SchemaError>(e),
            },
    {
        if !v.is_object() {
            return Err(SchemaError::WrongShape);
        }
        match v.req_string_field("task_id") {
            Ok(task_id) => Ok(TaskDelete { task_id }),
            Err(e) => Err(e),
        }
    }
}

/// Why a task update was rejected.
#[derive(Clone, Copy, Debug, PartialEq, Eq, Structural)]
pub enum TaskUpdateError {
    /// The task is in a terminal state and the update does not merely
    /// redeliver that same status: rejected entirely (the policy this
    /// library fixes for the protocol's open question about post-terminal
    /// mutation).
    TerminalTask,
    /// The named status is not reachable from the task's current status.
    IllegalTransition,
    /// `InProgress` is entered only by an update that names the owning
    /// agent; an anonymous claim is rejected.
    NoOwnerNamed,
}

/// The unit of schedulable work, as the orchestrator tracks it.
#[derive(Debug)]
pub struct Task {
    pub id: String,
    pub task_type: String,
    pub status: TaskStatus,
    /// Owner; empty until assigned.
    pub agent_id: String,
    pub payload: JsonValue,
    pub parent_id: Option<String>,
    pub created_at: String,
    pub updated_at: String,
}

/// Mathematical form of a [`Task`].
pub struct TaskV {
    pub id: Seq<char>,
    pub task_type: Seq<char>,
    pub status: TaskStatus,
    pub agent_id: Seq<char>,
    pub payload: JVal,
    pub parent_id: Option<Seq<char>>,
    pub created_at: Seq<char>,
    pub updated_at: Seq<char>,
}

impl View for Task {
    type V = TaskV;

    open spec fn view(&self) -> TaskV {
        TaskV {
            id: self.id@,
            task_type: self.task_type@,
            status: self.status,
            agent_id: self.agent_id@,
            payload: self.payload@,
            parent_id: match self.parent_id {
                Some(p) => Some(p@),
                None => None,
            },
            created_at: self.created_at@,
            updated_at: self.updated_at@,
        }
    }
}

impl TaskV {
    /// What one update does to a task. A terminal task accepts only the
    /// redelivery of its own status; a named status must be legal from the
    /// current one; claiming a task into `InProgress` must name the owning
    /// agent; the update's absent fields leave the task's fields unchanged,
    /// and `parent_id`, `id`, `task_type` and `created_at` never change.
    pub open spec fn spec_apply_update(self, u: TaskUpdateV, now: Seq<char>) -> Result<
        TaskV,
        TaskUpdateError,
    > {
        match u.status {
            Some(s) => if !TaskStatus::spec_can_transition(self.status, s) {
                Err(TaskUpdateError::IllegalTransition)
            } else if s == TaskStatus::InProgress && self.status != TaskStatus::InProgress
                && u.agent_id is None {
                Err(TaskUpdateError::NoOwnerNamed)
            } else {
                Ok(self.spec_overwrite(u, s, now))
            },
            None => if self.status.spec_is_terminal() {
                Err(TaskUpdateError::TerminalTask)
            } else {
                Ok(self.spec_overwrite(u, self.status, now))
            },
        }
    }

    /// The task with the update's named fields overwritten.
    pub open spec fn spec_overwrite(self, u: TaskUpdateV, status: TaskStatus, now: Seq<char>) -> TaskV {
        TaskV {
            status,
            agent_id: match u.agent_id {
                Some(a) => a,
                None => self.agent_id,
            },
            payload: match u.payload {
                Some(p) => p,
                None => self.payload,
            },
            updated_at: now,
            ..self
        }
    }
}

impl Task {
    /// Create the task a `TaskCreate` asks for: it starts `Pending`, owned
    /// by the named agent or by nobody, with both timestamps at `now`.
    pub fn create(id: String, msg: &TaskCreate, now: &str) -> (t: Task)
        ensures
            t@ == (TaskV {
                id: id@,
                task_type: msg.task_type@,
                status: TaskStatus::Pending,
                agent_id: match msg.agent_id {
                    Some(a) => a@,
                    None => Seq::empty(),
                },
                payload: msg.payload@,
                parent_id: match msg.parent_id {
                    Some(p) => Some(p@),
                    None => None,
                },
                created_at: now@,
                updated_at: now@,
            }),
    {
        Task {
            id,
            task_type: msg.task_type.clone(),
            status: TaskStatus::Pending,
            agent_id: match &msg.agent_id {
                Some(a) => a.clone(),
                None => String::new(),
            },
            payload: msg.payload.clone(),
            parent_id: match &msg.parent_id {
                Some(p) => Some(p.clone()),
                None => None,
            },
            created_at: String::from_str(now),
            updated_at: String::from_str(now),
        }
    }

    /// Apply one update, rejecting illegal transitions and post-terminal
    /// mutation; on rejection the task is unchanged.
    pub fn apply_update(&mut self, u: &TaskUpdate, now: &str) -> (r: Result<(), TaskUpdateError>)
        requires
            u.task_id@ == old(self).id@,
        ensures
            match r {
                Ok(_) => old(self)@.spec_apply_update(u@, now@) == Ok::<TaskV, TaskUpdateError>(
                    final(self)@,
                ),
                Err(e) => old(self)@.spec_apply_update(u@, now@) == Err::<TaskV, TaskUpdateError>(e)
                    && final(self)@ == old(self)@,
            },
    {
        let status = match &u.status {
            Some(s) => {
                if !TaskStatus::can_transition(self.status, *s) {
                    return Err(TaskUpdateError::IllegalTransition);
                }
                if *s == TaskStatus::InProgress && self.status != TaskStatus::InProgress
                    && u.agent_id.is_none() {
                    return Err(TaskUpdateError::NoOwnerNamed);
                }
                *s
            },
            None => {
                if self.status.is_terminal() {
                    return Err(TaskUpdateError::TerminalTask);
                }
                self.status
            },
        };
        self.status = status;
        match &u.agent_id {
            Some(a) => {
                self.agent_id = a.clone();
            },
            None => {},
        }
        match &u.payload {
            Some(p) => {
                self.payload = p.clone();
            },
            None => {},
        }
        self.updated_at = String::from_str(now);
        Ok(())
    }
}

/// Updates are idempotent by value: once an update has been applied,
/// redelivering the same update (at the same time) leaves the task exactly
/// as it was.
pub proof fn lemma_task_update_idempotent(t: TaskV, u: TaskUpdateV, now: Seq<char>)
    requires
        t.spec_apply_update(u, now) is Ok,
    ensures
        ({
            let once = t.spec_apply_update(u, now)->Ok_0;
            once.spec_apply_update(u, now) == Ok::<TaskV, TaskUpdateError>(once)
        }),
{
}

/// A newly created task is pending; it can be claimed into `InProgress`,
/// from there it can reach each of the three terminal states, and a
/// terminal state accepts no different status afterwards.
pub proof fn lemma_task_lifecycle()
    ensures
        TaskStatus::spec_can_transition(TaskStatus::Pending, TaskStatus::InProgress),
        forall|to: TaskStatus| #[trigger] to.spec_is_terminal()
            ==> TaskStatus::spec_can_transition(TaskStatus::InProgress, to),
        forall|from: TaskStatus, to: TaskStatus|
            from.spec_is_terminal() && to != from
                ==> !#[trigger] TaskStatus::spec_can_transition(from, to),
{
}

} // verus!

verus! {

/// A task as returned to queriers: statuses as wire tokens, linkage as
/// plain strings.
#[derive(Debug)]
pub struct TaskRecord {
    pub id: String,
    pub task_type: String,
    pub status: String,
    pub agent_id: String,
    pub payload: JsonValue,
    pub parent_id: String,
    pub created_at: String,
    pub updated_at: String,
}

/// Mathematical form of a [`TaskRecord`].
pub struct TaskRecordV {
    pub id: Seq<char>,
    pub task_type: Seq<char>,
    pub status: Seq<char>,
    pub agent_id: Seq<char>,
    pub payload: JVal,
    pub parent_id: Seq<char>,
    pub created_at: Seq<char>,
    pub updated_at: Seq<char>,
}

impl View for TaskRecord {
    type V = TaskRecordV;

    open spec fn view(&self) -> TaskRecordV {
        TaskRecordV {
            id: self.id@,
            task_type: self.task_type@,
            status: self.status@,
            agent_id: self.agent_id@,
            payload: self.payload@,
            parent_id: self.parent_id@,
            created_at: self.created_at@,
            updated_at: self.updated_at@,
        }
    }
}

impl TaskRecordV {
    /// Wire encoding.
    pub open spec fn spec_to_json(self) -> JVal {
        JVal::Obj(
            seq![
                ("id"@, JVal::Str(self.id)),
                ("task_type"@, JVal::Str(self.task_type)),
                ("status"@, JVal::Str(self.status)),
                ("agent_id"@, JVal::Str(self.agent_id)),
                ("payload"@, self.payload),
                ("parent_id"@, JVal::Str(self.parent_id)),
                ("created_at"@, JVal::Str(self.created_at)),
                ("updated_at"@, JVal::Str(self.updated_at)),
            ],
        )
    }

    /// Decoding: everything but `parent_id` is required; a missing
    /// `parent_id` means the empty string.
    pub open spec fn spec_from_json(v: JVal) -> Result<TaskRecordV, SchemaError> {
        if !(v is Obj) {
            Err(SchemaError::WrongShape)
        } else {
            match spec_req_string(v, "id"@) {
                Err(e) => Err(e),
                Ok(id) => match spec_req_string(v, "task_type"@) {
                    Err(e) => Err(e),
                    Ok(task_type) => match spec_req_string(v, "status"@) {
                        Err(e) => Err(e),
                        Ok(status) => match spec_req_string(v, "agent_id"@) {
                            Err(e) => Err(e),
                            Ok(agent_id) => match spec_req_value(v, "payload"@) {
                                Err(e) => Err(e),
                                Ok(payload) => match spec_string_or_empty(v, "parent_id"@) {
                                    Err(e) => Err(e),
                                    Ok(parent_id) => match spec_req_string(v, "created_at"@) {
                                        Err(e) => Err(e),
                                        Ok(created_at) => match spec_req_string(v, "updated_at"@) {
                                            Err(e) => Err(e),
                                            Ok(updated_at) => Ok(
                                                TaskRecordV {
                                                    id,
                                                    task_type,
                                                    status,
                                                    agent_id,
                                                    payload,
                                                    parent_id,
                                                    created_at,
                                                    updated_at,
                                                },
                                            ),
                                        },
                                    },
                                },
                            },
                        },
                    },
                },
            }
        }
    }
}

impl TaskRecord {
    /// Encode for the wire.
    pub fn to_json(&self) -> (r: JsonValue)
        ensures
            r@ == self@.spec_to_json(),
    {
        let mut entries: Vec<(String, JsonValue)> = Vec::new();
        entries.push((String::from_str("id"), JsonValue::Str(self.id.clone())));
        entries.push((String::from_str("task_type"), JsonValue::Str(self.task_type.clone())));
        entries.push((String::from_str("status"), JsonValue::Str(self.status.clone())));
        entries.push((String::from_str("agent_id"), JsonValue::Str(self.agent_id.clone())));
        entries.push((String::from_str("payload"), self.payload.clone()));
        entries.push((String::from_str("parent_id"), JsonValue::Str(self.parent_id.clone())));
        entries.push((String::from_str("created_at"), JsonValue::Str(self.created_at.clone())));
        entries.push((String::from_str("updated_at"), JsonValue::Str(self.updated_at.clone())));
        let r = JsonValue::Obj(entries);
        proof {
            reveal_with_fuel(crate::json::jval_of, 3);
            assert(r@->Obj_0 =~= self@.spec_to_json()->Obj_0);
        }
        r
    }

    /// Decode from the wire.
    pub fn from_json(v: &JsonValue) -> (r: Result<TaskRecord, SchemaError>)
        ensures
            match r {
                Ok(m) => TaskRecordV::spec_from_json(v@) == Ok::<TaskRecordV, SchemaError>(m@),
                Err(e) => TaskRecordV::spec_from_json(v@) == Err::<TaskRecordV, SchemaError>(e),
            },
    {
        if !v.is_object() {
            return Err(SchemaError::WrongShape);
        }
        let id = match v.req_string_field("id") {
            Ok(x) => x,
            Err(e) => return Err(e),
        };
        let task_type = match v.req_string_field("task_type") {
            Ok(x) => x,
            Err(e) => return Err(e),
        };
        let status = match v.req_string_field("status") {
            Ok(x) => x,
            Err(e) => return Err(e),
        };
        let agent_id = match v.req_string_field("agent_id") {
            Ok(x) => x,
            Err(e) => return Err(e),
        };
        let payload = match v.req_value_field("payload") {
            Ok(x) => x,
            Err(e) => return Err(e),
        };
        let parent_id = match v.string_field_or_empty("parent_id") {
            Ok(x) => x,
            Err(e) => return Err(e),
        };
        let created_at = match v.req_string_field("created_at") {
            Ok(x) => x,
            Err(e) => return Err(e),
        };
        let updated_at = match v.req_string_field("updated_at") {
            Ok(x) => x,
            Err(e) => return Err(e),
        };
        Ok(TaskRecord { id, task_type, status, agent_id, payload, parent_id, created_at, updated_at })
    }
}

/// A `TaskRecord` decodes back from its own encoding to an equal value.
pub proof fn lemma_task_record_round_trip(m: TaskRecordV)
    ensures
        TaskRecordV::spec_from_json(m.spec_to_json()) == Ok::<TaskRecordV, SchemaError>(m),
{
    reveal_strlit("id");
    reveal_strlit("task_type");
    reveal_strlit("status");
    reveal_strlit("agent_id");
    reveal_strlit("payload");
    reveal_strlit("parent_id");
    reveal_strlit("created_at");
    reveal_strlit("updated_at");
    assert("id"@.len() == 2);
    assert("task_type"@.len() == 9);
    assert("status"@.len() == 6);
    assert("agent_id"@.len() == 8);
    assert("payload"@.len() == 7);
    assert("parent_id"@.len() == 9);
    assert("created_at"@.len() == 10);
    assert("updated_at"@.len() == 10);
    assert("task_type"@[0] == 't' && "parent_id"@[0] == 'p');
    assert("created_at"@[0] == 'c' && "updated_at"@[0] == 'u');
    let e = m.spec_to_json()->Obj_0;
    lemma_obj_get_at(e, "id"@, 0);
    lemma_obj_get_at(e, "task_type"@, 1);
    lemma_obj_get_at(e, "status"@, 2);
    lemma_obj_get_at(e, "agent_id"@, 3);
    lemma_obj_get_at(e, "payload"@, 4);
    lemma_obj_get_at(e, "parent_id"@, 5);
    lemma_obj_get_at(e, "created_at"@, 6);
    lemma_obj_get_at(e, "updated_at"@, 7);
}

} // verus!
