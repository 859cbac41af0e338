//! Agent identity: the closed set of pipeline roles plus one extension
//! variant for ad-hoc roles, the runner status vocabulary, and skill
//! outcomes. Each enum has a fixed lowercase, underscore-separated wire
//! token; the mapping is load-bearing for cross-implementation
//! compatibility and round-trips exactly.

use vstd::prelude::*;
use vstd::string::*;
use crate::json::{
    JVal, JsonValue, JsonNumber, JNum, SchemaError, str_eq, jval_of_opt_string,
    spec_req_string, spec_opt_string, spec_req_bool, spec_opt_u64, spec_req_object,
    spec_opt_number, lemma_obj_get_at, lemma_string_items_of_strs,
};

verus! {

/// The role a worker agent plays in the pipeline. Fixed roles are a closed
/// set; `User` carries a free-form label for ad-hoc roles added without a
/// protocol change.
#[derive(Clone, Debug, PartialEq, Eq)]
pub enum AgentRole {
    SkillManage,
    Learning,
    PreLoad,
    Building,
    Evaluation,
    User(String),
}

/// Mathematical form of an [`AgentRole`].
pub enum RoleV {
    SkillManage,
    Learning,
    PreLoad,
    Building,
    Evaluation,
    User(Seq<char>),
}

impl View for AgentRole {
    type V = RoleV;

    open spec fn view(&self) -> RoleV {
        match self {
            AgentRole::SkillManage => RoleV::SkillManage,
            AgentRole::Learning => RoleV::Learning,
            AgentRole::PreLoad => RoleV::PreLoad,
            AgentRole::Building => RoleV::Building,
            AgentRole::Evaluation => RoleV::Evaluation,
            AgentRole::User(label) => RoleV::User(label@),
        }
    }
}

/// Lifecycle status an agent reports for itself.
#[derive(Clone, Copy, Debug, PartialEq, Eq, Structural)]
pub enum RunnerStatus {
    Starting,
    Ready,
    Busy,
    Error,
    Shutting,
}

/// Outcome of exercising a skill; failures and partial results carry a
/// reason string.
#[derive(Clone, Debug, PartialEq, Eq)]
pub enum SkillResult {
    Success,
    Failure(String),
    Partial(String),
}

/// Mathematical form of a [`SkillResult`].
pub enum SkillResultV {
    Success,
    Failure(Seq<char>),
    Partial(Seq<char>),
}

impl View for SkillResult {
    type V = SkillResultV;

    open spec fn view(&self) -> SkillResultV {
        match self {
            SkillResult::Success => SkillResultV::Success,
            SkillResult::Failure(reason) => SkillResultV::Failure(reason@),
            SkillResult::Partial(reason) => SkillResultV::Partial(reason@),
        }
    }
}

impl RoleV {
    /// Wire token of a fixed role; an ad-hoc role's label is its own token.
    pub open spec fn spec_token(self) -> Seq<char> {
        match self {
            RoleV::SkillManage => "skill_manage"@,
            RoleV::Learning => "learning"@,
            RoleV::PreLoad => "pre_load"@,
            RoleV::Building => "building"@,
            RoleV::Evaluation => "evaluation"@,
            RoleV::User(label) => label,
        }
    }

    /// The fixed role a wire token names, if any.
    pub open spec fn spec_parse(s: Seq<char>) -> Option<RoleV> {
        if s == "skill_manage"@ {
            Some(RoleV::SkillManage)
        } else if s == "learning"@ {
            Some(RoleV::Learning)
        } else if s == "pre_load"@ {
            Some(RoleV::PreLoad)
        } else if s == "building"@ {
            Some(RoleV::Building)
        } else if s == "evaluation"@ {
            Some(RoleV::Evaluation)
        } else {
            None
        }
    }

    /// Wire encoding: fixed roles are a bare token string, an ad-hoc role is
    /// the tagged form `{"user": label}`.
    pub open spec fn spec_to_json(self) -> JVal {
        match self {
            RoleV::User(label) => JVal::Obj(seq![("user"@, JVal::Str(label))]),
            _ => JVal::Str(self.spec_token()),
        }
    }

    /// Decoding: a known token string or the tagged `{"user": label}` form;
    /// an unknown role string is a schema error, never silently accepted.
    pub open spec fn spec_from_json(v: JVal) -> Result<RoleV, SchemaError> {
        match v {
            JVal::Str(s) => match RoleV::spec_parse(s) {
                Some(role) => Ok(role),
                None => Err(SchemaError::UnknownVariant),
            },
            JVal::Obj(entries) => if entries.len() == 1 && entries[0].0 == "user"@ {
                match entries[0].1 {
                    JVal::Str(label) => Ok(RoleV::User(label)),
                    _ => Err(SchemaError::WrongType),
                }
            } else {
                Err(SchemaError::UnknownVariant)
            },
            _ => Err(SchemaError::WrongShape),
        }
    }
}

impl AgentRole {
    /// Wire token of a fixed role.
    pub fn token(&self) -> (r: &'static str)
        requires
            !(self@ is User),
        ensures
            r@ == self@.spec_token(),
    {
        match self {
            AgentRole::SkillManage => "skill_manage",
            AgentRole::Learning => "learning",
            AgentRole::PreLoad => "pre_load",
            AgentRole::Building => "building",
            AgentRole::Evaluation => "evaluation",
            AgentRole::User(_) => "",
        }
    }

    /// Parse a fixed-role wire token.
    pub fn parse_token(s: &str) -> (r: Option<AgentRole>)
        ensures
            match r {
                Some(role) => RoleV::spec_parse(s@) == Some(role@),
                None => RoleV::spec_parse(s@) is None,
            },
    {
        if str_eq(s, "skill_manage") {
            Some(AgentRole::SkillManage)
        } else if str_eq(s, "learning") {
            Some(AgentRole::Learning)
        } else if str_eq(s, "pre_load") {
            Some(AgentRole::PreLoad)
        } else if str_eq(s, "building") {
            Some(AgentRole::Building)
        } else if str_eq(s, "evaluation") {
            Some(AgentRole::Evaluation)
        } else {
            None
        }
    }

    /// Encode for the wire.
    pub fn to_json(&self) -> (r: JsonValue)
        ensures
            r@ == self@.spec_to_json(),
    {
        match self {
            AgentRole::User(label) => {
                let mut entries: Vec<(String, JsonValue)> = Vec::new();
                entries.push((String::from_str("user"), JsonValue::Str(label.clone())));
                let r = JsonValue::Obj(entries);
                proof {
                    reveal_with_fuel(crate::json::jval_of, 3);
                    assert(r@->Obj_0 =~= seq![("user"@, JVal::Str(label@))]);
                }
                r
            },
            _ => JsonValue::Str(String::from_str(self.token())),
        }
    }

    /// Decode from the wire.
    pub fn from_json(v: &JsonValue) -> (r: Result<AgentRole, SchemaError>)
        ensures
            match r {
                Ok(role) => RoleV::spec_from_json(v@) == Ok::<RoleV, SchemaError>(role@),
                Err(e) => RoleV::spec_from_json(v@) == Err::<RoleV, SchemaError>(e),
            },
    {
        proof {
            reveal_with_fuel(crate::json::jval_of, 3);
        }
        match v {
            JsonValue::Str(s) => match AgentRole::parse_token(s.as_str()) {
                Some(role) => Ok(role),
                None => Err(SchemaError::UnknownVariant),
            },
            JsonValue::Obj(entries) => {
                if entries.len() == 1 && str_eq(entries[0].0.as_str(), "user") {
                    match &entries[0].1 {
                        JsonValue::Str(label) => Ok(AgentRole::User(label.clone())),
                        _ => Err(SchemaError::WrongType),
                    }
                } else {
                    Err(SchemaError::UnknownVariant)
                }
            },
            _ => Err(SchemaError::WrongShape),
        }
    }
}

/// Every role, the ad-hoc `User` labels included, decodes back from its own
/// wire encoding to an equal value.
pub proof fn lemma_role_json_round_trip(role: RoleV)
    ensures
        RoleV::spec_from_json(role.spec_to_json()) == Ok::<RoleV, SchemaError>(role),
{
    reveal_strlit("skill_manage");
    reveal_strlit("learning");
    reveal_strlit("pre_load");
    reveal_strlit("building");
    reveal_strlit("evaluation");
    reveal_strlit("user");
    assert("skill_manage"@.len() == 12);
    assert("learning"@.len() == 8);
    assert("pre_load"@.len() == 8);
    assert("building"@.len() == 8);
    assert("evaluation"@.len() == 10);
    assert("learning"@[0] != "pre_load"@[0]);
    assert("learning"@[0] != "building"@[0]);
    assert("pre_load"@[0] != "building"@[0]);
}

impl RunnerStatus {
    /// Wire token.
    pub open spec fn spec_token(self) -> Seq<char> {
        match self {
            RunnerStatus::Starting => "starting"@,
            RunnerStatus::Ready => "ready"@,
            RunnerStatus::Busy => "busy"@,
            RunnerStatus::Error => "error"@,
            RunnerStatus::Shutting => "shutting"@,
        }
    }

    /// The status a wire token names, if any.
    pub open spec fn spec_parse(s: Seq<char>) -> Option<RunnerStatus> {
        if s == "starting"@ {
            Some(RunnerStatus::Starting)
        } else if s == "ready"@ {
            Some(RunnerStatus::Ready)
        } else if s == "busy"@ {
            Some(RunnerStatus::Busy)
        } else if s == "error"@ {
            Some(RunnerStatus::Error)
        } else if s == "shutting"@ {
            Some(RunnerStatus::Shutting)
        } else {
            None
        }
    }

    /// Wire token.
    pub fn token(&self) -> (r: &'static str)
        ensures
            r@ == self.spec_token(),
    {
        match self {
            RunnerStatus::Starting => "starting",
            RunnerStatus::Ready => "ready",
            RunnerStatus::Busy => "busy",
            RunnerStatus::Error => "error",
            RunnerStatus::Shutting => "shutting",
        }
    }

    /// Parse a wire token.
    pub fn parse_token(s: &str) -> (r: Option<RunnerStatus>)
        ensures
            r == RunnerStatus::spec_parse(s@),
    {
        if str_eq(s, "starting") {
            Some(RunnerStatus::Starting)
        } else if str_eq(s, "ready") {
            Some(RunnerStatus::Ready)
        } else if str_eq(s, "busy") {
            Some(RunnerStatus::Busy)
        } else if str_eq(s, "error") {
            Some(RunnerStatus::Error)
        } else if str_eq(s, "shutting") {
            Some(RunnerStatus::Shutting)
        } else {
            None
        }
    }
}

/// Every runner status decodes back from its own wire token.
pub proof fn lemma_runner_status_round_trip(s: RunnerStatus)
    ensures
        RunnerStatus::spec_parse(s.spec_token()) == Some(s),
{
    reveal_strlit("starting");
    reveal_strlit("ready");
    reveal_strlit("busy");
    reveal_strlit("error");
    reveal_strlit("shutting");
    assert("starting"@.len() == 8);
    assert("ready"@.len() == 5);
    assert("busy"@.len() == 4);
    assert("error"@.len() == 5);
    assert("shutting"@.len() == 8);
    assert("ready"@[0] != "error"@[0]);
    assert("starting"@[1] != "shutting"@[1]);
}

impl SkillResultV {
    /// Wire encoding: `Success` is a bare token, `Failure` and `Partial`
    /// are the tagged forms `{"failure": reason}` / `{"partial": reason}`.
    pub open spec fn spec_to_json(self) -> JVal {
        match self {
            SkillResultV::Success => JVal::Str("success"@),
            SkillResultV::Failure(reason) => JVal::Obj(seq![("failure"@, JVal::Str(reason))]),
            SkillResultV::Partial(reason) => JVal::Obj(seq![("partial"@, JVal::Str(reason))]),
        }
    }

    /// Decoding of the tagged-union form.
    pub open spec fn spec_from_json(v: JVal) -> Result<SkillResultV, SchemaError> {
        match v {
            JVal::Str(s) => if s == "success"@ {
                Ok(SkillResultV::Success)
            } else {
                Err(SchemaError::UnknownVariant)
            },
            JVal::Obj(entries) => if entries.len() == 1 && entries[0].0 == "failure"@ {
                match entries[0].1 {
                    JVal::Str(reason) => Ok(SkillResultV::Failure(reason)),
                    _ => Err(SchemaError::WrongType),
                }
            } else if entries.len() == 1 && entries[0].0 == "partial"@ {
                match entries[0].1 {
                    JVal::Str(reason) => Ok(SkillResultV::Partial(reason)),
                    _ => Err(SchemaError::WrongType),
                }
            } else {
                Err(SchemaError::UnknownVariant)
            },
            _ => Err(SchemaError::WrongShape),
        }
    }
}

impl SkillResult {
    /// Encode for the wire.
    pub fn to_json(&self) -> (r: JsonValue)
        ensures
            r@ == self@.spec_to_json(),
    {
        match self {
            SkillResult::Success => JsonValue::Str(String::from_str("success")),
            SkillResult::Failure(reason) => {
                let mut entries: Vec<(String, JsonValue)> = Vec::new();
                entries.push((String::from_str("failure"), JsonValue::Str(reason.clone())));
                let r = JsonValue::Obj(entries);
                proof {
                    reveal_with_fuel(crate::json::jval_of, 3);
                    assert(r@->Obj_0 =~= seq![("failure"@, JVal::Str(reason@))]);
                }
                r
            },
            SkillResult::Partial(reason) => {
                let mut entries: Vec<(String, JsonValue)> = Vec::new();
                entries.push((String::from_str("partial"), JsonValue::Str(reason.clone())));
                let r = JsonValue::Obj(entries);
                proof {
                    reveal_with_fuel(crate::json::jval_of, 3);
                    assert(r@->Obj_0 =~= seq![("partial"@, JVal::Str(reason@))]);
                }
                r
            },
        }
    }

    /// Decode from the wire.
    pub fn from_json(v: &JsonValue) -> (r: Result<SkillResult, SchemaError>)
        ensures
            match r {
                Ok(res) => SkillResultV::spec_from_json(v@) == Ok::<SkillResultV, SchemaError>(res@),
                Err(e) => SkillResultV::spec_from_json(v@) == Err::<SkillResultV, SchemaError>(e),
            },
    {
        proof {
            reveal_with_fuel(crate::json::jval_of, 3);
        }
        match v {
            JsonValue::Str(s) => if str_eq(s.as_str(), "success") {
                Ok(SkillResult::Success)
            } else {
                Err(SchemaError::UnknownVariant)
            },
            JsonValue::Obj(entries) => {
                if entries.len() == 1 && str_eq(entries[0].0.as_str(), "failure") {
                    match &entries[0].1 {
                        JsonValue::Str(reason) => Ok(SkillResult::Failure(reason.clone())),
                        _ => Err(SchemaError::WrongType),
                    }
                } else if entries.len() == 1 && str_eq(entries[0].0.as_str(), "partial") {
                    match &entries[0].1 {
                        JsonValue::Str(reason) => Ok(SkillResult::Partial(reason.clone())),
                        _ => Err(SchemaError::WrongType),
                    }
                } else {
                    Err(SchemaError::UnknownVariant)
                }
            },
            _ => Err(SchemaError::WrongShape),
        }
    }
}

/// Every skill result, reason strings included, decodes back from its own
/// wire encoding to an equal value.
pub proof fn lemma_skill_result_json_round_trip(res: SkillResultV)
    ensures
        SkillResultV::spec_from_json(res.spec_to_json()) == Ok::<SkillResultV, SchemaError>(res),
{
    reveal_strlit("success");
    reveal_strlit("failure");
    reveal_strlit("partial");
    assert("success"@.len() == 7);
    assert("failure"@.len() == 7);
    assert("partial"@.len() == 7);
    assert("failure"@[0] != "partial"@[0]);
}

} // verus!

verus! {

/// Required role field: a token string or the tagged `{"user": label}`
/// form.
pub open spec fn spec_req_role(v: JVal, key: Seq<char>) -> Result<RoleV, SchemaError> {
    match v.get(key) {
        Some(rv) => RoleV::spec_from_json(rv),
        None => Err(SchemaError::MissingField),
    }
}

/// Required role field of a wire object.
pub fn req_role_field(v: &JsonValue, key: &str) -> (r: Result<AgentRole, SchemaError>)
    ensures
        match r {
            Ok(role) => spec_req_role(v@, key@) == Ok::<RoleV, SchemaError>(role@),
            Err(e) => spec_req_role(v@, key@) == Err::<RoleV, SchemaError>(e),
        },
{
    match v.get(key) {
        Some(rv) => AgentRole::from_json(rv),
        None => Err(SchemaError::MissingField),
    }
}

/// Required skill-result field: the token `"success"` or a tagged reason.
pub open spec fn spec_req_skill_result(v: JVal, key: Seq<char>) -> Result<
    SkillResultV,
    SchemaError,
> {
    match v.get(key) {
        Some(rv) => SkillResultV::spec_from_json(rv),
        None => Err(SchemaError::MissingField),
    }
}

/// Required skill-result field of a wire object.
pub fn req_skill_result_field(v: &JsonValue, key: &str) -> (r: Result<SkillResult, SchemaError>)
    ensures
        match r {
            Ok(res) => spec_req_skill_result(v@, key@) == Ok::<SkillResultV, SchemaError>(res@),
            Err(e) => spec_req_skill_result(v@, key@) == Err::<SkillResultV, SchemaError>(e),
        },
{
    match v.get(key) {
        Some(rv) => SkillResult::from_json(rv),
        None => Err(SchemaError::MissingField),
    }
}

/// An agent announces itself: identity, role, and what it can do.
#[derive(Debug)]
pub struct AgentRegister {
    pub agent_id: String,
    pub role: AgentRole,
    pub capabilities: Vec<String>,
}

/// Mathematical form of an [`AgentRegister`].
pub struct AgentRegisterV {
    pub agent_id: Seq<char>,
    pub role: RoleV,
    pub capabilities: Seq<Seq<char>>,
}

impl View for AgentRegister {
    type V = AgentRegisterV;

    open spec fn view(&self) -> AgentRegisterV {
        AgentRegisterV {
            agent_id: self.agent_id@,
            role: self.role@,
            capabilities: self.capabilities.deep_view(),
        }
    }
}

impl AgentRegisterV {
    /// Wire encoding.
    pub open spec fn spec_to_json(self) -> JVal {
        JVal::Obj(
            seq![
                ("agent_id"@, JVal::Str(self.agent_id)),
                ("role"@, self.role.spec_to_json()),
                ("capabilities"@, JVal::Arr(
                    Seq::new(self.capabilities.len(), |i: int| JVal::Str(self.capabilities[i])),
                )),
            ],
        )
    }

    /// Decoding: every field is required.
    pub open spec fn spec_from_json(v: JVal) -> Result<AgentRegisterV, SchemaError> {
        if !(v is Obj) {
            Err(SchemaError::WrongShape)
        } else {
            match spec_req_string(v, "agent_id"@) {
                Err(e) => Err(e),
                Ok(agent_id) => match spec_req_role(v, "role"@) {
                    Err(e) => Err(e),
                    Ok(role) => match crate::json::spec_req_string_array(v, "capabilities"@) {
                        Err(e) => Err(e),
                        Ok(capabilities) => Ok(AgentRegisterV { agent_id, role, capabilities }),
                    },
                },
            }
        }
    }
}

impl AgentRegister {
    /// Encode for the wire.
    pub fn to_json(&self) -> (r: JsonValue)
        ensures
            r@ == self@.spec_to_json(),
    {
        let mut entries: Vec<(String, JsonValue)> = Vec::new();
        entries.push((String::from_str("agent_id"), JsonValue::Str(self.agent_id.clone())));
        entries.push((String::from_str("role"), self.role.to_json()));
        entries.push((String::from_str("capabilities"), JsonValue::of_string_vec(&self.capabilities)));
        let r = JsonValue::Obj(entries);
        proof {
            reveal_with_fuel(crate::json::jval_of, 3);
            assert(r@->Obj_0 =~= self@.spec_to_json()->Obj_0);
        }
        r
    }

    /// Decode from the wire.
    pub fn from_json(v: &JsonValue) -> (r: Result<AgentRegister, SchemaError>)
        ensures
            match r {
                Ok(m) => AgentRegisterV::spec_from_json(v@) == Ok::<AgentRegisterV, SchemaError>(
                    m@,
                ),
                Err(e) => AgentRegisterV::spec_from_json(v@) == Err::<AgentRegisterV, SchemaError>(
                    e,
                ),
            },
    {
        if !v.is_object() {
            return Err(SchemaError::WrongShape);
        }
        let agent_id = match v.req_string_field("agent_id") {
            Ok(x) => x,
            Err(e) => return Err(e),
        };
        let role = match req_role_field(v, "role") {
            Ok(x) => x,
            Err(e) => return Err(e),
        };
        let capabilities = match v.req_string_array_field("capabilities") {
            Ok(x) => x,
            Err(e) => return Err(e),
        };
        Ok(AgentRegister { agent_id, role, capabilities })
    }
}

/// An `AgentRegister` decodes back from its own encoding to an equal value.
pub proof fn lemma_agent_register_round_trip(m: AgentRegisterV)
    ensures
        AgentRegisterV::spec_from_json(m.spec_to_json()) == Ok::<AgentRegisterV, SchemaError>(m),
{
    reveal_strlit("agent_id");
    reveal_strlit("role");
    reveal_strlit("capabilities");
    assert("agent_id"@.len() == 8);
    assert("role"@.len() == 4);
    assert("capabilities"@.len() == 12);
    let e = m.spec_to_json()->Obj_0;
    lemma_obj_get_at(e, "agent_id"@, 0);
    lemma_obj_get_at(e, "role"@, 1);
    lemma_obj_get_at(e, "capabilities"@, 2);
    lemma_role_json_round_trip(m.role);
    lemma_string_items_of_strs(m.capabilities);
}

/// Periodic status report from an agent, with free-form metrics.
#[derive(Debug)]
pub struct AgentStatus {
    pub agent_id: String,
    pub status: RunnerStatus,
    pub metrics: JsonValue,
}

/// Mathematical form of an [`AgentStatus`].
pub struct AgentStatusV {
    pub agent_id: Seq<char>,
    pub status: RunnerStatus,
    pub metrics: JVal,
}

impl View for AgentStatus {
    type V = AgentStatusV;

    open spec fn view(&self) -> AgentStatusV {
        AgentStatusV { agent_id: self.agent_id@, status: self.status, metrics: self.metrics@ }
    }
}

impl AgentStatusV {
    /// Wire encoding.
    pub open spec fn spec_to_json(self) -> JVal {
        JVal::Obj(
            seq![
                ("agent_id"@, JVal::Str(self.agent_id)),
                ("status"@, JVal::Str(self.status.spec_token())),
                ("metrics"@, self.metrics),
            ],
        )
    }

    /// Decoding: every field is required; the metrics must be an object.
    pub open spec fn spec_from_json(v: JVal) -> Result<AgentStatusV, SchemaError> {
        if !(v is Obj) {
            Err(SchemaError::WrongShape)
        } else {
            match spec_req_string(v, "agent_id"@) {
                Err(e) => Err(e),
                Ok(agent_id) => match v.get("status"@) {
                    Some(JVal::Str(s)) => match RunnerStatus::spec_parse(s) {
                        Some(status) => match spec_req_object(v, "metrics"@) {
                            Err(e) => Err(e),
                            Ok(metrics) => Ok(AgentStatusV { agent_id, status, metrics }),
                        },
                        None => Err(SchemaError::UnknownVariant),
                    },
                    Some(_) => Err(SchemaError::WrongType),
                    None => Err(SchemaError::MissingField),
                },
            }
        }
    }
}

impl AgentStatus {
    /// Encode for the wire.
    pub fn to_json(&self) -> (r: JsonValue)
        requires
            self.metrics@ is Obj,
        ensures
            r@ == self@.spec_to_json(),
    {
        let mut entries: Vec<(String, JsonValue)> = Vec::new();
        entries.push((String::from_str("agent_id"), JsonValue::Str(self.agent_id.clone())));
        entries.push((String::from_str("status"), JsonValue::Str(String::from_str(self.status.token()))));
        entries.push((String::from_str("metrics"), self.metrics.clone()));
        let r = JsonValue::Obj(entries);
        proof {
            reveal_with_fuel(crate::json::jval_of, 3);
            assert(r@->Obj_0 =~= self@.spec_to_json()->Obj_0);
        }
        r
    }

    /// Decode from the wire.
    pub fn from_json(v: &JsonValue) -> (r: Result<AgentStatus, SchemaError>)
        ensures
            match r {
                Ok(m) => AgentStatusV::spec_from_json(v@) == Ok::<AgentStatusV, SchemaError>(m@),
                Err(e) => AgentStatusV::spec_from_json(v@) == Err::<AgentStatusV, SchemaError>(e),
            },
    {
        if !v.is_object() {
            return Err(SchemaError::WrongShape);
        }
        let agent_id = match v.req_string_field("agent_id") {
            Ok(x) => x,
            Err(e) => return Err(e),
        };
        let status = match v.get("status") {
            Some(JsonValue::Str(s)) => match RunnerStatus::parse_token(s.as_str()) {
                Some(st) => st,
                None => return Err(SchemaError::UnknownVariant),
            },
            Some(_) => return Err(SchemaError::WrongType),
            None => return Err(SchemaError::MissingField),
        };
        let metrics = match v.req_object_field("metrics") {
            Ok(x) => x,
            Err(e) => return Err(e),
        };
        Ok(AgentStatus { agent_id, status, metrics })
    }
}

/// An `AgentStatus` decodes back from its own encoding to an equal value,
/// whenever its metrics are object-shaped as the schema demands.
pub proof fn lemma_agent_status_round_trip(m: AgentStatusV)
    requires
        m.metrics is Obj,
    ensures
        AgentStatusV::spec_from_json(m.spec_to_json()) == Ok::<AgentStatusV, SchemaError>(m),
{
    reveal_strlit("agent_id");
    reveal_strlit("status");
    reveal_strlit("metrics");
    assert("agent_id"@.len() == 8);
    assert("status"@.len() == 6);
    assert("metrics"@.len() == 7);
    let e = m.spec_to_json()->Obj_0;
    lemma_obj_get_at(e, "agent_id"@, 0);
    lemma_obj_get_at(e, "status"@, 1);
    lemma_obj_get_at(e, "metrics"@, 2);
    lemma_runner_status_round_trip(m.status);
}

/// An agent reports the outcome of exercising one skill, with an optional
/// caller-assigned score carried verbatim.
#[derive(Debug)]
pub struct AgentSkillReport {
    pub agent_id: String,
    pub skill_id: String,
    pub result: SkillResult,
    pub score: Option<JsonNumber>,
}

/// Mathematical form of an [`AgentSkillReport`].
pub struct AgentSkillReportV {
    pub agent_id: Seq<char>,
    pub skill_id: Seq<char>,
    pub result: SkillResultV,
    pub score: Option<JNum>,
}

impl View for AgentSkillReport {
    type V = AgentSkillReportV;

    open spec fn view(&self) -> AgentSkillReportV {
        AgentSkillReportV {
            agent_id: self.agent_id@,
            skill_id: self.skill_id@,
            result: self.result@,
            score: match self.score {
                Some(n) => Some(n@),
                None => None,
            },
        }
    }
}

impl AgentSkillReportV {
    /// Wire encoding.
    pub open spec fn spec_to_json(self) -> JVal {
        JVal::Obj(
            seq![
                ("agent_id"@, JVal::Str(self.agent_id)),
                ("skill_id"@, JVal::Str(self.skill_id)),
                ("result"@, self.result.spec_to_json()),
                ("score"@, match self.score {
                    Some(n) => JVal::Num(n),
                    None => JVal::Null,
                }),
            ],
        )
    }

    /// Decoding: ids and result are required, the score is optional.
    pub open spec fn spec_from_json(v: JVal) -> Result<AgentSkillReportV, SchemaError> {
        if !(v is Obj) {
            Err(SchemaError::WrongShape)
        } else {
            match spec_req_string(v, "agent_id"@) {
                Err(e) => Err(e),
                Ok(agent_id) => match spec_req_string(v, "skill_id"@) {
                    Err(e) => Err(e),
                    Ok(skill_id) => match spec_req_skill_result(v, "result"@) {
                        Err(e) => Err(e),
                        Ok(result) => match spec_opt_number(v, "score"@) {
                            Err(e) => Err(e),
                            Ok(score) => Ok(
                                AgentSkillReportV { agent_id, skill_id, result, score },
                            ),
                        },
                    },
                },
            }
        }
    }
}

impl AgentSkillReport {
    /// Encode for the wire.
    pub fn to_json(&self) -> (r: JsonValue)
        ensures
            r@ == self@.spec_to_json(),
    {
        let mut entries: Vec<(String, JsonValue)> = Vec::new();
        entries.push((String::from_str("agent_id"), JsonValue::Str(self.agent_id.clone())));
        entries.push((String::from_str("skill_id"), JsonValue::Str(self.skill_id.clone())));
        entries.push((String::from_str("result"), self.result.to_json()));
        entries.push((String::from_str("score"), JsonValue::of_opt_number(&self.score)));
        let r = JsonValue::Obj(entries);
        proof {
            reveal_with_fuel(crate::json::jval_of, 3);
            assert(r@->Obj_0 =~= self@.spec_to_json()->Obj_0);
        }
        r
    }

    /// Decode from the wire.
    pub fn from_json(v: &JsonValue) -> (r: Result<AgentSkillReport, SchemaError>)
        ensures
            match r {
                Ok(m) => AgentSkillReportV::spec_from_json(v@) == Ok::<
                    AgentSkillReportV,
                    SchemaError,
                >(m@),
                Err(e) => AgentSkillReportV::spec_from_json(v@) == Err::<
                    AgentSkillReportV,
                    SchemaError,
                >(e),
            },
    {
        if !v.is_object() {
            return Err(SchemaError::WrongShape);
        }
        let agent_id = match v.req_string_field("agent_id") {
            Ok(x) => x,
            Err(e) => return Err(e),
        };
        let skill_id = match v.req_string_field("skill_id") {
            Ok(x) => x,
            Err(e) => return Err(e),
        };
        let result = match req_skill_result_field(v, "result") {
            Ok(x) => x,
            Err(e) => return Err(e),
        };
        let score = match v.opt_number_field("score") {
            Ok(x) => x,
            Err(e) => return Err(e),
        };
        Ok(AgentSkillReport { agent_id, skill_id, result, score })
    }
}

/// An `AgentSkillReport` decodes back from its own encoding to an equal
/// value.
pub proof fn lemma_agent_skill_report_round_trip(m: AgentSkillReportV)
    ensures
        AgentSkillReportV::spec_from_json(m.spec_to_json()) == Ok::<AgentSkillReportV, SchemaError>(
            m,
        ),
{
    reveal_strlit("agent_id");
    reveal_strlit("skill_id");
    reveal_strlit("result");
    reveal_strlit("score");
    assert("agent_id"@.len() == 8);
    assert("skill_id"@.len() == 8);
    assert("result"@.len() == 6);
    assert("score"@.len() == 5);
    assert("agent_id"@[0] == 'a' && "skill_id"@[0] == 's');
    let e = m.spec_to_json()->Obj_0;
    lemma_obj_get_at(e, "agent_id"@, 0);
    lemma_obj_get_at(e, "skill_id"@, 1);
    lemma_obj_get_at(e, "result"@, 2);
    lemma_obj_get_at(e, "score"@, 3);
    lemma_skill_result_json_round_trip(m.result);
}

/// One health probe's outcome.
#[derive(Debug)]
pub struct HealthCheck {
    pub name: String,
    pub endpoint: String,
    pub healthy: bool,
    pub latency_ms: Option<u64>,
    pub error: Option<String>,
}

/// Mathematical form of a [`HealthCheck`].
pub struct HealthCheckV {
    pub name: Seq<char>,
    pub endpoint: Seq<char>,
    pub healthy: bool,
    pub latency_ms: Option<u64>,
    pub error: Option<Seq<char>>,
}

impl View for HealthCheck {
    type V = HealthCheckV;

    open spec fn view(&self) -> HealthCheckV {
        HealthCheckV {
            name: self.name@,
            endpoint: self.endpoint@,
            healthy: self.healthy,
            latency_ms: self.latency_ms,
            error: match self.error {
                Some(s) => Some(s@),
                None => None,
            },
        }
    }
}

impl DeepView for HealthCheck {
    type V = HealthCheckV;

    open spec fn deep_view(&self) -> HealthCheckV {
        self.view()
    }
}

impl HealthCheckV {
    /// Wire encoding.
    pub open spec fn spec_to_json(self) -> JVal {
        JVal::Obj(
            seq![
                ("name"@, JVal::Str(self.name)),
                ("endpoint"@, JVal::Str(self.endpoint)),
                ("healthy"@, JVal::Bool(self.healthy)),
                ("latency_ms"@, match self.latency_ms {
                    Some(x) => JVal::Num(JNum { neg: false, int_part: x, frac: Seq::empty() }),
                    None => JVal::Null,
                }),
                ("error"@, jval_of_opt_string(self.error)),
            ],
        )
    }

    /// Decoding: name, endpoint and the verdict are required.
    pub open spec fn spec_from_json(v: JVal) -> Result<HealthCheckV, SchemaError> {
        if !(v is Obj) {
            Err(SchemaError::WrongShape)
        } else {
            match spec_req_string(v, "name"@) {
                Err(e) => Err(e),
                Ok(name) => match spec_req_string(v, "endpoint"@) {
                    Err(e) => Err(e),
                    Ok(endpoint) => match spec_req_bool(v, "healthy"@) {
                        Err(e) => Err(e),
                        Ok(healthy) => match spec_opt_u64(v, "latency_ms"@) {
                            Err(e) => Err(e),
                            Ok(latency_ms) => match spec_opt_string(v, "error"@) {
                                Err(e) => Err(e),
                                Ok(error) => Ok(
                                    HealthCheckV { name, endpoint, healthy, latency_ms, error },
                                ),
                            },
                        },
                    },
                },
            }
        }
    }
}

impl HealthCheck {
    /// Encode for the wire.
    pub fn to_json(&self) -> (r: JsonValue)
        ensures
            r@ == self@.spec_to_json(),
    {
        let mut entries: Vec<(String, JsonValue)> = Vec::new();
        entries.push((String::from_str("name"), JsonValue::Str(self.name.clone())));
        entries.push((String::from_str("endpoint"), JsonValue::Str(self.endpoint.clone())));
        entries.push((String::from_str("healthy"), JsonValue::Bool(self.healthy)));
        entries.push((String::from_str("latency_ms"), JsonValue::of_opt_u64(&self.latency_ms)));
        entries.push((String::from_str("error"), JsonValue::of_opt_string(&self.error)));
        let r = JsonValue::Obj(entries);
        proof {
            reveal_with_fuel(crate::json::jval_of, 3);
            assert(r@->Obj_0 =~= self@.spec_to_json()->Obj_0);
        }
        r
    }

    /// Decode from the wire.
    pub fn from_json(v: &JsonValue) -> (r: Result<HealthCheck, SchemaError>)
        ensures
            match r {
                Ok(m) => HealthCheckV::spec_from_json(v@) == Ok::<HealthCheckV, SchemaError>(m@),
                Err(e) => HealthCheckV::spec_from_json(v@) == Err::<HealthCheckV, SchemaError>(e),
            },
    {
        if !v.is_object() {
            return Err(SchemaError::WrongShape);
        }
        let name = match v.req_string_field("name") {
            Ok(x) => x,
            Err(e) => return Err(e),
        };
        let endpoint = match v.req_string_field("endpoint") {
            Ok(x) => x,
            Err(e) => return Err(e),
        };
        let healthy = match v.req_bool_field("healthy") {
            Ok(x) => x,
            Err(e) => return Err(e),
        };
        let latency_ms = match v.opt_u64_field("latency_ms") {
            Ok(x) => x,
            Err(e) => return Err(e),
        };
        let error = match v.opt_string_field("error") {
            Ok(x) => x,
            Err(e) => return Err(e),
        };
        Ok(HealthCheck { name, endpoint, healthy, latency_ms, error })
    }
}

/// A `HealthCheck` decodes back from its own encoding to an equal value.
pub proof fn lemma_health_check_round_trip(m: HealthCheckV)
    ensures
        HealthCheckV::spec_from_json(m.spec_to_json()) == Ok::<HealthCheckV, SchemaError>(m),
{
    reveal_strlit("name");
    reveal_strlit("endpoint");
    reveal_strlit("healthy");
    reveal_strlit("latency_ms");
    reveal_strlit("error");
    assert("name"@.len() == 4);
    assert("endpoint"@.len() == 8);
    assert("healthy"@.len() == 7);
    assert("latency_ms"@.len() == 10);
    assert("error"@.len() == 5);
    let e = m.spec_to_json()->Obj_0;
    lemma_obj_get_at(e, "name"@, 0);
    lemma_obj_get_at(e, "endpoint"@, 1);
    lemma_obj_get_at(e, "healthy"@, 2);
    lemma_obj_get_at(e, "latency_ms"@, 3);
    lemma_obj_get_at(e, "error"@, 4);
}

/// An agent's batch of health probe outcomes.
#[derive(Debug)]
pub struct AgentHealth {
    pub agent_id: String,
    pub health_checks: Vec<HealthCheck>,
}

/// Mathematical form of an [`AgentHealth`].
pub struct AgentHealthV {
    pub agent_id: Seq<char>,
    pub health_checks: Seq<HealthCheckV>,
}

impl View for AgentHealth {
    type V = AgentHealthV;

    open spec fn view(&self) -> AgentHealthV {
        AgentHealthV { agent_id: self.agent_id@, health_checks: self.health_checks.deep_view() }
    }
}

/// A health-check array as a sequence of views, if every element decodes.
pub open spec fn spec_health_items(items: Seq<JVal>) -> Result<Seq<HealthCheckV>, SchemaError>
    decreases items.len(),
{
    if items.len() == 0 {
        Ok(Seq::empty())
    } else {
        match HealthCheckV::spec_from_json(items[0]) {
            Ok(h) => match spec_health_items(items.skip(1)) {
                Ok(rest) => Ok(seq![h] + rest),
                Err(e) => Err(e),
            },
            Err(e) => Err(e),
        }
    }
}

/// If some element fails to decode, the array fails with that element's
/// error.
proof fn lemma_health_items_err(items: Seq<JVal>, i: int, e: SchemaError)
    requires
        0 <= i < items.len(),
        HealthCheckV::spec_from_json(items[i]) == Err::<HealthCheckV, SchemaError>(e),
        forall|j: int| 0 <= j < i ==> #[trigger] HealthCheckV::spec_from_json(items[j]) is Ok,
    ensures
        spec_health_items(items) == Err::<Seq<HealthCheckV>, SchemaError>(e),
    decreases items.len(),
{
    if i > 0 {
        lemma_health_items_err(items.skip(1), i - 1, e);
    }
}

/// If every element decodes and `views` collects the decoded checks, the
/// array decodes to exactly `views`.
proof fn lemma_health_items_ok(items: Seq<JVal>, views: Seq<HealthCheckV>)
    requires
        views.len() == items.len(),
        forall|j: int| 0 <= j < items.len() ==> #[trigger] HealthCheckV::spec_from_json(items[j])
            == Ok::<HealthCheckV, SchemaError>(views[j]),
    ensures
        spec_health_items(items) == Ok::<Seq<HealthCheckV>, SchemaError>(views),
    decreases items.len(),
{
    if items.len() == 0 {
        assert(views =~= Seq::<HealthCheckV>::empty());
    } else {
        lemma_health_items_ok(items.skip(1), views.skip(1));
        assert(views =~= seq![views[0]] + views.skip(1));
    }
}

/// A list of health checks written out one by one reads back as itself.
pub proof fn lemma_health_items_of_checks(checks: Seq<HealthCheckV>)
    ensures
        spec_health_items(Seq::new(checks.len(), |i: int| checks[i].spec_to_json())) == Ok::<
            Seq<HealthCheckV>,
            SchemaError,
        >(checks),
{
    let items = Seq::new(checks.len(), |i: int| checks[i].spec_to_json());
    assert forall|j: int| 0 <= j < items.len() implies #[trigger] HealthCheckV::spec_from_json(
        items[j],
    ) == Ok::<HealthCheckV, SchemaError>(checks[j]) by {
        lemma_health_check_round_trip(checks[j]);
    }
    lemma_health_items_ok(items, checks);
}

impl AgentHealthV {
    /// Wire encoding.
    pub open spec fn spec_to_json(self) -> JVal {
        JVal::Obj(
            seq![
                ("agent_id"@, JVal::Str(self.agent_id)),
                ("health_checks"@, JVal::Arr(
                    Seq::new(self.health_checks.len(), |i: int| self.health_checks[i].spec_to_json()),
                )),
            ],
        )
    }

    /// Decoding: both fields are required.
    pub open spec fn spec_from_json(v: JVal) -> Result<AgentHealthV, SchemaError> {
        if !(v is Obj) {
            Err(SchemaError::WrongShape)
        } else {
            match spec_req_string(v, "agent_id"@) {
                Err(e) => Err(e),
                Ok(agent_id) => match v.get("health_checks"@) {
                    Some(JVal::Arr(items)) => match spec_health_items(items) {
                        Err(e) => Err(e),
                        Ok(health_checks) => Ok(AgentHealthV { agent_id, health_checks }),
                    },
                    Some(_) => Err(SchemaError::WrongType),
                    None => Err(SchemaError::MissingField),
                },
            }
        }
    }
}

impl AgentHealth {
    /// Encode for the wire.
    #[verifier::loop_isolation(false)]
    pub fn to_json(&self) -> (r: JsonValue)
        ensures
            r@ == self@.spec_to_json(),
    {
        let mut entries: Vec<(String, JsonValue)> = Vec::new();
        entries.push((String::from_str("agent_id"), JsonValue::Str(self.agent_id.clone())));
        let mut checks: Vec<JsonValue> = Vec::new();
        let mut i: usize = 0;
        while i < self.health_checks.len()
            invariant
                i <= self.health_checks@.len(),
                checks@.len() == i,
                forall|j: int| 0 <= j < i ==> checks@[j]@ == self.health_checks@[j]@.spec_to_json(),
            decreases self.health_checks@.len() - i,
        {
            checks.push(self.health_checks[i].to_json());
            i = i + 1;
        }
        let arr = JsonValue::Arr(checks);
        proof {
            assert(arr@->Arr_0 =~= Seq::new(
                self.health_checks.deep_view().len(),
                |i: int| self.health_checks.deep_view()[i].spec_to_json(),
            ));
        }
        entries.push((String::from_str("health_checks"), arr));
        let r = JsonValue::Obj(entries);
        proof {
            reveal_with_fuel(crate::json::jval_of, 3);
            assert(r@->Obj_0 =~= self@.spec_to_json()->Obj_0);
        }
        r
    }

    /// Decode from the wire.
    #[verifier::loop_isolation(false)]
    pub fn from_json(v: &JsonValue) -> (r: Result<AgentHealth, SchemaError>)
        ensures
            match r {
                Ok(m) => AgentHealthV::spec_from_json(v@) == Ok::<AgentHealthV, SchemaError>(m@),
                Err(e) => AgentHealthV::spec_from_json(v@) == Err::<AgentHealthV, SchemaError>(e),
            },
    {
        if !v.is_object() {
            return Err(SchemaError::WrongShape);
        }
        let agent_id = match v.req_string_field("agent_id") {
            Ok(x) => x,
            Err(e) => return Err(e),
        };
        let health_checks = match v.get("health_checks") {
            Some(arr) => match arr {
                JsonValue::Arr(items) => {
                    let ghost gitems = arr@->Arr_0;
                    let mut out: Vec<HealthCheck> = Vec::new();
                    let mut i: usize = 0;
                    while i < items.len()
                        invariant
                            i <= items@.len(),
                            gitems.len() == items@.len(),
                            forall|j: int| 0 <= j < items@.len() ==> gitems[j] == items@[j]@,
                            out@.len() == i,
                            forall|j: int| 0 <= j < i ==> #[trigger] HealthCheckV::spec_from_json(
                                gitems[j],
                            ) == Ok::<HealthCheckV, SchemaError>(out@[j]@),
                        decreases items@.len() - i,
                    {
                        match HealthCheck::from_json(&items[i]) {
                            Ok(h) => {
                                out.push(h);
                            },
                            Err(e) => {
                                proof {
                                    lemma_health_items_err(gitems, i as int, e);
                                }
                                return Err(e);
                            },
                        }
                        i = i + 1;
                    }
                    proof {
                        lemma_health_items_ok(gitems, out.deep_view());
                    }
                    out
                },
                _ => {
                    return Err(SchemaError::WrongType);
                },
            },
            None => {
                return Err(SchemaError::MissingField);
            },
        };
        Ok(AgentHealth { agent_id, health_checks })
    }
}

/// An `AgentHealth` decodes back from its own encoding to an equal value.
pub proof fn lemma_agent_health_round_trip(m: AgentHealthV)
    ensures
        AgentHealthV::spec_from_json(m.spec_to_json()) == Ok::<AgentHealthV, SchemaError>(m),
{
    reveal_strlit("agent_id");
    reveal_strlit("health_checks");
    assert("agent_id"@.len() == 8);
    assert("health_checks"@.len() == 13);
    let e = m.spec_to_json()->Obj_0;
    lemma_obj_get_at(e, "agent_id"@, 0);
    lemma_obj_get_at(e, "health_checks"@, 1);
    lemma_health_items_of_checks(m.health_checks);
}

/// A directive from the king to one agent, with free-form parameters.
#[derive(Debug)]
pub struct KingCommand {
    pub command: String,
    pub target_agent: String,
    pub params: JsonValue,
}

/// Mathematical form of a [`KingCommand`].
pub struct KingCommandV {
    pub command: Seq<char>,
    pub target_agent: Seq<char>,
    pub params: JVal,
}

impl View for KingCommand {
    type V = KingCommandV;

    open spec fn view(&self) -> KingCommandV {
        KingCommandV {
            command: self.command@,
            target_agent: self.target_agent@,
            params: self.params@,
        }
    }
}

impl KingCommandV {
    /// Wire encoding.
    pub open spec fn spec_to_json(self) -> JVal {
        JVal::Obj(
            seq![
                ("command"@, JVal::Str(self.command)),
                ("target_agent"@, JVal::Str(self.target_agent)),
                ("params"@, self.params),
            ],
        )
    }

    /// Decoding: every field is required; the parameters must be an object.
    pub open spec fn spec_from_json(v: JVal) -> Result<KingCommandV, SchemaError> {
        if !(v is Obj) {
            Err(SchemaError::WrongShape)
        } else {
            match spec_req_string(v, "command"@) {
                Err(e) => Err(e),
                Ok(command) => match spec_req_string(v, "target_agent"@) {
                    Err(e) => Err(e),
                    Ok(target_agent) => match spec_req_object(v, "params"@) {
                        Err(e) => Err(e),
                        Ok(params) => Ok(KingCommandV { command, target_agent, params }),
                    },
                },
            }
        }
    }
}

impl KingCommand {
    /// Encode for the wire.
    pub fn to_json(&self) -> (r: JsonValue)
        requires
            self.params@ is Obj,
        ensures
            r@ == self@.spec_to_json(),
    {
        let mut entries: Vec<(String, JsonValue)> = Vec::new();
        entries.push((String::from_str("command"), JsonValue::Str(self.command.clone())));
        entries.push((String::from_str("target_agent"), JsonValue::Str(self.target_agent.clone())));
        entries.push((String::from_str("params"), self.params.clone()));
        let r = JsonValue::Obj(entries);
        proof {
            reveal_with_fuel(crate::json::jval_of, 3);
            assert(r@->Obj_0 =~= self@.spec_to_json()->Obj_0);
        }
        r
    }

    /// Decode from the wire.
    pub fn from_json(v: &JsonValue) -> (r: Result<KingCommand, SchemaError>)
        ensures
            match r {
                Ok(m) => KingCommandV::spec_from_json(v@) == Ok::<KingCommandV, SchemaError>(m@),
                Err(e) => KingCommandV::spec_from_json(v@) == Err::<KingCommandV, SchemaError>(e),
            },
    {
        if !v.is_object() {
            return Err(SchemaError::WrongShape);
        }
        let command = match v.req_string_field("command") {
            Ok(x) => x,
            Err(e) => return Err(e),
        };
        let target_agent = match v.req_string_field("target_agent") {
            Ok(x) => x,
            Err(e) => return Err(e),
        };
        let params = match v.req_object_field("params") {
            Ok(x) => x,
            Err(e) => return Err(e),
        };
        Ok(KingCommand { command, target_agent, params })
    }
}

/// A `KingCommand` decodes back from its own encoding to an equal value,
/// whenever its parameters are object-shaped as the schema demands.
pub proof fn lemma_king_command_round_trip(m: KingCommandV)
    requires
        m.params is Obj,
    ensures
        KingCommandV::spec_from_json(m.spec_to_json()) == Ok::<KingCommandV, SchemaError>(m),
{
    reveal_strlit("command");
    reveal_strlit("target_agent");
    reveal_strlit("params");
    assert("command"@.len() == 7);
    assert("target_agent"@.len() == 12);
    assert("params"@.len() == 6);
    let e = m.spec_to_json()->Obj_0;
    lemma_obj_get_at(e, "command"@, 0);
    lemma_obj_get_at(e, "target_agent"@, 1);
    lemma_obj_get_at(e, "params"@, 2);
}

/// Announcement that a named configuration changed, identified by hash.
#[derive(Debug)]
pub struct KingConfigUpdate {
    pub config_type: String,
    pub new_config_hash: String,
}

/// Mathematical form of a [`KingConfigUpdate`].
pub struct KingConfigUpdateV {
    pub config_type: Seq<char>,
    pub new_config_hash: Seq<char>,
}

impl View for KingConfigUpdate {
    type V = KingConfigUpdateV;

    open spec fn view(&self) -> KingConfigUpdateV {
        KingConfigUpdateV {
            config_type: self.config_type@,
            new_config_hash: self.new_config_hash@,
        }
    }
}

impl KingConfigUpdateV {
    /// Wire encoding.
    pub open spec fn spec_to_json(self) -> JVal {
        JVal::Obj(
            seq![
                ("config_type"@, JVal::Str(self.config_type)),
                ("new_config_hash"@, JVal::Str(self.new_config_hash)),
            ],
        )
    }

    /// Decoding: both fields are required strings.
    pub open spec fn spec_from_json(v: JVal) -> Result<KingConfigUpdateV, SchemaError> {
        if !(v is Obj) {
            Err(SchemaError::WrongShape)
        } else {
            match spec_req_string(v, "config_type"@) {
                Err(e) => Err(e),
                Ok(config_type) => match spec_req_string(v, "new_config_hash"@) {
                    Err(e) => Err(e),
                    Ok(new_config_hash) => Ok(KingConfigUpdateV { config_type, new_config_hash }),
                },
            }
        }
    }
}

impl KingConfigUpdate {
    /// Encode for the wire.
    pub fn to_json(&self) -> (r: JsonValue)
        ensures
            r@ == self@.spec_to_json(),
    {
        let mut entries: Vec<(String, JsonValue)> = Vec::new();
        entries.push((String::from_str("config_type"), JsonValue::Str(self.config_type.clone())));
        entries.push((String::from_str("new_config_hash"), JsonValue::Str(self.new_config_hash.clone())));
        let r = JsonValue::Obj(entries);
        proof {
            reveal_with_fuel(crate::json::jval_of, 3);
            assert(r@->Obj_0 =~= self@.spec_to_json()->Obj_0);
        }
        r
    }

    /// Decode from the wire.
    pub fn from_json(v: &JsonValue) -> (r: Result<KingConfigUpdate, SchemaError>)
        ensures
            match r {
                Ok(m) => KingConfigUpdateV::spec_from_json(v@) == Ok::<
                    KingConfigUpdateV,
                    SchemaError,
                >(m@),
                Err(e) => KingConfigUpdateV::spec_from_json(v@) == Err::<
                    KingConfigUpdateV,
                    SchemaError,
                >(e),
            },
    {
        if !v.is_object() {
            return Err(SchemaError::WrongShape);
        }
        let config_type = match v.req_string_field("config_type") {
            Ok(x) => x,
            Err(e) => return Err(e),
        };
        let new_config_hash = match v.req_string_field("new_config_hash") {
            Ok(x) => x,
            Err(e) => return Err(e),
        };
        Ok(KingConfigUpdate { config_type, new_config_hash })
    }
}

/// A `KingConfigUpdate` decodes back from its own encoding to an equal
/// value.
pub proof fn lemma_king_config_update_round_trip(m: KingConfigUpdateV)
    ensures
        KingConfigUpdateV::spec_from_json(m.spec_to_json()) == Ok::<KingConfigUpdateV, SchemaError>(
            m,
        ),
{
    reveal_strlit("config_type");
    reveal_strlit("new_config_hash");
    assert("config_type"@.len() == 11);
    assert("new_config_hash"@.len() == 15);
    let e = m.spec_to_json()->Obj_0;
    lemma_obj_get_at(e, "config_type"@, 0);
    lemma_obj_get_at(e, "new_config_hash"@, 1);
}

} // verus!
