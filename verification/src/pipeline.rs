//! Pipeline stage machine: a run threads one artifact through the fixed
//! stage order Learning -> Building -> PreLoad -> Evaluation -> SkillManage.
//! Stage results drive the run: `Completed` advances it (or finishes it at
//! the last stage), `Failed` or `TimedOut` halts it for good, a result for
//! any stage other than the run's current stage is stale and discarded, and
//! a terminal run accepts no further results.

use vstd::prelude::*;
use vstd::string::*;
use crate::json::{
    JVal, JsonValue, SchemaError, str_eq, jval_of_opt_string, spec_req_string,
    spec_opt_string, spec_req_object, spec_req_value, lemma_obj_get_at,
};

verus! {

/// One stage of the fixed pipeline order.
#[derive(Clone, Copy, Debug, PartialEq, Eq, Structural)]
pub enum PipelineStage {
    Learning,
    Building,
    PreLoad,
    Evaluation,
    SkillManage,
}

/// Overall status of a pipeline run.
#[derive(Clone, Copy, Debug, PartialEq, Eq, Structural)]
pub enum PipelineRunStatus {
    Running,
    Completed,
    Failed,
    TimedOut,
}

impl PipelineStage {
    /// Wire token.
    pub open spec fn spec_token(self) -> Seq<char> {
        match self {
            PipelineStage::Learning => "learning"@,
            PipelineStage::Building => "building"@,
            PipelineStage::PreLoad => "pre_load"@,
            PipelineStage::Evaluation => "evaluation"@,
            PipelineStage::SkillManage => "skill_manage"@,
        }
    }

    /// The stage a wire token names, if any.
    pub open spec fn spec_parse(s: Seq<char>) -> Option<PipelineStage> {
        if s == "learning"@ {
            Some(PipelineStage::Learning)
        } else if s == "building"@ {
            Some(PipelineStage::Building)
        } else if s == "pre_load"@ {
            Some(PipelineStage::PreLoad)
        } else if s == "evaluation"@ {
            Some(PipelineStage::Evaluation)
        } else if s == "skill_manage"@ {
            Some(PipelineStage::SkillManage)
        } else {
            None
        }
    }

    /// Wire token.
    pub fn token(&self) -> (r: &'static str)
        ensures
            r@ == self.spec_token(),
    {
        match self {
            PipelineStage::Learning => "learning",
            PipelineStage::Building => "building",
            PipelineStage::PreLoad => "pre_load",
            PipelineStage::Evaluation => "evaluation",
            PipelineStage::SkillManage => "skill_manage",
        }
    }

    /// Parse a wire token.
    pub fn parse_token(s: &str) -> (r: Option<PipelineStage>)
        ensures
            r == PipelineStage::spec_parse(s@),
    {
        if str_eq(s, "learning") {
            Some(PipelineStage::Learning)
        } else if str_eq(s, "building") {
            Some(PipelineStage::Building)
        } else if str_eq(s, "pre_load") {
            Some(PipelineStage::PreLoad)
        } else if str_eq(s, "evaluation") {
            Some(PipelineStage::Evaluation)
        } else if str_eq(s, "skill_manage") {
            Some(PipelineStage::SkillManage)
        } else {
            None
        }
    }

    /// The first stage of every run.
    pub open spec fn spec_first() -> PipelineStage {
        PipelineStage::Learning
    }

    /// Position in the fixed order.
    pub open spec fn spec_position(self) -> int {
        match self {
            PipelineStage::Learning => 0,
            PipelineStage::Building => 1,
            PipelineStage::PreLoad => 2,
            PipelineStage::Evaluation => 3,
            PipelineStage::SkillManage => 4,
        }
    }

    /// The stage after this one in the fixed order, if any.
    pub open spec fn spec_next(self) -> Option<PipelineStage> {
        match self {
            PipelineStage::Learning => Some(PipelineStage::Building),
            PipelineStage::Building => Some(PipelineStage::PreLoad),
            PipelineStage::PreLoad => Some(PipelineStage::Evaluation),
            PipelineStage::Evaluation => Some(PipelineStage::SkillManage),
            PipelineStage::SkillManage => None,
        }
    }

    /// The stage after this one in the fixed order, if any.
    pub fn next_stage(&self) -> (r: Option<PipelineStage>)
        ensures
            r == self.spec_next(),
    {
        match self {
            PipelineStage::Learning => Some(PipelineStage::Building),
            PipelineStage::Building => Some(PipelineStage::PreLoad),
            PipelineStage::PreLoad => Some(PipelineStage::Evaluation),
            PipelineStage::Evaluation => Some(PipelineStage::SkillManage),
            PipelineStage::SkillManage => None,
        }
    }
}

/// Every pipeline stage decodes back from its own wire token.
pub proof fn lemma_pipeline_stage_round_trip(s: PipelineStage)
    ensures
        PipelineStage::spec_parse(s.spec_token()) == Some(s),
{
    reveal_strlit("learning");
    reveal_strlit("building");
    reveal_strlit("pre_load");
    reveal_strlit("evaluation");
    reveal_strlit("skill_manage");
    assert("learning"@.len() == 8);
    assert("building"@.len() == 8);
    assert("pre_load"@.len() == 8);
    assert("evaluation"@.len() == 10);
    assert("skill_manage"@.len() == 12);
    assert("learning"@[0] != "building"@[0]);
    assert("learning"@[0] != "pre_load"@[0]);
    assert("building"@[0] != "pre_load"@[0]);
}

/// The fixed order never regresses and never repeats: each step moves to a
/// strictly later position.
pub proof fn lemma_stage_order_advances(s: PipelineStage)
    ensures
        match s.spec_next() {
            Some(n) => n.spec_position() == s.spec_position() + 1,
            None => s.spec_position() == 4,
        },
{
}

impl PipelineRunStatus {
    /// Wire token.
    pub open spec fn spec_token(self) -> Seq<char> {
        match self {
            PipelineRunStatus::Running => "running"@,
            PipelineRunStatus::Completed => "completed"@,
            PipelineRunStatus::Failed => "failed"@,
            PipelineRunStatus::TimedOut => "timed_out"@,
        }
    }

    /// The status a wire token names, if any.
    pub open spec fn spec_parse(s: Seq<char>) -> Option<PipelineRunStatus> {
        if s == "running"@ {
            Some(PipelineRunStatus::Running)
        } else if s == "completed"@ {
            Some(PipelineRunStatus::Completed)
        } else if s == "failed"@ {
            Some(PipelineRunStatus::Failed)
        } else if s == "timed_out"@ {
            Some(PipelineRunStatus::TimedOut)
        } else {
            None
        }
    }

    /// Wire token.
    pub fn token(&self) -> (r: &'static str)
        ensures
            r@ == self.spec_token(),
    {
        match self {
            PipelineRunStatus::Running => "running",
            PipelineRunStatus::Completed => "completed",
            PipelineRunStatus::Failed => "failed",
            PipelineRunStatus::TimedOut => "timed_out",
        }
    }

    /// Parse a wire token.
    pub fn parse_token(s: &str) -> (r: Option<PipelineRunStatus>)
        ensures
            r == PipelineRunStatus::spec_parse(s@),
    {
        if str_eq(s, "running") {
            Some(PipelineRunStatus::Running)
        } else if str_eq(s, "completed") {
            Some(PipelineRunStatus::Completed)
        } else if str_eq(s, "failed") {
            Some(PipelineRunStatus::Failed)
        } else if str_eq(s, "timed_out") {
            Some(PipelineRunStatus::TimedOut)
        } else {
            None
        }
    }

    /// A run in this status accepts no further stage results.
    pub open spec fn spec_is_terminal(self) -> bool {
        self != PipelineRunStatus::Running
    }

    /// A run in this status accepts no further stage results.
    pub fn is_terminal(&self) -> (r: bool)
        ensures
            r == self.spec_is_terminal(),
    {
        match self {
            PipelineRunStatus::Running => false,
            _ => true,
        }
    }
}

/// Every run status decodes back from its own wire token.
pub proof fn lemma_run_status_round_trip(s: PipelineRunStatus)
    ensures
        PipelineRunStatus::spec_parse(s.spec_token()) == Some(s),
{
    reveal_strlit("running");
    reveal_strlit("completed");
    reveal_strlit("failed");
    reveal_strlit("timed_out");
    assert("running"@.len() == 7);
    assert("completed"@.len() == 9);
    assert("failed"@.len() == 6);
    assert("timed_out"@.len() == 9);
    assert("completed"@[0] != "timed_out"@[0]);
}

/// An agent's report of one stage's outcome, sent back to the king.
#[derive(Debug)]
pub struct PipelineStageResult {
    pub run_id: String,
    pub stage: PipelineStage,
    pub agent_id: String,
    pub status: PipelineRunStatus,
    pub artifact_id: String,
    pub output: JsonValue,
    pub error: Option<String>,
}

/// Mathematical form of a [`PipelineStageResult`].
pub struct StageResultV {
    pub run_id: Seq<char>,
    pub stage: PipelineStage,
    pub agent_id: Seq<char>,
    pub status: PipelineRunStatus,
    pub artifact_id: Seq<char>,
    pub output: JVal,
    pub error: Option<Seq<char>>,
}

impl View for PipelineStageResult {
    type V = StageResultV;

    open spec fn view(&self) -> StageResultV {
        StageResultV {
            run_id: self.run_id@,
            stage: self.stage,
            agent_id: self.agent_id@,
            status: self.status,
            artifact_id: self.artifact_id@,
            output: self.output@,
            error: match self.error {
                Some(e) => Some(e@),
                None => None,
            },
        }
    }
}

/// One pipeline execution instance: an artifact moving through the stages.
#[derive(Debug)]
pub struct PipelineRun {
    pub run_id: String,
    pub stage: PipelineStage,
    pub status: PipelineRunStatus,
    pub artifact_id: String,
}

/// Mathematical form of a [`PipelineRun`].
pub struct RunV {
    pub run_id: Seq<char>,
    pub stage: PipelineStage,
    pub status: PipelineRunStatus,
    pub artifact_id: Seq<char>,
}

impl View for PipelineRun {
    type V = RunV;

    open spec fn view(&self) -> RunV {
        RunV {
            run_id: self.run_id@,
            stage: self.stage,
            status: self.status,
            artifact_id: self.artifact_id@,
        }
    }
}

/// What applying one stage result did to a run.
#[derive(Clone, Copy, Debug, PartialEq, Eq, Structural)]
pub enum StageOutcome {
    /// `Completed` at a non-final stage: the run advanced; the king should
    /// emit `PipelineNext` for the carried stage.
    Advanced(PipelineStage),
    /// `Completed` at the final stage: the run is terminal with `Completed`.
    RunCompleted,
    /// `Failed` or `TimedOut`: the run is terminal with that status; no
    /// later stage runs.
    RunHalted(PipelineRunStatus),
    /// A `Running` progress report: no state change.
    Progress,
    /// A result for a stage other than the run's current stage: stale or
    /// duplicated, discarded without error.
    Stale,
    /// The run was already terminal: a state violation, rejected and
    /// reported to the sender rather than silently accepted.
    AlreadyTerminal,
}

impl RunV {
    /// A run is well formed when a terminal status means no more stages are
    /// pending for it.
    pub open spec fn spec_apply(self, res: StageResultV) -> (RunV, StageOutcome) {
        if self.status.spec_is_terminal() {
            (self, StageOutcome::AlreadyTerminal)
        } else if res.stage != self.stage {
            (self, StageOutcome::Stale)
        } else {
            match res.status {
                PipelineRunStatus::Running => (self, StageOutcome::Progress),
                PipelineRunStatus::Completed => match self.stage.spec_next() {
                    Some(next) => (
                        RunV { stage: next, artifact_id: res.artifact_id, ..self },
                        StageOutcome::Advanced(next),
                    ),
                    None => (
                        RunV {
                            status: PipelineRunStatus::Completed,
                            artifact_id: res.artifact_id,
                            ..self
                        },
                        StageOutcome::RunCompleted,
                    ),
                },
                _ => (
                    RunV { status: res.status, ..self },
                    StageOutcome::RunHalted(res.status),
                ),
            }
        }
    }
}

impl PipelineRun {
    /// A run starts implicitly with the first message naming its `run_id`:
    /// at the first stage, running, on the named artifact.
    pub fn start(run_id: String, artifact_id: String) -> (r: PipelineRun)
        ensures
            r@ == (RunV {
                run_id: run_id@,
                stage: PipelineStage::spec_first(),
                status: PipelineRunStatus::Running,
                artifact_id: artifact_id@,
            }),
    {
        PipelineRun {
            run_id,
            stage: PipelineStage::Learning,
            status: PipelineRunStatus::Running,
            artifact_id,
        }
    }

    /// Apply one reported stage result for this run.
    ///
    /// `Completed` at the run's current stage advances it (or finishes it at
    /// the last stage); `Failed`/`TimedOut` halt it; a result for any other
    /// stage is discarded as stale; a terminal run rejects the result.
    pub fn apply_stage_result(&mut self, res: &PipelineStageResult) -> (r: StageOutcome)
        requires
            res.run_id@ == old(self).run_id@,
        ensures
            final(self)@ == old(self)@.spec_apply(res@).0,
            r == old(self)@.spec_apply(res@).1,
    {
        if self.status.is_terminal() {
            return StageOutcome::AlreadyTerminal;
        }
        if res.stage != self.stage {
            return StageOutcome::Stale;
        }
        match res.status {
            PipelineRunStatus::Running => StageOutcome::Progress,
            PipelineRunStatus::Completed => match self.stage.next_stage() {
                Some(next) => {
                    self.stage = next;
                    self.artifact_id = res.artifact_id.clone();
                    StageOutcome::Advanced(next)
                },
                None => {
                    self.status = PipelineRunStatus::Completed;
                    self.artifact_id = res.artifact_id.clone();
                    StageOutcome::RunCompleted
                },
            },
            _ => {
                self.status = res.status;
                StageOutcome::RunHalted(res.status)
            },
        }
    }
}

/// A run whose five stages are reported in order, each `Completed`, reaches
/// the overall terminal `Completed` status.
pub proof fn lemma_ordered_run_completes(
    run: RunV,
    a: StageResultV,
    b: StageResultV,
    c: StageResultV,
    d: StageResultV,
    e: StageResultV,
)
    requires
        run.status == PipelineRunStatus::Running,
        run.stage == PipelineStage::Learning,
        a.stage == PipelineStage::Learning && a.status == PipelineRunStatus::Completed,
        b.stage == PipelineStage::Building && b.status == PipelineRunStatus::Completed,
        c.stage == PipelineStage::PreLoad && c.status == PipelineRunStatus::Completed,
        d.stage == PipelineStage::Evaluation && d.status == PipelineRunStatus::Completed,
        e.stage == PipelineStage::SkillManage && e.status == PipelineRunStatus::Completed,
    ensures
        ({
            let r1 = run.spec_apply(a).0;
            let r2 = r1.spec_apply(b).0;
            let r3 = r2.spec_apply(c).0;
            let r4 = r3.spec_apply(d).0;
            let r5 = r4.spec_apply(e).0;
            &&& r5.status == PipelineRunStatus::Completed
            &&& r5.status.spec_is_terminal()
            &&& r4.spec_apply(e).1 == StageOutcome::RunCompleted
        }),
{
}

/// A `Failed` result at the run's current stage makes the run terminal at
/// once: no later stage is authorized and every further result is rejected.
pub proof fn lemma_failed_stage_halts_run(run: RunV, res: StageResultV, later: StageResultV)
    requires
        run.status == PipelineRunStatus::Running,
        res.stage == run.stage,
        res.status == PipelineRunStatus::Failed || res.status == PipelineRunStatus::TimedOut,
    ensures
        run.spec_apply(res).0.status == res.status,
        run.spec_apply(res).0.status.spec_is_terminal(),
        run.spec_apply(res).1 == StageOutcome::RunHalted(res.status),
        run.spec_apply(res).0.spec_apply(later) == (
            run.spec_apply(res).0,
            StageOutcome::AlreadyTerminal,
        ),
{
}

/// A result for a stage other than the run's current stage is discarded
/// with no state change.
pub proof fn lemma_stale_result_discarded(run: RunV, res: StageResultV)
    requires
        run.status == PipelineRunStatus::Running,
        res.stage != run.stage,
    ensures
        run.spec_apply(res) == (run, StageOutcome::Stale),
{
}

/// A run's identity never changes and its stage never regresses: whatever
/// result arrives, the stage's position in the fixed order only stays or
/// grows, and a terminal run does not change at all.
pub proof fn lemma_run_never_regresses(run: RunV, res: StageResultV)
    ensures
        run.spec_apply(res).0.run_id == run.run_id,
        run.spec_apply(res).0.stage.spec_position() >= run.stage.spec_position(),
        run.status.spec_is_terminal() ==> run.spec_apply(res).0 == run,
{
}

/// Redelivery is harmless: once a result has been applied, applying the
/// same result again leaves the run unchanged.
pub proof fn lemma_stage_result_idempotent(run: RunV, res: StageResultV)
    ensures
        ({
            let once = run.spec_apply(res).0;
            once.spec_apply(res).0 == once
        }),
{
}

} // verus!

verus! {

/// Required stage field: a string naming a known stage.
pub open spec fn spec_req_stage(v: JVal, key: Seq<char>) -> Result<PipelineStage, SchemaError> {
    match v.get(key) {
        Some(JVal::Str(s)) => match PipelineStage::spec_parse(s) {
            Some(st) => Ok(st),
            None => Err(SchemaError::UnknownVariant),
        },
        Some(_) => Err(SchemaError::WrongType),
        None => Err(SchemaError::MissingField),
    }
}

/// Required stage field of a wire object.
pub fn req_stage_field(v: &JsonValue, key: &str) -> (r: Result<PipelineStage, SchemaError>)
    ensures
        match r {
            Ok(st) => spec_req_stage(v@, key@) == Ok::<PipelineStage, SchemaError>(st),
            Err(e) => spec_req_stage(v@, key@) == Err::<PipelineStage, SchemaError>(e),
        },
{
    match v.get(key) {
        Some(JsonValue::Str(s)) => match PipelineStage::parse_token(s.as_str()) {
            Some(st) => Ok(st),
            None => Err(SchemaError::UnknownVariant),
        },
        Some(_) => Err(SchemaError::WrongType),
        None => Err(SchemaError::MissingField),
    }
}

/// Required run-status field: a string naming a known status.
pub open spec fn spec_req_run_status(v: JVal, key: Seq<char>) -> Result<
    PipelineRunStatus,
    SchemaError,
> {
    match v.get(key) {
        Some(JVal::Str(s)) => match PipelineRunStatus::spec_parse(s) {
            Some(st) => Ok(st),
            None => Err(SchemaError::UnknownVariant),
        },
        Some(_) => Err(SchemaError::WrongType),
        None => Err(SchemaError::MissingField),
    }
}

/// Required run-status field of a wire object.
pub fn req_run_status_field(v: &JsonValue, key: &str) -> (r: Result<
    PipelineRunStatus,
    SchemaError,
>)
    ensures
        match r {
            Ok(st) => spec_req_run_status(v@, key@) == Ok::<PipelineRunStatus, SchemaError>(st),
            Err(e) => spec_req_run_status(v@, key@) == Err::<PipelineRunStatus, SchemaError>(e),
        },
{
    match v.get(key) {
        Some(JsonValue::Str(s)) => match PipelineRunStatus::parse_token(s.as_str()) {
            Some(st) => Ok(st),
            None => Err(SchemaError::UnknownVariant),
        },
        Some(_) => Err(SchemaError::WrongType),
        None => Err(SchemaError::MissingField),
    }
}

/// King hands an artifact to a stage's role room: "produce this artifact
/// for this stage".
#[derive(Debug)]
pub struct PipelineNext {
    pub stage: PipelineStage,
    pub artifact_id: String,
    pub metadata: JsonValue,
}

/// Mathematical form of a [`PipelineNext`].
pub struct PipelineNextV {
    pub stage: PipelineStage,
    pub artifact_id: Seq<char>,
    pub metadata: JVal,
}

impl View for PipelineNext {
    type V = PipelineNextV;

    open spec fn view(&self) -> PipelineNextV {
        PipelineNextV {
            stage: self.stage,
            artifact_id: self.artifact_id@,
            metadata: self.metadata@,
        }
    }
}

impl PipelineNextV {
    /// Wire encoding.
    pub open spec fn spec_to_json(self) -> JVal {
        JVal::Obj(
            seq![
                ("stage"@, JVal::Str(self.stage.spec_token())),
                ("artifact_id"@, JVal::Str(self.artifact_id)),
                ("metadata"@, self.metadata),
            ],
        )
    }

    /// Decoding: every field is required; the metadata must be an object.
    pub open spec fn spec_from_json(v: JVal) -> Result<PipelineNextV, SchemaError> {
        if !(v is Obj) {
            Err(SchemaError::WrongShape)
        } else {
            match spec_req_stage(v, "stage"@) {
                Err(e) => Err(e),
                Ok(stage) => match spec_req_string(v, "artifact_id"@) {
                    Err(e) => Err(e),
                    Ok(artifact_id) => match spec_req_object(v, "metadata"@) {
                        Err(e) => Err(e),
                        Ok(metadata) => Ok(PipelineNextV { stage, artifact_id, metadata }),
                    },
                },
            }
        }
    }
}

impl PipelineNext {
    /// Encode for the wire.
    pub fn to_json(&self) -> (r: JsonValue)
        requires
            self.metadata@ is Obj,
        ensures
            r@ == self@.spec_to_json(),
    {
        let mut entries: Vec<(String, JsonValue)> = Vec::new();
        entries.push((String::from_str("stage"), JsonValue::Str(String::from_str(self.stage.token()))));
        entries.push((String::from_str("artifact_id"), JsonValue::Str(self.artifact_id.clone())));
        entries.push((String::from_str("metadata"), self.metadata.clone()));
        let r = JsonValue::Obj(entries);
        proof {
            reveal_with_fuel(crate::json::jval_of, 3);
            assert(r@->Obj_0 =~= self@.spec_to_json()->Obj_0);
        }
        r
    }

    /// Decode from the wire.
    pub fn from_json(v: &JsonValue) -> (r: Result<PipelineNext, SchemaError>)
        ensures
            match r {
                Ok(m) => PipelineNextV::spec_from_json(v@) == Ok::<PipelineNextV, SchemaError>(m@),
                Err(e) => PipelineNextV::spec_from_json(v@) == Err::<PipelineNextV, SchemaError>(
                    e,
                ),
            },
    {
        if !v.is_object() {
            return Err(SchemaError::WrongShape);
        }
        let stage = match req_stage_field(v, "stage") {
            Ok(x) => x,
            Err(e) => return Err(e),
        };
        let artifact_id = match v.req_string_field("artifact_id") {
            Ok(x) => x,
            Err(e) => return Err(e),
        };
        let metadata = match v.req_object_field("metadata") {
            Ok(x) => x,
            Err(e) => return Err(e),
        };
        Ok(PipelineNext { stage, artifact_id, metadata })
    }
}

/// A `PipelineNext` decodes back from its own encoding to an equal value,
/// whenever its metadata is object-shaped as the schema demands.
pub proof fn lemma_pipeline_next_round_trip(m: PipelineNextV)
    requires
        m.metadata is Obj,
    ensures
        PipelineNextV::spec_from_json(m.spec_to_json()) == Ok::<PipelineNextV, SchemaError>(m),
{
    reveal_strlit("stage");
    reveal_strlit("artifact_id");
    reveal_strlit("metadata");
    assert("stage"@.len() == 5);
    assert("artifact_id"@.len() == 11);
    assert("metadata"@.len() == 8);
    let e = m.spec_to_json()->Obj_0;
    lemma_obj_get_at(e, "stage"@, 0);
    lemma_obj_get_at(e, "artifact_id"@, 1);
    lemma_obj_get_at(e, "metadata"@, 2);
    lemma_pipeline_stage_round_trip(m.stage);
}

impl StageResultV {
    /// Wire encoding.
    pub open spec fn spec_to_json(self) -> JVal {
        JVal::Obj(
            seq![
                ("run_id"@, JVal::Str(self.run_id)),
                ("stage"@, JVal::Str(self.stage.spec_token())),
                ("agent_id"@, JVal::Str(self.agent_id)),
                ("status"@, JVal::Str(self.status.spec_token())),
                ("artifact_id"@, JVal::Str(self.artifact_id)),
                ("output"@, self.output),
                ("error"@, jval_of_opt_string(self.error)),
            ],
        )
    }

    /// Decoding: everything but the error is required; the free-form output
    /// may be any value, `null` included.
    pub open spec fn spec_from_json(v: JVal) -> Result<StageResultV, SchemaError> {
        if !(v is Obj) {
            Err(SchemaError::WrongShape)
        } else {
            match spec_req_string(v, "run_id"@) {
                Err(e) => Err(e),
                Ok(run_id) => match spec_req_stage(v, "stage"@) {
                    Err(e) => Err(e),
                    Ok(stage) => match spec_req_string(v, "agent_id"@) {
                        Err(e) => Err(e),
                        Ok(agent_id) => match spec_req_run_status(v, "status"@) {
                            Err(e) => Err(e),
                            Ok(status) => match spec_req_string(v, "artifact_id"@) {
                                Err(e) => Err(e),
                                Ok(artifact_id) => match spec_req_value(v, "output"@) {
                                    Err(e) => Err(e),
                                    Ok(output) => match spec_opt_string(v, "error"@) {
                                        Err(e) => Err(e),
                                        Ok(error) => Ok(
                                            StageResultV {
                                                run_id,
                                                stage,
                                                agent_id,
                                                status,
                                                artifact_id,
                                                output,
                                                error,
                                            },
                                        ),
                                    },
                                },
                            },
                        },
                    },
                },
            }
        }
    }
}

impl PipelineStageResult {
    /// Encode for the wire.
    pub fn to_json(&self) -> (r: JsonValue)
        ensures
            r@ == self@.spec_to_json(),
    {
        let mut entries: Vec<(String, JsonValue)> = Vec::new();
        entries.push((String::from_str("run_id"), JsonValue::Str(self.run_id.clone())));
        entries.push((String::from_str("stage"), JsonValue::Str(String::from_str(self.stage.token()))));
        entries.push((String::from_str("agent_id"), JsonValue::Str(self.agent_id.clone())));
        entries.push((String::from_str("status"), JsonValue::Str(String::from_str(self.status.token()))));
        entries.push((String::from_str("artifact_id"), JsonValue::Str(self.artifact_id.clone())));
        entries.push((String::from_str("output"), self.output.clone()));
        entries.push((String::from_str("error"), JsonValue::of_opt_string(&self.error)));
        let r = JsonValue::Obj(entries);
        proof {
            reveal_with_fuel(crate::json::jval_of, 3);
            assert(r@->Obj_0 =~= self@.spec_to_json()->Obj_0);
        }
        r
    }

    /// Decode from the wire.
    pub fn from_json(v: &JsonValue) -> (r: Result<PipelineStageResult, SchemaError>)
        ensures
            match r {
                Ok(m) => StageResultV::spec_from_json(v@) == Ok::<StageResultV, SchemaError>(m@),
                Err(e) => StageResultV::spec_from_json(v@) == Err::<StageResultV, SchemaError>(e),
            },
    {
        if !v.is_object() {
            return Err(SchemaError::WrongShape);
        }
        let run_id = match v.req_string_field("run_id") {
            Ok(x) => x,
            Err(e) => return Err(e),
        };
        let stage = match req_stage_field(v, "stage") {
            Ok(x) => x,
            Err(e) => return Err(e),
        };
        let agent_id = match v.req_string_field("agent_id") {
            Ok(x) => x,
            Err(e) => return Err(e),
        };
        let status = match req_run_status_field(v, "status") {
            Ok(x) => x,
            Err(e) => return Err(e),
        };
        let artifact_id = match v.req_string_field("artifact_id") {
            Ok(x) => x,
            Err(e) => return Err(e),
        };
        let output = match v.req_value_field("output") {
            Ok(x) => x,
            Err(e) => return Err(e),
        };
        let error = match v.opt_string_field("error") {
            Ok(x) => x,
            Err(e) => return Err(e),
        };
        Ok(PipelineStageResult { run_id, stage, agent_id, status, artifact_id, output, error })
    }
}

/// A `PipelineStageResult` decodes back from its own encoding to an equal
/// value.
pub proof fn lemma_stage_result_round_trip(m: StageResultV)
    ensures
        StageResultV::spec_from_json(m.spec_to_json()) == Ok::<StageResultV, SchemaError>(m),
{
    reveal_strlit("run_id");
    reveal_strlit("stage");
    reveal_strlit("agent_id");
    reveal_strlit("status");
    reveal_strlit("artifact_id");
    reveal_strlit("output");
    reveal_strlit("error");
    assert("run_id"@.len() == 6);
    assert("stage"@.len() == 5);
    assert("agent_id"@.len() == 8);
    assert("status"@.len() == 6);
    assert("artifact_id"@.len() == 11);
    assert("output"@.len() == 6);
    assert("error"@.len() == 5);
    assert("run_id"@[0] == 'r' && "status"@[0] == 's' && "output"@[0] == 'o');
    assert("stage"@[0] == 's' && "error"@[0] == 'e');
    let e = m.spec_to_json()->Obj_0;
    lemma_obj_get_at(e, "run_id"@, 0);
    lemma_obj_get_at(e, "stage"@, 1);
    lemma_obj_get_at(e, "agent_id"@, 2);
    lemma_obj_get_at(e, "status"@, 3);
    lemma_obj_get_at(e, "artifact_id"@, 4);
    lemma_obj_get_at(e, "output"@, 5);
    lemma_obj_get_at(e, "error"@, 6);
    lemma_pipeline_stage_round_trip(m.stage);
    lemma_run_status_round_trip(m.status);
}

} // verus!
