//! Memory subsystem protocol: scoped, categorized, tiered knowledge
//! records, the store/query request shapes, and the change announcements
//! that are the only way other agents learn of mutations.
//!
//! A memory's `key` is a caller-chosen logical address: storing again with
//! the same `(scope, key)` updates the record instead of duplicating it, so
//! the announced action is `"created"` exactly once per address and
//! `"updated"` afterwards.

use vstd::prelude::*;
use vstd::string::*;
use crate::json::{
    JVal, JsonValue, JsonNumber, JNum, SchemaError, str_eq, jval_of_opt_string,
    jnum_of_u32, spec_req_string, spec_opt_string, spec_string_or_empty, spec_u32_or,
    spec_value_or_empty_object, spec_number_or_zero, spec_string_array_or_empty,
    lemma_obj_get_at, lemma_obj_get_none, lemma_string_items_of_strs,
};

verus! {

broadcast use vstd::std_specs::vec::group_vec_axioms;

/// Who a memory belongs to.
#[derive(Clone, Copy, Debug, PartialEq, Eq, Structural)]
pub enum MemoryScope {
    System,
    Agent,
    Pipeline,
    Skill,
}

/// What kind of knowledge a memory holds.
#[derive(Clone, Copy, Debug, PartialEq, Eq, Structural)]
pub enum MemoryCategory {
    Case,
    Pattern,
    Fact,
    Preference,
    Resource,
    Event,
}

impl MemoryScope {
    /// Wire token.
    pub open spec fn spec_token(self) -> Seq<char> {
        match self {
            MemoryScope::System => "system"@,
            MemoryScope::Agent => "agent"@,
            MemoryScope::Pipeline => "pipeline"@,
            MemoryScope::Skill => "skill"@,
        }
    }

    /// The scope a wire token names, if any.
    pub open spec fn spec_parse(s: Seq<char>) -> Option<MemoryScope> {
        if s == "system"@ {
            Some(MemoryScope::System)
        } else if s == "agent"@ {
            Some(MemoryScope::Agent)
        } else if s == "pipeline"@ {
            Some(MemoryScope::Pipeline)
        } else if s == "skill"@ {
            Some(MemoryScope::Skill)
        } else {
            None
        }
    }

    /// Wire token.
    pub fn token(&self) -> (r: &'static str)
        ensures
            r@ == self.spec_token(),
    {
        match self {
            MemoryScope::System => "system",
            MemoryScope::Agent => "agent",
            MemoryScope::Pipeline => "pipeline",
            MemoryScope::Skill => "skill",
        }
    }

    /// Parse a wire token.
    pub fn parse_token(s: &str) -> (r: Option<MemoryScope>)
        ensures
            r == MemoryScope::spec_parse(s@),
    {
        if str_eq(s, "system") {
            Some(MemoryScope::System)
        } else if str_eq(s, "agent") {
            Some(MemoryScope::Agent)
        } else if str_eq(s, "pipeline") {
            Some(MemoryScope::Pipeline)
        } else if str_eq(s, "skill") {
            Some(MemoryScope::Skill)
        } else {
            None
        }
    }
}

/// Every memory scope decodes back from its own wire token.
pub proof fn lemma_memory_scope_round_trip(s: MemoryScope)
    ensures
        MemoryScope::spec_parse(s.spec_token()) == Some(s),
{
    reveal_strlit("system");
    reveal_strlit("agent");
    reveal_strlit("pipeline");
    reveal_strlit("skill");
    assert("system"@.len() == 6);
    assert("agent"@.len() == 5);
    assert("pipeline"@.len() == 8);
    assert("skill"@.len() == 5);
    assert("agent"@[0] != "skill"@[0]);
}

impl MemoryCategory {
    /// Wire token.
    pub open spec fn spec_token(self) -> Seq<char> {
        match self {
            MemoryCategory::Case => "case"@,
            MemoryCategory::Pattern => "pattern"@,
            MemoryCategory::Fact => "fact"@,
            MemoryCategory::Preference => "preference"@,
            MemoryCategory::Resource => "resource"@,
            MemoryCategory::Event => "event"@,
        }
    }

    /// The category a wire token names, if any.
    pub open spec fn spec_parse(s: Seq<char>) -> Option<MemoryCategory> {
        if s == "case"@ {
            Some(MemoryCategory::Case)
        } else if s == "pattern"@ {
            Some(MemoryCategory::Pattern)
        } else if s == "fact"@ {
            Some(MemoryCategory::Fact)
        } else if s == "preference"@ {
            Some(MemoryCategory::Preference)
        } else if s == "resource"@ {
            Some(MemoryCategory::Resource)
        } else if s == "event"@ {
            Some(MemoryCategory::Event)
        } else {
            None
        }
    }

    /// Wire token.
    pub fn token(&self) -> (r: &'static str)
        ensures
            r@ == self.spec_token(),
    {
        match self {
            MemoryCategory::Case => "case",
            MemoryCategory::Pattern => "pattern",
            MemoryCategory::Fact => "fact",
            MemoryCategory::Preference => "preference",
            MemoryCategory::Resource => "resource",
            MemoryCategory::Event => "event",
        }
    }

    /// Parse a wire token.
    pub fn parse_token(s: &str) -> (r: Option<MemoryCategory>)
        ensures
            r == MemoryCategory::spec_parse(s@),
    {
        if str_eq(s, "case") {
            Some(MemoryCategory::Case)
        } else if str_eq(s, "pattern") {
            Some(MemoryCategory::Pattern)
        } else if str_eq(s, "fact") {
            Some(MemoryCategory::Fact)
        } else if str_eq(s, "preference") {
            Some(MemoryCategory::Preference)
        } else if str_eq(s, "resource") {
            Some(MemoryCategory::Resource)
        } else if str_eq(s, "event") {
            Some(MemoryCategory::Event)
        } else {
            None
        }
    }
}

/// Every memory category decodes back from its own wire token.
pub proof fn lemma_memory_category_round_trip(c: MemoryCategory)
    ensures
        MemoryCategory::spec_parse(c.spec_token()) == Some(c),
{
    reveal_strlit("case");
    reveal_strlit("pattern");
    reveal_strlit("fact");
    reveal_strlit("preference");
    reveal_strlit("resource");
    reveal_strlit("event");
    assert("case"@.len() == 4);
    assert("pattern"@.len() == 7);
    assert("fact"@.len() == 4);
    assert("preference"@.len() == 10);
    assert("resource"@.len() == 8);
    assert("event"@.len() == 5);
    assert("case"@[0] != "fact"@[0]);
}

/// A single tier entry (`l0`/`l1`/`l2`) supplied when creating or updating
/// a memory.
#[derive(Debug)]
pub struct MemoryTierEntry {
    pub tier: String,
    pub content: String,
}

/// Mathematical form of a [`MemoryTierEntry`].
pub struct TierEntryV {
    pub tier: Seq<char>,
    pub content: Seq<char>,
}

impl View for MemoryTierEntry {
    type V = TierEntryV;

    open spec fn view(&self) -> TierEntryV {
        TierEntryV { tier: self.tier@, content: self.content@ }
    }
}

impl DeepView for MemoryTierEntry {
    type V = TierEntryV;

    open spec fn deep_view(&self) -> TierEntryV {
        self.view()
    }
}

/// Agent stores a memory into the king's store.
#[derive(Debug)]
pub struct MemoryStore {
    pub scope: MemoryScope,
    pub category: MemoryCategory,
    /// Logical address for idempotent upsert; empty when the caller wants a
    /// plain insert.
    pub key: String,
    pub metadata: JsonValue,
    pub tags: Vec<String>,
    pub agent_id: String,
    pub run_id: String,
    pub skill_id: String,
    /// Caller-assigned relevance, carried verbatim, never computed here.
    pub relevance_score: JsonNumber,
    pub tiers: Vec<MemoryTierEntry>,
    pub task_id: Option<String>,
}

/// Mathematical form of a [`MemoryStore`].
pub struct MemoryStoreV {
    pub scope: MemoryScope,
    pub category: MemoryCategory,
    pub key: Seq<char>,
    pub metadata: JVal,
    pub tags: Seq<Seq<char>>,
    pub agent_id: Seq<char>,
    pub run_id: Seq<char>,
    pub skill_id: Seq<char>,
    pub relevance_score: JNum,
    pub tiers: Seq<TierEntryV>,
    pub task_id: Option<Seq<char>>,
}

impl View for MemoryStore {
    type V = MemoryStoreV;

    open spec fn view(&self) -> MemoryStoreV {
        MemoryStoreV {
            scope: self.scope,
            category: self.category,
            key: self.key@,
            metadata: self.metadata@,
            tags: self.tags.deep_view(),
            agent_id: self.agent_id@,
            run_id: self.run_id@,
            skill_id: self.skill_id@,
            relevance_score: self.relevance_score@,
            tiers: self.tiers.deep_view(),
            task_id: match self.task_id {
                Some(t) => Some(t@),
                None => None,
            },
        }
    }
}

/// Agent queries memories from the king's store.
#[derive(Debug)]
pub struct MemoryQuery {
    pub query: String,
    pub scope: Option<MemoryScope>,
    pub category: Option<MemoryCategory>,
    pub agent_id: Option<String>,
    pub tier: Option<String>,
    pub task_id: Option<String>,
    pub limit: u32,
}

/// Mathematical form of a [`MemoryQuery`].
pub struct MemoryQueryV {
    pub query: Seq<char>,
    pub scope: Option<MemoryScope>,
    pub category: Option<MemoryCategory>,
    pub agent_id: Option<Seq<char>>,
    pub tier: Option<Seq<char>>,
    pub task_id: Option<Seq<char>>,
    pub limit: u32,
}

impl View for MemoryQuery {
    type V = MemoryQueryV;

    open spec fn view(&self) -> MemoryQueryV {
        MemoryQueryV {
            query: self.query@,
            scope: self.scope,
            category: self.category,
            agent_id: match self.agent_id {
                Some(a) => Some(a@),
                None => None,
            },
            tier: match self.tier {
                Some(t) => Some(t@),
                None => None,
            },
            task_id: match self.task_id {
                Some(t) => Some(t@),
                None => None,
            },
            limit: self.limit,
        }
    }
}

/// A single tier in a returned memory record.
#[derive(Debug)]
pub struct MemoryTierRecord {
    pub id: String,
    pub memory_id: String,
    pub tier: String,
    pub content: String,
    pub created_at: String,
    pub updated_at: String,
}

/// Mathematical form of a [`MemoryTierRecord`].
pub struct TierRecordV {
    pub id: Seq<char>,
    pub memory_id: Seq<char>,
    pub tier: Seq<char>,
    pub content: Seq<char>,
    pub created_at: Seq<char>,
    pub updated_at: Seq<char>,
}

impl View for MemoryTierRecord {
    type V = TierRecordV;

    open spec fn view(&self) -> TierRecordV {
        TierRecordV {
            id: self.id@,
            memory_id: self.memory_id@,
            tier: self.tier@,
            content: self.content@,
            created_at: self.created_at@,
            updated_at: self.updated_at@,
        }
    }
}

impl DeepView for MemoryTierRecord {
    type V = TierRecordV;

    open spec fn deep_view(&self) -> TierRecordV {
        self.view()
    }
}

/// A stored memory record as returned in query results.
#[derive(Debug)]
pub struct MemoryRecord {
    pub id: String,
    pub scope: String,
    pub category: String,
    pub key: String,
    pub tiers: Vec<MemoryTierRecord>,
    pub metadata: JsonValue,
    pub tags: Vec<String>,
    pub agent_id: String,
    pub run_id: String,
    pub skill_id: String,
    pub relevance_score: JsonNumber,
    /// Monotonically non-decreasing; incremented by reads in the store,
    /// never by this protocol layer.
    pub access_count: i64,
    pub created_at: String,
    pub updated_at: String,
}

/// King returns matching memories to an agent. `count` equals the number of
/// records returned when no further pages exist; the protocol defines no
/// pagination cursor.
#[derive(Debug)]
pub struct MemoryResult {
    pub memories: Vec<MemoryRecord>,
    pub count: u32,
}

/// Broadcast when a memory is created, updated, or deleted: the only
/// mechanism by which other agents learn of memory changes.
#[derive(Debug)]
pub struct MemoryChanged {
    pub action: String,
    pub memory: Option<MemoryRecord>,
    pub memory_id: Option<String>,
}

/// Mathematical form of a [`MemoryRecord`].
pub struct MemoryRecordV {
    pub id: Seq<char>,
    pub scope: Seq<char>,
    pub category: Seq<char>,
    pub key: Seq<char>,
    pub tiers: Seq<TierRecordV>,
    pub metadata: JVal,
    pub tags: Seq<Seq<char>>,
    pub agent_id: Seq<char>,
    pub run_id: Seq<char>,
    pub skill_id: Seq<char>,
    pub relevance_score: JNum,
    pub access_count: i64,
    pub created_at: Seq<char>,
    pub updated_at: Seq<char>,
}

impl View for MemoryRecord {
    type V = MemoryRecordV;

    open spec fn view(&self) -> MemoryRecordV {
        MemoryRecordV {
            id: self.id@,
            scope: self.scope@,
            category: self.category@,
            key: self.key@,
            tiers: self.tiers.deep_view(),
            metadata: self.metadata@,
            tags: self.tags.deep_view(),
            agent_id: self.agent_id@,
            run_id: self.run_id@,
            skill_id: self.skill_id@,
            relevance_score: self.relevance_score@,
            access_count: self.access_count,
            created_at: self.created_at@,
            updated_at: self.updated_at@,
        }
    }
}

/// Mathematical form of a [`MemoryResult`].
pub struct MemoryResultV {
    pub memories: Seq<MemoryRecordV>,
    pub count: u32,
}

impl View for MemoryResult {
    type V = MemoryResultV;

    open spec fn view(&self) -> MemoryResultV {
        MemoryResultV {
            memories: Seq::new(self.memories@.len(), |i: int| self.memories@[i]@),
            count: self.count,
        }
    }
}

impl MemoryResultV {
    /// A well-formed final result page: the count equals the number of
    /// records returned.
    pub open spec fn wf(self) -> bool {
        self.count == self.memories.len()
    }
}

impl MemoryResult {
    /// The result page for a completed query with no further pages: the
    /// protocol requires `count` to equal the number of records returned.
    pub fn of_page(memories: Vec<MemoryRecord>) -> (r: MemoryResult)
        requires
            memories@.len() <= u32::MAX,
        ensures
            r@.wf(),
            r@.memories.len() == memories@.len(),
            forall|i: int| 0 <= i < memories@.len() ==> r@.memories[i] == memories@[i]@,
    {
        let count = memories.len() as u32;
        MemoryResult { memories, count }
    }
}

/// Mathematical form of a [`MemoryChanged`].
pub struct MemoryChangedV {
    pub action: Seq<char>,
    pub memory: Option<MemoryRecordV>,
    pub memory_id: Option<Seq<char>>,
}

impl View for MemoryChanged {
    type V = MemoryChangedV;

    open spec fn view(&self) -> MemoryChangedV {
        MemoryChangedV {
            action: self.action@,
            memory: match self.memory {
                Some(m) => Some(m@),
                None => None,
            },
            memory_id: match self.memory_id {
                Some(m) => Some(m@),
                None => None,
            },
        }
    }
}

impl TierRecordV {
    /// Wire encoding.
    pub open spec fn spec_to_json(self) -> JVal {
        JVal::Obj(
            seq![
                ("id"@, JVal::Str(self.id)),
                ("memory_id"@, JVal::Str(self.memory_id)),
                ("tier"@, JVal::Str(self.tier)),
                ("content"@, JVal::Str(self.content)),
                ("created_at"@, JVal::Str(self.created_at)),
                ("updated_at"@, JVal::Str(self.updated_at)),
            ],
        )
    }

    /// Decoding: every field is a required string.
    pub open spec fn spec_from_json(v: JVal) -> Result<TierRecordV, SchemaError> {
        if !(v is Obj) {
            Err(SchemaError::WrongShape)
        } else {
            match spec_req_string(v, "id"@) {
                Err(e) => Err(e),
                Ok(id) => match spec_req_string(v, "memory_id"@) {
                    Err(e) => Err(e),
                    Ok(memory_id) => match spec_req_string(v, "tier"@) {
                        Err(e) => Err(e),
                        Ok(tier) => match spec_req_string(v, "content"@) {
                            Err(e) => Err(e),
                            Ok(content) => match spec_req_string(v, "created_at"@) {
                                Err(e) => Err(e),
                                Ok(created_at) => match spec_req_string(v, "updated_at"@) {
                                    Err(e) => Err(e),
                                    Ok(updated_at) => Ok(
                                        TierRecordV {
                                            id,
                                            memory_id,
                                            tier,
                                            content,
                                            created_at,
                                            updated_at,
                                        },
                                    ),
                                },
                            },
                        },
                    },
                },
            }
        }
    }
}

impl MemoryTierRecord {
    /// Encode for the wire.
    pub fn to_json(&self) -> (r: JsonValue)
        ensures
            r@ == self@.spec_to_json(),
    {
        let mut entries: Vec<(String, JsonValue)> = Vec::new();
        entries.push((String::from_str("id"), JsonValue::Str(self.id.clone())));
        entries.push((String::from_str("memory_id"), JsonValue::Str(self.memory_id.clone())));
        entries.push((String::from_str("tier"), JsonValue::Str(self.tier.clone())));
        entries.push((String::from_str("content"), JsonValue::Str(self.content.clone())));
        entries.push((String::from_str("created_at"), JsonValue::Str(self.created_at.clone())));
        entries.push((String::from_str("updated_at"), JsonValue::Str(self.updated_at.clone())));
        let r = JsonValue::Obj(entries);
        proof {
            reveal_with_fuel(crate::json::jval_of, 3);
            assert(r@->Obj_0 =~= self@.spec_to_json()->Obj_0);
        }
        r
    }

    /// Decode from the wire.
    pub fn from_json(v: &JsonValue) -> (r: Result<MemoryTierRecord, SchemaError>)
        ensures
            match r {
                Ok(m) => TierRecordV::spec_from_json(v@) == Ok::<TierRecordV, SchemaError>(m@),
                Err(e) => TierRecordV::spec_from_json(v@) == Err::<TierRecordV, SchemaError>(e),
            },
    {
        if !v.is_object() {
            return Err(SchemaError::WrongShape);
        }
        let id = match v.req_string_field("id") {
            Ok(x) => x,
            Err(e) => return Err(e),
        };
        let memory_id = match v.req_string_field("memory_id") {
            Ok(x) => x,
            Err(e) => return Err(e),
        };
        let tier = match v.req_string_field("tier") {
            Ok(x) => x,
            Err(e) => return Err(e),
        };
        let content = match v.req_string_field("content") {
            Ok(x) => x,
            Err(e) => return Err(e),
        };
        let created_at = match v.req_string_field("created_at") {
            Ok(x) => x,
            Err(e) => return Err(e),
        };
        let updated_at = match v.req_string_field("updated_at") {
            Ok(x) => x,
            Err(e) => return Err(e),
        };
        Ok(MemoryTierRecord { id, memory_id, tier, content, created_at, updated_at })
    }
}

/// A `MemoryTierRecord` decodes back from its own encoding to an equal
/// value.
pub proof fn lemma_tier_record_round_trip(t: TierRecordV)
    ensures
        TierRecordV::spec_from_json(t.spec_to_json()) == Ok::<TierRecordV, SchemaError>(t),
{
    reveal_strlit("id");
    reveal_strlit("memory_id");
    reveal_strlit("tier");
    reveal_strlit("content");
    reveal_strlit("created_at");
    reveal_strlit("updated_at");
    assert("id"@.len() == 2);
    assert("memory_id"@.len() == 9);
    assert("tier"@.len() == 4);
    assert("content"@.len() == 7);
    assert("created_at"@.len() == 10);
    assert("updated_at"@.len() == 10);
    assert("created_at"@[0] == 'c' && "updated_at"@[0] == 'u');
    let e = t.spec_to_json()->Obj_0;
    lemma_obj_get_at(e, "id"@, 0);
    lemma_obj_get_at(e, "memory_id"@, 1);
    lemma_obj_get_at(e, "tier"@, 2);
    lemma_obj_get_at(e, "content"@, 3);
    lemma_obj_get_at(e, "created_at"@, 4);
    lemma_obj_get_at(e, "updated_at"@, 5);
}

/// A tier-record array as a sequence of views, if every element decodes.
pub open spec fn spec_tier_record_items(items: Seq<JVal>) -> Result<Seq<TierRecordV>, SchemaError>
    decreases items.len(),
{
    if items.len() == 0 {
        Ok(Seq::empty())
    } else {
        match TierRecordV::spec_from_json(items[0]) {
            Ok(t) => match spec_tier_record_items(items.skip(1)) {
                Ok(rest) => Ok(seq![t] + rest),
                Err(e) => Err(e),
            },
            Err(e) => Err(e),
        }
    }
}

/// Defaulted tier-record array field: absent means empty.
pub open spec fn spec_tier_records_or_empty(v: JVal, key: Seq<char>) -> Result<
    Seq<TierRecordV>,
    SchemaError,
> {
    match v.get(key) {
        Some(JVal::Arr(items)) => spec_tier_record_items(items),
        Some(_) => Err(SchemaError::WrongType),
        None => Ok(Seq::empty()),
    }
}

/// If some element fails to decode, the array fails with that element's
/// error.
proof fn lemma_tier_record_items_err(items: Seq<JVal>, i: int, e: SchemaError)
    requires
        0 <= i < items.len(),
        TierRecordV::spec_from_json(items[i]) == Err::<TierRecordV, SchemaError>(e),
        forall|j: int| 0 <= j < i ==> #[trigger] TierRecordV::spec_from_json(items[j]) is Ok,
    ensures
        spec_tier_record_items(items) == Err::<Seq<TierRecordV>, SchemaError>(e),
    decreases items.len(),
{
    if i > 0 {
        lemma_tier_record_items_err(items.skip(1), i - 1, e);
    }
}

/// If every element decodes and `views` collects the decoded records, the
/// array decodes to exactly `views`.
proof fn lemma_tier_record_items_ok(items: Seq<JVal>, views: Seq<TierRecordV>)
    requires
        views.len() == items.len(),
        forall|j: int| 0 <= j < items.len() ==> #[trigger] TierRecordV::spec_from_json(items[j])
            == Ok::<TierRecordV, SchemaError>(views[j]),
    ensures
        spec_tier_record_items(items) == Ok::<Seq<TierRecordV>, SchemaError>(views),
    decreases items.len(),
{
    if items.len() == 0 {
        assert(views =~= Seq::<TierRecordV>::empty());
    } else {
        lemma_tier_record_items_ok(items.skip(1), views.skip(1));
        assert(views =~= seq![views[0]] + views.skip(1));
    }
}

/// A list of tier records written out one by one reads back as itself.
pub proof fn lemma_tier_record_items_of_records(tiers: Seq<TierRecordV>)
    ensures
        spec_tier_record_items(Seq::new(tiers.len(), |i: int| tiers[i].spec_to_json())) == Ok::<
            Seq<TierRecordV>,
            SchemaError,
        >(tiers),
{
    let items = Seq::new(tiers.len(), |i: int| tiers[i].spec_to_json());
    assert forall|j: int| 0 <= j < items.len() implies #[trigger] TierRecordV::spec_from_json(
        items[j],
    ) == Ok::<TierRecordV, SchemaError>(tiers[j]) by {
        lemma_tier_record_round_trip(tiers[j]);
    }
    lemma_tier_record_items_ok(items, tiers);
}

/// Defaulted tier-record array field of a wire object.
#[verifier::loop_isolation(false)]
pub fn tier_records_field_or_empty(v: &JsonValue, key: &str) -> (r: Result<
    Vec<MemoryTierRecord>,
    SchemaError,
>)
    ensures
        match r {
            Ok(items) => spec_tier_records_or_empty(v@, key@) == Ok::<Seq<TierRecordV>, SchemaError>(
                items.deep_view(),
            ),
            Err(e) => spec_tier_records_or_empty(v@, key@) == Err::<Seq<TierRecordV>, SchemaError>(
                e,
            ),
        },
{
    match v.get(key) {
        Some(arr) => match arr {
            JsonValue::Arr(items) => {
                let ghost gitems = arr@->Arr_0;
                let mut out: Vec<MemoryTierRecord> = Vec::new();
                let mut i: usize = 0;
                while i < items.len()
                    invariant
                        i <= items@.len(),
                        gitems.len() == items@.len(),
                        forall|j: int| 0 <= j < items@.len() ==> gitems[j] == items@[j]@,
                        out@.len() == i,
                        forall|j: int| 0 <= j < i ==> #[trigger] TierRecordV::spec_from_json(
                            gitems[j],
                        ) == Ok::<TierRecordV, SchemaError>(out@[j]@),
                    decreases items@.len() - i,
                {
                    match MemoryTierRecord::from_json(&items[i]) {
                        Ok(t) => {
                            out.push(t);
                        },
                        Err(e) => {
                            proof {
                                lemma_tier_record_items_err(gitems, i as int, e);
                            }
                            return Err(e);
                        },
                    }
                    i = i + 1;
                }
                proof {
                    lemma_tier_record_items_ok(gitems, out.deep_view());
                }
                Ok(out)
            },
            _ => Err(SchemaError::WrongType),
        },
        None => {
            let out: Vec<MemoryTierRecord> = Vec::new();
            proof {
                assert(out.deep_view() =~= Seq::<TierRecordV>::empty());
            }
            Ok(out)
        },
    }
}

/// Wire form of a tier-record list.
#[verifier::loop_isolation(false)]
pub fn of_tier_record_vec(items: &Vec<MemoryTierRecord>) -> (r: JsonValue)
    ensures
        r@ == JVal::Arr(
            Seq::new(items.deep_view().len(), |i: int| items.deep_view()[i].spec_to_json()),
        ),
{
    let mut out: Vec<JsonValue> = Vec::new();
    let mut i: usize = 0;
    while i < items.len()
        invariant
            i <= items@.len(),
            out@.len() == i,
            forall|j: int| 0 <= j < i ==> out@[j]@ == items@[j]@.spec_to_json(),
        decreases items@.len() - i,
    {
        out.push(items[i].to_json());
        i = i + 1;
    }
    let r = JsonValue::Arr(out);
    proof {
        assert(r@->Arr_0 =~= Seq::new(
            items.deep_view().len(),
            |i: int| items.deep_view()[i].spec_to_json(),
        ));
    }
    r
}

impl MemoryRecordV {
    /// Wire encoding.
    pub open spec fn spec_to_json(self) -> JVal {
        JVal::Obj(
            seq![
                ("id"@, JVal::Str(self.id)),
                ("scope"@, JVal::Str(self.scope)),
                ("category"@, JVal::Str(self.category)),
                ("key"@, JVal::Str(self.key)),
                ("tiers"@, JVal::Arr(Seq::new(self.tiers.len(), |i: int| self.tiers[i].spec_to_json()))),
                ("metadata"@, self.metadata),
                ("tags"@, JVal::Arr(Seq::new(self.tags.len(), |i: int| JVal::Str(self.tags[i])))),
                ("agent_id"@, JVal::Str(self.agent_id)),
                ("run_id"@, JVal::Str(self.run_id)),
                ("skill_id"@, JVal::Str(self.skill_id)),
                ("relevance_score"@, JVal::Num(self.relevance_score)),
                ("access_count"@, JVal::Num(crate::json::jnum_of_i64(self.access_count))),
                ("created_at"@, JVal::Str(self.created_at)),
                ("updated_at"@, JVal::Str(self.updated_at)),
            ],
        )
    }

    /// Decoding: identity, the token strings and the timestamps are
    /// required; everything else defaults.
    pub open spec fn spec_from_json(v: JVal) -> Result<MemoryRecordV, SchemaError> {
        if !(v is Obj) {
            Err(SchemaError::WrongShape)
        } else {
            match spec_req_string(v, "id"@) {
                Err(e) => Err(e),
                Ok(id) => match spec_req_string(v, "scope"@) {
                    Err(e) => Err(e),
                    Ok(scope) => match spec_req_string(v, "category"@) {
                        Err(e) => Err(e),
                        Ok(category) => match spec_req_string(v, "key"@) {
                            Err(e) => Err(e),
                            Ok(key) => match spec_tier_records_or_empty(v, "tiers"@) {
                                Err(e) => Err(e),
                                Ok(tiers) => match spec_string_array_or_empty(v, "tags"@) {
                                    Err(e) => Err(e),
                                    Ok(tags) => match spec_string_or_empty(v, "agent_id"@) {
                                        Err(e) => Err(e),
                                        Ok(agent_id) => match spec_string_or_empty(v, "run_id"@) {
                                            Err(e) => Err(e),
                                            Ok(run_id) => match spec_string_or_empty(
                                                v,
                                                "skill_id"@,
                                            ) {
                                                Err(e) => Err(e),
                                                Ok(skill_id) => match spec_number_or_zero(
                                                    v,
                                                    "relevance_score"@,
                                                ) {
                                                    Err(e) => Err(e),
                                                    Ok(relevance_score) => match crate::json::spec_i64_or_zero(
                                                        v,
                                                        "access_count"@,
                                                    ) {
                                                        Err(e) => Err(e),
                                                        Ok(access_count) => match spec_req_string(
                                                            v,
                                                            "created_at"@,
                                                        ) {
                                                            Err(e) => Err(e),
                                                            Ok(created_at) => match spec_req_string(
                                                                v,
                                                                "updated_at"@,
                                                            ) {
                                                                Err(e) => Err(e),
                                                                Ok(updated_at) => Ok(
                                                                    MemoryRecordV {
                                                                        id,
                                                                        scope,
                                                                        category,
                                                                        key,
                                                                        tiers,
                                                                        metadata:
                                                                            spec_value_or_empty_object(
                                                                            v,
                                                                            "metadata"@,
                                                                        ),
                                                                        tags,
                                                                        agent_id,
                                                                        run_id,
                                                                        skill_id,
                                                                        relevance_score,
                                                                        access_count,
                                                                        created_at,
                                                                        updated_at,
                                                                    },
                                                                ),
                                                            },
                                                        },
                                                    },
                                                },
                                            },
                                        },
                                    },
                                },
                            },
                        },
                    },
                },
            }
        }
    }
}

impl MemoryRecord {
    /// Encode for the wire.
    pub fn to_json(&self) -> (r: JsonValue)
        ensures
            r@ == self@.spec_to_json(),
    {
        let mut entries: Vec<(String, JsonValue)> = Vec::new();
        entries.push((String::from_str("id"), JsonValue::Str(self.id.clone())));
        entries.push((String::from_str("scope"), JsonValue::Str(self.scope.clone())));
        entries.push((String::from_str("category"), JsonValue::Str(self.category.clone())));
        entries.push((String::from_str("key"), JsonValue::Str(self.key.clone())));
        entries.push((String::from_str("tiers"), of_tier_record_vec(&self.tiers)));
        entries.push((String::from_str("metadata"), self.metadata.clone()));
        entries.push((String::from_str("tags"), JsonValue::of_string_vec(&self.tags)));
        entries.push((String::from_str("agent_id"), JsonValue::Str(self.agent_id.clone())));
        entries.push((String::from_str("run_id"), JsonValue::Str(self.run_id.clone())));
        entries.push((String::from_str("skill_id"), JsonValue::Str(self.skill_id.clone())));
        entries.push((String::from_str("relevance_score"), JsonValue::Num(self.relevance_score.clone())));
        entries.push((String::from_str("access_count"), JsonValue::from_i64(self.access_count)));
        entries.push((String::from_str("created_at"), JsonValue::Str(self.created_at.clone())));
        entries.push((String::from_str("updated_at"), JsonValue::Str(self.updated_at.clone())));
        let r = JsonValue::Obj(entries);
        proof {
            reveal_with_fuel(crate::json::jval_of, 3);
            assert(r@->Obj_0 =~= self@.spec_to_json()->Obj_0);
        }
        r
    }

    /// Decode from the wire.
    pub fn from_json(v: &JsonValue) -> (r: Result<MemoryRecord, SchemaError>)
        ensures
            match r {
                Ok(m) => MemoryRecordV::spec_from_json(v@) == Ok::<MemoryRecordV, SchemaError>(m@),
                Err(e) => MemoryRecordV::spec_from_json(v@) == Err::<MemoryRecordV, SchemaError>(
                    e,
                ),
            },
    {
        if !v.is_object() {
            return Err(SchemaError::WrongShape);
        }
        let id = match v.req_string_field("id") {
            Ok(x) => x,
            Err(e) => return Err(e),
        };
        let scope = match v.req_string_field("scope") {
            Ok(x) => x,
            Err(e) => return Err(e),
        };
        let category = match v.req_string_field("category") {
            Ok(x) => x,
            Err(e) => return Err(e),
        };
        let key = match v.req_string_field("key") {
            Ok(x) => x,
            Err(e) => return Err(e),
        };
        let tiers = match tier_records_field_or_empty(v, "tiers") {
            Ok(x) => x,
            Err(e) => return Err(e),
        };
        let tags = match v.string_array_field_or_empty("tags") {
            Ok(x) => x,
            Err(e) => return Err(e),
        };
        let agent_id = match v.string_field_or_empty("agent_id") {
            Ok(x) => x,
            Err(e) => return Err(e),
        };
        let run_id = match v.string_field_or_empty("run_id") {
            Ok(x) => x,
            Err(e) => return Err(e),
        };
        let skill_id = match v.string_field_or_empty("skill_id") {
            Ok(x) => x,
            Err(e) => return Err(e),
        };
        let relevance_score = match v.number_field_or_zero("relevance_score") {
            Ok(x) => x,
            Err(e) => return Err(e),
        };
        let access_count = match v.i64_field_or_zero("access_count") {
            Ok(x) => x,
            Err(e) => return Err(e),
        };
        let created_at = match v.req_string_field("created_at") {
            Ok(x) => x,
            Err(e) => return Err(e),
        };
        let updated_at = match v.req_string_field("updated_at") {
            Ok(x) => x,
            Err(e) => return Err(e),
        };
        let metadata = v.value_field_or_empty_object("metadata");
        Ok(
            MemoryRecord {
                id,
                scope,
                category,
                key,
                tiers,
                metadata,
                tags,
                agent_id,
                run_id,
                skill_id,
                relevance_score,
                access_count,
                created_at,
                updated_at,
            },
        )
    }
}

/// A `MemoryRecord` decodes back from its own encoding to an equal value.
pub proof fn lemma_memory_record_round_trip(m: MemoryRecordV)
    ensures
        MemoryRecordV::spec_from_json(m.spec_to_json()) == Ok::<MemoryRecordV, SchemaError>(m),
{
    reveal_strlit("id");
    reveal_strlit("scope");
    reveal_strlit("category");
    reveal_strlit("key");
    reveal_strlit("tiers");
    reveal_strlit("metadata");
    reveal_strlit("tags");
    reveal_strlit("agent_id");
    reveal_strlit("run_id");
    reveal_strlit("skill_id");
    reveal_strlit("relevance_score");
    reveal_strlit("access_count");
    reveal_strlit("created_at");
    reveal_strlit("updated_at");
    assert("id"@.len() == 2);
    assert("scope"@.len() == 5);
    assert("category"@.len() == 8);
    assert("key"@.len() == 3);
    assert("tiers"@.len() == 5);
    assert("metadata"@.len() == 8);
    assert("tags"@.len() == 4);
    assert("agent_id"@.len() == 8);
    assert("run_id"@.len() == 6);
    assert("skill_id"@.len() == 8);
    assert("relevance_score"@.len() == 15);
    assert("access_count"@.len() == 12);
    assert("created_at"@.len() == 10);
    assert("updated_at"@.len() == 10);
    assert("scope"@[0] == 's' && "tiers"@[0] == 't');
    assert("category"@[0] == 'c' && "metadata"@[0] == 'm' && "agent_id"@[0] == 'a'
        && "skill_id"@[0] == 's');
    assert("created_at"@[0] == 'c' && "updated_at"@[0] == 'u');
    let e = m.spec_to_json()->Obj_0;
    lemma_obj_get_at(e, "id"@, 0);
    lemma_obj_get_at(e, "scope"@, 1);
    lemma_obj_get_at(e, "category"@, 2);
    lemma_obj_get_at(e, "key"@, 3);
    lemma_obj_get_at(e, "tiers"@, 4);
    lemma_obj_get_at(e, "metadata"@, 5);
    lemma_obj_get_at(e, "tags"@, 6);
    lemma_obj_get_at(e, "agent_id"@, 7);
    lemma_obj_get_at(e, "run_id"@, 8);
    lemma_obj_get_at(e, "skill_id"@, 9);
    lemma_obj_get_at(e, "relevance_score"@, 10);
    lemma_obj_get_at(e, "access_count"@, 11);
    lemma_obj_get_at(e, "created_at"@, 12);
    lemma_obj_get_at(e, "updated_at"@, 13);
    lemma_tier_record_items_of_records(m.tiers);
    lemma_string_items_of_strs(m.tags);
}

impl MemoryChangedV {
    /// Wire encoding: deletions carry only the id, other changes the full
    /// record.
    pub open spec fn spec_to_json(self) -> JVal {
        JVal::Obj(
            seq![
                ("action"@, JVal::Str(self.action)),
                ("memory"@, match self.memory {
                    Some(m) => m.spec_to_json(),
                    None => JVal::Null,
                }),
                ("memory_id"@, jval_of_opt_string(self.memory_id)),
            ],
        )
    }

    /// Decoding: `action` is required; the record and the id are optional.
    pub open spec fn spec_from_json(v: JVal) -> Result<MemoryChangedV, SchemaError> {
        if !(v is Obj) {
            Err(SchemaError::WrongShape)
        } else {
            match spec_req_string(v, "action"@) {
                Err(e) => Err(e),
                Ok(action) => match v.get("memory"@) {
                    Some(JVal::Null) | None => match spec_opt_string(v, "memory_id"@) {
                        Err(e) => Err(e),
                        Ok(memory_id) => Ok(MemoryChangedV { action, memory: None, memory_id }),
                    },
                    Some(mv) => match MemoryRecordV::spec_from_json(mv) {
                        Err(e) => Err(e),
                        Ok(m) => match spec_opt_string(v, "memory_id"@) {
                            Err(e) => Err(e),
                            Ok(memory_id) => Ok(
                                MemoryChangedV { action, memory: Some(m), memory_id },
                            ),
                        },
                    },
                },
            }
        }
    }
}

impl MemoryChanged {
    /// Encode for the wire.
    pub fn to_json(&self) -> (r: JsonValue)
        ensures
            r@ == self@.spec_to_json(),
    {
        let mut entries: Vec<(String, JsonValue)> = Vec::new();
        entries.push((String::from_str("action"), JsonValue::Str(self.action.clone())));
        entries.push((
            String::from_str("memory"),
            match &self.memory {
                Some(m) => m.to_json(),
                None => JsonValue::Null,
            },
        ));
        entries.push((String::from_str("memory_id"), JsonValue::of_opt_string(&self.memory_id)));
        let r = JsonValue::Obj(entries);
        proof {
            reveal_with_fuel(crate::json::jval_of, 3);
            assert(r@->Obj_0 =~= self@.spec_to_json()->Obj_0);
        }
        r
    }

    /// Decode from the wire.
    pub fn from_json(v: &JsonValue) -> (r: Result<MemoryChanged, SchemaError>)
        ensures
            match r {
                Ok(m) => MemoryChangedV::spec_from_json(v@) == Ok::<MemoryChangedV, SchemaError>(
                    m@,
                ),
                Err(e) => MemoryChangedV::spec_from_json(v@) == Err::<MemoryChangedV, SchemaError>(
                    e,
                ),
            },
    {
        if !v.is_object() {
            return Err(SchemaError::WrongShape);
        }
        let action = match v.req_string_field("action") {
            Ok(x) => x,
            Err(e) => return Err(e),
        };
        let memory = match v.get("memory") {
            Some(JsonValue::Null) | None => None,
            Some(mv) => match MemoryRecord::from_json(mv) {
                Ok(m) => Some(m),
                Err(e) => return Err(e),
            },
        };
        let memory_id = match v.opt_string_field("memory_id") {
            Ok(x) => x,
            Err(e) => return Err(e),
        };
        Ok(MemoryChanged { action, memory, memory_id })
    }
}

/// A `MemoryChanged` decodes back from its own encoding to an equal value.
pub proof fn lemma_memory_changed_round_trip(m: MemoryChangedV)
    ensures
        MemoryChangedV::spec_from_json(m.spec_to_json()) == Ok::<MemoryChangedV, SchemaError>(m),
{
    reveal_strlit("action");
    reveal_strlit("memory");
    reveal_strlit("memory_id");
    assert("action"@.len() == 6);
    assert("memory"@.len() == 6);
    assert("memory_id"@.len() == 9);
    assert("action"@[0] == 'a' && "memory"@[0] == 'm');
    let e = m.spec_to_json()->Obj_0;
    lemma_obj_get_at(e, "action"@, 0);
    lemma_obj_get_at(e, "memory"@, 1);
    lemma_obj_get_at(e, "memory_id"@, 2);
    match m.memory {
        Some(rec) => {
            lemma_memory_record_round_trip(rec);
            assert(!(rec.spec_to_json() is Null));
        },
        None => {},
    }
}

/// The action a `MemoryChanged` announcement carries.
#[derive(Clone, Copy, Debug, PartialEq, Eq, Structural)]
pub enum MemoryAction {
    Created,
    Updated,
    Deleted,
}

impl MemoryAction {
    /// Wire token.
    pub open spec fn spec_token(self) -> Seq<char> {
        match self {
            MemoryAction::Created => "created"@,
            MemoryAction::Updated => "updated"@,
            MemoryAction::Deleted => "deleted"@,
        }
    }

    /// The action a wire token names, if any.
    pub open spec fn spec_parse(s: Seq<char>) -> Option<MemoryAction> {
        if s == "created"@ {
            Some(MemoryAction::Created)
        } else if s == "updated"@ {
            Some(MemoryAction::Updated)
        } else if s == "deleted"@ {
            Some(MemoryAction::Deleted)
        } else {
            None
        }
    }

    /// Wire token.
    pub fn token(&self) -> (r: &'static str)
        ensures
            r@ == self.spec_token(),
    {
        match self {
            MemoryAction::Created => "created",
            MemoryAction::Updated => "updated",
            MemoryAction::Deleted => "deleted",
        }
    }

    /// Parse a wire token.
    pub fn parse_token(s: &str) -> (r: Option<MemoryAction>)
        ensures
            r == MemoryAction::spec_parse(s@),
    {
        if str_eq(s, "created") {
            Some(MemoryAction::Created)
        } else if str_eq(s, "updated") {
            Some(MemoryAction::Updated)
        } else if str_eq(s, "deleted") {
            Some(MemoryAction::Deleted)
        } else {
            None
        }
    }
}

/// Every memory action decodes back from its own wire token.
pub proof fn lemma_memory_action_round_trip(a: MemoryAction)
    ensures
        MemoryAction::spec_parse(a.spec_token()) == Some(a),
{
    reveal_strlit("created");
    reveal_strlit("updated");
    reveal_strlit("deleted");
    assert("created"@.len() == 7);
    assert("updated"@.len() == 7);
    assert("deleted"@.len() == 7);
    assert("created"@[0] != "updated"@[0]);
    assert("created"@[0] != "deleted"@[0]);
    assert("updated"@[0] != "deleted"@[0]);
}

/// Optional scope field: absent or `null` is `None`.
pub open spec fn spec_opt_scope(v: JVal, key: Seq<char>) -> Result<
    Option<MemoryScope>,
    SchemaError,
> {
    match v.get(key) {
        Some(JVal::Str(s)) => match MemoryScope::spec_parse(s) {
            Some(sc) => Ok(Some(sc)),
            None => Err(SchemaError::UnknownVariant),
        },
        Some(JVal::Null) => Ok(None),
        Some(_) => Err(SchemaError::WrongType),
        None => Ok(None),
    }
}

/// Required scope field.
pub open spec fn spec_req_scope(v: JVal, key: Seq<char>) -> Result<MemoryScope, SchemaError> {
    match v.get(key) {
        Some(JVal::Str(s)) => match MemoryScope::spec_parse(s) {
            Some(sc) => Ok(sc),
            None => Err(SchemaError::UnknownVariant),
        },
        Some(_) => Err(SchemaError::WrongType),
        None => Err(SchemaError::MissingField),
    }
}

/// Optional category field: absent or `null` is `None`.
pub open spec fn spec_opt_category(v: JVal, key: Seq<char>) -> Result<
    Option<MemoryCategory>,
    SchemaError,
> {
    match v.get(key) {
        Some(JVal::Str(s)) => match MemoryCategory::spec_parse(s) {
            Some(c) => Ok(Some(c)),
            None => Err(SchemaError::UnknownVariant),
        },
        Some(JVal::Null) => Ok(None),
        Some(_) => Err(SchemaError::WrongType),
        None => Ok(None),
    }
}

/// Required category field.
pub open spec fn spec_req_category(v: JVal, key: Seq<char>) -> Result<
    MemoryCategory,
    SchemaError,
> {
    match v.get(key) {
        Some(JVal::Str(s)) => match MemoryCategory::spec_parse(s) {
            Some(c) => Ok(c),
            None => Err(SchemaError::UnknownVariant),
        },
        Some(_) => Err(SchemaError::WrongType),
        None => Err(SchemaError::MissingField),
    }
}

/// Optional scope field of a wire object.
pub fn opt_scope_field(v: &JsonValue, key: &str) -> (r: Result<Option<MemoryScope>, SchemaError>)
    ensures
        match r {
            Ok(sc) => spec_opt_scope(v@, key@) == Ok::<Option<MemoryScope>, SchemaError>(sc),
            Err(e) => spec_opt_scope(v@, key@) == Err::<Option<MemoryScope>, SchemaError>(e),
        },
{
    match v.get(key) {
        Some(JsonValue::Str(s)) => match MemoryScope::parse_token(s.as_str()) {
            Some(sc) => Ok(Some(sc)),
            None => Err(SchemaError::UnknownVariant),
        },
        Some(JsonValue::Null) => Ok(None),
        Some(_) => Err(SchemaError::WrongType),
        None => Ok(None),
    }
}

/// Required scope field of a wire object.
pub fn req_scope_field(v: &JsonValue, key: &str) -> (r: Result<MemoryScope, SchemaError>)
    ensures
        match r {
            Ok(sc) => spec_req_scope(v@, key@) == Ok::<MemoryScope, SchemaError>(sc),
            Err(e) => spec_req_scope(v@, key@) == Err::<MemoryScope, SchemaError>(e),
        },
{
    match v.get(key) {
        Some(JsonValue::Str(s)) => match MemoryScope::parse_token(s.as_str()) {
            Some(sc) => Ok(sc),
            None => Err(SchemaError::UnknownVariant),
        },
        Some(_) => Err(SchemaError::WrongType),
        None => Err(SchemaError::MissingField),
    }
}

/// Optional category field of a wire object.
pub fn opt_category_field(v: &JsonValue, key: &str) -> (r: Result<
    Option<MemoryCategory>,
    SchemaError,
>)
    ensures
        match r {
            Ok(c) => spec_opt_category(v@, key@) == Ok::<Option<MemoryCategory>, SchemaError>(c),
            Err(e) => spec_opt_category(v@, key@) == Err::<Option<MemoryCategory>, SchemaError>(e),
        },
{
    match v.get(key) {
        Some(JsonValue::Str(s)) => match MemoryCategory::parse_token(s.as_str()) {
            Some(c) => Ok(Some(c)),
            None => Err(SchemaError::UnknownVariant),
        },
        Some(JsonValue::Null) => Ok(None),
        Some(_) => Err(SchemaError::WrongType),
        None => Ok(None),
    }
}

/// Required category field of a wire object.
pub fn req_category_field(v: &JsonValue, key: &str) -> (r: Result<MemoryCategory, SchemaError>)
    ensures
        match r {
            Ok(c) => spec_req_category(v@, key@) == Ok::<MemoryCategory, SchemaError>(c),
            Err(e) => spec_req_category(v@, key@) == Err::<MemoryCategory, SchemaError>(e),
        },
{
    match v.get(key) {
        Some(JsonValue::Str(s)) => match MemoryCategory::parse_token(s.as_str()) {
            Some(c) => Ok(c),
            None => Err(SchemaError::UnknownVariant),
        },
        Some(_) => Err(SchemaError::WrongType),
        None => Err(SchemaError::MissingField),
    }
}

impl TierEntryV {
    /// Wire encoding.
    pub open spec fn spec_to_json(self) -> JVal {
        JVal::Obj(seq![("tier"@, JVal::Str(self.tier)), ("content"@, JVal::Str(self.content))])
    }

    /// Decoding: both fields are required strings.
    pub open spec fn spec_from_json(v: JVal) -> Result<TierEntryV, SchemaError> {
        if !(v is Obj) {
            Err(SchemaError::WrongShape)
        } else {
            match spec_req_string(v, "tier"@) {
                Err(e) => Err(e),
                Ok(tier) => match spec_req_string(v, "content"@) {
                    Err(e) => Err(e),
                    Ok(content) => Ok(TierEntryV { tier, content }),
                },
            }
        }
    }
}

impl MemoryTierEntry {
    /// Encode for the wire.
    pub fn to_json(&self) -> (r: JsonValue)
        ensures
            r@ == self@.spec_to_json(),
    {
        let mut entries: Vec<(String, JsonValue)> = Vec::new();
        entries.push((String::from_str("tier"), JsonValue::Str(self.tier.clone())));
        entries.push((String::from_str("content"), JsonValue::Str(self.content.clone())));
        let r = JsonValue::Obj(entries);
        proof {
            reveal_with_fuel(crate::json::jval_of, 3);
            assert(r@->Obj_0 =~= self@.spec_to_json()->Obj_0);
        }
        r
    }

    /// Decode from the wire.
    pub fn from_json(v: &JsonValue) -> (r: Result<MemoryTierEntry, SchemaError>)
        ensures
            match r {
                Ok(m) => TierEntryV::spec_from_json(v@) == Ok::<TierEntryV, SchemaError>(m@),
                Err(e) => TierEntryV::spec_from_json(v@) == Err::<TierEntryV, SchemaError>(e),
            },
    {
        if !v.is_object() {
            return Err(SchemaError::WrongShape);
        }
        let tier = match v.req_string_field("tier") {
            Ok(x) => x,
            Err(e) => return Err(e),
        };
        let content = match v.req_string_field("content") {
            Ok(x) => x,
            Err(e) => return Err(e),
        };
        Ok(MemoryTierEntry { tier, content })
    }
}

/// A `MemoryTierEntry` decodes back from its own encoding to an equal
/// value.
pub proof fn lemma_tier_entry_round_trip(t: TierEntryV)
    ensures
        TierEntryV::spec_from_json(t.spec_to_json()) == Ok::<TierEntryV, SchemaError>(t),
{
    reveal_strlit("tier");
    reveal_strlit("content");
    assert("tier"@.len() == 4);
    assert("content"@.len() == 7);
    let e = t.spec_to_json()->Obj_0;
    lemma_obj_get_at(e, "tier"@, 0);
    lemma_obj_get_at(e, "content"@, 1);
}

/// A tier-entry array as a sequence of views, if every element decodes.
pub open spec fn spec_tier_items(items: Seq<JVal>) -> Result<Seq<TierEntryV>, SchemaError>
    decreases items.len(),
{
    if items.len() == 0 {
        Ok(Seq::empty())
    } else {
        match TierEntryV::spec_from_json(items[0]) {
            Ok(t) => match spec_tier_items(items.skip(1)) {
                Ok(rest) => Ok(seq![t] + rest),
                Err(e) => Err(e),
            },
            Err(e) => Err(e),
        }
    }
}

/// Defaulted tier-entry array field: absent means empty.
pub open spec fn spec_tiers_or_empty(v: JVal, key: Seq<char>) -> Result<
    Seq<TierEntryV>,
    SchemaError,
> {
    match v.get(key) {
        Some(JVal::Arr(items)) => spec_tier_items(items),
        Some(_) => Err(SchemaError::WrongType),
        None => Ok(Seq::empty()),
    }
}

/// If some element fails to decode, the array fails with that element's
/// error.
proof fn lemma_tier_items_err(items: Seq<JVal>, i: int, e: SchemaError)
    requires
        0 <= i < items.len(),
        TierEntryV::spec_from_json(items[i]) == Err::<TierEntryV, SchemaError>(e),
        forall|j: int| 0 <= j < i ==> #[trigger] TierEntryV::spec_from_json(items[j]) is Ok,
    ensures
        spec_tier_items(items) == Err::<Seq<TierEntryV>, SchemaError>(e),
    decreases items.len(),
{
    if i > 0 {
        lemma_tier_items_err(items.skip(1), i - 1, e);
    }
}

/// If every element decodes and `views` collects the decoded entries, the
/// array decodes to exactly `views`.
proof fn lemma_tier_items_ok(items: Seq<JVal>, views: Seq<TierEntryV>)
    requires
        views.len() == items.len(),
        forall|j: int| 0 <= j < items.len() ==> #[trigger] TierEntryV::spec_from_json(items[j])
            == Ok::<TierEntryV, SchemaError>(views[j]),
    ensures
        spec_tier_items(items) == Ok::<Seq<TierEntryV>, SchemaError>(views),
    decreases items.len(),
{
    if items.len() == 0 {
        assert(views =~= Seq::<TierEntryV>::empty());
    } else {
        lemma_tier_items_ok(items.skip(1), views.skip(1));
        assert(views =~= seq![views[0]] + views.skip(1));
    }
}

/// A list of tier entries written out one by one reads back as itself.
pub proof fn lemma_tier_items_of_entries(tiers: Seq<TierEntryV>)
    ensures
        spec_tier_items(Seq::new(tiers.len(), |i: int| tiers[i].spec_to_json())) == Ok::<
            Seq<TierEntryV>,
            SchemaError,
        >(tiers),
{
    let items = Seq::new(tiers.len(), |i: int| tiers[i].spec_to_json());
    assert forall|j: int| 0 <= j < items.len() implies #[trigger] TierEntryV::spec_from_json(
        items[j],
    ) == Ok::<TierEntryV, SchemaError>(tiers[j]) by {
        lemma_tier_entry_round_trip(tiers[j]);
    }
    lemma_tier_items_ok(items, tiers);
}

/// Defaulted tier-entry array field of a wire object.
#[verifier::loop_isolation(false)]
pub fn tiers_field_or_empty(v: &JsonValue, key: &str) -> (r: Result<
    Vec<MemoryTierEntry>,
    SchemaError,
>)
    ensures
        match r {
            Ok(items) => spec_tiers_or_empty(v@, key@) == Ok::<Seq<TierEntryV>, SchemaError>(
                items.deep_view(),
            ),
            Err(e) => spec_tiers_or_empty(v@, key@) == Err::<Seq<TierEntryV>, SchemaError>(e),
        },
{
    match v.get(key) {
        Some(arr) => match arr {
            JsonValue::Arr(items) => {
                let ghost gitems = arr@->Arr_0;
                let mut out: Vec<MemoryTierEntry> = Vec::new();
                let mut i: usize = 0;
                while i < items.len()
                    invariant
                        i <= items@.len(),
                        gitems.len() == items@.len(),
                        forall|j: int| 0 <= j < items@.len() ==> gitems[j] == items@[j]@,
                        out@.len() == i,
                        forall|j: int| 0 <= j < i ==> #[trigger] TierEntryV::spec_from_json(
                            gitems[j],
                        ) == Ok::<TierEntryV, SchemaError>(out@[j]@),
                    decreases items@.len() - i,
                {
                    match MemoryTierEntry::from_json(&items[i]) {
                        Ok(t) => {
                            out.push(t);
                        },
                        Err(e) => {
                            proof {
                                lemma_tier_items_err(gitems, i as int, e);
                            }
                            return Err(e);
                        },
                    }
                    i = i + 1;
                }
                proof {
                    lemma_tier_items_ok(gitems, out.deep_view());
                }
                Ok(out)
            },
            _ => Err(SchemaError::WrongType),
        },
        None => {
            let out: Vec<MemoryTierEntry> = Vec::new();
            proof {
                assert(out.deep_view() =~= Seq::<TierEntryV>::empty());
            }
            Ok(out)
        },
    }
}

/// Wire form of a tier-entry list.
#[verifier::loop_isolation(false)]
pub fn of_tier_vec(items: &Vec<MemoryTierEntry>) -> (r: JsonValue)
    ensures
        r@ == JVal::Arr(
            Seq::new(items.deep_view().len(), |i: int| items.deep_view()[i].spec_to_json()),
        ),
{
    let mut out: Vec<JsonValue> = Vec::new();
    let mut i: usize = 0;
    while i < items.len()
        invariant
            i <= items@.len(),
            out@.len() == i,
            forall|j: int| 0 <= j < i ==> out@[j]@ == items@[j]@.spec_to_json(),
        decreases items@.len() - i,
    {
        out.push(items[i].to_json());
        i = i + 1;
    }
    let r = JsonValue::Arr(out);
    proof {
        assert(r@->Arr_0 =~= Seq::new(
            items.deep_view().len(),
            |i: int| items.deep_view()[i].spec_to_json(),
        ));
    }
    r
}

impl MemoryQueryV {
    /// Wire encoding.
    pub open spec fn spec_to_json(self) -> JVal {
        JVal::Obj(
            seq![
                ("query"@, JVal::Str(self.query)),
                ("scope"@, match self.scope {
                    Some(sc) => JVal::Str(sc.spec_token()),
                    None => JVal::Null,
                }),
                ("category"@, match self.category {
                    Some(c) => JVal::Str(c.spec_token()),
                    None => JVal::Null,
                }),
                ("agent_id"@, jval_of_opt_string(self.agent_id)),
                ("tier"@, jval_of_opt_string(self.tier)),
                ("task_id"@, jval_of_opt_string(self.task_id)),
                ("limit"@, JVal::Num(jnum_of_u32(self.limit))),
            ],
        )
    }

    /// Decoding: `query` is required; a missing `limit` means 20; the
    /// filters default to absent.
    pub open spec fn spec_from_json(v: JVal) -> Result<MemoryQueryV, SchemaError> {
        if !(v is Obj) {
            Err(SchemaError::WrongShape)
        } else {
            match spec_req_string(v, "query"@) {
                Err(e) => Err(e),
                Ok(query) => match spec_opt_scope(v, "scope"@) {
                    Err(e) => Err(e),
                    Ok(scope) => match spec_opt_category(v, "category"@) {
                        Err(e) => Err(e),
                        Ok(category) => match spec_opt_string(v, "agent_id"@) {
                            Err(e) => Err(e),
                            Ok(agent_id) => match spec_opt_string(v, "tier"@) {
                                Err(e) => Err(e),
                                Ok(tier) => match spec_opt_string(v, "task_id"@) {
                                    Err(e) => Err(e),
                                    Ok(task_id) => match spec_u32_or(v, "limit"@, 20) {
                                        Err(e) => Err(e),
                                        Ok(limit) => Ok(
                                            MemoryQueryV {
                                                query,
                                                scope,
                                                category,
                                                agent_id,
                                                tier,
                                                task_id,
                                                limit,
                                            },
                                        ),
                                    },
                                },
                            },
                        },
                    },
                },
            }
        }
    }
}

impl MemoryQuery {
    /// Encode for the wire.
    pub fn to_json(&self) -> (r: JsonValue)
        ensures
            r@ == self@.spec_to_json(),
    {
        let mut entries: Vec<(String, JsonValue)> = Vec::new();
        entries.push((String::from_str("query"), JsonValue::Str(self.query.clone())));
        entries.push((
            String::from_str("scope"),
            match &self.scope {
                Some(sc) => JsonValue::Str(String::from_str(sc.token())),
                None => JsonValue::Null,
            },
        ));
        entries.push((
            String::from_str("category"),
            match &self.category {
                Some(c) => JsonValue::Str(String::from_str(c.token())),
                None => JsonValue::Null,
            },
        ));
        entries.push((String::from_str("agent_id"), JsonValue::of_opt_string(&self.agent_id)));
        entries.push((String::from_str("tier"), JsonValue::of_opt_string(&self.tier)));
        entries.push((String::from_str("task_id"), JsonValue::of_opt_string(&self.task_id)));
        entries.push((String::from_str("limit"), JsonValue::of_u32(self.limit)));
        let r = JsonValue::Obj(entries);
        proof {
            reveal_with_fuel(crate::json::jval_of, 3);
            assert(r@->Obj_0 =~= self@.spec_to_json()->Obj_0);
        }
        r
    }

    /// Decode from the wire.
    pub fn from_json(v: &JsonValue) -> (r: Result<MemoryQuery, SchemaError>)
        ensures
            match r {
                Ok(m) => MemoryQueryV::spec_from_json(v@) == Ok::<MemoryQueryV, SchemaError>(m@),
                Err(e) => MemoryQueryV::spec_from_json(v@) == Err::<MemoryQueryV, SchemaError>(e),
            },
    {
        if !v.is_object() {
            return Err(SchemaError::WrongShape);
        }
        let query = match v.req_string_field("query") {
            Ok(x) => x,
            Err(e) => return Err(e),
        };
        let scope = match opt_scope_field(v, "scope") {
            Ok(x) => x,
            Err(e) => return Err(e),
        };
        let category = match opt_category_field(v, "category") {
            Ok(x) => x,
            Err(e) => return Err(e),
        };
        let agent_id = match v.opt_string_field("agent_id") {
            Ok(x) => x,
            Err(e) => return Err(e),
        };
        let tier = match v.opt_string_field("tier") {
            Ok(x) => x,
            Err(e) => return Err(e),
        };
        let task_id = match v.opt_string_field("task_id") {
            Ok(x) => x,
            Err(e) => return Err(e),
        };
        let limit = match v.u32_field_or("limit", 20) {
            Ok(x) => x,
            Err(e) => return Err(e),
        };
        Ok(MemoryQuery { query, scope, category, agent_id, tier, task_id, limit })
    }

}

/// A `MemoryQuery` decodes back from its own encoding to an equal value.
pub proof fn lemma_memory_query_round_trip(m: MemoryQueryV)
    ensures
        MemoryQueryV::spec_from_json(m.spec_to_json()) == Ok::<MemoryQueryV, SchemaError>(m),
{
    reveal_strlit("query");
    reveal_strlit("scope");
    reveal_strlit("category");
    reveal_strlit("agent_id");
    reveal_strlit("tier");
    reveal_strlit("task_id");
    reveal_strlit("limit");
    assert("query"@.len() == 5);
    assert("scope"@.len() == 5);
    assert("category"@.len() == 8);
    assert("agent_id"@.len() == 8);
    assert("tier"@.len() == 4);
    assert("task_id"@.len() == 7);
    assert("limit"@.len() == 5);
    assert("query"@[0] == 'q' && "scope"@[0] == 's' && "limit"@[0] == 'l');
    assert("category"@[0] == 'c' && "agent_id"@[0] == 'a');
    let e = m.spec_to_json()->Obj_0;
    lemma_obj_get_at(e, "query"@, 0);
    lemma_obj_get_at(e, "scope"@, 1);
    lemma_obj_get_at(e, "category"@, 2);
    lemma_obj_get_at(e, "agent_id"@, 3);
    lemma_obj_get_at(e, "tier"@, 4);
    lemma_obj_get_at(e, "task_id"@, 5);
    lemma_obj_get_at(e, "limit"@, 6);
    match m.scope {
        Some(sc) => {
            lemma_memory_scope_round_trip(sc);
        },
        None => {},
    }
    match m.category {
        Some(c) => {
            lemma_memory_category_round_trip(c);
        },
        None => {},
    }
}

/// A wire object holding only `query` decodes to the default query: limit
/// 20, every filter absent.
pub proof fn lemma_memory_query_defaults(q: Seq<char>)
    ensures
        MemoryQueryV::spec_from_json(JVal::Obj(seq![("query"@, JVal::Str(q))])) == Ok::<
            MemoryQueryV,
            SchemaError,
        >(
            MemoryQueryV {
                query: q,
                scope: None,
                category: None,
                agent_id: None,
                tier: None,
                task_id: None,
                limit: 20,
            },
        ),
{
    reveal_strlit("query");
    reveal_strlit("scope");
    reveal_strlit("category");
    reveal_strlit("agent_id");
    reveal_strlit("tier");
    reveal_strlit("task_id");
    reveal_strlit("limit");
    assert("query"@.len() == 5);
    assert("scope"@.len() == 5);
    assert("category"@.len() == 8);
    assert("agent_id"@.len() == 8);
    assert("tier"@.len() == 4);
    assert("task_id"@.len() == 7);
    assert("limit"@.len() == 5);
    assert("query"@[0] == 'q' && "scope"@[0] == 's' && "limit"@[0] == 'l');
    assert("category"@[0] == 'c' && "agent_id"@[0] == 'a');
    let e = seq![("query"@, JVal::Str(q))];
    lemma_obj_get_at(e, "query"@, 0);
    lemma_obj_get_none(e, "scope"@);
    lemma_obj_get_none(e, "category"@);
    lemma_obj_get_none(e, "agent_id"@);
    lemma_obj_get_none(e, "tier"@);
    lemma_obj_get_none(e, "task_id"@);
    lemma_obj_get_none(e, "limit"@);
}

impl MemoryStoreV {
    /// Wire encoding.
    pub open spec fn spec_to_json(self) -> JVal {
        JVal::Obj(
            seq![
                ("scope"@, JVal::Str(self.scope.spec_token())),
                ("category"@, JVal::Str(self.category.spec_token())),
                ("key"@, JVal::Str(self.key)),
                ("metadata"@, self.metadata),
                ("tags"@, JVal::Arr(Seq::new(self.tags.len(), |i: int| JVal::Str(self.tags[i])))),
                ("agent_id"@, JVal::Str(self.agent_id)),
                ("run_id"@, JVal::Str(self.run_id)),
                ("skill_id"@, JVal::Str(self.skill_id)),
                ("relevance_score"@, JVal::Num(self.relevance_score)),
                ("tiers"@, JVal::Arr(Seq::new(self.tiers.len(), |i: int| self.tiers[i].spec_to_json()))),
                ("task_id"@, jval_of_opt_string(self.task_id)),
            ],
        )
    }

    /// Decoding: `scope` and `category` are required; the address `key`,
    /// the metadata, tags, linkage ids, relevance and tiers all default.
    pub open spec fn spec_from_json(v: JVal) -> Result<MemoryStoreV, SchemaError> {
        if !(v is Obj) {
            Err(SchemaError::WrongShape)
        } else {
            match spec_req_scope(v, "scope"@) {
                Err(e) => Err(e),
                Ok(scope) => match spec_req_category(v, "category"@) {
                    Err(e) => Err(e),
                    Ok(category) => match spec_string_or_empty(v, "key"@) {
                        Err(e) => Err(e),
                        Ok(key) => match spec_string_array_or_empty(v, "tags"@) {
                            Err(e) => Err(e),
                            Ok(tags) => match spec_string_or_empty(v, "agent_id"@) {
                                Err(e) => Err(e),
                                Ok(agent_id) => match spec_string_or_empty(v, "run_id"@) {
                                    Err(e) => Err(e),
                                    Ok(run_id) => match spec_string_or_empty(v, "skill_id"@) {
                                        Err(e) => Err(e),
                                        Ok(skill_id) => match spec_number_or_zero(
                                            v,
                                            "relevance_score"@,
                                        ) {
                                            Err(e) => Err(e),
                                            Ok(relevance_score) => match spec_tiers_or_empty(
                                                v,
                                                "tiers"@,
                                            ) {
                                                Err(e) => Err(e),
                                                Ok(tiers) => match spec_opt_string(v, "task_id"@) {
                                                    Err(e) => Err(e),
                                                    Ok(task_id) => Ok(
                                                        MemoryStoreV {
                                                            scope,
                                                            category,
                                                            key,
                                                            metadata: spec_value_or_empty_object(
                                                                v,
                                                                "metadata"@,
                                                            ),
                                                            tags,
                                                            agent_id,
                                                            run_id,
                                                            skill_id,
                                                            relevance_score,
                                                            tiers,
                                                            task_id,
                                                        },
                                                    ),
                                                },
                                            },
                                        },
                                    },
                                },
                            },
                        },
                    },
                },
            }
        }
    }
}

impl MemoryStore {
    /// Encode for the wire.
    pub fn to_json(&self) -> (r: JsonValue)
        ensures
            r@ == self@.spec_to_json(),
    {
        let mut entries: Vec<(String, JsonValue)> = Vec::new();
        entries.push((String::from_str("scope"), JsonValue::Str(String::from_str(self.scope.token()))));
        entries.push((String::from_str("category"), JsonValue::Str(String::from_str(self.category.token()))));
        entries.push((String::from_str("key"), JsonValue::Str(self.key.clone())));
        entries.push((String::from_str("metadata"), self.metadata.clone()));
        entries.push((String::from_str("tags"), JsonValue::of_string_vec(&self.tags)));
        entries.push((String::from_str("agent_id"), JsonValue::Str(self.agent_id.clone())));
        entries.push((String::from_str("run_id"), JsonValue::Str(self.run_id.clone())));
        entries.push((String::from_str("skill_id"), JsonValue::Str(self.skill_id.clone())));
        entries.push((String::from_str("relevance_score"), JsonValue::Num(self.relevance_score.clone())));
        entries.push((String::from_str("tiers"), of_tier_vec(&self.tiers)));
        entries.push((String::from_str("task_id"), JsonValue::of_opt_string(&self.task_id)));
        let r = JsonValue::Obj(entries);
        proof {
            reveal_with_fuel(crate::json::jval_of, 3);
            assert(r@->Obj_0 =~= self@.spec_to_json()->Obj_0);
        }
        r
    }

    /// Decode from the wire.
    pub fn from_json(v: &JsonValue) -> (r: Result<MemoryStore, SchemaError>)
        ensures
            match r {
                Ok(m) => MemoryStoreV::spec_from_json(v@) == Ok::<MemoryStoreV, SchemaError>(m@),
                Err(e) => MemoryStoreV::spec_from_json(v@) == Err::<MemoryStoreV, SchemaError>(e),
            },
    {
        if !v.is_object() {
            return Err(SchemaError::WrongShape);
        }
        let scope = match req_scope_field(v, "scope") {
            Ok(x) => x,
            Err(e) => return Err(e),
        };
        let category = match req_category_field(v, "category") {
            Ok(x) => x,
            Err(e) => return Err(e),
        };
        let key = match v.string_field_or_empty("key") {
            Ok(x) => x,
            Err(e) => return Err(e),
        };
        let tags = match v.string_array_field_or_empty("tags") {
            Ok(x) => x,
            Err(e) => return Err(e),
        };
        let agent_id = match v.string_field_or_empty("agent_id") {
            Ok(x) => x,
            Err(e) => return Err(e),
        };
        let run_id = match v.string_field_or_empty("run_id") {
            Ok(x) => x,
            Err(e) => return Err(e),
        };
        let skill_id = match v.string_field_or_empty("skill_id") {
            Ok(x) => x,
            Err(e) => return Err(e),
        };
        let relevance_score = match v.number_field_or_zero("relevance_score") {
            Ok(x) => x,
            Err(e) => return Err(e),
        };
        let tiers = match tiers_field_or_empty(v, "tiers") {
            Ok(x) => x,
            Err(e) => return Err(e),
        };
        let task_id = match v.opt_string_field("task_id") {
            Ok(x) => x,
            Err(e) => return Err(e),
        };
        let metadata = v.value_field_or_empty_object("metadata");
        Ok(
            MemoryStore {
                scope,
                category,
                key,
                metadata,
                tags,
                agent_id,
                run_id,
                skill_id,
                relevance_score,
                tiers,
                task_id,
            },
        )
    }
}

/// A `MemoryStore` decodes back from its own encoding to an equal value.
pub proof fn lemma_memory_store_round_trip(m: MemoryStoreV)
    ensures
        MemoryStoreV::spec_from_json(m.spec_to_json()) == Ok::<MemoryStoreV, SchemaError>(m),
{
    reveal_strlit("scope");
    reveal_strlit("category");
    reveal_strlit("key");
    reveal_strlit("metadata");
    reveal_strlit("tags");
    reveal_strlit("agent_id");
    reveal_strlit("run_id");
    reveal_strlit("skill_id");
    reveal_strlit("relevance_score");
    reveal_strlit("tiers");
    reveal_strlit("task_id");
    assert("scope"@.len() == 5);
    assert("category"@.len() == 8);
    assert("key"@.len() == 3);
    assert("metadata"@.len() == 8);
    assert("tags"@.len() == 4);
    assert("agent_id"@.len() == 8);
    assert("run_id"@.len() == 6);
    assert("skill_id"@.len() == 8);
    assert("relevance_score"@.len() == 15);
    assert("tiers"@.len() == 5);
    assert("task_id"@.len() == 7);
    assert("scope"@[0] == 's' && "tiers"@[0] == 't');
    assert("category"@[0] == 'c' && "metadata"@[0] == 'm' && "agent_id"@[0] == 'a'
        && "skill_id"@[0] == 's');
    let e = m.spec_to_json()->Obj_0;
    lemma_obj_get_at(e, "scope"@, 0);
    lemma_obj_get_at(e, "category"@, 1);
    lemma_obj_get_at(e, "key"@, 2);
    lemma_obj_get_at(e, "metadata"@, 3);
    lemma_obj_get_at(e, "tags"@, 4);
    lemma_obj_get_at(e, "agent_id"@, 5);
    lemma_obj_get_at(e, "run_id"@, 6);
    lemma_obj_get_at(e, "skill_id"@, 7);
    lemma_obj_get_at(e, "relevance_score"@, 8);
    lemma_obj_get_at(e, "tiers"@, 9);
    lemma_obj_get_at(e, "task_id"@, 10);
    lemma_memory_scope_round_trip(m.scope);
    lemma_memory_category_round_trip(m.category);
    lemma_string_items_of_strs(m.tags);
    lemma_tier_items_of_entries(m.tiers);
}

impl MemoryChanged {
    /// The mandatory announcement for one applied mutation: the action tag
    /// is exactly the action's wire token, and the record or id is carried
    /// as given.
    pub fn announce(
        action: MemoryAction,
        memory: Option<MemoryRecord>,
        memory_id: Option<String>,
    ) -> (r: MemoryChanged)
        ensures
            r@.action == action.spec_token(),
            r@.memory == match memory {
                Some(m) => Some(m@),
                None => None::<MemoryRecordV>,
            },
            r@.memory_id == match memory_id {
                Some(id) => Some(id@),
                None => None::<Seq<char>>,
            },
    {
        MemoryChanged { action: String::from_str(action.token()), memory, memory_id }
    }
}

/// Index of the first directory entry holding `(scope, key)`, if any.
pub open spec fn find_address(
    entries: Seq<(MemoryScope, Seq<char>)>,
    scope: MemoryScope,
    key: Seq<char>,
) -> Option<int>
    decreases entries.len(),
{
    if entries.len() == 0 {
        None
    } else if entries[0].0 == scope && entries[0].1 == key {
        Some(0int)
    } else {
        match find_address(entries.skip(1), scope, key) {
            Some(j) => Some(j + 1),
            None => None,
        }
    }
}

/// The set of `(scope, key)` upsert addresses a store has seen: enough
/// state to decide whether a `MemoryStore` creates or updates, and so which
/// action the mandatory `MemoryChanged` announcement must carry.
#[derive(Debug)]
pub struct MemoryDirectory {
    pub entries: Vec<(MemoryScope, String)>,
}

/// Mathematical form of a [`MemoryDirectory`].
pub struct MemoryDirectoryV {
    pub entries: Seq<(MemoryScope, Seq<char>)>,
}

impl View for MemoryDirectory {
    type V = MemoryDirectoryV;

    open spec fn view(&self) -> MemoryDirectoryV {
        MemoryDirectoryV {
            entries: Seq::new(
                self.entries@.len(),
                |i: int| if 0 <= i < self.entries@.len() {
                    (self.entries@[i].0, self.entries@[i].1@)
                } else {
                    (MemoryScope::System, Seq::empty())
                },
            ),
        }
    }
}

impl MemoryDirectoryV {
    /// What one store request does to the directory: a known non-empty
    /// `(scope, key)` address updates in place, a new non-empty address is
    /// created and remembered, and a keyless request is a plain insert that
    /// is announced as created but leaves no address behind.
    pub open spec fn spec_store(self, scope: MemoryScope, key: Seq<char>) -> (
        MemoryDirectoryV,
        MemoryAction,
    ) {
        if key.len() == 0 {
            (self, MemoryAction::Created)
        } else {
            match find_address(self.entries, scope, key) {
                Some(_) => (self, MemoryAction::Updated),
                None => (
                    MemoryDirectoryV { entries: self.entries.push((scope, key)) },
                    MemoryAction::Created,
                ),
            }
        }
    }
}

impl MemoryDirectory {
    /// An empty directory: no addresses seen yet.
    pub fn new() -> (r: MemoryDirectory)
        ensures
            r@.entries == Seq::<(MemoryScope, Seq<char>)>::empty(),
    {
        let r = MemoryDirectory { entries: Vec::new() };
        proof {
            assert(r@.entries =~= Seq::<(MemoryScope, Seq<char>)>::empty());
        }
        r
    }

    /// Apply one store request and return the action that the mandatory
    /// `MemoryChanged` announcement must carry.
    #[verifier::loop_isolation(false)]
    pub fn apply_store(&mut self, req: &MemoryStore) -> (r: MemoryAction)
        ensures
            final(self)@ == old(self)@.spec_store(req.scope, req.key@).0,
            r == old(self)@.spec_store(req.scope, req.key@).1,
    {
        if req.key.as_str().unicode_len() == 0 {
            return MemoryAction::Created;
        }
        let ghost gentries = self@.entries;
        proof {
            assert(gentries.skip(0) =~= gentries);
        }
        let n = self.entries.len();
        let mut i: usize = 0;
        while i < n
            invariant
                *self == *old(self),
                n == self.entries.len(),
                i <= n,
                find_address(gentries, req.scope, req.key@) == match find_address(
                    gentries.skip(i as int),
                    req.scope,
                    req.key@,
                ) {
                    Some(j) => Some(j + i),
                    None => None::<int>,
                },
            decreases n - i,
        {
            proof {
                assert(gentries.skip(i as int)[0] == gentries[i as int]);
                assert(gentries.skip(i as int).skip(1) =~= gentries.skip(i as int + 1));
            }
            if self.entries[i].0 == req.scope && str_eq(self.entries[i].1.as_str(), req.key.as_str()) {
                return MemoryAction::Updated;
            }
            i = i + 1;
        }
        proof {
            assert(gentries.skip(n as int) =~= Seq::<(MemoryScope, Seq<char>)>::empty());
        }
        self.entries.push((req.scope, req.key.clone()));
        proof {
            assert(self@.entries =~= old(self)@.entries.push((req.scope, req.key@)));
        }
        MemoryAction::Created
    }
}

/// Storing twice to the same non-empty `(scope, key)` address announces
/// `"created"` exactly once: the second store is an update, whatever else
/// (metadata, tiers, tags) the request carries.
pub proof fn lemma_second_store_updates(
    dir: MemoryDirectoryV,
    scope: MemoryScope,
    key: Seq<char>,
)
    requires
        key.len() > 0,
    ensures
        dir.spec_store(scope, key).0.spec_store(scope, key).1 == MemoryAction::Updated,
        dir.spec_store(scope, key).0.spec_store(scope, key).0 == dir.spec_store(scope, key).0,
        find_address(dir.entries, scope, key) is None
            ==> dir.spec_store(scope, key).1 == MemoryAction::Created,
{
    let d1 = dir.spec_store(scope, key).0;
    match find_address(dir.entries, scope, key) {
        Some(_) => {},
        None => {
            lemma_find_address_push(dir.entries, scope, key);
        },
    }
}

/// Appending an address makes lookups of that address succeed.
proof fn lemma_find_address_push(
    entries: Seq<(MemoryScope, Seq<char>)>,
    scope: MemoryScope,
    key: Seq<char>,
)
    ensures
        find_address(entries.push((scope, key)), scope, key) is Some,
    decreases entries.len(),
{
    let pushed = entries.push((scope, key));
    if entries.len() == 0 {
        assert(pushed.len() == 1);
    } else {
        if !(entries[0].0 == scope && entries[0].1 == key) {
            lemma_find_address_push(entries.skip(1), scope, key);
            assert(pushed.skip(1) =~= entries.skip(1).push((scope, key)));
        }
    }
}

} // verus!
