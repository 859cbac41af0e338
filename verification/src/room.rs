//! Task-room streaming protocol: an ephemeral per-task channel where the
//! king invites agents, output is streamed in chunks, and an evaluation
//! summary closes the room.
//!
//! Chunk ordering is guaranteed only within one `(task_id, request_id,
//! source)` key: the `chunk_index` must be strictly increasing per key, a
//! chunk marked `is_final` ends that stream, and once a `TaskSummary` has
//! been observed the room is closed and accepts no further output.

use vstd::prelude::*;
use vstd::string::*;
use crate::json::{
    JVal, JsonValue, JsonNumber, JNum, SchemaError, str_eq, jnum_of_u32, spec_req_string,
    spec_string_or_empty, spec_req_u32, spec_bool_or, spec_opt_u64, spec_opt_i32,
    spec_opt_number, spec_value_or_null, spec_string_array_or_empty, lemma_obj_get_at,
};

verus! {

broadcast use vstd::std_specs::vec::group_vec_axioms;

/// King opens a task room and invites agents to join it.
#[derive(Debug)]
pub struct TaskInvite {
    pub task_id: String,
    pub task_type: String,
    pub payload: JsonValue,
}

/// One streamed chunk of task output.
#[derive(Debug)]
pub struct TaskOutput {
    pub task_id: String,
    pub request_id: String,
    /// Source of output: `"pty"` or `"llm"`.
    pub source: String,
    pub delta: String,
    pub chunk_index: u32,
    pub is_final: bool,
}

/// King requests evaluation of a completed task.
#[derive(Debug)]
pub struct TaskEvaluate {
    pub task_id: String,
    pub task_type: String,
    /// Accumulated output text (truncated if very large).
    pub output_summary: String,
    pub exit_code: Option<i32>,
    pub latency_ms: Option<u64>,
    pub metadata: JsonValue,
}

/// Evaluation agent's verdict on a task.
#[derive(Debug)]
pub struct TaskSummary {
    pub task_id: String,
    pub agent_id: String,
    pub summary: String,
    pub score: Option<JsonNumber>,
    pub tags: Vec<String>,
    pub evaluation: JsonValue,
}

/// Mathematical form of a [`TaskOutput`].
pub struct TaskOutputV {
    pub task_id: Seq<char>,
    pub request_id: Seq<char>,
    pub source: Seq<char>,
    pub delta: Seq<char>,
    pub chunk_index: u32,
    pub is_final: bool,
}

impl View for TaskOutput {
    type V = TaskOutputV;

    open spec fn view(&self) -> TaskOutputV {
        TaskOutputV {
            task_id: self.task_id@,
            request_id: self.request_id@,
            source: self.source@,
            delta: self.delta@,
            chunk_index: self.chunk_index,
            is_final: self.is_final,
        }
    }
}

/// Why a streamed chunk was not accepted.
#[derive(Clone, Copy, Debug, PartialEq, Eq, Structural)]
pub enum StreamError {
    /// The room already observed its summary; no further output is valid.
    RoomClosed,
    /// A chunk arrived for a stream that already carried `is_final`.
    StreamFinished,
    /// The chunk index did not increase strictly within its stream.
    OutOfOrder,
}

/// Progress of one `(request_id, source)` stream inside a room.
#[derive(Debug)]
pub struct StreamTrack {
    pub request_id: String,
    pub source: String,
    pub last_index: u32,
    pub done: bool,
}

/// Mathematical form of a [`StreamTrack`].
pub struct StreamV {
    pub request_id: Seq<char>,
    pub source: Seq<char>,
    pub last_index: u32,
    pub done: bool,
}

impl View for StreamTrack {
    type V = StreamV;

    open spec fn view(&self) -> StreamV {
        StreamV {
            request_id: self.request_id@,
            source: self.source@,
            last_index: self.last_index,
            done: self.done,
        }
    }
}

/// Index of the first stream tracking `(rid, src)`, if any.
pub open spec fn find_stream(streams: Seq<StreamV>, rid: Seq<char>, src: Seq<char>) -> Option<
    int,
>
    decreases streams.len(),
{
    if streams.len() == 0 {
        None
    } else if streams[0].request_id == rid && streams[0].source == src {
        Some(0int)
    } else {
        match find_stream(streams.skip(1), rid, src) {
            Some(j) => Some(j + 1),
            None => None,
        }
    }
}

/// The ephemeral coordination channel scoped to one task: stream progress
/// per `(request_id, source)` key, and whether the summary has closed it.
#[derive(Debug)]
pub struct TaskRoom {
    pub task_id: String,
    pub closed: bool,
    pub streams: Vec<StreamTrack>,
}

/// Mathematical form of a [`TaskRoom`].
pub struct RoomV {
    pub task_id: Seq<char>,
    pub closed: bool,
    pub streams: Seq<StreamV>,
}

impl View for TaskRoom {
    type V = RoomV;

    open spec fn view(&self) -> RoomV {
        RoomV {
            task_id: self.task_id@,
            closed: self.closed,
            streams: Seq::new(
                self.streams@.len(),
                |i: int| if 0 <= i < self.streams@.len() {
                    self.streams@[i]@
                } else {
                    StreamV { request_id: Seq::empty(), source: Seq::empty(), last_index: 0, done: false }
                },
            ),
        }
    }
}

impl RoomV {
    /// What accepting one chunk does to the room. A chunk for a new
    /// `(request_id, source)` key opens that stream at the chunk's index; a
    /// chunk for a known key must carry a strictly larger index and is
    /// refused once the stream saw `is_final`; a closed room refuses
    /// everything.
    pub open spec fn spec_accept(self, out: TaskOutputV) -> Result<RoomV, StreamError> {
        if self.closed {
            Err(StreamError::RoomClosed)
        } else {
            match find_stream(self.streams, out.request_id, out.source) {
                None => Ok(
                    RoomV {
                        streams: self.streams.push(
                            StreamV {
                                request_id: out.request_id,
                                source: out.source,
                                last_index: out.chunk_index,
                                done: out.is_final,
                            },
                        ),
                        ..self
                    },
                ),
                Some(i) => if self.streams[i].done {
                    Err(StreamError::StreamFinished)
                } else if out.chunk_index <= self.streams[i].last_index {
                    Err(StreamError::OutOfOrder)
                } else {
                    Ok(
                        RoomV {
                            streams: self.streams.update(
                                i,
                                StreamV {
                                    last_index: out.chunk_index,
                                    done: out.is_final,
                                    ..self.streams[i]
                                },
                            ),
                            ..self
                        },
                    )
                },
            }
        }
    }
}

impl TaskRoom {
    /// A `TaskInvite` opens the room: no streams yet, not closed.
    pub fn open(invite: &TaskInvite) -> (r: TaskRoom)
        ensures
            r@ == (RoomV {
                task_id: invite.task_id@,
                closed: false,
                streams: Seq::<StreamV>::empty(),
            }),
    {
        let r = TaskRoom { task_id: invite.task_id.clone(), closed: false, streams: Vec::new() };
        proof {
            assert(r@.streams =~= Seq::<StreamV>::empty());
        }
        r
    }

    /// Accept one streamed chunk for this room, tracking its stream's
    /// progress; on refusal the room is unchanged.
    #[verifier::loop_isolation(false)]
    pub fn accept_output(&mut self, out: &TaskOutput) -> (r: Result<(), StreamError>)
        requires
            out.task_id@ == old(self).task_id@,
        ensures
            match r {
                Ok(_) => old(self)@.spec_accept(out@) == Ok::<RoomV, StreamError>(final(self)@),
                Err(e) => old(self)@.spec_accept(out@) == Err::<RoomV, StreamError>(e)
                    && final(self)@ == old(self)@,
            },
    {
        if self.closed {
            return Err(StreamError::RoomClosed);
        }
        let ghost gstreams = self@.streams;
        proof {
            assert(gstreams.skip(0) =~= gstreams);
        }
        let n = self.streams.len();
        let mut i: usize = 0;
        while i < n
            invariant
                *self == *old(self),
                n == self.streams.len(),
                i <= n,
                find_stream(gstreams, out.request_id@, out.source@) == match find_stream(
                    gstreams.skip(i as int),
                    out.request_id@,
                    out.source@,
                ) {
                    Some(j) => Some(j + i),
                    None => None::<int>,
                },
            decreases n - i,
        {
            let hit = str_eq(self.streams[i].request_id.as_str(), out.request_id.as_str())
                && str_eq(self.streams[i].source.as_str(), out.source.as_str());
            proof {
                assert(gstreams.skip(i as int)[0] == gstreams[i as int]);
                assert(gstreams.skip(i as int).skip(1) =~= gstreams.skip(i as int + 1));
            }
            if hit {
                proof {
                    assert(find_stream(gstreams, out.request_id@, out.source@) == Some(i as int));
                }
                if self.streams[i].done {
                    return Err(StreamError::StreamFinished);
                }
                if out.chunk_index <= self.streams[i].last_index {
                    return Err(StreamError::OutOfOrder);
                }
                let track = StreamTrack {
                    request_id: self.streams[i].request_id.clone(),
                    source: self.streams[i].source.clone(),
                    last_index: out.chunk_index,
                    done: out.is_final,
                };
                self.streams.set(i, track);
                proof {
                    assert(self@.streams =~= old(self)@.streams.update(
                        i as int,
                        StreamV {
                            last_index: out.chunk_index,
                            done: out.is_final,
                            ..old(self)@.streams[i as int]
                        },
                    ));
                }
                return Ok(());
            }
            i = i + 1;
        }
        proof {
            assert(gstreams.skip(n as int) =~= Seq::<StreamV>::empty());
        }
        let track = StreamTrack {
            request_id: out.request_id.clone(),
            source: out.source.clone(),
            last_index: out.chunk_index,
            done: out.is_final,
        };
        self.streams.push(track);
        proof {
            assert(self@.streams =~= old(self)@.streams.push(
                StreamV {
                    request_id: out.request_id@,
                    source: out.source@,
                    last_index: out.chunk_index,
                    done: out.is_final,
                },
            ));
        }
        Ok(())
    }

    /// After the task's summary has been observed the room is closed:
    /// every later chunk for the task is refused.
    pub fn observe_summary(&mut self, summary: &TaskSummary)
        requires
            summary.task_id@ == old(self).task_id@,
        ensures
            final(self)@ == (RoomV { closed: true, ..old(self)@ }),
    {
        self.closed = true;
    }
}

/// Once a stream has carried `is_final`, every further chunk for the same
/// `(request_id, source)` key is rejected, whatever its index.
pub proof fn lemma_final_chunk_closes_stream(room: RoomV, out: TaskOutputV, later: TaskOutputV)
    requires
        !room.closed,
        out.is_final,
        room.spec_accept(out) is Ok,
        later.request_id == out.request_id,
        later.source == out.source,
    ensures
        room.spec_accept(out)->Ok_0.spec_accept(later) == Err::<RoomV, StreamError>(
            StreamError::StreamFinished,
        ),
{
    let next = room.spec_accept(out)->Ok_0;
    match find_stream(room.streams, out.request_id, out.source) {
        None => {
            lemma_find_stream_push(room.streams, out.request_id, out.source, out.chunk_index, out.is_final);
        },
        Some(i) => {
            lemma_find_stream_update(room.streams, i, out.request_id, out.source, out.chunk_index, out.is_final);
        },
    }
}

/// Appending a new stream for a key that had none makes lookups of that key
/// land on the appended entry.
proof fn lemma_find_stream_push(
    streams: Seq<StreamV>,
    rid: Seq<char>,
    src: Seq<char>,
    idx: u32,
    done: bool,
)
    requires
        find_stream(streams, rid, src) is None,
    ensures
        ({
            let pushed = streams.push(
                StreamV { request_id: rid, source: src, last_index: idx, done },
            );
            &&& find_stream(pushed, rid, src) == Some(streams.len() as int)
            &&& pushed[streams.len() as int].done == done
            &&& pushed[streams.len() as int].last_index == idx
        }),
    decreases streams.len(),
{
    let pushed = streams.push(StreamV { request_id: rid, source: src, last_index: idx, done });
    if streams.len() == 0 {
        assert(pushed.len() == 1);
    } else {
        lemma_find_stream_push(streams.skip(1), rid, src, idx, done);
        assert(pushed.skip(1) =~= streams.skip(1).push(
            StreamV { request_id: rid, source: src, last_index: idx, done },
        ));
    }
}

/// Updating the entry a key resolves to keeps the key resolving there.
proof fn lemma_find_stream_update(
    streams: Seq<StreamV>,
    i: int,
    rid: Seq<char>,
    src: Seq<char>,
    idx: u32,
    done: bool,
)
    requires
        find_stream(streams, rid, src) == Some(i),
    ensures
        ({
            let updated = streams.update(
                i,
                StreamV { last_index: idx, done, ..streams[i] },
            );
            &&& find_stream(updated, rid, src) == Some(i)
            &&& updated[i].done == done
            &&& updated[i].last_index == idx
        }),
    decreases streams.len(),
{
    lemma_find_stream_bounds(streams, rid, src);
    let updated = streams.update(i, StreamV { last_index: idx, done, ..streams[i] });
    if streams[0].request_id == rid && streams[0].source == src {
        assert(i == 0);
    } else {
        lemma_find_stream_update(streams.skip(1), i - 1, rid, src, idx, done);
        assert(updated.skip(1) =~= streams.skip(1).update(
            i - 1,
            StreamV { last_index: idx, done, ..streams[i] },
        ));
    }
}

/// A found index is in bounds and names a matching entry.
proof fn lemma_find_stream_bounds(streams: Seq<StreamV>, rid: Seq<char>, src: Seq<char>)
    ensures
        match find_stream(streams, rid, src) {
            Some(i) => 0 <= i < streams.len() && streams[i].request_id == rid
                && streams[i].source == src,
            None => true,
        },
    decreases streams.len(),
{
    if streams.len() > 0 {
        lemma_find_stream_bounds(streams.skip(1), rid, src);
    }
}

/// An accepted chunk for a known stream advances that stream's index
/// strictly and records whether the chunk was final.
pub proof fn lemma_accept_advances_stream(room: RoomV, out: TaskOutputV)
    requires
        room.spec_accept(out) is Ok,
        find_stream(room.streams, out.request_id, out.source) is Some,
    ensures
        ({
            let i = find_stream(room.streams, out.request_id, out.source)->0;
            let next = room.spec_accept(out)->Ok_0;
            &&& next.streams[i].last_index == out.chunk_index
            &&& next.streams[i].last_index > room.streams[i].last_index
            &&& next.streams[i].done == out.is_final
        }),
{
    lemma_find_stream_bounds(room.streams, out.request_id, out.source);
}

/// A closed room accepts nothing.
pub proof fn lemma_closed_room_rejects(room: RoomV, out: TaskOutputV)
    requires
        room.closed,
    ensures
        room.spec_accept(out) == Err::<RoomV, StreamError>(StreamError::RoomClosed),
{
}

/// Within one stream the accepted chunk indexes increase strictly: a chunk
/// whose index does not exceed the last accepted one is rejected.
pub proof fn lemma_chunk_index_monotonic(room: RoomV, out: TaskOutputV)
    requires
        !room.closed,
        ({
            let found = find_stream(room.streams, out.request_id, out.source);
            &&& found is Some
            &&& !room.streams[found->0].done
            &&& out.chunk_index <= room.streams[found->0].last_index
        }),
    ensures
        room.spec_accept(out) == Err::<RoomV, StreamError>(StreamError::OutOfOrder),
{
}

} // verus!

verus! {

/// Mathematical form of a [`TaskInvite`].
pub struct TaskInviteV {
    pub task_id: Seq<char>,
    pub task_type: Seq<char>,
    pub payload: JVal,
}

impl View for TaskInvite {
    type V = TaskInviteV;

    open spec fn view(&self) -> TaskInviteV {
        TaskInviteV {
            task_id: self.task_id@,
            task_type: self.task_type@,
            payload: self.payload@,
        }
    }
}

impl TaskInviteV {
    /// Wire encoding.
    pub open spec fn spec_to_json(self) -> JVal {
        JVal::Obj(
            seq![
                ("task_id"@, JVal::Str(self.task_id)),
                ("task_type"@, JVal::Str(self.task_type)),
                ("payload"@, self.payload),
            ],
        )
    }

    /// Decoding: the ids are required; a missing payload means `null`.
    pub open spec fn spec_from_json(v: JVal) -> Result<TaskInviteV, SchemaError> {
        if !(v is Obj) {
            Err(SchemaError::WrongShape)
        } else {
            match spec_req_string(v, "task_id"@) {
                Err(e) => Err(e),
                Ok(task_id) => match spec_req_string(v, "task_type"@) {
                    Err(e) => Err(e),
                    Ok(task_type) => Ok(
                        TaskInviteV {
                            task_id,
                            task_type,
                            payload: spec_value_or_null(v, "payload"@),
                        },
                    ),
                },
            }
        }
    }
}

impl TaskInvite {
    /// Encode for the wire.
    pub fn to_json(&self) -> (r: JsonValue)
        ensures
            r@ == self@.spec_to_json(),
    {
        let mut entries: Vec<(String, JsonValue)> = Vec::new();
        entries.push((String::from_str("task_id"), JsonValue::Str(self.task_id.clone())));
        entries.push((String::from_str("task_type"), JsonValue::Str(self.task_type.clone())));
        entries.push((String::from_str("payload"), self.payload.clone()));
        let r = JsonValue::Obj(entries);
        proof {
            reveal_with_fuel(crate::json::jval_of, 3);
            assert(r@->Obj_0 =~= self@.spec_to_json()->Obj_0);
        }
        r
    }

    /// Decode from the wire.
    pub fn from_json(v: &JsonValue) -> (r: Result<TaskInvite, SchemaError>)
        ensures
            match r {
                Ok(m) => TaskInviteV::spec_from_json(v@) == Ok::<TaskInviteV, SchemaError>(m@),
                Err(e) => TaskInviteV::spec_from_json(v@) == Err::<TaskInviteV, SchemaError>(e),
            },
    {
        if !v.is_object() {
            return Err(SchemaError::WrongShape);
        }
        let task_id = match v.req_string_field("task_id") {
            Ok(x) => x,
            Err(e) => return Err(e),
        };
        let task_type = match v.req_string_field("task_type") {
            Ok(x) => x,
            Err(e) => return Err(e),
        };
        let payload = v.value_field_or_null("payload");
        Ok(TaskInvite { task_id, task_type, payload })
    }
}

/// A `TaskInvite` decodes back from its own encoding to an equal value.
pub proof fn lemma_task_invite_round_trip(m: TaskInviteV)
    ensures
        TaskInviteV::spec_from_json(m.spec_to_json()) == Ok::<TaskInviteV, SchemaError>(m),
{
    reveal_strlit("task_id");
    reveal_strlit("task_type");
    reveal_strlit("payload");
    assert("task_id"@.len() == 7);
    assert("task_type"@.len() == 9);
    assert("payload"@.len() == 7);
    assert("task_id"@[0] == 't' && "payload"@[0] == 'p');
    let e = m.spec_to_json()->Obj_0;
    lemma_obj_get_at(e, "task_id"@, 0);
    lemma_obj_get_at(e, "task_type"@, 1);
    lemma_obj_get_at(e, "payload"@, 2);
}

impl TaskOutputV {
    /// Wire encoding.
    pub open spec fn spec_to_json(self) -> JVal {
        JVal::Obj(
            seq![
                ("task_id"@, JVal::Str(self.task_id)),
                ("request_id"@, JVal::Str(self.request_id)),
                ("source"@, JVal::Str(self.source)),
                ("delta"@, JVal::Str(self.delta)),
                ("chunk_index"@, JVal::Num(jnum_of_u32(self.chunk_index))),
                ("is_final"@, JVal::Bool(self.is_final)),
            ],
        )
    }

    /// Decoding: everything but `is_final` is required; a missing
    /// `is_final` means `false`.
    pub open spec fn spec_from_json(v: JVal) -> Result<TaskOutputV, SchemaError> {
        if !(v is Obj) {
            Err(SchemaError::WrongShape)
        } else {
            match spec_req_string(v, "task_id"@) {
                Err(e) => Err(e),
                Ok(task_id) => match spec_req_string(v, "request_id"@) {
                    Err(e) => Err(e),
                    Ok(request_id) => match spec_req_string(v, "source"@) {
                        Err(e) => Err(e),
                        Ok(source) => match spec_req_string(v, "delta"@) {
                            Err(e) => Err(e),
                            Ok(delta) => match spec_req_u32(v, "chunk_index"@) {
                                Err(e) => Err(e),
                                Ok(chunk_index) => match spec_bool_or(v, "is_final"@, false) {
                                    Err(e) => Err(e),
                                    Ok(is_final) => Ok(
                                        TaskOutputV {
                                            task_id,
                                            request_id,
                                            source,
                                            delta,
                                            chunk_index,
                                            is_final,
                                        },
                                    ),
                                },
                            },
                        },
                    },
                },
            }
        }
    }
}

impl TaskOutput {
    /// Encode for the wire.
    pub fn to_json(&self) -> (r: JsonValue)
        ensures
            r@ == self@.spec_to_json(),
    {
        let mut entries: Vec<(String, JsonValue)> = Vec::new();
        entries.push((String::from_str("task_id"), JsonValue::Str(self.task_id.clone())));
        entries.push((String::from_str("request_id"), JsonValue::Str(self.request_id.clone())));
        entries.push((String::from_str("source"), JsonValue::Str(self.source.clone())));
        entries.push((String::from_str("delta"), JsonValue::Str(self.delta.clone())));
        entries.push((String::from_str("chunk_index"), JsonValue::of_u32(self.chunk_index)));
        entries.push((String::from_str("is_final"), JsonValue::Bool(self.is_final)));
        let r = JsonValue::Obj(entries);
        proof {
            reveal_with_fuel(crate::json::jval_of, 3);
            assert(r@->Obj_0 =~= self@.spec_to_json()->Obj_0);
        }
        r
    }

    /// Decode from the wire.
    pub fn from_json(v: &JsonValue) -> (r: Result<TaskOutput, SchemaError>)
        ensures
            match r {
                Ok(m) => TaskOutputV::spec_from_json(v@) == Ok::<TaskOutputV, SchemaError>(m@),
                Err(e) => TaskOutputV::spec_from_json(v@) == Err::<TaskOutputV, SchemaError>(e),
            },
    {
        if !v.is_object() {
            return Err(SchemaError::WrongShape);
        }
        let task_id = match v.req_string_field("task_id") {
            Ok(x) => x,
            Err(e) => return Err(e),
        };
        let request_id = match v.req_string_field("request_id") {
            Ok(x) => x,
            Err(e) => return Err(e),
        };
        let source = match v.req_string_field("source") {
            Ok(x) => x,
            Err(e) => return Err(e),
        };
        let delta = match v.req_string_field("delta") {
            Ok(x) => x,
            Err(e) => return Err(e),
        };
        let chunk_index = match v.req_u32_field("chunk_index") {
            Ok(x) => x,
            Err(e) => return Err(e),
        };
        let is_final = match v.bool_field_or("is_final", false) {
            Ok(x) => x,
            Err(e) => return Err(e),
        };
        Ok(TaskOutput { task_id, request_id, source, delta, chunk_index, is_final })
    }
}

/// A `TaskOutput` decodes back from its own encoding to an equal value.
pub proof fn lemma_task_output_round_trip(m: TaskOutputV)
    ensures
        TaskOutputV::spec_from_json(m.spec_to_json()) == Ok::<TaskOutputV, SchemaError>(m),
{
    reveal_strlit("task_id");
    reveal_strlit("request_id");
    reveal_strlit("source");
    reveal_strlit("delta");
    reveal_strlit("chunk_index");
    reveal_strlit("is_final");
    assert("task_id"@.len() == 7);
    assert("request_id"@.len() == 10);
    assert("source"@.len() == 6);
    assert("delta"@.len() == 5);
    assert("chunk_index"@.len() == 11);
    assert("is_final"@.len() == 8);
    let e = m.spec_to_json()->Obj_0;
    lemma_obj_get_at(e, "task_id"@, 0);
    lemma_obj_get_at(e, "request_id"@, 1);
    lemma_obj_get_at(e, "source"@, 2);
    lemma_obj_get_at(e, "delta"@, 3);
    lemma_obj_get_at(e, "chunk_index"@, 4);
    lemma_obj_get_at(e, "is_final"@, 5);
}

/// Mathematical form of a [`TaskEvaluate`].
pub struct TaskEvaluateV {
    pub task_id: Seq<char>,
    pub task_type: Seq<char>,
    pub output_summary: Seq<char>,
    pub exit_code: Option<i32>,
    pub latency_ms: Option<u64>,
    pub metadata: JVal,
}

impl View for TaskEvaluate {
    type V = TaskEvaluateV;

    open spec fn view(&self) -> TaskEvaluateV {
        TaskEvaluateV {
            task_id: self.task_id@,
            task_type: self.task_type@,
            output_summary: self.output_summary@,
            exit_code: self.exit_code,
            latency_ms: self.latency_ms,
            metadata: self.metadata@,
        }
    }
}

impl TaskEvaluateV {
    /// Wire encoding.
    pub open spec fn spec_to_json(self) -> JVal {
        JVal::Obj(
            seq![
                ("task_id"@, JVal::Str(self.task_id)),
                ("task_type"@, JVal::Str(self.task_type)),
                ("output_summary"@, JVal::Str(self.output_summary)),
                ("exit_code"@, match self.exit_code {
                    Some(x) => JVal::Num(crate::json::jnum_of_i64(x as i64)),
                    None => JVal::Null,
                }),
                ("latency_ms"@, match self.latency_ms {
                    Some(x) => JVal::Num(JNum { neg: false, int_part: x, frac: Seq::empty() }),
                    None => JVal::Null,
                }),
                ("metadata"@, self.metadata),
            ],
        )
    }

    /// Decoding: the ids are required; the summary defaults to empty, the
    /// metadata to `null`.
    pub open spec fn spec_from_json(v: JVal) -> Result<TaskEvaluateV, SchemaError> {
        if !(v is Obj) {
            Err(SchemaError::WrongShape)
        } else {
            match spec_req_string(v, "task_id"@) {
                Err(e) => Err(e),
                Ok(task_id) => match spec_req_string(v, "task_type"@) {
                    Err(e) => Err(e),
                    Ok(task_type) => match spec_string_or_empty(v, "output_summary"@) {
                        Err(e) => Err(e),
                        Ok(output_summary) => match spec_opt_i32(v, "exit_code"@) {
                            Err(e) => Err(e),
                            Ok(exit_code) => match spec_opt_u64(v, "latency_ms"@) {
                                Err(e) => Err(e),
                                Ok(latency_ms) => Ok(
                                    TaskEvaluateV {
                                        task_id,
                                        task_type,
                                        output_summary,
                                        exit_code,
                                        latency_ms,
                                        metadata: spec_value_or_null(v, "metadata"@),
                                    },
                                ),
                            },
                        },
                    },
                },
            }
        }
    }
}

impl TaskEvaluate {
    /// Encode for the wire.
    pub fn to_json(&self) -> (r: JsonValue)
        ensures
            r@ == self@.spec_to_json(),
    {
        let mut entries: Vec<(String, JsonValue)> = Vec::new();
        entries.push((String::from_str("task_id"), JsonValue::Str(self.task_id.clone())));
        entries.push((String::from_str("task_type"), JsonValue::Str(self.task_type.clone())));
        entries.push((String::from_str("output_summary"), JsonValue::Str(self.output_summary.clone())));
        entries.push((String::from_str("exit_code"), JsonValue::of_opt_i32(&self.exit_code)));
        entries.push((String::from_str("latency_ms"), JsonValue::of_opt_u64(&self.latency_ms)));
        entries.push((String::from_str("metadata"), self.metadata.clone()));
        let r = JsonValue::Obj(entries);
        proof {
            reveal_with_fuel(crate::json::jval_of, 3);
            assert(r@->Obj_0 =~= self@.spec_to_json()->Obj_0);
        }
        r
    }

    /// Decode from the wire.
    pub fn from_json(v: &JsonValue) -> (r: Result<TaskEvaluate, SchemaError>)
        ensures
            match r {
                Ok(m) => TaskEvaluateV::spec_from_json(v@) == Ok::<TaskEvaluateV, SchemaError>(m@),
                Err(e) => TaskEvaluateV::spec_from_json(v@) == Err::<TaskEvaluateV, SchemaError>(
                    e,
                ),
            },
    {
        if !v.is_object() {
            return Err(SchemaError::WrongShape);
        }
        let task_id = match v.req_string_field("task_id") {
            Ok(x) => x,
            Err(e) => return Err(e),
        };
        let task_type = match v.req_string_field("task_type") {
            Ok(x) => x,
            Err(e) => return Err(e),
        };
        let output_summary = match v.string_field_or_empty("output_summary") {
            Ok(x) => x,
            Err(e) => return Err(e),
        };
        let exit_code = match v.opt_i32_field("exit_code") {
            Ok(x) => x,
            Err(e) => return Err(e),
        };
        let latency_ms = match v.opt_u64_field("latency_ms") {
            Ok(x) => x,
            Err(e) => return Err(e),
        };
        let metadata = v.value_field_or_null("metadata");
        Ok(TaskEvaluate { task_id, task_type, output_summary, exit_code, latency_ms, metadata })
    }
}

/// A `TaskEvaluate` decodes back from its own encoding to an equal value.
pub proof fn lemma_task_evaluate_round_trip(m: TaskEvaluateV)
    ensures
        TaskEvaluateV::spec_from_json(m.spec_to_json()) == Ok::<TaskEvaluateV, SchemaError>(m),
{
    reveal_strlit("task_id");
    reveal_strlit("task_type");
    reveal_strlit("output_summary");
    reveal_strlit("exit_code");
    reveal_strlit("latency_ms");
    reveal_strlit("metadata");
    assert("task_id"@.len() == 7);
    assert("task_type"@.len() == 9);
    assert("output_summary"@.len() == 14);
    assert("exit_code"@.len() == 9);
    assert("latency_ms"@.len() == 10);
    assert("metadata"@.len() == 8);
    assert("task_type"@[0] == 't' && "exit_code"@[0] == 'e');
    let e = m.spec_to_json()->Obj_0;
    lemma_obj_get_at(e, "task_id"@, 0);
    lemma_obj_get_at(e, "task_type"@, 1);
    lemma_obj_get_at(e, "output_summary"@, 2);
    lemma_obj_get_at(e, "exit_code"@, 3);
    lemma_obj_get_at(e, "latency_ms"@, 4);
    lemma_obj_get_at(e, "metadata"@, 5);
}

/// Mathematical form of a [`TaskSummary`].
pub struct TaskSummaryV {
    pub task_id: Seq<char>,
    pub agent_id: Seq<char>,
    pub summary: Seq<char>,
    pub score: Option<JNum>,
    pub tags: Seq<Seq<char>>,
    pub evaluation: JVal,
}

impl View for TaskSummary {
    type V = TaskSummaryV;

    open spec fn view(&self) -> TaskSummaryV {
        TaskSummaryV {
            task_id: self.task_id@,
            agent_id: self.agent_id@,
            summary: self.summary@,
            score: match self.score {
                Some(n) => Some(n@),
                None => None,
            },
            tags: self.tags.deep_view(),
            evaluation: self.evaluation@,
        }
    }
}

impl TaskSummaryV {
    /// Wire encoding.
    pub open spec fn spec_to_json(self) -> JVal {
        JVal::Obj(
            seq![
                ("task_id"@, JVal::Str(self.task_id)),
                ("agent_id"@, JVal::Str(self.agent_id)),
                ("summary"@, JVal::Str(self.summary)),
                ("score"@, match self.score {
                    Some(n) => JVal::Num(n),
                    None => JVal::Null,
                }),
                ("tags"@, JVal::Arr(Seq::new(self.tags.len(), |i: int| JVal::Str(self.tags[i])))),
                ("evaluation"@, self.evaluation),
            ],
        )
    }

    /// Decoding: the ids and the verdict text are required; score, tags and
    /// the structured evaluation default.
    pub open spec fn spec_from_json(v: JVal) -> Result<TaskSummaryV, SchemaError> {
        if !(v is Obj) {
            Err(SchemaError::WrongShape)
        } else {
            match spec_req_string(v, "task_id"@) {
                Err(e) => Err(e),
                Ok(task_id) => match spec_req_string(v, "agent_id"@) {
                    Err(e) => Err(e),
                    Ok(agent_id) => match spec_req_string(v, "summary"@) {
                        Err(e) => Err(e),
                        Ok(summary) => match spec_opt_number(v, "score"@) {
                            Err(e) => Err(e),
                            Ok(score) => match spec_string_array_or_empty(v, "tags"@) {
                                Err(e) => Err(e),
                                Ok(tags) => Ok(
                                    TaskSummaryV {
                                        task_id,
                                        agent_id,
                                        summary,
                                        score,
                                        tags,
                                        evaluation: spec_value_or_null(v, "evaluation"@),
                                    },
                                ),
                            },
                        },
                    },
                },
            }
        }
    }
}

impl TaskSummary {
    /// Encode for the wire.
    pub fn to_json(&self) -> (r: JsonValue)
        ensures
            r@ == self@.spec_to_json(),
    {
        let mut entries: Vec<(String, JsonValue)> = Vec::new();
        entries.push((String::from_str("task_id"), JsonValue::Str(self.task_id.clone())));
        entries.push((String::from_str("agent_id"), JsonValue::Str(self.agent_id.clone())));
        entries.push((String::from_str("summary"), JsonValue::Str(self.summary.clone())));
        entries.push((String::from_str("score"), JsonValue::of_opt_number(&self.score)));
        entries.push((String::from_str("tags"), JsonValue::of_string_vec(&self.tags)));
        entries.push((String::from_str("evaluation"), self.evaluation.clone()));
        let r = JsonValue::Obj(entries);
        proof {
            reveal_with_fuel(crate::json::jval_of, 3);
            assert(r@->Obj_0 =~= self@.spec_to_json()->Obj_0);
        }
        r
    }

    /// Decode from the wire.
    pub fn from_json(v: &JsonValue) -> (r: Result<TaskSummary, SchemaError>)
        ensures
            match r {
                Ok(m) => TaskSummaryV::spec_from_json(v@) == Ok::<TaskSummaryV, SchemaError>(m@),
                Err(e) => TaskSummaryV::spec_from_json(v@) == Err::<TaskSummaryV, SchemaError>(e),
            },
    {
        if !v.is_object() {
            return Err(SchemaError::WrongShape);
        }
        let task_id = match v.req_string_field("task_id") {
            Ok(x) => x,
            Err(e) => return Err(e),
        };
        let agent_id = match v.req_string_field("agent_id") {
            Ok(x) => x,
            Err(e) => return Err(e),
        };
        let summary = match v.req_string_field("summary") {
            Ok(x) => x,
            Err(e) => return Err(e),
        };
        let score = match v.opt_number_field("score") {
            Ok(x) => x,
            Err(e) => return Err(e),
        };
        let tags = match v.string_array_field_or_empty("tags") {
            Ok(x) => x,
            Err(e) => return Err(e),
        };
        let evaluation = v.value_field_or_null("evaluation");
        Ok(TaskSummary { task_id, agent_id, summary, score, tags, evaluation })
    }
}

/// A `TaskSummary` decodes back from its own encoding to an equal value.
pub proof fn lemma_task_summary_round_trip(m: TaskSummaryV)
    ensures
        TaskSummaryV::spec_from_json(m.spec_to_json()) == Ok::<TaskSummaryV, SchemaError>(m),
{
    reveal_strlit("task_id");
    reveal_strlit("agent_id");
    reveal_strlit("summary");
    reveal_strlit("score");
    reveal_strlit("tags");
    reveal_strlit("evaluation");
    assert("task_id"@.len() == 7);
    assert("agent_id"@.len() == 8);
    assert("summary"@.len() == 7);
    assert("score"@.len() == 5);
    assert("tags"@.len() == 4);
    assert("evaluation"@.len() == 10);
    assert("task_id"@[0] == 't' && "summary"@[0] == 's');
    let e = m.spec_to_json()->Obj_0;
    lemma_obj_get_at(e, "task_id"@, 0);
    lemma_obj_get_at(e, "agent_id"@, 1);
    lemma_obj_get_at(e, "summary"@, 2);
    lemma_obj_get_at(e, "score"@, 3);
    lemma_obj_get_at(e, "tags"@, 4);
    lemma_obj_get_at(e, "evaluation"@, 5);
    crate::json::lemma_string_items_of_strs(m.tags);
}

} // verus!
