//! What a laptop asks a controller, and how it reads the replies.
use vstd::prelude::*;
use vstd::string::*;
use crate::dispatch::unavailable_refusal;
use crate::error::WorkerError;
use crate::job::ids::{JobId, TaskId};
use crate::job::{MAX_LOG_CHUNK_BYTES, PROTOCOL_VERSION};
use crate::manifest::json_bool;
use crate::outside::{
    hex_number, hex_value, json_string, json_string_text, random_shape, uuid_random,
    uuid_to_simple,
};
use crate::task::AgentKind;
use crate::text::{
    clone_opt, decimal, decimal_text, join, joined, lower_hex, opt_text, opt_text_eq, texts, utf8,
};

verus! {

/// What a controller is asked.
#[derive(Debug)]
pub enum ControllerOperation {
    Status { task_id: TaskId },
    Result { task_id: TaskId },
    Cancel { task_id: TaskId },
    Diff { task_id: TaskId, stat: bool },
    Close { task_id: TaskId, discard: bool },
    Say { task_id: TaskId, message: String },
    List { run: Option<String>, state: Option<String>, outcome: Option<String>, full: bool },
    Logs {
        task_id: TaskId,
        turn: Option<u32>,
        turn_id: Option<JobId>,
        offset: u64,
        raw: bool,
        follow: bool,
    },
    /// A frozen task, in canonical JSON.
    Submit { body: String },
    /// A frozen batch, in canonical JSON.
    Batch { body: String },
}

pub open spec fn text_field(key: Seq<char>, value: Seq<char>) -> Seq<char> {
    key + json_string_text(value)
}

pub open spec fn flag_field(key: Seq<char>, value: bool) -> Seq<char> {
    key + json_bool(value)
}

pub open spec fn id_field(key: Seq<char>, value: u128) -> Seq<char> {
    key + json_string_text(hex_number(value as int, 32))
}

/// A field for a text that is given, and none for one that is not.
pub open spec fn opt_field(key: Seq<char>, value: Option<String>) -> Seq<Seq<char>> {
    match value {
        Some(text) => seq![text_field(key, text@)],
        None => seq![],
    }
}

impl ControllerOperation {
    pub open spec fn command(&self) -> Seq<char> {
        match self {
            ControllerOperation::Status { .. } => "task.status"@,
            ControllerOperation::Result { .. } => "task.result"@,
            ControllerOperation::Cancel { .. } => "task.cancel"@,
            ControllerOperation::Diff { .. } => "task.diff"@,
            ControllerOperation::Close { .. } => "task.close"@,
            ControllerOperation::Say { .. } => "task.say"@,
            ControllerOperation::List { .. } => "task.list"@,
            ControllerOperation::Logs { .. } => "task.logs"@,
            ControllerOperation::Submit { .. } => "task.submit"@,
            ControllerOperation::Batch { .. } => "task.batch"@,
        }
    }

    /// The name of the operation on the wire.
    pub fn command_name(&self) -> (name: &'static str)
        ensures
            name@ == self.command(),
    {
        match self {
            ControllerOperation::Status { .. } => "task.status",
            ControllerOperation::Result { .. } => "task.result",
            ControllerOperation::Cancel { .. } => "task.cancel",
            ControllerOperation::Diff { .. } => "task.diff",
            ControllerOperation::Close { .. } => "task.close",
            ControllerOperation::Say { .. } => "task.say",
            ControllerOperation::List { .. } => "task.list",
            ControllerOperation::Logs { .. } => "task.logs",
            ControllerOperation::Submit { .. } => "task.submit",
            ControllerOperation::Batch { .. } => "task.batch",
        }
    }

    /// The fields of the request's body, in the order of their keys. A frozen
    /// body is sent as it is.
    pub open spec fn fields(&self) -> Seq<Seq<char>> {
        match self {
            ControllerOperation::Status { task_id } => seq![
                id_field("\"task_id\":"@, task_id.value),
            ],
            ControllerOperation::Result { task_id } => seq![
                id_field("\"task_id\":"@, task_id.value),
            ],
            ControllerOperation::Cancel { task_id } => seq![
                id_field("\"task_id\":"@, task_id.value),
            ],
            ControllerOperation::Diff { task_id, stat } => seq![
                flag_field("\"stat\":"@, *stat),
                id_field("\"task_id\":"@, task_id.value),
            ],
            ControllerOperation::Close { task_id, discard } => seq![
                flag_field("\"discard\":"@, *discard),
                id_field("\"task_id\":"@, task_id.value),
            ],
            ControllerOperation::Say { task_id, message } => seq![
                text_field("\"message\":"@, message@),
                id_field("\"task_id\":"@, task_id.value),
            ],
            ControllerOperation::List { run, state, outcome, full } => (if *full {
                seq![flag_field("\"full\":"@, true)]
            } else {
                seq![]
            }) + opt_field("\"outcome\":"@, *outcome) + opt_field("\"run\":"@, *run) + opt_field(
                "\"state\":"@,
                *state,
            ),
            ControllerOperation::Logs { task_id, turn, turn_id, offset, raw, follow } => seq![
                flag_field("\"follow\":"@, *follow),
                "\"limit\":"@ + decimal(MAX_LOG_CHUNK_BYTES as nat),
                "\"offset\":"@ + decimal(*offset as nat),
                flag_field("\"raw\":"@, *raw),
                id_field("\"task_id\":"@, task_id.value),
            ] + (match turn {
                Some(number) => seq!["\"turn\":"@ + decimal(*number as nat)],
                None => seq![],
            }) + (match turn_id {
                Some(id) => seq![id_field("\"turn_id\":"@, id.value)],
                None => seq![],
            }),
            _ => seq![],
        }
    }

    pub open spec fn body(&self) -> Seq<char> {
        match self {
            ControllerOperation::Submit { body } => body@,
            ControllerOperation::Batch { body } => body@,
            _ => "{"@ + join(self.fields(), ","@) + "}"@,
        }
    }

    /// The request as it stands on the wire.
    pub open spec fn payload(&self, request_id: Seq<char>) -> Seq<char> {
        "{\"body\":"@ + self.body() + ",\"command\":"@ + json_string_text(
            self.command(),
        ) + ",\"protocol_version\":"@ + decimal(PROTOCOL_VERSION as nat) + ",\"request_id\":"@
            + json_string_text(request_id) + "}"@
    }

    fn body_fields(&self) -> (fields: Vec<String>)
        ensures
            texts(fields@) == self.fields(),
    {
        let mut fields: Vec<String> = Vec::new();
        match self {
            ControllerOperation::Status { task_id }
            | ControllerOperation::Result { task_id }
            | ControllerOperation::Cancel { task_id } => {
                fields.push(id_text("\"task_id\":", task_id.value));
            },
            ControllerOperation::Diff { task_id, stat } => {
                fields.push(flag_text("\"stat\":", *stat));
                fields.push(id_text("\"task_id\":", task_id.value));
            },
            ControllerOperation::Close { task_id, discard } => {
                fields.push(flag_text("\"discard\":", *discard));
                fields.push(id_text("\"task_id\":", task_id.value));
            },
            ControllerOperation::Say { task_id, message } => {
                fields.push(quoted_text("\"message\":", message.as_str()));
                fields.push(id_text("\"task_id\":", task_id.value));
            },
            ControllerOperation::List { run, state, outcome, full } => {
                if *full {
                    fields.push(flag_text("\"full\":", true));
                }
                if let Some(text) = outcome {
                    fields.push(quoted_text("\"outcome\":", text.as_str()));
                }
                if let Some(text) = run {
                    fields.push(quoted_text("\"run\":", text.as_str()));
                }
                if let Some(text) = state {
                    fields.push(quoted_text("\"state\":", text.as_str()));
                }
            },
            ControllerOperation::Logs { task_id, turn, turn_id, offset, raw, follow } => {
                fields.push(flag_text("\"follow\":", *follow));
                fields.push(number_text("\"limit\":", MAX_LOG_CHUNK_BYTES as u64));
                fields.push(number_text("\"offset\":", *offset));
                fields.push(flag_text("\"raw\":", *raw));
                fields.push(id_text("\"task_id\":", task_id.value));
                if let Some(number) = turn {
                    fields.push(number_text("\"turn\":", *number as u64));
                }
                if let Some(id) = turn_id {
                    fields.push(id_text("\"turn_id\":", id.value));
                }
            },
            _ => {},
        }
        assert(texts(fields@) =~= self.fields());
        fields
    }

    fn body_text(&self) -> (text: String)
        ensures
            text@ == self.body(),
    {
        match self {
            ControllerOperation::Submit { body } => body.clone(),
            ControllerOperation::Batch { body } => body.clone(),
            _ => {
                let fields = self.body_fields();
                "{".to_owned().concat(joined(&fields, ",").as_str()).concat("}")
            },
        }
    }

    /// The request's text under a given identity.
    pub fn payload_text(&self, request_id: &str) -> (payload: String)
        ensures
            payload@ == self.payload(request_id@),
    {
        "{\"body\":".to_owned().concat(self.body_text().as_str()).concat(
            ",\"command\":",
        ).concat(json_string(self.command_name()).as_str()).concat(",\"protocol_version\":").concat(
            decimal_text(PROTOCOL_VERSION as u64).as_str(),
        ).concat(",\"request_id\":").concat(json_string(request_id).as_str()).concat("}")
    }
}

pub(crate) fn id_text(key: &str, value: u128) -> (field: String)
    ensures
        field@ == id_field(key@, value),
{
    key.to_owned().concat(json_string(uuid_to_simple(value).as_str()).as_str())
}

fn flag_text(key: &str, value: bool) -> (field: String)
    ensures
        field@ == flag_field(key@, value),
{
    if value {
        key.to_owned().concat("true")
    } else {
        key.to_owned().concat("false")
    }
}

pub(crate) fn quoted_text(key: &str, value: &str) -> (field: String)
    ensures
        field@ == text_field(key@, value@),
{
    key.to_owned().concat(json_string(value).as_str())
}

pub(crate) fn number_text(key: &str, value: u64) -> (field: String)
    ensures
        field@ == key@ + decimal(value as nat),
{
    key.to_owned().concat(decimal_text(value).as_str())
}

/// A request with an identity of its own.
#[derive(Debug)]
pub struct ControllerRequest {
    pub request_id: String,
    pub payload: String,
}

/// A request for this operation, under a new random identity.
pub fn controller_read_request(operation: &ControllerOperation) -> (request: ControllerRequest)
    ensures
        request.payload@ == operation.payload(request.request_id@),
        exists|id: u128|
            random_shape(id) && request.request_id@ == #[trigger] hex_number(id as int, 32),
{
    let id: u128 = uuid_random();
    let request_id = uuid_to_simple(id);
    assert(request_id@ == hex_number(id as int, 32));
    let payload = operation.payload_text(request_id.as_str());
    ControllerRequest { request_id, payload }
}

/// An identity out of a controller's acknowledgement, empty where it has none.
pub fn controller_ack_id<'a>(id: Option<&'a str>) -> (text: &'a str)
    ensures
        text@ == match id {
            Some(given) => given@,
            None => ""@,
        },
{
    match id {
        Some(given) => given,
        None => "",
    }
}

fn invalid_ack() -> (error: WorkerError)
    ensures
        unavailable_refusal(
            error,
            "CONTROLLER_UNAVAILABLE: controller host returned an invalid ACK"@,
        ),
{
    WorkerError::Unavailable(
        "CONTROLLER_UNAVAILABLE: controller host returned an invalid ACK".to_owned(),
    )
}

/// What an acknowledgement's text comes to, where it must read as an identity.
pub fn acknowledged_task(task_id: Option<&str>) -> (result: Result<TaskId, WorkerError>)
    ensures
        match result {
            Ok(id) => task_id is Some && lower_hex(task_id->0@, 32) && id.value == hex_value(
                utf8(task_id->0@),
            ),
            Err(error) => !(task_id is Some && lower_hex(task_id->0@, 32)) && unavailable_refusal(
                error,
                "CONTROLLER_UNAVAILABLE: controller host returned an invalid ACK"@,
            ),
        },
{
    proof {
        reveal_strlit("");
        assert(utf8(""@).len() == 0) by {
            vstd::utf8::is_ascii_chars_encode_utf8(""@);
        }
    }
    match TaskId::from_text(controller_ack_id(task_id)) {
        Ok(id) => Ok(id),
        Err(_) => Err(invalid_ack()),
    }
}

/// What a controller says of a batch that it took.
#[derive(Debug)]
pub struct RunAck {
    /// The run's name, where one is given as text.
    pub run_id: Option<String>,
    /// That name reads as a run's.
    pub run_id_reads: bool,
    /// The tasks, where they are given as a list; an entry that is no text is
    /// `None`.
    pub task_ids: Option<Vec<Option<String>>>,
}

/// A batch that a controller took.
#[derive(Debug)]
pub struct RunReport {
    pub run_id: String,
    pub task_ids: Vec<TaskId>,
}

impl RunAck {
    /// Everything that a report needs is there and reads as what it should be.
    pub open spec fn complete(&self) -> bool {
        &&& self.run_id is Some
        &&& self.run_id_reads
        &&& self.task_ids is Some
        &&& forall|i: int|
            0 <= i < self.task_ids->0@.len() ==> #[trigger] self.task_ids->0@[i] is Some
                && lower_hex(self.task_ids->0@[i]->0@, 32)
    }
}

/// The batch that an acknowledgement tells of, where it is complete.
pub fn run_report_from_controller_ack(ack: &Option<RunAck>) -> (result: Result<
    RunReport,
    WorkerError,
>)
    ensures
        match result {
            Ok(report) => {
                &&& ack matches Some(found) && found.complete() && report.run_id@
                    == found.run_id->0@ && report.task_ids@.len() == found.task_ids->0@.len() && (
                forall|i: int|
                    0 <= i < report.task_ids@.len() ==> (#[trigger] report.task_ids@[i]).value
                        == hex_value(utf8(found.task_ids->0@[i]->0@)))
            },
            Err(error) => {
                &&& !(ack is Some && ack->0.complete())
                &&& unavailable_refusal(
                    error,
                    "CONTROLLER_UNAVAILABLE: controller host returned an invalid ACK"@,
                )
            },
        },
{
    let found = match ack {
        Some(found) => found,
        None => {
            return Err(invalid_ack());
        },
    };
    let run_id = match &found.run_id {
        Some(run_id) => run_id.clone(),
        None => {
            return Err(invalid_ack());
        },
    };
    if !found.run_id_reads {
        return Err(invalid_ack());
    }
    let listed = match &found.task_ids {
        Some(listed) => listed,
        None => {
            return Err(invalid_ack());
        },
    };
    let mut task_ids: Vec<TaskId> = Vec::new();
    let mut i: usize = 0;
    while i < listed.len()
        invariant
            i <= listed@.len(),
            ack is Some,
            ack->0 == *found,
            found.run_id is Some,
            found.run_id_reads,
            found.task_ids is Some,
            found.task_ids->0 == *listed,
            task_ids@.len() == i,
            forall|j: int|
                0 <= j < i ==> #[trigger] listed@[j] is Some && lower_hex(listed@[j]->0@, 32),
            forall|j: int|
                0 <= j < i ==> (#[trigger] task_ids@[j]).value == hex_value(utf8(listed@[j]->0@)),
        decreases listed.len() - i,
    {
        match &listed[i] {
            None => {
                assert(listed@[i as int] is None);
                return Err(invalid_ack());
            },
            Some(text) => {
                match TaskId::from_text(text.as_str()) {
                    Ok(id) => {
                        task_ids.push(id);
                    },
                    Err(_) => {
                        assert(!lower_hex(listed@[i as int]->0@, 32));
                        return Err(invalid_ack());
                    },
                }
            },
        }
        i += 1;
    }
    Ok(RunReport { run_id, task_ids })
}

/// A piece of a turn's log, as far as reading on goes.
#[derive(Debug)]
pub struct LogsChunk {
    pub turn_id: JobId,
    pub agent: AgentKind,
    /// Nothing more is there to read now.
    pub exhausted: bool,
    /// Nothing more will come.
    pub complete: bool,
    pub next_offset: u64,
    pub failure: Option<String>,
}

/// How far the reading of a turn's log has come.
#[derive(Debug)]
pub struct LogsFollower {
    pub offset: u64,
    pub turn_id: Option<JobId>,
    pub agent: Option<AgentKind>,
    pub reported_failure: Option<String>,
}

/// A reader's position, mathematically.
pub struct FollowerModel {
    pub offset: u64,
    pub turn_id: Option<JobId>,
    pub agent: Option<AgentKind>,
    pub reported_failure: Option<Seq<char>>,
}

impl View for LogsFollower {
    type V = FollowerModel;

    open spec fn view(&self) -> FollowerModel {
        FollowerModel {
            offset: self.offset,
            turn_id: self.turn_id,
            agent: self.agent,
            reported_failure: opt_text(self.reported_failure),
        }
    }
}

impl FollowerModel {
    /// The chunk is of the turn, and by the agent, that reading began with.
    pub open spec fn fits(self, chunk: LogsChunk) -> bool {
        &&& self.turn_id is Some ==> self.turn_id->0 == chunk.turn_id
        &&& self.agent is Some ==> self.agent->0 == chunk.agent
    }

    pub open spec fn after(self, chunk: LogsChunk, raw: bool) -> FollowerModel {
        FollowerModel {
            offset: chunk.next_offset,
            turn_id: Some(chunk.turn_id),
            agent: Some(chunk.agent),
            reported_failure: if raw {
                self.reported_failure
            } else {
                opt_text(chunk.failure)
            },
        }
    }

    /// The line about a failure that is shown with this chunk.
    pub open spec fn failure_line(self, chunk: LogsChunk, raw: bool) -> Option<Seq<char>> {
        if !raw && opt_text(chunk.failure) != self.reported_failure {
            opt_text(chunk.failure)
        } else {
            None
        }
    }
}

impl LogsChunk {
    /// No further chunk is asked for.
    pub open spec fn last(&self, follow: bool) -> bool {
        self.exhausted && (self.complete || !follow)
    }
}

/// What is done with a chunk.
#[derive(Debug)]
pub struct LogsStep {
    /// The reading ends here.
    pub finished: bool,
    /// A line about a failure that was not shown before.
    pub failure_line: Option<String>,
    /// The next chunk is asked for only after a pause.
    pub pause: bool,
}

impl LogsFollower {
    pub fn new() -> (follower: LogsFollower)
        ensures
            follower@ == (FollowerModel {
                offset: 0,
                turn_id: None,
                agent: None,
                reported_failure: None,
            }),
    {
        LogsFollower { offset: 0, turn_id: None, agent: None, reported_failure: None }
    }

    /// The request for the next chunk.
    pub fn next_request(
        &self,
        task_id: TaskId,
        turn: Option<u32>,
        raw: bool,
        follow: bool,
    ) -> (operation: ControllerOperation)
        ensures
            operation == (ControllerOperation::Logs {
                task_id,
                turn,
                turn_id: self.turn_id,
                offset: self.offset,
                raw,
                follow,
            }),
    {
        ControllerOperation::Logs {
            task_id,
            turn,
            turn_id: self.turn_id,
            offset: self.offset,
            raw,
            follow,
        }
    }

    /// What is done with a chunk; `None` where it is not of the turn, or not by
    /// the agent, that reading began with.
    pub fn observe(&mut self, chunk: &LogsChunk, follow: bool, raw: bool) -> (step: Option<LogsStep>)
        ensures
            step is Some <==> old(self)@.fits(*chunk),
            step is None ==> final(self)@ == old(self)@,
            step is Some ==> final(self)@ == old(self)@.after(*chunk, raw),
            step matches Some(taken) ==> {
                &&& taken.finished == chunk.last(follow)
                &&& opt_text(taken.failure_line) == old(self)@.failure_line(*chunk, raw)
                &&& taken.pause == (follow && chunk.exhausted && !chunk.complete
                    && chunk.next_offset <= old(self).offset)
            },
    {
        if let Some(pinned) = self.turn_id {
            if pinned != chunk.turn_id {
                return None;
            }
        }
        if let Some(expected) = self.agent {
            if expected != chunk.agent {
                return None;
            }
        }
        let finished = chunk.exhausted && (chunk.complete || !follow);
        let mut failure_line: Option<String> = None;
        if !raw {
            if !opt_text_eq(&chunk.failure, &self.reported_failure) {
                failure_line = clone_opt(&chunk.failure);
            }
            self.reported_failure = clone_opt(&chunk.failure);
        }
        let progressed = chunk.next_offset > self.offset;
        self.turn_id = Some(chunk.turn_id);
        self.agent = Some(chunk.agent);
        self.offset = chunk.next_offset;
        let pause = follow && chunk.exhausted && !chunk.complete && !progressed;
        Some(LogsStep { finished, failure_line, pause })
    }
}

/// A log is read from one turn of one agent, however often it is asked for.
pub proof fn one_turn_is_followed(
    follower: FollowerModel,
    first: LogsChunk,
    second: LogsChunk,
    raw: bool,
)
    requires
        follower.fits(first),
        follower.after(first, raw).fits(second),
    ensures
        first.turn_id == second.turn_id,
        first.agent == second.agent,
{
}

/// A failure is shown once while it stays the same.
pub proof fn failures_are_shown_once(follower: FollowerModel, first: LogsChunk, second: LogsChunk)
    requires
        opt_text(first.failure) == opt_text(second.failure),
    ensures
        follower.after(first, false).failure_line(second, false) is None,
{
}

} // verus!
