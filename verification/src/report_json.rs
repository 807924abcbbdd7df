//! The same reports for programs: one JSON object in one line.
//!
//! An object's keys stand in the order of their letters. A part that another
//! module writes is taken as the JSON text that it is.
use vstd::prelude::*;
use vstd::string::*;
use crate::controller::{id_field, id_text, number_text, quoted_text, text_field};
use crate::error::{earliest, WorkerError};
use crate::job::checks::non_nul_fault;
use crate::job::control::JsonEvent;
use crate::job::ids::TaskId;
use crate::job::PROTOCOL_VERSION;
use crate::outside::{hex_number, json_string, json_string_text, uuid_to_simple};
use crate::report::{Freshness, Receipt};
use crate::text::{decimal, decimal_text, join, joined, texts};

verus! {

pub open spec fn json_object(fields: Seq<Seq<char>>) -> Seq<char> {
    "{"@ + join(fields, ","@) + "}"@
}

pub open spec fn json_list(items: Seq<Seq<char>>) -> Seq<char> {
    "["@ + join(items, ","@) + "]"@
}

pub open spec fn version_field() -> Seq<char> {
    "\"protocol_version\":"@ + decimal(PROTOCOL_VERSION as nat)
}

/// The JSON strings of a list of texts.
pub open spec fn quoted_all(items: Seq<Seq<char>>) -> Seq<Seq<char>> {
    items.map_values(|item: Seq<char>| json_string_text(item))
}

/// The JSON strings of a list of identities.
pub open spec fn quoted_ids(ids: Seq<TaskId>) -> Seq<Seq<char>> {
    ids.map_values(|id: TaskId| json_string_text(hex_number(id.value as int, 32)))
}

pub open spec fn opt_number(value: Option<u8>) -> Seq<char> {
    match value {
        Some(number) => decimal(number as nat),
        None => "null"@,
    }
}

/// One field, where there is something to tell.
pub open spec fn field_if(given: bool, field: Seq<char>) -> Seq<Seq<char>> {
    if given {
        seq![field]
    } else {
        seq![]
    }
}

fn object(fields: Vec<String>) -> (text: String)
    ensures
        text@ == json_object(texts(fields@)),
{
    "{".to_owned().concat(joined(&fields, ",").as_str()).concat("}")
}

fn list(items: &Vec<String>) -> (text: String)
    ensures
        text@ == json_list(texts(items@)),
{
    "[".to_owned().concat(joined(items, ",").as_str()).concat("]")
}

fn version_text() -> (field: String)
    ensures
        field@ == version_field(),
{
    number_text("\"protocol_version\":", PROTOCOL_VERSION as u64)
}

fn quote_all(items: &Vec<String>) -> (quoted: Vec<String>)
    ensures
        texts(quoted@) == quoted_all(texts(items@)),
{
    let mut quoted: Vec<String> = Vec::new();
    let mut i: usize = 0;
    while i < items.len()
        invariant
            i <= items@.len(),
            texts(quoted@) == quoted_all(texts(items@)).take(i as int),
        decreases items.len() - i,
    {
        let ghost before = texts(quoted@);
        let item = json_string(items[i].as_str());
        quoted.push(item);
        assert(texts(quoted@) =~= before.push(item@));
        assert(texts(items@)[i as int] == items@[i as int]@);
        assert(texts(quoted@) =~= quoted_all(texts(items@)).take(i + 1));
        i += 1;
    }
    assert(quoted_all(texts(items@)).take(i as int) =~= quoted_all(texts(items@)));
    quoted
}

fn quote_ids(ids: &Vec<TaskId>) -> (quoted: Vec<String>)
    ensures
        texts(quoted@) == quoted_ids(ids@),
{
    let mut quoted: Vec<String> = Vec::new();
    let mut i: usize = 0;
    while i < ids.len()
        invariant
            i <= ids@.len(),
            texts(quoted@) == quoted_ids(ids@).take(i as int),
        decreases ids.len() - i,
    {
        let ghost before = texts(quoted@);
        let item = json_string(uuid_to_simple(ids[i].value).as_str());
        quoted.push(item);
        assert(texts(quoted@) =~= before.push(item@));
        assert(texts(quoted@) =~= quoted_ids(ids@).take(i + 1));
        i += 1;
    }
    assert(quoted_ids(ids@).take(i as int) =~= quoted_ids(ids@));
    quoted
}

fn field_text(key: &str, json: &str) -> (field: String)
    ensures
        field@ == key@ + json@,
{
    key.to_owned().concat(json)
}

fn number_or_null(value: Option<u8>) -> (text: String)
    ensures
        text@ == opt_number(value),
{
    match value {
        Some(number) => decimal_text(number as u64),
        None => "null".to_owned(),
    }
}

pub fn fetch_json(task_id: TaskId, local_ref: &str, head: &str) -> (line: String)
    ensures
        line@ == json_object(
            seq![
                text_field("\"head_oid\":"@, head@),
                text_field("\"local_ref\":"@, local_ref@),
                version_field(),
                id_field("\"task_id\":"@, task_id.value),
            ],
        ),
{
    let fields = vec![
        quoted_text("\"head_oid\":", head),
        quoted_text("\"local_ref\":", local_ref),
        version_text(),
        id_text("\"task_id\":", task_id.value),
    ];
    assert(texts(fields@) =~= seq![fields@[0]@, fields@[1]@, fields@[2]@, fields@[3]@]);
    object(fields)
}

pub fn wait_json(task_ids: &Vec<TaskId>, exit_code: u8) -> (line: String)
    ensures
        line@ == json_object(
            seq![
                "\"exit_code\":"@ + decimal(exit_code as nat),
                version_field(),
                "\"task_ids\":"@ + json_list(quoted_ids(task_ids@)),
            ],
        ),
{
    let fields = vec![
        number_text("\"exit_code\":", exit_code as u64),
        version_text(),
        field_text("\"task_ids\":", list(&quote_ids(task_ids)).as_str()),
    ];
    assert(texts(fields@) =~= seq![fields@[0]@, fields@[1]@, fields@[2]@]);
    object(fields)
}

/// A batch; `exit_code` is there once it was waited for.
pub fn run_json(run_id: &str, task_ids: &Vec<TaskId>, exit_code: Option<u8>) -> (line: String)
    ensures
        line@ == json_object(
            field_if(exit_code is Some, "\"exit_code\":"@ + opt_number(exit_code)) + seq![
                version_field(),
                text_field("\"run_id\":"@, run_id@),
                "\"task_ids\":"@ + json_list(quoted_ids(task_ids@)),
            ],
        ),
{
    let mut fields: Vec<String> = Vec::new();
    if exit_code.is_some() {
        fields.push(field_text("\"exit_code\":", number_or_null(exit_code).as_str()));
    }
    fields.push(version_text());
    fields.push(quoted_text("\"run_id\":", run_id));
    fields.push(field_text("\"task_ids\":", list(&quote_ids(task_ids)).as_str()));
    assert(texts(fields@) =~= field_if(exit_code is Some, "\"exit_code\":"@ + opt_number(exit_code))
        + seq![
        version_field(),
        text_field("\"run_id\":"@, run_id@),
        "\"task_ids\":"@ + json_list(quoted_ids(task_ids@)),
    ]);
    object(fields)
}

/// What a reconciliation by hand came to.
pub fn reconcile_json(replaced: u64, started: u64, repaired: u64, unverifiable: u64) -> (line:
    String)
    ensures
        line@ == json_object(
            seq![
                version_field(),
                "\"repaired_rows\":"@ + decimal(repaired as nat),
                "\"replaced_runners\":"@ + decimal(replaced as nat),
                "\"started_runners\":"@ + decimal(started as nat),
                "\"unverifiable_rows\":"@ + decimal(unverifiable as nat),
            ],
        ),
{
    let fields = vec![
        version_text(),
        number_text("\"repaired_rows\":", repaired),
        number_text("\"replaced_runners\":", replaced),
        number_text("\"started_runners\":", started),
        number_text("\"unverifiable_rows\":", unverifiable),
    ];
    assert(texts(fields@) =~= seq![
        fields@[0]@,
        fields@[1]@,
        fields@[2]@,
        fields@[3]@,
        fields@[4]@,
    ]);
    object(fields)
}

/// A task that a controller took; an identity that it did not give is empty.
pub fn queued_json(task_id: &str, turn_id: &str, request_id: &str, status: &str) -> (line: String)
    ensures
        line@ == json_object(
            seq![
                version_field(),
                text_field("\"request_id\":"@, request_id@),
                text_field("\"status\":"@, status@),
                text_field("\"task_id\":"@, task_id@),
                text_field("\"turn_id\":"@, turn_id@),
            ],
        ),
{
    let fields = vec![
        version_text(),
        quoted_text("\"request_id\":", request_id),
        quoted_text("\"status\":", status),
        quoted_text("\"task_id\":", task_id),
        quoted_text("\"turn_id\":", turn_id),
    ];
    assert(texts(fields@) =~= seq![
        fields@[0]@,
        fields@[1]@,
        fields@[2]@,
        fields@[3]@,
        fields@[4]@,
    ]);
    object(fields)
}

/// What trying deliveries again came to; each delivery is JSON.
pub fn publish_retry_json(task_id: TaskId, deliveries: &Vec<String>) -> (line: String)
    ensures
        line@ == json_object(
            seq![
                "\"deliveries\":"@ + json_list(texts(deliveries@)),
                version_field(),
                id_field("\"task_id\":"@, task_id.value),
            ],
        ),
{
    let fields = vec![
        field_text("\"deliveries\":", list(deliveries).as_str()),
        version_text(),
        id_text("\"task_id\":", task_id.value),
    ];
    assert(texts(fields@) =~= seq![fields@[0]@, fields@[1]@, fields@[2]@]);
    object(fields)
}

/// What is told of a failed operation's stage.
pub open spec fn stage_field(receipt: Option<Receipt>) -> Seq<Seq<char>> {
    match receipt {
        Some(held) => seq![text_field("\"stage\":"@, held.stage@)],
        None => seq![],
    }
}

/// What is told of what a failed operation left behind.
pub open spec fn residual_field(receipt: Option<Receipt>) -> Seq<Seq<char>> {
    match receipt {
        Some(held) => seq!["\"residual\":"@ + json_list(quoted_all(texts(held.residual@)))],
        None => seq![],
    }
}

/// Only what may be out of date is marked.
pub open spec fn freshness_fields(freshness: Freshness) -> Seq<Seq<char>> {
    match freshness {
        Freshness::Fresh => seq![],
        Freshness::Stale { observed_at_millis } => seq![
            text_field("\"freshness\":"@, "stale"@),
        ] + (match observed_at_millis {
            Some(millis) => seq!["\"observed_at_millis\":"@ + decimal(millis as nat)],
            None => seq![],
        }),
    }
}

fn push_field(fields: &mut Vec<String>, field: String)
    ensures
        texts(final(fields)@) == texts(old(fields)@).push(field@),
{
    let ghost before = texts(fields@);
    fields.push(field);
    assert(texts(fields@) =~= before.push(field@));
}

fn push_freshness(fields: &mut Vec<String>, freshness: Freshness)
    ensures
        texts(final(fields)@) == texts(old(fields)@) + freshness_fields(freshness),
{
    let ghost before = texts(fields@);
    if let Freshness::Stale { observed_at_millis } = freshness {
        push_field(fields, quoted_text("\"freshness\":", "stale"));
        if let Some(millis) = observed_at_millis {
            push_field(fields, number_text("\"observed_at_millis\":", millis));
        }
    }
    assert(texts(fields@) =~= before + freshness_fields(freshness));
}

fn push_residual(fields: &mut Vec<String>, receipt: &Option<Receipt>)
    ensures
        texts(final(fields)@) == texts(old(fields)@) + residual_field(*receipt),
{
    let ghost before = texts(fields@);
    if let Some(held) = receipt {
        push_field(
            fields,
            field_text("\"residual\":", list(&quote_all(&held.residual)).as_str()),
        );
    }
    assert(texts(fields@) =~= before + residual_field(*receipt));
}

fn push_stage(fields: &mut Vec<String>, receipt: &Option<Receipt>)
    ensures
        texts(final(fields)@) == texts(old(fields)@) + stage_field(*receipt),
{
    let ghost before = texts(fields@);
    if let Some(held) = receipt {
        push_field(fields, quoted_text("\"stage\":", held.stage.as_str()));
    }
    assert(texts(fields@) =~= before + stage_field(*receipt));
}

fn push_deliveries(fields: &mut Vec<String>, deliveries: &Vec<String>, last: &Option<String>)
    ensures
        texts(final(fields)@) == texts(old(fields)@) + delivery_fields(texts(deliveries@), *last),
{
    let ghost before = texts(fields@);
    assert(texts(deliveries@).len() == deliveries@.len());
    if deliveries.len() > 0 {
        push_field(fields, field_text("\"deliveries\":", list(deliveries).as_str()));
    }
    if let Some(json) = last {
        push_field(fields, field_text("\"delivery\":", json.as_str()));
    }
    assert(texts(fields@) =~= before + delivery_fields(texts(deliveries@), *last));
}

/// The deliveries, where there are any, and the last one, where there is one.
pub open spec fn delivery_fields(deliveries: Seq<Seq<char>>, last: Option<String>) -> Seq<
    Seq<char>,
> {
    field_if(deliveries.len() > 0, "\"deliveries\":"@ + json_list(deliveries)) + (match last {
        Some(json) => seq!["\"delivery\":"@ + json@],
        None => seq![],
    })
}

/// A report on one task. `status`, `runner`, `events` and the deliveries are
/// JSON.
#[derive(Debug)]
pub struct TaskReportParts {
    pub task_id: TaskId,
    pub run_id: Option<String>,
    pub status: String,
    pub runner: String,
    pub events: String,
    pub exit_code: Option<u8>,
    pub warnings: Vec<String>,
    pub delivery: Option<String>,
    pub deliveries: Vec<String>,
    pub freshness: Freshness,
    pub receipt: Option<Receipt>,
}

impl TaskReportParts {
    pub open spec fn run_text(&self) -> Seq<char> {
        match self.run_id {
            Some(id) => json_string_text(id@),
            None => "null"@,
        }
    }

    /// The fields up to the protocol's version.
    pub open spec fn first_fields(&self) -> Seq<Seq<char>> {
        delivery_fields(texts(self.deliveries@), self.delivery) + seq![
            "\"events\":"@ + self.events@,
            "\"exit_code\":"@ + opt_number(self.exit_code),
        ] + freshness_fields(self.freshness) + seq![version_field()]
    }

    /// The other fields.
    pub open spec fn last_fields(&self) -> Seq<Seq<char>> {
        residual_field(self.receipt) + seq![
            "\"run_id\":"@ + self.run_text(),
            "\"runner\":"@ + self.runner@,
        ] + stage_field(self.receipt) + seq![
            "\"status\":"@ + self.status@,
            id_field("\"task_id\":"@, self.task_id.value),
        ] + field_if(
            self.warnings@.len() > 0,
            "\"warnings\":"@ + json_list(quoted_all(texts(self.warnings@))),
        )
    }

    fn push_first(&self, fields: &mut Vec<String>)
        ensures
            texts(final(fields)@) == texts(old(fields)@) + self.first_fields(),
    {
        let ghost before = texts(fields@);
        push_deliveries(fields, &self.deliveries, &self.delivery);
        push_field(fields, field_text("\"events\":", self.events.as_str()));
        push_field(fields, field_text("\"exit_code\":", number_or_null(self.exit_code).as_str()));
        push_freshness(fields, self.freshness);
        push_field(fields, version_text());
        assert(texts(fields@) =~= before + self.first_fields());
    }

    fn push_last(&self, fields: &mut Vec<String>)
        ensures
            texts(final(fields)@) == texts(old(fields)@) + self.last_fields(),
    {
        let ghost before = texts(fields@);
        push_residual(fields, &self.receipt);
        let run_id = match &self.run_id {
            Some(id) => json_string(id.as_str()),
            None => "null".to_owned(),
        };
        push_field(fields, field_text("\"run_id\":", run_id.as_str()));
        push_field(fields, field_text("\"runner\":", self.runner.as_str()));
        push_stage(fields, &self.receipt);
        push_field(fields, field_text("\"status\":", self.status.as_str()));
        push_field(fields, id_text("\"task_id\":", self.task_id.value));
        if self.warnings.len() > 0 {
            push_field(
                fields,
                field_text("\"warnings\":", list(&quote_all(&self.warnings)).as_str()),
            );
        }
        assert(texts(fields@) =~= before + self.last_fields());
    }

    pub fn json(&self) -> (line: String)
        ensures
            line@ == json_object(self.first_fields() + self.last_fields()),
    {
        let mut fields: Vec<String> = Vec::new();
        assert(texts(fields@) =~= seq![]);
        self.push_first(&mut fields);
        self.push_last(&mut fields);
        assert(texts(fields@) =~= self.first_fields() + self.last_fields());
        object(fields)
    }
}

/// A report on a task's result. `status` and the deliveries are JSON.
#[derive(Debug)]
pub struct TaskResultParts {
    pub task_id: TaskId,
    pub status: String,
    pub branch: String,
    pub fetch_instruction: String,
    pub delivery: Option<String>,
    pub deliveries: Vec<String>,
    pub freshness: Freshness,
    pub receipt: Option<Receipt>,
}

impl TaskResultParts {
    /// The fields up to the protocol's version.
    pub open spec fn first_fields(&self) -> Seq<Seq<char>> {
        seq![text_field("\"branch\":"@, self.branch@)] + delivery_fields(
            texts(self.deliveries@),
            self.delivery,
        ) + seq![text_field("\"fetch\":"@, self.fetch_instruction@)] + freshness_fields(
            self.freshness,
        ) + seq![version_field()]
    }

    /// The other fields.
    pub open spec fn last_fields(&self) -> Seq<Seq<char>> {
        residual_field(self.receipt) + stage_field(self.receipt) + seq![
            "\"status\":"@ + self.status@,
            id_field("\"task_id\":"@, self.task_id.value),
        ]
    }

    fn push_first(&self, fields: &mut Vec<String>)
        ensures
            texts(final(fields)@) == texts(old(fields)@) + self.first_fields(),
    {
        let ghost before = texts(fields@);
        push_field(fields, quoted_text("\"branch\":", self.branch.as_str()));
        push_deliveries(fields, &self.deliveries, &self.delivery);
        push_field(fields, quoted_text("\"fetch\":", self.fetch_instruction.as_str()));
        push_freshness(fields, self.freshness);
        push_field(fields, version_text());
        assert(texts(fields@) =~= before + self.first_fields());
    }

    fn push_last(&self, fields: &mut Vec<String>)
        ensures
            texts(final(fields)@) == texts(old(fields)@) + self.last_fields(),
    {
        let ghost before = texts(fields@);
        push_residual(fields, &self.receipt);
        push_stage(fields, &self.receipt);
        push_field(fields, field_text("\"status\":", self.status.as_str()));
        push_field(fields, id_text("\"task_id\":", self.task_id.value));
        assert(texts(fields@) =~= before + self.last_fields());
    }

    pub fn json(&self) -> (line: String)
        ensures
            line@ == json_object(self.first_fields() + self.last_fields()),
    {
        let mut fields: Vec<String> = Vec::new();
        assert(texts(fields@) =~= seq![]);
        self.push_first(&mut fields);
        self.push_last(&mut fields);
        assert(texts(fields@) =~= self.first_fields() + self.last_fields());
        object(fields)
    }
}

/// One worker of a refresh report: its health, and behind it how its refresh
/// ended where there is one.
pub open spec fn refreshed_worker(health: Seq<char>, refresh: Option<Seq<char>>) -> Seq<char> {
    match refresh {
        Some(outcome) => "{"@ + health + ",\"refresh\":"@ + outcome + "}"@,
        None => "{"@ + health + "}"@,
    }
}

/// Every worker in turn, each with the refresh of its own place in the list.
pub open spec fn refreshed_workers(
    health: Seq<Seq<char>>,
    refresh: Seq<Seq<char>>,
) -> Seq<Seq<char>> {
    Seq::new(
        health.len(),
        |i: int|
            refreshed_worker(
                health[i],
                if i < refresh.len() {
                    Some(refresh[i])
                } else {
                    None
                },
            ),
    )
}

/// The report on refreshed workers. `health` holds the members of each worker's
/// health object, without its braces; `refresh` holds an outcome for each worker
/// that was refreshed.
pub fn render_workers_refresh_json(
    protocol_version: u32,
    health: &Vec<String>,
    refresh: &Vec<String>,
) -> (line: String)
    ensures
        line@ == "{\"kind\":\"workers\",\"protocol_version\":"@ + decimal(
            protocol_version as nat,
        ) + ",\"workers\":"@ + json_list(refreshed_workers(texts(health@), texts(refresh@)))
            + "}"@,
{
    let ghost all = refreshed_workers(texts(health@), texts(refresh@));
    let mut workers: Vec<String> = Vec::new();
    let mut i: usize = 0;
    while i < health.len()
        invariant
            i <= health@.len(),
            all == refreshed_workers(texts(health@), texts(refresh@)),
            texts(workers@) == all.take(i as int),
        decreases health.len() - i,
    {
        let ghost before = texts(workers@);
        let opened = "{".to_owned().concat(health[i].as_str());
        let worker = if i < refresh.len() {
            opened.concat(",\"refresh\":").concat(refresh[i].as_str()).concat("}")
        } else {
            opened.concat("}")
        };
        assert(worker@ =~= all[i as int]);
        workers.push(worker);
        assert(texts(workers@) =~= before.push(worker@));
        assert(texts(workers@) =~= all.take(i + 1));
        i += 1;
    }
    assert(all.take(i as int) =~= all);
    number_text("{\"kind\":\"workers\",\"protocol_version\":", protocol_version as u64).concat(
        ",\"workers\":",
    ).concat(list(&workers).as_str()).concat("}")
}

/// The fields of an error event.
pub open spec fn error_event_fields(code: Seq<char>, message: Seq<char>) -> Seq<Seq<char>> {
    seq![
        "\"event\":\"error\""@,
        version_field(),
        text_field("\"code\":"@, code),
        text_field("\"message\":"@, message),
    ]
}

/// The last line of a command that failed, for programs. A code or a text that no
/// event can hold is an error of the output.
pub fn error_event_line(code: &str, message: &str) -> (result: Result<String, WorkerError>)
    ensures
        match earliest(
            non_nul_fault(code@, 128, "error code"@),
            non_nul_fault(message@, 4096, "error message"@),
        ) {
            None => result matches Ok(line) && line@ == json_object(
                error_event_fields(code@, message@),
            ) + "\n"@,
            Some(_) => result == Err::<String, WorkerError>(WorkerError::Io),
        },
{
    let event = JsonEvent::error(code.to_owned(), message.to_owned());
    if event.validate().is_err() {
        return Err(WorkerError::Io);
    }
    let mut fields: Vec<String> = Vec::new();
    fields.push("\"event\":\"error\"".to_owned());
    fields.push(version_text());
    fields.push(quoted_text("\"code\":", code));
    fields.push(quoted_text("\"message\":", message));
    assert(texts(fields@) =~= error_event_fields(code@, message@));
    Ok(object(fields).concat("\n"))
}

} // verus!
