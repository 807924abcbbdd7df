//! The lines that commands show to people.
use vstd::prelude::*;
use vstd::string::*;
use crate::error::WorkerError;
use crate::job::ids::{JobId, TaskId};
use crate::outside::{hex_number, uuid_to_simple};
use crate::task::TaskState;
use crate::task_options::task_state_name;
use crate::text::{decimal, decimal_text, join, joined, opt_text, texts};
use crate::words::{contains_text, holds_text};

verus! {

/// An identifier as it is shown.
pub open spec fn shown(value: u128) -> Seq<char> {
    hex_number(value as int, 32)
}

/// The worker's name, or a word for none.
pub open spec fn worker_text(worker: Option<String>) -> Seq<char> {
    match worker {
        Some(name) => name@,
        None => "unassigned"@,
    }
}

fn worker_name<'a>(worker: &'a Option<String>) -> (name: &'a str)
    ensures
        name@ == worker_text(*worker),
{
    match worker {
        Some(name) => name.as_str(),
        None => "unassigned",
    }
}

/// Each text with a prefix.
pub open spec fn prefixed(prefix: Seq<char>, items: Seq<Seq<char>>) -> Seq<Seq<char>> {
    items.map_values(|item: Seq<char>| prefix + item)
}

proof fn one_more(base: Seq<Seq<char>>, all: Seq<Seq<char>>, count: int)
    requires
        0 <= count < all.len(),
    ensures
        (base + all.take(count)).push(all[count]) == base + all.take(count + 1),
        all.take(count).push(all[count]) == all.take(count + 1),
{
    assert(all.take(count).push(all[count]) =~= all.take(count + 1));
    assert((base + all.take(count)).push(all[count]) =~= base + all.take(count + 1));
}

fn push_line(lines: &mut Vec<String>, line: String)
    ensures
        texts(final(lines)@) == texts(old(lines)@).push(line@),
{
    let ghost before = texts(lines@);
    lines.push(line);
    assert(texts(lines@) =~= before.push(line@));
}

fn push_prefixed(lines: &mut Vec<String>, prefix: &str, items: &Vec<String>)
    ensures
        texts(final(lines)@) == texts(old(lines)@) + prefixed(prefix@, texts(items@)),
{
    let ghost before = texts(lines@);
    let mut i: usize = 0;
    while i < items.len()
        invariant
            i <= items@.len(),
            texts(lines@) == before + prefixed(prefix@, texts(items@)).take(i as int),
        decreases items.len() - i,
    {
        push_line(lines, prefix.to_owned().concat(items[i].as_str()));
        proof {
            one_more(before, prefixed(prefix@, texts(items@)), i as int);
        }
        i += 1;
    }
    assert(prefixed(prefix@, texts(items@)).take(i as int) =~= prefixed(prefix@, texts(items@)));
}

/// What a failed operation left behind.
#[derive(Debug)]
pub struct Receipt {
    pub stage: String,
    pub residual: Vec<String>,
}

impl Receipt {
    pub open spec fn text(&self) -> Seq<char> {
        "receipt: stage="@ + self.stage@ + " residual="@ + join(texts(self.residual@), ","@)
    }

    pub fn line(&self) -> (line: String)
        ensures
            line@ == self.text(),
    {
        "receipt: stage=".to_owned().concat(self.stage.as_str()).concat(" residual=").concat(
            joined(&self.residual, ",").as_str(),
        )
    }
}

/// How old what a report shows may be.
#[derive(Debug, Clone, Copy, PartialEq, Eq, Structural)]
pub enum Freshness {
    Fresh,
    /// The worker could not be asked; `observed_at_millis` is when it last was.
    Stale { observed_at_millis: Option<u64> },
}

/// What is appended to the line of a delivery that may be out of date.
pub open spec fn staleness(freshness: Freshness) -> Seq<char> {
    match freshness {
        Freshness::Fresh => ""@,
        Freshness::Stale { observed_at_millis } => match observed_at_millis {
            Some(millis) => " observed="@ + decimal(millis as nat),
            None => " stale"@,
        },
    }
}

/// The line of a delivery, with a word on how old it is.
pub fn delivery_line(line: &str, freshness: Freshness) -> (shown: String)
    ensures
        shown@ == line@ + staleness(freshness),
{
    match freshness {
        Freshness::Fresh => line.to_owned().concat(""),
        Freshness::Stale { observed_at_millis } => {
            match observed_at_millis {
                Some(millis) => {
                    let suffix = " observed=".to_owned().concat(decimal_text(millis).as_str());
                    line.to_owned().concat(suffix.as_str())
                },
                None => line.to_owned().concat(" stale"),
            }
        },
    }
}

/// What a report on one task shows.
#[derive(Debug)]
pub struct TaskReport {
    pub task_id: TaskId,
    pub state: TaskState,
    pub worker: Option<String>,
    pub warnings: Vec<String>,
    /// One line for each delivery.
    pub deliveries: Vec<String>,
    pub freshness: Freshness,
    pub receipt: Option<Receipt>,
}

pub open spec fn receipt_lines(receipt: Option<Receipt>) -> Seq<Seq<char>> {
    match receipt {
        Some(held) => seq![held.text()],
        None => seq![],
    }
}

impl TaskReport {
    pub open spec fn head(&self) -> Seq<char> {
        "task "@ + shown(self.task_id.value) + ": "@ + self.state.spelling() + " ("@ + worker_text(
            self.worker,
        ) + ")"@
    }

    pub open spec fn shown_lines(&self) -> Seq<Seq<char>> {
        seq![self.head()] + prefixed("warning: "@, texts(self.warnings@)) + texts(
            self.deliveries@,
        ).map_values(|line: Seq<char>| line + staleness(self.freshness)) + receipt_lines(
            self.receipt,
        )
    }

    pub fn lines(&self) -> (lines: Vec<String>)
        ensures
            texts(lines@) == self.shown_lines(),
    {
        let mut lines: Vec<String> = Vec::new();
        lines.push(
            "task ".to_owned().concat(uuid_to_simple(self.task_id.value).as_str()).concat(
                ": ",
            ).concat(task_state_name(self.state)).concat(" (").concat(
                worker_name(&self.worker),
            ).concat(")"),
        );
        assert(texts(lines@) =~= seq![self.head()]);
        push_prefixed(&mut lines, "warning: ", &self.warnings);
        let ghost before = texts(lines@);
        let ghost aged = texts(self.deliveries@).map_values(
            |line: Seq<char>| line + staleness(self.freshness),
        );
        let mut i: usize = 0;
        while i < self.deliveries.len()
            invariant
                i <= self.deliveries@.len(),
                aged == texts(self.deliveries@).map_values(
                    |line: Seq<char>| line + staleness(self.freshness),
                ),
                texts(lines@) == before + aged.take(i as int),
            decreases self.deliveries.len() - i,
        {
            push_line(&mut lines, delivery_line(self.deliveries[i].as_str(), self.freshness));
            proof {
                one_more(before, aged, i as int);
            }
            i += 1;
        }
        assert(aged.take(i as int) =~= aged);
        if let Some(receipt) = &self.receipt {
            lines.push(receipt.line());
        }
        assert(texts(lines@) =~= self.shown_lines());
        lines
    }
}

/// A push of a turn's result to the origin.
#[derive(Debug)]
pub struct Delivery {
    pub state: String,
    pub turn_id: JobId,
    pub attempt: u32,
    pub oid: String,
}

impl Delivery {
    pub open spec fn text(&self) -> Seq<char> {
        "delivery: "@ + self.state@ + " turn="@ + shown(self.turn_id.value) + " attempt="@
            + decimal(self.attempt as nat) + " "@ + self.oid@
    }

    fn line(&self) -> (line: String)
        ensures
            line@ == self.text(),
    {
        "delivery: ".to_owned().concat(self.state.as_str()).concat(" turn=").concat(
            uuid_to_simple(self.turn_id.value).as_str(),
        ).concat(" attempt=").concat(decimal_text(self.attempt as u64).as_str()).concat(" ").concat(
            self.oid.as_str(),
        )
    }
}

/// What trying deliveries again shows.
pub fn publish_retry_lines(task_id: TaskId, deliveries: &Vec<Delivery>) -> (lines: Vec<String>)
    ensures
        texts(lines@) == if deliveries@.len() == 0 {
            seq!["task "@ + shown(task_id.value) + ": no origin deliveries"@]
        } else {
            deliveries@.map_values(|delivery: Delivery| delivery.text())
        },
{
    let mut lines: Vec<String> = Vec::new();
    if deliveries.len() == 0 {
        lines.push(
            "task ".to_owned().concat(uuid_to_simple(task_id.value).as_str()).concat(
                ": no origin deliveries",
            ),
        );
        assert(texts(lines@) =~= seq!["task "@ + shown(task_id.value) + ": no origin deliveries"@]);
        return lines;
    }
    let ghost all = deliveries@.map_values(|delivery: Delivery| delivery.text());
    let mut i: usize = 0;
    while i < deliveries.len()
        invariant
            i <= deliveries@.len(),
            all == deliveries@.map_values(|delivery: Delivery| delivery.text()),
            texts(lines@) == all.take(i as int),
        decreases deliveries.len() - i,
    {
        push_line(&mut lines, deliveries[i].line());
        proof {
            one_more(Seq::empty(), all, i as int);
        }
        i += 1;
    }
    assert(all.take(i as int) =~= all);
    lines
}

/// What stands for a failed host file operation in a list.
pub open spec fn host_io_blocking(
    code: Seq<char>,
    stage: Option<Seq<char>>,
    residual: Option<Seq<Seq<char>>>,
) -> Seq<char> {
    match stage {
        None => code,
        Some(name) => code + " (stage="@ + name + ", residual="@ + (match residual {
            Some(items) => join(items, ","@),
            None => ""@,
        }) + ")"@,
    }
}

pub open spec fn opt_texts(items: Option<Vec<String>>) -> Option<Seq<Seq<char>>> {
    match items {
        Some(list) => Some(texts(list@)),
        None => None,
    }
}

pub fn format_host_io_blocking(
    code: &str,
    stage: &Option<String>,
    residual: &Option<Vec<String>>,
) -> (text: String)
    ensures
        text@ == host_io_blocking(code@, opt_text(*stage), opt_texts(*residual)),
{
    match stage {
        None => code.to_owned(),
        Some(name) => {
            let listed = match residual {
                Some(items) => joined(items, ","),
                None => "".to_owned(),
            };
            code.to_owned().concat(" (stage=").concat(name.as_str()).concat(", residual=").concat(
                listed.as_str(),
            ).concat(")")
        },
    }
}

/// A task in a list.
#[derive(Debug)]
pub struct ListedTask {
    pub task_id: TaskId,
    pub state: TaskState,
    pub worker: Option<String>,
    pub blocking_code: Option<String>,
    pub stage: Option<String>,
    pub residual: Option<Vec<String>>,
    /// What is said of the task's pushes.
    pub push_suffix: Option<String>,
}

impl ListedTask {
    pub open spec fn suffix(&self) -> Seq<char> {
        match self.push_suffix {
            Some(text) => text@,
            None => ""@,
        }
    }

    /// What keeps the task from going on.
    pub open spec fn blocking(&self) -> Seq<char> {
        if holds_text(self.blocking_code->0@, "HOST_IO"@) && self.stage is Some {
            host_io_blocking(
                self.blocking_code->0@,
                opt_text(self.stage),
                opt_texts(self.residual),
            )
        } else {
            self.blocking_code->0@
        }
    }

    pub open spec fn text(&self) -> Seq<char> {
        shown(self.task_id.value) + ": "@ + self.state.spelling() + " ("@ + worker_text(self.worker)
            + ")"@ + (match self.blocking_code {
            Some(_) => " blocking: "@ + self.blocking(),
            None => ""@,
        }) + self.suffix()
    }

    pub fn line(&self) -> (line: String)
        ensures
            line@ == self.text(),
    {
        let head = uuid_to_simple(self.task_id.value).concat(": ").concat(
            task_state_name(self.state),
        ).concat(" (").concat(worker_name(&self.worker)).concat(")");
        let suffix = match &self.push_suffix {
            Some(text) => text.as_str(),
            None => "",
        };
        match &self.blocking_code {
            Some(code) => {
                let blocking = if contains_text(code.as_str(), "HOST_IO") && self.stage.is_some() {
                    format_host_io_blocking(code.as_str(), &self.stage, &self.residual)
                } else {
                    code.clone()
                };
                let reason = " blocking: ".to_owned().concat(blocking.as_str());
                head.concat(reason.as_str()).concat(suffix)
            },
            None => head.concat("").concat(suffix),
        }
    }
}

/// A question that an agent asks, with the answers that it will accept.
#[derive(Debug)]
pub struct Question {
    pub text: String,
    pub options: Vec<String>,
}

impl Question {
    pub open spec fn shown_text(&self) -> Seq<char> {
        if self.options@.len() == 0 {
            self.text@
        } else {
            self.text@ + " ["@ + join(texts(self.options@), " | "@) + "]"@
        }
    }
}

/// The questions in one line, each with the answers that the agent will accept.
pub fn render_questions(questions: &Vec<Question>) -> (text: String)
    ensures
        text@ == join(
            questions@.map_values(|question: Question| question.shown_text()),
            "; "@,
        ),
{
    let ghost all = questions@.map_values(|question: Question| question.shown_text());
    let mut shown: Vec<String> = Vec::new();
    let mut i: usize = 0;
    while i < questions.len()
        invariant
            i <= questions@.len(),
            all == questions@.map_values(|question: Question| question.shown_text()),
            texts(shown@) == all.take(i as int),
        decreases questions.len() - i,
    {
        let question = &questions[i];
        if question.options.len() == 0 {
            push_line(&mut shown, question.text.clone());
        } else {
            push_line(
                &mut shown,
                question.text.as_str().to_owned().concat(" [").concat(
                    joined(&question.options, " | ").as_str(),
                ).concat("]"),
            );
        }
        proof {
            one_more(Seq::empty(), all, i as int);
        }
        i += 1;
    }
    assert(all.take(i as int) =~= all);
    joined(&shown, "; ")
}

/// What a report on a task's result shows.
#[derive(Debug)]
pub struct TaskResultReport {
    pub task_id: TaskId,
    pub state: TaskState,
    pub summary: Option<String>,
    pub questions: Vec<Question>,
    pub files_changed: Vec<String>,
    pub branch: String,
    pub fetch_instruction: String,
    /// The line of the last delivery.
    pub last_delivery: Option<String>,
    pub freshness: Freshness,
    pub receipt: Option<Receipt>,
}

impl TaskResultReport {
    pub open spec fn shown_lines(&self) -> Seq<Seq<char>> {
        seq!["task "@ + shown(self.task_id.value) + ": "@ + self.state.spelling()] + (
        match self.summary {
            Some(summary) => seq!["summary: "@ + summary@],
            None => seq![],
        }) + (if self.questions@.len() > 0 {
            seq![
                "questions: "@ + join(
                    self.questions@.map_values(|question: Question| question.shown_text()),
                    "; "@,
                ),
            ]
        } else {
            seq![]
        }) + (if self.files_changed@.len() > 0 {
            seq!["files: "@ + join(texts(self.files_changed@), ", "@)]
        } else {
            seq![]
        }) + seq!["branch: "@ + self.branch@, "fetch: "@ + self.fetch_instruction@] + (
        match self.last_delivery {
            Some(line) => seq![line@ + staleness(self.freshness)],
            None => seq![],
        }) + receipt_lines(self.receipt)
    }

    pub fn lines(&self) -> (lines: Vec<String>)
        ensures
            texts(lines@) == self.shown_lines(),
    {
        let mut lines: Vec<String> = Vec::new();
        lines.push(
            "task ".to_owned().concat(uuid_to_simple(self.task_id.value).as_str()).concat(
                ": ",
            ).concat(task_state_name(self.state)),
        );
        if let Some(summary) = &self.summary {
            lines.push("summary: ".to_owned().concat(summary.as_str()));
        }
        if self.questions.len() > 0 {
            lines.push("questions: ".to_owned().concat(render_questions(&self.questions).as_str()));
        }
        if self.files_changed.len() > 0 {
            lines.push("files: ".to_owned().concat(joined(&self.files_changed, ", ").as_str()));
        }
        lines.push("branch: ".to_owned().concat(self.branch.as_str()));
        lines.push("fetch: ".to_owned().concat(self.fetch_instruction.as_str()));
        if let Some(line) = &self.last_delivery {
            lines.push(delivery_line(line.as_str(), self.freshness));
        }
        if let Some(receipt) = &self.receipt {
            lines.push(receipt.line());
        }
        assert(texts(lines@) =~= self.shown_lines());
        lines
    }
}

/// Where a task's result was fetched to.
pub fn fetch_line(task_id: TaskId, local_ref: &str, head: &str) -> (line: String)
    ensures
        line@ == shown(task_id.value) + " -> "@ + local_ref@ + " ("@ + head@ + ")"@,
{
    uuid_to_simple(task_id.value).concat(" -> ").concat(local_ref).concat(" (").concat(
        head,
    ).concat(")")
}

pub fn wait_line(exit_code: u8) -> (line: String)
    ensures
        line@ == "wait complete (exit "@ + decimal(exit_code as nat) + ")"@,
{
    "wait complete (exit ".to_owned().concat(decimal_text(exit_code as u64).as_str()).concat(")")
}

/// A batch and its tasks.
pub fn run_lines(run_id: &str, task_ids: &Vec<TaskId>) -> (lines: Vec<String>)
    ensures
        texts(lines@) == seq!["run "@ + run_id@] + task_ids@.map_values(
            |id: TaskId| "  task "@ + shown(id.value),
        ),
{
    let ghost listed = task_ids@.map_values(|id: TaskId| "  task "@ + shown(id.value));
    let mut lines: Vec<String> = Vec::new();
    lines.push("run ".to_owned().concat(run_id));
    let mut i: usize = 0;
    while i < task_ids.len()
        invariant
            i <= task_ids@.len(),
            listed == task_ids@.map_values(|id: TaskId| "  task "@ + shown(id.value)),
            texts(lines@) == seq!["run "@ + run_id@] + listed.take(i as int),
        decreases task_ids.len() - i,
    {
        push_line(&mut lines, "  task ".to_owned().concat(uuid_to_simple(task_ids[i].value).as_str()));
        proof {
            one_more(seq!["run "@ + run_id@], listed, i as int);
        }
        i += 1;
    }
    assert(listed.take(i as int) =~= listed);
    lines
}

/// What a reconciliation by hand came to.
pub fn reconcile_line(replaced: u64, started: u64, repaired: u64, unverifiable: u64) -> (line: String)
    ensures
        line@ == "runners: "@ + decimal(replaced as nat) + " replaced, "@ + decimal(started as nat)
            + " started; task rows: "@ + decimal(repaired as nat) + " repaired, "@ + decimal(
            unverifiable as nat,
        ) + " unverifiable"@,
{
    "runners: ".to_owned().concat(decimal_text(replaced).as_str()).concat(" replaced, ").concat(
        decimal_text(started).as_str(),
    ).concat(" started; task rows: ").concat(decimal_text(repaired).as_str()).concat(
        " repaired, ",
    ).concat(decimal_text(unverifiable).as_str()).concat(" unverifiable")
}

/// A task that a controller took.
pub fn queued_line(task_id: &str) -> (line: String)
    ensures
        line@ == "task "@ + task_id@ + ": queued (controller)"@,
{
    "task ".to_owned().concat(task_id).concat(": queued (controller)")
}

/// Something that the preview of a batch found.
#[derive(Debug)]
pub struct PreviewIssue {
    pub severity: String,
    pub kind: String,
    pub message: String,
}

impl PreviewIssue {
    pub open spec fn text(&self) -> Seq<char> {
        self.severity@ + " "@ + self.kind@ + ": "@ + self.message@
    }
}

/// The preview of a batch.
#[derive(Debug)]
pub struct BatchPreview {
    pub tasks: u64,
    pub order: String,
    pub setup_present: bool,
    pub issues: Vec<PreviewIssue>,
}

impl BatchPreview {
    pub open spec fn shown_lines(&self) -> Seq<Seq<char>> {
        seq!["batch preview: "@ + decimal(self.tasks as nat) + " tasks"@, self.order@] + (
        if self.setup_present {
            seq!["setup recipe present"@]
        } else {
            seq![]
        }) + self.issues@.map_values(|issue: PreviewIssue| issue.text())
    }

    pub fn lines(&self) -> (lines: Vec<String>)
        ensures
            texts(lines@) == self.shown_lines(),
    {
        let mut lines: Vec<String> = Vec::new();
        lines.push(
            "batch preview: ".to_owned().concat(decimal_text(self.tasks).as_str()).concat(" tasks"),
        );
        lines.push(self.order.clone());
        if self.setup_present {
            lines.push("setup recipe present".to_owned());
        }
        let ghost before = texts(lines@);
        let ghost found = self.issues@.map_values(|issue: PreviewIssue| issue.text());
        let mut i: usize = 0;
        while i < self.issues.len()
            invariant
                i <= self.issues@.len(),
                found == self.issues@.map_values(|issue: PreviewIssue| issue.text()),
                texts(lines@) == before + found.take(i as int),
            decreases self.issues.len() - i,
        {
            let issue = &self.issues[i];
            push_line(
                &mut lines,
                issue.severity.as_str().to_owned().concat(" ").concat(issue.kind.as_str()).concat(
                    ": ",
                ).concat(issue.message.as_str()),
            );
            proof {
                one_more(before, found, i as int);
            }
            i += 1;
        }
        assert(found.take(i as int) =~= found);
        assert(texts(lines@) =~= self.shown_lines());
        lines
    }
}

/// Whether a worker's facts were refreshed.
#[derive(Debug, PartialEq, Eq)]
pub struct WorkerRefreshOutcome {
    pub ok: bool,
    pub error_code: Option<String>,
    pub error_message: Option<String>,
}

/// A failed refresh: a transport error by its own code and text, any other by
/// the code and text that are shown for it.
pub fn refresh_failure(error: &WorkerError, public_code: &str, text: &str) -> (outcome:
    WorkerRefreshOutcome)
    ensures
        !outcome.ok,
        match *error {
            WorkerError::Transport { code, message } => opt_text(outcome.error_code) == Some(code@)
                && opt_text(outcome.error_message) == Some(message@),
            _ => opt_text(outcome.error_code) == Some(public_code@) && opt_text(
                outcome.error_message,
            ) == Some(text@),
        },
{
    match error {
        WorkerError::Transport { code, message } => WorkerRefreshOutcome {
            ok: false,
            error_code: Some((*code).to_owned()),
            error_message: Some(message.clone()),
        },
        _ => WorkerRefreshOutcome {
            ok: false,
            error_code: Some(public_code.to_owned()),
            error_message: Some(text.to_owned()),
        },
    }
}

/// Every worker's refresh failed.
pub open spec fn all_failed(outcomes: Seq<WorkerRefreshOutcome>) -> bool {
    outcomes.len() > 0 && forall|i: int|
        0 <= i < outcomes.len() ==> !(#[trigger] outcomes[i]).ok
}

/// The exit of a refresh: the fleet counts as unavailable where there are
/// workers and none of them was refreshed.
pub fn workers_refresh_exit_status(
    outcomes: &Option<Vec<WorkerRefreshOutcome>>,
    unavailable_exit: u8,
) -> (code: u8)
    ensures
        code == if outcomes is Some && all_failed(outcomes->0@) {
            unavailable_exit
        } else {
            0u8
        },
{
    match outcomes {
        None => 0,
        Some(list) => {
            let mut i: usize = 0;
            while i < list.len()
                invariant
                    i <= list@.len(),
                    outcomes is Some,
                    outcomes->0 == *list,
                    forall|j: int| 0 <= j < i ==> !(#[trigger] list@[j]).ok,
                decreases list.len() - i,
            {
                if list[i].ok {
                    assert(list@[i as int].ok);
                    return 0;
                }
                i += 1;
            }
            if list.len() == 0 {
                0
            } else {
                unavailable_exit
            }
        },
    }
}

pub open spec fn text_or(value: Option<String>, other: Seq<char>) -> Seq<char> {
    match value {
        Some(text) => text@,
        None => other,
    }
}

/// The line on one worker's refresh.
pub open spec fn refresh_text(outcome: WorkerRefreshOutcome) -> Seq<char> {
    if outcome.ok {
        "  refresh: ok"@
    } else {
        "  refresh: failed ["@ + text_or(outcome.error_code, "REFRESH_FACTS_FAILED"@) + "]: "@
            + text_or(outcome.error_message, "worker fact refresh failed"@)
    }
}

pub fn render_refresh_line(outcome: &WorkerRefreshOutcome) -> (line: String)
    ensures
        line@ == refresh_text(*outcome),
{
    if outcome.ok {
        return "  refresh: ok".to_owned();
    }
    let code = match &outcome.error_code {
        Some(code) => code.as_str(),
        None => "REFRESH_FACTS_FAILED",
    };
    let message = match &outcome.error_message {
        Some(message) => message.as_str(),
        None => "worker fact refresh failed",
    };
    "  refresh: failed [".to_owned().concat(code).concat("]: ").concat(message)
}

/// Each worker's report with the line on its refresh below it, for as many
/// workers as there are both.
pub open spec fn refresh_blocks(
    reports: Seq<Seq<char>>,
    outcomes: Seq<WorkerRefreshOutcome>,
) -> Seq<Seq<char>> {
    Seq::new(
        if reports.len() < outcomes.len() {
            reports.len()
        } else {
            outcomes.len()
        },
        |i: int| reports[i] + "\n"@ + refresh_text(outcomes[i]),
    )
}

pub fn render_workers_refresh_human(
    reports: &Vec<String>,
    outcomes: &Vec<WorkerRefreshOutcome>,
) -> (text: String)
    ensures
        text@ == join(refresh_blocks(texts(reports@), outcomes@), "\n"@),
{
    let ghost all = refresh_blocks(texts(reports@), outcomes@);
    let mut blocks: Vec<String> = Vec::new();
    let mut i: usize = 0;
    while i < reports.len() && i < outcomes.len()
        invariant
            i <= all.len(),
            all == refresh_blocks(texts(reports@), outcomes@),
            texts(blocks@) == all.take(i as int),
        decreases reports.len() - i,
    {
        let line = render_refresh_line(&outcomes[i]);
        push_line(
            &mut blocks,
            reports[i].as_str().to_owned().concat("\n").concat(line.as_str()),
        );
        proof {
            one_more(Seq::empty(), all, i as int);
        }
        i += 1;
    }
    assert(all.take(i as int) =~= all);
    joined(&blocks, "\n")
}

/// Something that may be collected.
#[derive(Debug)]
pub struct GcCandidate {
    pub kind: String,
    pub size_bytes: u64,
    pub reason: String,
    pub identifier: String,
}

impl GcCandidate {
    pub open spec fn text(&self) -> Seq<char> {
        "    "@ + self.kind@ + " "@ + decimal(self.size_bytes as nat) + " bytes ("@ + self.reason@
            + ") "@ + self.identifier@
    }
}

/// What one place has to collect.
#[derive(Debug)]
pub struct GcReport {
    pub candidates: Vec<GcCandidate>,
    pub applied: u64,
    pub warnings: Vec<String>,
}

impl GcReport {
    pub open spec fn shown_lines(&self, label: Seq<char>) -> Seq<Seq<char>> {
        seq![
            "  "@ + label + ": "@ + decimal(self.candidates@.len()) + " candidate(s), "@ + decimal(
                self.applied as nat,
            ) + " applied"@,
        ] + self.candidates@.map_values(|candidate: GcCandidate| candidate.text()) + prefixed(
            "    warning: "@,
            texts(self.warnings@),
        )
    }

    /// The lines on one place.
    pub fn lines(&self, label: &str) -> (lines: Vec<String>)
        ensures
            texts(lines@) == self.shown_lines(label@),
    {
        let mut lines: Vec<String> = Vec::new();
        lines.push(
            "  ".to_owned().concat(label).concat(": ").concat(
                decimal_text(self.candidates.len() as u64).as_str(),
            ).concat(" candidate(s), ").concat(decimal_text(self.applied).as_str()).concat(
                " applied",
            ),
        );
        let ghost before = texts(lines@);
        let ghost found = self.candidates@.map_values(|candidate: GcCandidate| candidate.text());
        let mut i: usize = 0;
        while i < self.candidates.len()
            invariant
                i <= self.candidates@.len(),
                found == self.candidates@.map_values(
                    |candidate: GcCandidate| candidate.text(),
                ),
                texts(lines@) == before + found.take(i as int),
            decreases self.candidates.len() - i,
        {
            let candidate = &self.candidates[i];
            push_line(
                &mut lines,
                "    ".to_owned().concat(candidate.kind.as_str()).concat(" ").concat(
                    decimal_text(candidate.size_bytes).as_str(),
                ).concat(" bytes (").concat(candidate.reason.as_str()).concat(") ").concat(
                    candidate.identifier.as_str(),
                ),
            );
            proof {
                one_more(before, found, i as int);
            }
            i += 1;
        }
        assert(found.take(i as int) =~= found);
        push_prefixed(&mut lines, "    warning: ", &self.warnings);
        assert(texts(lines@) =~= self.shown_lines(label@));
        lines
    }
}

/// What each worker, and the laptop's own transfer repositories, have to
/// collect.
#[derive(Debug)]
pub struct GcFleetReport {
    pub apply: bool,
    pub workers: Vec<(String, GcReport)>,
    pub transfer: GcReport,
}

/// The lines on the first `count` workers.
pub open spec fn gc_worker_lines(workers: Seq<(String, GcReport)>, count: int) -> Seq<Seq<char>>
    decreases count,
{
    if count <= 0 {
        seq![]
    } else {
        gc_worker_lines(workers, count - 1) + workers[count - 1].1.shown_lines(
            "worker "@ + workers[count - 1].0@,
        )
    }
}

fn push_all(lines: &mut Vec<String>, more: Vec<String>)
    ensures
        texts(final(lines)@) == texts(old(lines)@) + texts(more@),
{
    let ghost before = texts(lines@);
    let mut i: usize = 0;
    while i < more.len()
        invariant
            i <= more@.len(),
            texts(lines@) == before + texts(more@).take(i as int),
        decreases more.len() - i,
    {
        push_line(lines, more[i].clone());
        proof {
            one_more(before, texts(more@), i as int);
        }
        i += 1;
    }
    assert(texts(more@).take(i as int) =~= texts(more@));
}

impl GcFleetReport {
    pub open spec fn shown_lines(&self) -> Seq<Seq<char>> {
        seq![
            "gc: "@ + if self.apply {
                "apply"@
            } else {
                "preview"@
            },
        ] + gc_worker_lines(self.workers@, self.workers@.len() as int) + self.transfer.shown_lines(
            "transfer"@,
        )
    }

    pub fn lines(&self) -> (lines: Vec<String>)
        ensures
            texts(lines@) == self.shown_lines(),
    {
        let mut lines: Vec<String> = Vec::new();
        lines.push(
            "gc: ".to_owned().concat(
                if self.apply {
                    "apply"
                } else {
                    "preview"
                },
            ),
        );
        let ghost head = texts(lines@);
        let mut i: usize = 0;
        while i < self.workers.len()
            invariant
                i <= self.workers@.len(),
                texts(lines@) =~= head + gc_worker_lines(self.workers@, i as int),
            decreases self.workers.len() - i,
        {
            let label = "worker ".to_owned().concat(self.workers[i].0.as_str());
            push_all(&mut lines, self.workers[i].1.lines(label.as_str()));
            i += 1;
        }
        push_all(&mut lines, self.transfer.lines("transfer"));
        assert(texts(lines@) =~= self.shown_lines());
        lines
    }
}

/// A diff as it is shown: with a newline at its end.
pub open spec fn ended(text: Seq<char>) -> Seq<char> {
    if text.len() > 0 && text.last() == '\n' {
        text
    } else {
        text + "\n"@
    }
}

pub fn diff_text(text: &str) -> (shown: String)
    ensures
        shown@ == ended(text@),
{
    let length: usize = text.unicode_len();
    if length > 0 && text.get_char(length - 1) == '\n' {
        text.to_owned()
    } else {
        text.to_owned().concat("\n")
    }
}

} // verus!
