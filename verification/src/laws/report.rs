//! What the lines that people read tell them.
use vstd::prelude::*;
use vstd::string::*;
use crate::outside::hex_number;
use crate::report::{
    all_failed, ended, gc_worker_lines, host_io_blocking, opt_texts, prefixed, receipt_lines,
    refresh_blocks, refresh_text, shown, staleness, text_or, worker_text, BatchPreview, Delivery,
    Freshness, GcFleetReport, GcReport, ListedTask, Question, Receipt, TaskReport, TaskResultReport,
    WorkerRefreshOutcome,
};
use crate::text::{decimal, join, texts};
use crate::words::holds_text;

verus! {

/// What a text of several pieces is made of.
pub open spec fn in_a_row(pieces: Seq<Seq<char>>) -> Seq<char>
    decreases pieces.len(),
{
    if pieces.len() == 0 {
        seq![]
    } else {
        pieces[0] + in_a_row(pieces.drop_first())
    }
}

/// Identifiers are shown as thirty-two hexadecimal digits, a task without a
/// worker as unassigned, and an old delivery with its age or a word for it.
pub proof fn small_texts_are_shown(
    value: u128,
    name: String,
    millis: u64,
    other: Seq<char>,
    line: Seq<char>,
)
    ensures
        shown(value) == hex_number(value as int, 32),
        worker_text(Some(name)) == name@,
        worker_text(None) == "unassigned"@,
        line + staleness(Freshness::Fresh) == line,
        staleness((Freshness::Stale { observed_at_millis: None })) == " stale"@,
        staleness((Freshness::Stale { observed_at_millis: Some(millis) })) == " observed="@
            + decimal(millis as nat),
        text_or(Some(name), other) == name@,
        text_or(None, other) == other,
{
    reveal_strlit("");
    assert(line + ""@ =~= line);
}

/// A prefix stands before each text of a list.
pub proof fn prefixes_stand_before_each(prefix: Seq<char>, items: Seq<Seq<char>>, at: int)
    requires
        0 <= at < items.len(),
    ensures
        prefixed(prefix, items).len() == items.len(),
        prefixed(prefix, items)[at] == prefix + items[at],
{
}

/// A receipt names its stage and everything that is left, in order.
pub proof fn receipts_name_what_is_left(receipt: Receipt)
    ensures
        receipt.text() == in_a_row(
            seq![
                "receipt: stage="@,
                receipt.stage@,
                " residual="@,
                join(Seq::new(receipt.residual@.len(), |i: int| receipt.residual@[i]@), ","@),
            ],
        ),
        receipt_lines(Some(receipt)) == seq![receipt.text()],
        receipt_lines(None) == Seq::<Seq<char>>::empty(),
{
    reveal_with_fuel(in_a_row, 5);
    assert(texts(receipt.residual@) =~= Seq::new(
        receipt.residual@.len(),
        |i: int| receipt.residual@[i]@,
    ));
    let pieces = seq![
        "receipt: stage="@,
        receipt.stage@,
        " residual="@,
        join(Seq::new(receipt.residual@.len(), |i: int| receipt.residual@[i]@), ","@),
    ];
    assert(receipt.text() =~= in_a_row(pieces));
}

/// A report on a task opens with the task, its state and its worker. A line for
/// each warning follows, then one for each delivery with its age, then the
/// receipt where there is one, and nothing else.
pub proof fn task_reports_show_everything(report: TaskReport, warning: int, delivery: int)
    ensures
        report.shown_lines().len() == 1 + report.warnings@.len() + report.deliveries@.len() + if
            report.receipt is Some {
            1int
        } else {
            0
        },
        report.shown_lines()[0] == in_a_row(
            seq![
                "task "@,
                hex_number(report.task_id.value as int, 32),
                ": "@,
                report.state.spelling(),
                " ("@,
                worker_text(report.worker),
                ")"@,
            ],
        ),
        0 <= warning < report.warnings@.len() ==> report.shown_lines()[1 + warning] == "warning: "@
            + report.warnings@[warning]@,
        0 <= delivery < report.deliveries@.len() ==> report.shown_lines()[1
            + report.warnings@.len() + delivery] == report.deliveries@[delivery]@ + staleness(
            report.freshness,
        ),
        report.receipt is Some ==> report.shown_lines().last() == report.receipt->0.text(),
{
    reveal_with_fuel(in_a_row, 8);
    let pieces = seq![
        "task "@,
        hex_number(report.task_id.value as int, 32),
        ": "@,
        report.state.spelling(),
        " ("@,
        worker_text(report.worker),
        ")"@,
    ];
    assert(report.head() =~= in_a_row(pieces));
}

/// A delivery is shown by its state, its turn, its attempt and its commit.
pub proof fn deliveries_show_everything(delivery: Delivery)
    ensures
        delivery.text() == in_a_row(
            seq![
                "delivery: "@,
                delivery.state@,
                " turn="@,
                hex_number(delivery.turn_id.value as int, 32),
                " attempt="@,
                decimal(delivery.attempt as nat),
                " "@,
                delivery.oid@,
            ],
        ),
{
    reveal_with_fuel(in_a_row, 9);
    let pieces = seq![
        "delivery: "@,
        delivery.state@,
        " turn="@,
        hex_number(delivery.turn_id.value as int, 32),
        " attempt="@,
        decimal(delivery.attempt as nat),
        " "@,
        delivery.oid@,
    ];
    assert(delivery.text() =~= in_a_row(pieces));
}

/// A blocked file operation is shown by its code alone where its stage is not
/// known, else with its stage and all that is left.
pub proof fn blocked_operations_are_shown(
    code: Seq<char>,
    stage: Seq<char>,
    left: Seq<Seq<char>>,
    items: Vec<String>,
)
    ensures
        host_io_blocking(code, None, Some(left)) == code,
        host_io_blocking(code, None, None) == code,
        host_io_blocking(code, Some(stage), Some(left)) == in_a_row(
            seq![code, " (stage="@, stage, ", residual="@, join(left, ","@), ")"@],
        ),
        host_io_blocking(code, Some(stage), None) == host_io_blocking(
            code,
            Some(stage),
            Some(Seq::empty()),
        ),
        opt_texts(None) is None,
        opt_texts(Some(items)) == Some(Seq::new(items@.len(), |i: int| items@[i]@)),
{
    reveal_with_fuel(in_a_row, 7);
    reveal_strlit("");
    let pieces = seq![code, " (stage="@, stage, ", residual="@, join(left, ","@), ")"@];
    assert(host_io_blocking(code, Some(stage), Some(left)) =~= in_a_row(pieces));
    assert(join(Seq::<Seq<char>>::empty(), ","@) =~= ""@);
    assert(texts(items@) =~= Seq::new(items@.len(), |i: int| items@[i]@));
}

/// A task in a list is shown by its identity, its state and its worker, with
/// what blocks it and what is said of its pushes where there is such a thing.
/// The stage is shown only for a failed host file operation.
pub proof fn listed_tasks_show_everything(task: ListedTask)
    ensures
        task.text() == in_a_row(
            seq![
                hex_number(task.task_id.value as int, 32),
                ": "@,
                task.state.spelling(),
                " ("@,
                worker_text(task.worker),
                ")"@,
                if task.blocking_code is Some {
                    " blocking: "@ + task.blocking()
                } else {
                    Seq::<char>::empty()
                },
                if task.push_suffix is Some {
                    task.push_suffix->0@
                } else {
                    Seq::<char>::empty()
                },
            ],
        ),
        task.blocking_code is Some && (task.stage is None || !holds_text(
            task.blocking_code->0@,
            "HOST_IO"@,
        )) ==> task.blocking() == task.blocking_code->0@,
        task.blocking_code is Some && task.stage is Some && holds_text(
            task.blocking_code->0@,
            "HOST_IO"@,
        ) ==> task.blocking() == host_io_blocking(
            task.blocking_code->0@,
            Some(task.stage->0@),
            opt_texts(task.residual),
        ),
{
    reveal_with_fuel(in_a_row, 9);
    reveal_strlit("");
    assert(""@ =~= Seq::<char>::empty());
    let pieces = seq![
        hex_number(task.task_id.value as int, 32),
        ": "@,
        task.state.spelling(),
        " ("@,
        worker_text(task.worker),
        ")"@,
        if task.blocking_code is Some {
            " blocking: "@ + task.blocking()
        } else {
            Seq::<char>::empty()
        },
        if task.push_suffix is Some {
            task.push_suffix->0@
        } else {
            Seq::<char>::empty()
        },
    ];
    assert(task.text() =~= in_a_row(pieces));
}

/// A question is shown with the answers that are accepted, where it has any.
pub proof fn questions_show_their_answers(question: Question)
    ensures
        question.options@.len() == 0 ==> question.shown_text() == question.text@,
        question.options@.len() > 0 ==> question.shown_text() == in_a_row(
            seq![
                question.text@,
                " ["@,
                join(Seq::new(question.options@.len(), |i: int| question.options@[i]@), " | "@),
                "]"@,
            ],
        ),
{
    reveal_with_fuel(in_a_row, 5);
    assert(texts(question.options@) =~= Seq::new(
        question.options@.len(),
        |i: int| question.options@[i]@,
    ));
    let pieces = seq![
        question.text@,
        " ["@,
        join(Seq::new(question.options@.len(), |i: int| question.options@[i]@), " | "@),
        "]"@,
    ];
    if question.options@.len() > 0 {
        assert(question.shown_text() =~= in_a_row(pieces));
    }
}

/// How many of these there are.
pub open spec fn one_if(there: bool) -> int {
    if there {
        1
    } else {
        0
    }
}

/// The report on a result has a line for the task, and for each of these that
/// there is, in this order: the summary, the questions, the files, the branch
/// and how to fetch it, the last delivery, and the receipt.
pub proof fn result_reports_show_everything(report: TaskResultReport)
    ensures
        ({
            let lines = report.shown_lines();
            let summary = 1 + one_if(report.summary is Some);
            let questions = summary + one_if(report.questions@.len() > 0);
            let files = questions + one_if(report.files_changed@.len() > 0);
            let delivery = files + 2 + one_if(report.last_delivery is Some);
            &&& lines.len() == delivery + one_if(report.receipt is Some)
            &&& lines[0] == "task "@ + hex_number(report.task_id.value as int, 32) + ": "@
                + report.state.spelling()
            &&& report.summary is Some ==> lines[1] == "summary: "@ + report.summary->0@
            &&& report.questions@.len() > 0 ==> lines[summary] == "questions: "@ + join(
                Seq::new(report.questions@.len(), |i: int| report.questions@[i].shown_text()),
                "; "@,
            )
            &&& report.files_changed@.len() > 0 ==> lines[questions] == "files: "@ + join(
                Seq::new(report.files_changed@.len(), |i: int| report.files_changed@[i]@),
                ", "@,
            )
            &&& lines[files] == "branch: "@ + report.branch@
            &&& lines[files + 1] == "fetch: "@ + report.fetch_instruction@
            &&& report.last_delivery is Some ==> lines[files + 2] == report.last_delivery->0@
                + staleness(report.freshness)
            &&& report.receipt is Some ==> lines[delivery] == report.receipt->0.text()
        }),
{
    assert(report.questions@.map_values(|question: Question| question.shown_text()) =~= Seq::new(
        report.questions@.len(),
        |i: int| report.questions@[i].shown_text(),
    ));
    assert(texts(report.files_changed@) =~= Seq::new(
        report.files_changed@.len(),
        |i: int| report.files_changed@[i]@,
    ));
}

/// A preview counts its tasks, gives their order, tells of a setup recipe, and
/// shows every issue.
pub proof fn previews_show_everything(preview: BatchPreview, at: int)
    ensures
        preview.shown_lines().len() == 2 + one_if(preview.setup_present) + preview.issues@.len(),
        preview.shown_lines()[0] == "batch preview: "@ + decimal(preview.tasks as nat) + " tasks"@,
        preview.shown_lines()[1] == preview.order@,
        preview.setup_present ==> preview.shown_lines()[2] == "setup recipe present"@,
        0 <= at < preview.issues@.len() ==> preview.shown_lines()[2 + one_if(preview.setup_present)
            + at] == preview.issues@[at].severity@ + " "@ + preview.issues@[at].kind@ + ": "@
            + preview.issues@[at].message@,
{
}

/// A fleet is out of reach where it has workers and no refresh went through.
pub proof fn one_good_refresh_is_enough(outcomes: Seq<WorkerRefreshOutcome>, at: int)
    ensures
        outcomes.len() == 0 ==> !all_failed(outcomes),
        0 <= at < outcomes.len() && outcomes[at].ok ==> !all_failed(outcomes),
        outcomes.len() > 0 && (forall|i: int| 0 <= i < outcomes.len() ==> !(#[trigger] outcomes[i]).ok)
            ==> all_failed(outcomes),
{
}

/// What is said of a refresh, and below which worker's report.
pub proof fn refreshes_are_shown_below(
    outcome: WorkerRefreshOutcome,
    reports: Seq<Seq<char>>,
    outcomes: Seq<WorkerRefreshOutcome>,
    at: int,
)
    ensures
        outcome.ok ==> refresh_text(outcome) == "  refresh: ok"@,
        !outcome.ok && outcome.error_code is Some && outcome.error_message is Some ==> refresh_text(
            outcome,
        ) == "  refresh: failed ["@ + outcome.error_code->0@ + "]: "@ + outcome.error_message->0@,
        !outcome.ok && outcome.error_code is None && outcome.error_message is None ==> refresh_text(
            outcome,
        ) == "  refresh: failed ["@ + "REFRESH_FACTS_FAILED"@ + "]: "@
            + "worker fact refresh failed"@,
        reports.len() == outcomes.len() ==> refresh_blocks(reports, outcomes).len()
            == reports.len(),
        refresh_blocks(reports, outcomes).len() <= reports.len(),
        refresh_blocks(reports, outcomes).len() <= outcomes.len(),
        0 <= at < reports.len() && at < outcomes.len() ==> refresh_blocks(reports, outcomes)[at]
            == reports[at] + "\n"@ + refresh_text(outcomes[at]),
{
}

/// What may be collected is counted, and each piece is shown with its kind, its
/// size, its reason and its name; the warnings follow.
pub proof fn garbage_is_shown(report: GcReport, label: Seq<char>, at: int, warning: int)
    ensures
        report.shown_lines(label).len() == 1 + report.candidates@.len() + report.warnings@.len(),
        report.shown_lines(label)[0] == "  "@ + label + ": "@ + decimal(report.candidates@.len())
            + " candidate(s), "@ + decimal(report.applied as nat) + " applied"@,
        0 <= at < report.candidates@.len() ==> report.shown_lines(label)[1 + at] == "    "@
            + report.candidates@[at].kind@ + " "@ + decimal(
            report.candidates@[at].size_bytes as nat,
        ) + " bytes ("@ + report.candidates@[at].reason@ + ") "@
            + report.candidates@[at].identifier@,
        0 <= warning < report.warnings@.len() ==> report.shown_lines(label)[1
            + report.candidates@.len() + warning] == "    warning: "@ + report.warnings@[warning]@,
{
}

/// The fleet's garbage is shown worker by worker, each under its name, and the
/// transfer repositories come last.
pub proof fn fleets_are_shown_worker_by_worker(
    report: GcFleetReport,
    workers: Seq<(String, GcReport)>,
    next: (String, GcReport),
)
    ensures
        report.shown_lines()[0] == if report.apply {
            "gc: "@ + "apply"@
        } else {
            "gc: "@ + "preview"@
        },
        report.shown_lines() == seq![report.shown_lines()[0]] + gc_worker_lines(
            report.workers@,
            report.workers@.len() as int,
        ) + report.transfer.shown_lines("transfer"@),
        gc_worker_lines(workers, 0) == Seq::<Seq<char>>::empty(),
        gc_worker_lines(workers.push(next), (workers.len() + 1) as int) == gc_worker_lines(
            workers,
            workers.len() as int,
        ) + next.1.shown_lines("worker "@ + next.0@),
{
    fleets_begin_alike(workers, workers.push(next), workers.len() as int);
}

proof fn fleets_begin_alike(
    workers: Seq<(String, GcReport)>,
    others: Seq<(String, GcReport)>,
    count: int,
)
    requires
        0 <= count <= workers.len(),
        count <= others.len(),
        forall|i: int| 0 <= i < count ==> workers[i] == others[i],
    ensures
        gc_worker_lines(workers, count) == gc_worker_lines(others, count),
    decreases count,
{
    if count > 0 {
        fleets_begin_alike(workers, others, count - 1);
        assert(workers[count - 1] == others[count - 1]);
    }
}

/// A diff is shown with one newline at its end: a text that ends in one stays
/// as it is, another gets one.
pub proof fn diffs_end_in_a_newline(text: Seq<char>)
    ensures
        ended(text).len() > 0 && ended(text).last() == '\n',
        text.len() > 0 && text.last() == '\n' ==> ended(text) == text,
        text.len() == 0 || text.last() != '\n' ==> ended(text).len() == text.len() + 1 && ended(
            text,
        ).drop_last() == text,
{
    reveal_strlit("\n");
    assert("\n"@.len() == 1 && "\n"@[0] == '\n');
    if !(text.len() > 0 && text.last() == '\n') {
        assert(ended(text).drop_last() =~= text);
    }
}

} // verus!
