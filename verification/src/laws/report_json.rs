//! What the lines that programs read hold.
use vstd::prelude::*;
use vstd::string::*;
use crate::controller::{id_field, text_field};
use crate::job::ids::TaskId;
use crate::outside::{hex_number, json_string_text};
use crate::report::{Freshness, Receipt};
use crate::report_json::{
    delivery_fields, error_event_fields, field_if, freshness_fields, json_list, json_object,
    opt_number, quoted_all, quoted_ids, refreshed_worker, refreshed_workers, residual_field,
    stage_field, version_field, TaskReportParts, TaskResultParts,
};
use crate::text::{decimal, join, texts};

verus! {

/// How the pieces of a line are written.
pub proof fn json_pieces_are_written(
    fields: Seq<Seq<char>>,
    key: Seq<char>,
    value: Seq<char>,
    id: u128,
    number: u8,
)
    ensures
        json_object(fields) == "{"@ + join(fields, ","@) + "}"@,
        json_list(fields) == "["@ + join(fields, ","@) + "]"@,
        text_field(key, value) == key + json_string_text(value),
        id_field(key, id) == key + json_string_text(hex_number(id as int, 32)),
        version_field() == "\"protocol_version\":"@ + decimal(1),
        opt_number(Some(number)) == decimal(number as nat),
        opt_number(None) == "null"@,
        field_if(true, value) == seq![value],
        field_if(false, value) == Seq::<Seq<char>>::empty(),
{
}

/// Lists of texts and of identities are quoted one by one.
pub proof fn lists_are_quoted_one_by_one(items: Seq<Seq<char>>, ids: Seq<TaskId>, at: int)
    ensures
        quoted_all(items).len() == items.len(),
        0 <= at < items.len() ==> quoted_all(items)[at] == json_string_text(items[at]),
        quoted_ids(ids).len() == ids.len(),
        0 <= at < ids.len() ==> quoted_ids(ids)[at] == json_string_text(
            hex_number(ids[at].value as int, 32),
        ),
{
}

/// What is told of a receipt, of the age of a report and of its deliveries, and
/// that nothing is told of what is not there.
pub proof fn optional_fields_are_told(
    receipt: Receipt,
    millis: u64,
    deliveries: Seq<Seq<char>>,
    last: String,
)
    ensures
        stage_field(None).len() == 0,
        stage_field(Some(receipt)) == seq!["\"stage\":"@ + json_string_text(receipt.stage@)],
        residual_field(None).len() == 0,
        residual_field(Some(receipt)) == seq![
            "\"residual\":"@ + json_list(
                Seq::new(
                    receipt.residual@.len(),
                    |i: int| json_string_text(receipt.residual@[i]@),
                ),
            ),
        ],
        freshness_fields(Freshness::Fresh).len() == 0,
        freshness_fields((Freshness::Stale { observed_at_millis: None })) == seq![
            "\"freshness\":"@ + json_string_text("stale"@),
        ],
        freshness_fields((Freshness::Stale { observed_at_millis: Some(millis) })) == seq![
            "\"freshness\":"@ + json_string_text("stale"@),
            "\"observed_at_millis\":"@ + decimal(millis as nat),
        ],
        delivery_fields(Seq::empty(), None).len() == 0,
        delivery_fields(Seq::empty(), Some(last)) == seq!["\"delivery\":"@ + last@],
        deliveries.len() > 0 ==> delivery_fields(deliveries, None) == seq![
            "\"deliveries\":"@ + json_list(deliveries),
        ],
        deliveries.len() > 0 ==> delivery_fields(deliveries, Some(last)) == seq![
            "\"deliveries\":"@ + json_list(deliveries),
            "\"delivery\":"@ + last@,
        ],
{
    assert(quoted_all(texts(receipt.residual@)) =~= Seq::new(
        receipt.residual@.len(),
        |i: int| json_string_text(receipt.residual@[i]@),
    ));
    assert(freshness_fields((Freshness::Stale { observed_at_millis: None })) =~= seq![
        "\"freshness\":"@ + json_string_text("stale"@),
    ]);
    assert(delivery_fields(Seq::empty(), Some(last)) =~= seq!["\"delivery\":"@ + last@]);
    assert(delivery_fields(deliveries, None) =~= field_if(
        deliveries.len() > 0,
        "\"deliveries\":"@ + json_list(deliveries),
    ));
}

/// The report on a task holds these fields in this order; those of an age, a
/// receipt or a warning only where there is one.
pub proof fn task_reports_hold_everything(report: TaskReportParts)
    ensures
        report.first_fields() + report.last_fields() == delivery_fields(
            texts(report.deliveries@),
            report.delivery,
        ) + seq![
            "\"events\":"@ + report.events@,
            "\"exit_code\":"@ + opt_number(report.exit_code),
        ] + freshness_fields(report.freshness) + seq!["\"protocol_version\":"@ + decimal(1)]
            + residual_field(report.receipt) + seq![
            "\"run_id\":"@ + match report.run_id {
                Some(id) => json_string_text(id@),
                None => "null"@,
            },
            "\"runner\":"@ + report.runner@,
        ] + stage_field(report.receipt) + seq![
            "\"status\":"@ + report.status@,
            "\"task_id\":"@ + json_string_text(hex_number(report.task_id.value as int, 32)),
        ] + if report.warnings@.len() > 0 {
            seq![
                "\"warnings\":"@ + json_list(
                    Seq::new(
                        report.warnings@.len(),
                        |i: int| json_string_text(report.warnings@[i]@),
                    ),
                ),
            ]
        } else {
            seq![]
        },
{
    assert(quoted_all(texts(report.warnings@)) =~= Seq::new(
        report.warnings@.len(),
        |i: int| json_string_text(report.warnings@[i]@),
    ));
    let written = delivery_fields(texts(report.deliveries@), report.delivery) + seq![
        "\"events\":"@ + report.events@,
        "\"exit_code\":"@ + opt_number(report.exit_code),
    ] + freshness_fields(report.freshness) + seq!["\"protocol_version\":"@ + decimal(1)]
        + residual_field(report.receipt) + seq![
        "\"run_id\":"@ + match report.run_id {
            Some(id) => json_string_text(id@),
            None => "null"@,
        },
        "\"runner\":"@ + report.runner@,
    ] + stage_field(report.receipt) + seq![
        "\"status\":"@ + report.status@,
        "\"task_id\":"@ + json_string_text(hex_number(report.task_id.value as int, 32)),
    ] + if report.warnings@.len() > 0 {
        seq![
            "\"warnings\":"@ + json_list(
                Seq::new(
                    report.warnings@.len(),
                    |i: int| json_string_text(report.warnings@[i]@),
                ),
            ),
        ]
    } else {
        seq![]
    };
    assert(report.first_fields() + report.last_fields() =~= written);
}

/// The report on a result holds these fields in this order.
pub proof fn result_reports_hold_everything(report: TaskResultParts)
    ensures
        report.first_fields() + report.last_fields() == seq![
            "\"branch\":"@ + json_string_text(report.branch@),
        ] + delivery_fields(texts(report.deliveries@), report.delivery) + seq![
            "\"fetch\":"@ + json_string_text(report.fetch_instruction@),
        ] + freshness_fields(report.freshness) + seq!["\"protocol_version\":"@ + decimal(1)]
            + residual_field(report.receipt) + stage_field(report.receipt) + seq![
            "\"status\":"@ + report.status@,
            "\"task_id\":"@ + json_string_text(hex_number(report.task_id.value as int, 32)),
        ],
{
    let written = seq!["\"branch\":"@ + json_string_text(report.branch@)] + delivery_fields(
        texts(report.deliveries@),
        report.delivery,
    ) + seq!["\"fetch\":"@ + json_string_text(report.fetch_instruction@)] + freshness_fields(
        report.freshness,
    ) + seq!["\"protocol_version\":"@ + decimal(1)] + residual_field(report.receipt) + stage_field(
        report.receipt,
    ) + seq![
        "\"status\":"@ + report.status@,
        "\"task_id\":"@ + json_string_text(hex_number(report.task_id.value as int, 32)),
    ];
    assert(report.first_fields() + report.last_fields() =~= written);
}

/// A refreshed worker is told with its health and with the outcome of its own
/// place in the list, where there is one.
pub proof fn workers_are_told_with_their_refresh(
    health: Seq<Seq<char>>,
    refresh: Seq<Seq<char>>,
    at: int,
)
    ensures
        refreshed_workers(health, refresh).len() == health.len(),
        0 <= at < health.len() && at < refresh.len() ==> refreshed_workers(health, refresh)[at]
            == "{"@ + health[at] + ",\"refresh\":"@ + refresh[at] + "}"@,
        0 <= at < health.len() && at >= refresh.len() ==> refreshed_workers(health, refresh)[at]
            == "{"@ + health[at] + "}"@,
        forall|text: Seq<char>| #[trigger] refreshed_worker(text, None) == "{"@ + text + "}"@,
{
}

/// An error event says that it is one, in which version, and its code and text.
pub proof fn error_events_hold_everything(code: Seq<char>, message: Seq<char>)
    ensures
        error_event_fields(code, message) == seq![
            "\"event\":\"error\""@,
            "\"protocol_version\":"@ + decimal(1),
            "\"code\":"@ + json_string_text(code),
            "\"message\":"@ + json_string_text(message),
        ],
{
}

} // verus!
