//! What a controller is asked, letter by letter, and how its logs are followed.
use vstd::prelude::*;
use crate::controller::{ControllerOperation, LogsChunk, LogsFollower, RunAck};
use crate::job::ids::{JobId, TaskId};
use crate::laws::names::{hex_bytes, made_of};
use crate::manifest::json_bool;
use crate::outside::{hex_number, json_string_text};
use crate::text::{decimal, is_hex_digit, join, opt_text, utf8};

verus! {

/// The envelope of a request: its body, its command, the version and its
/// identity.
pub open spec fn envelope(body: Seq<char>, command: Seq<char>, request_id: Seq<char>) -> Seq<char> {
    "{\"body\":"@ + body + ",\"command\":"@ + json_string_text(command)
        + ",\"protocol_version\":"@ + decimal(1) + ",\"request_id\":"@ + json_string_text(
        request_id,
    ) + "}"@
}

/// A task's identity in JSON.
pub open spec fn written(id: u128) -> Seq<char> {
    json_string_text(hex_number(id as int, 32))
}

/// Questions about one task carry its identity, and what else is asked of it.
pub proof fn task_questions_are_written(
    task_id: TaskId,
    flag: bool,
    message: String,
    request_id: Seq<char>,
)
    ensures
        (ControllerOperation::Status { task_id }).payload(request_id) == envelope(
            "{"@ + ("\"task_id\":"@ + written(task_id.value)) + "}"@,
            "task.status"@,
            request_id,
        ),
        (ControllerOperation::Result { task_id }).payload(request_id) == envelope(
            "{"@ + ("\"task_id\":"@ + written(task_id.value)) + "}"@,
            "task.result"@,
            request_id,
        ),
        (ControllerOperation::Cancel { task_id }).payload(request_id) == envelope(
            "{"@ + ("\"task_id\":"@ + written(task_id.value)) + "}"@,
            "task.cancel"@,
            request_id,
        ),
        (ControllerOperation::Diff { task_id, stat: flag }).payload(request_id) == envelope(
            "{"@ + ("\"stat\":"@ + json_bool(flag) + ","@ + ("\"task_id\":"@ + written(
                task_id.value,
            ))) + "}"@,
            "task.diff"@,
            request_id,
        ),
        (ControllerOperation::Close { task_id, discard: flag }).payload(request_id) == envelope(
            "{"@ + ("\"discard\":"@ + json_bool(flag) + ","@ + ("\"task_id\":"@ + written(
                task_id.value,
            ))) + "}"@,
            "task.close"@,
            request_id,
        ),
        (ControllerOperation::Say { task_id, message }).payload(request_id) == envelope(
            "{"@ + ("\"message\":"@ + json_string_text(message@) + ","@ + ("\"task_id\":"@
                + written(task_id.value))) + "}"@,
            "task.say"@,
            request_id,
        ),
{
    joins_of_two(
        (ControllerOperation::Status { task_id }).fields(),
        "\"task_id\":"@ + written(task_id.value),
        "\"task_id\":"@ + written(task_id.value),
    );
    joins_of_two(
        (ControllerOperation::Result { task_id }).fields(),
        "\"task_id\":"@ + written(task_id.value),
        "\"task_id\":"@ + written(task_id.value),
    );
    joins_of_two(
        (ControllerOperation::Cancel { task_id }).fields(),
        "\"task_id\":"@ + written(task_id.value),
        "\"task_id\":"@ + written(task_id.value),
    );
    joins_of_two(
        (ControllerOperation::Diff { task_id, stat: flag }).fields(),
        "\"stat\":"@ + json_bool(flag),
        "\"task_id\":"@ + written(task_id.value),
    );
    joins_of_two(
        (ControllerOperation::Close { task_id, discard: flag }).fields(),
        "\"discard\":"@ + json_bool(flag),
        "\"task_id\":"@ + written(task_id.value),
    );
    joins_of_two(
        (ControllerOperation::Say { task_id, message }).fields(),
        "\"message\":"@ + json_string_text(message@),
        "\"task_id\":"@ + written(task_id.value),
    );
}

proof fn joins_of_two(fields: Seq<Seq<char>>, first: Seq<char>, second: Seq<char>)
    ensures
        fields == seq![first] ==> join(fields, ","@) == first,
        fields == seq![first, second] ==> join(fields, ","@) == first + ","@ + second,
{
    reveal_with_fuel(join, 3);
    if fields == seq![first, second] {
        assert(fields.drop_last() =~= seq![first]);
    }
}

/// Frozen tasks and batches are sent as they were frozen.
pub proof fn frozen_bodies_are_sent_as_they_are(body: String, request_id: Seq<char>)
    ensures
        (ControllerOperation::Submit { body }).payload(request_id) == envelope(
            body@,
            "task.submit"@,
            request_id,
        ),
        (ControllerOperation::Batch { body }).payload(request_id) == envelope(
            body@,
            "task.batch"@,
            request_id,
        ),
{
}

/// A list is asked for with what it is limited to, and with nothing else.
pub proof fn lists_are_asked_for(
    run: Option<String>,
    state: Option<String>,
    outcome: Option<String>,
    full: bool,
    request_id: Seq<char>,
)
    ensures
        ({
            let none = Seq::<Seq<char>>::empty();
            let asked = (if full {
                seq!["\"full\":"@ + json_bool(true)]
            } else {
                none
            }) + (if outcome is Some {
                seq!["\"outcome\":"@ + json_string_text(outcome->0@)]
            } else {
                none
            }) + (if run is Some {
                seq!["\"run\":"@ + json_string_text(run->0@)]
            } else {
                none
            }) + (if state is Some {
                seq!["\"state\":"@ + json_string_text(state->0@)]
            } else {
                none
            });
            (ControllerOperation::List { run, state, outcome, full }).payload(request_id)
                == envelope("{"@ + join(asked, ","@) + "}"@, "task.list"@, request_id)
        }),
{
    let none = Seq::<Seq<char>>::empty();
    let asked = (if full {
        seq!["\"full\":"@ + json_bool(true)]
    } else {
        none
    }) + (if outcome is Some {
        seq!["\"outcome\":"@ + json_string_text(outcome->0@)]
    } else {
        none
    }) + (if run is Some {
        seq!["\"run\":"@ + json_string_text(run->0@)]
    } else {
        none
    }) + (if state is Some {
        seq!["\"state\":"@ + json_string_text(state->0@)]
    } else {
        none
    });
    assert((ControllerOperation::List { run, state, outcome, full }).fields() =~= asked);
}

/// A log is asked for by chunks of 64 KiB, from an offset on, of one turn where
/// one is meant.
pub proof fn logs_are_asked_for(
    task_id: TaskId,
    turn: Option<u32>,
    turn_id: Option<JobId>,
    offset: u64,
    raw: bool,
    follow: bool,
    request_id: Seq<char>,
)
    ensures
        ({
            let none = Seq::<Seq<char>>::empty();
            let asked = seq![
                "\"follow\":"@ + json_bool(follow),
                "\"limit\":"@ + decimal(65536),
                "\"offset\":"@ + decimal(offset as nat),
                "\"raw\":"@ + json_bool(raw),
                "\"task_id\":"@ + written(task_id.value),
            ] + (if turn is Some {
                seq!["\"turn\":"@ + decimal(turn->0 as nat)]
            } else {
                none
            }) + (if turn_id is Some {
                seq!["\"turn_id\":"@ + written(turn_id->0.value)]
            } else {
                none
            });
            (ControllerOperation::Logs { task_id, turn, turn_id, offset, raw, follow }).payload(
                request_id,
            ) == envelope("{"@ + join(asked, ","@) + "}"@, "task.logs"@, request_id)
        }),
{
    let none = Seq::<Seq<char>>::empty();
    let asked = seq![
        "\"follow\":"@ + json_bool(follow),
        "\"limit\":"@ + decimal(65536),
        "\"offset\":"@ + decimal(offset as nat),
        "\"raw\":"@ + json_bool(raw),
        "\"task_id\":"@ + written(task_id.value),
    ] + (if turn is Some {
        seq!["\"turn\":"@ + decimal(turn->0 as nat)]
    } else {
        none
    }) + (if turn_id is Some {
        seq!["\"turn_id\":"@ + written(turn_id->0.value)]
    } else {
        none
    });
    assert((ControllerOperation::Logs {
        task_id,
        turn,
        turn_id,
        offset,
        raw,
        follow,
    }).fields() =~= asked);
}

/// An acknowledgement is complete where it names a run and lists tasks, every one
/// of them by its identifier.
pub proof fn acknowledgements_are_complete(ack: RunAck)
    ensures
        ack.complete() <==> {
            &&& ack.run_id is Some
            &&& ack.run_id_reads
            &&& ack.task_ids is Some
            &&& forall|i: int|
                0 <= i < ack.task_ids->0@.len() ==> ((#[trigger] ack.task_ids->0@[i]) matches Some(
                    text,
                ) && utf8(text@).len() == 32 && made_of(text@, hex_bytes()))
        },
{
    if ack.task_ids is Some {
        let listed = ack.task_ids->0@;
        assert forall|i: int| 0 <= i < listed.len() implies (((#[trigger] listed[i]) is Some
            && crate::text::lower_hex(listed[i]->0@, 32)) <==> (listed[i] matches Some(text)
            && utf8(text@).len() == 32 && made_of(text@, hex_bytes()))) by {
            if let Some(text) = listed[i] {
                if made_of(text@, hex_bytes()) {
                    assert forall|k: int| 0 <= k < utf8(text@).len() implies is_hex_digit(
                        #[trigger] utf8(text@)[k],
                    ) by {
                        assert(hex_bytes()(utf8(text@)[k]));
                    }
                }
                if crate::text::lower_hex(text@, 32) {
                    assert forall|k: int| 0 <= k < utf8(text@).len() implies hex_bytes()(
                        #[trigger] utf8(text@)[k],
                    ) by {
                        assert(is_hex_digit(utf8(text@)[k]));
                    }
                }
            }
        }
    }
}

/// A chunk is taken where it is of the turn and by the agent that reading began
/// with, and moves the reader behind it; the reading ends with a chunk behind
/// which nothing is there now, and nothing will come or is waited for.
pub proof fn followers_read_on(
    follower: LogsFollower,
    chunk: LogsChunk,
    raw: bool,
    follow: bool,
)
    ensures
        follower@.fits(chunk) <==> (follower.turn_id is None || follower.turn_id == Some(
            chunk.turn_id,
        )) && (follower.agent is None || follower.agent == Some(chunk.agent)),
        follower@.after(chunk, raw).offset == chunk.next_offset,
        follower@.after(chunk, raw).turn_id == Some(chunk.turn_id),
        follower@.after(chunk, raw).agent == Some(chunk.agent),
        !raw ==> follower@.after(chunk, raw).reported_failure == opt_text(chunk.failure),
        raw ==> follower@.after(chunk, raw).reported_failure == opt_text(
            follower.reported_failure,
        ),
        raw ==> follower@.failure_line(chunk, raw) is None,
        !raw && opt_text(chunk.failure) != opt_text(follower.reported_failure)
            ==> follower@.failure_line(chunk, raw) == opt_text(chunk.failure),
        chunk.last(follow) <==> chunk.exhausted && (chunk.complete || !follow),
{
}

} // verus!
