//! Logs that are followed to their ends: what counts as an end, and why a chunk
//! or a status is refused.
use vstd::prelude::*;
use vstd::string::*;
use crate::job::control::StatusResponseModel;
use crate::job::logs::{
    log_chunk_outcome, LogChunk, LogChunkResponse, LogCursor, LogStream, StatusLogsResponse,
    TerminalLogDrain,
};
use crate::error::WorkerError;
use crate::laws::status::has_ended;
use crate::outside::base64_bytes;

verus! {

/// A cursor is sound where it is not behind the known end, and has confirmed
/// only an end that it has reached.
pub proof fn cursors_stay_before_their_end(cursor: LogCursor, offset: u64, bytes: u64)
    ensures
        cursor.terminal_target is None ==> (cursor.valid() <==> !cursor.eof_confirmed)
            && cursor.reaches(offset) && !cursor.drained(),
        (cursor.terminal_target matches Some(end) ==> (cursor.valid() <==> cursor.next_offset <= end
            && (cursor.eof_confirmed ==> cursor.next_offset == end)) && (cursor.reaches(offset)
            <==> offset <= end) && (cursor.drained() <==> cursor.eof_confirmed && cursor.next_offset
            == end)),
        cursor.targeting(bytes).terminal_target == Some(bytes),
        cursor.targeting(bytes).next_offset == cursor.next_offset,
        cursor.targeting(bytes).stream == cursor.stream,
        cursor.targeting(bytes).limit == cursor.limit,
        !cursor.targeting(bytes).eof_confirmed,
{
}

/// A log's final length is refused where the cursor is beyond it or knows
/// another one.
pub proof fn final_lengths_do_not_change(cursor: LogCursor, bytes: u64)
    ensures
        bytes < cursor.next_offset ==> cursor.target_fault(bytes) == Some(
            "terminal log byte length precedes the cursor"@,
        ),
        (bytes >= cursor.next_offset && (cursor.terminal_target matches Some(end) && end != bytes))
            ==> cursor.target_fault(bytes) == Some("terminal log byte length changed"@),
        bytes >= cursor.next_offset && (cursor.terminal_target is None || cursor.terminal_target
            == Some(bytes)) ==> cursor.target_fault(bytes) is None,
{
}

/// Why a chunk is refused: for what it holds, then for its log, then for its
/// place, then for its length.
pub proof fn unfit_chunks_are_told(cursor: LogCursor, chunk: LogChunk)
    ensures
        ({
            let held = base64_bytes(chunk.data@);
            let sound = held is Some && held->0.len() <= 65536 && chunk.next_offset == chunk.offset
                + held->0.len();
            &&& held is None ==> chunk.fault() == Some("log chunk data is not base64"@)
            &&& held is Some && held->0.len() > 65536 ==> chunk.fault() == Some(
                "log chunk offsets do not match decoded bytes"@,
            )
            &&& held is Some && held->0.len() <= 65536 && chunk.offset + held->0.len()
                > 0xffff_ffff_ffff_ffff ==> chunk.fault() == Some("log offset overflow"@)
            &&& held is Some && held->0.len() <= 65536 && chunk.offset + held->0.len()
                <= 0xffff_ffff_ffff_ffff && chunk.next_offset != chunk.offset + held->0.len()
                ==> chunk.fault() == Some("log chunk offsets do not match decoded bytes"@)
            &&& sound ==> chunk.fault() is None
            &&& !sound ==> cursor.chunk_fault(&chunk) == chunk.fault()
            &&& sound && chunk.stream != cursor.stream ==> cursor.chunk_fault(&chunk) == Some(
                "log chunk stream does not match cursor"@,
            )
            &&& sound && chunk.stream == cursor.stream && chunk.offset != cursor.next_offset
                ==> cursor.chunk_fault(&chunk) == Some("log chunk offset does not match cursor"@)
            &&& (sound && chunk.stream == cursor.stream && chunk.offset == cursor.next_offset && (
            cursor.terminal_target matches Some(end) && chunk.next_offset > end))
                ==> cursor.chunk_fault(&chunk) == Some("log chunk crosses terminal byte length"@)
        }),
{
}

/// A new chunk carries its bytes from its place on; too many bytes, and bytes
/// beyond the last place, are refused.
pub proof fn new_chunks_carry_their_bytes(
    result: Result<LogChunk, WorkerError>,
    stream: LogStream,
    offset: u64,
    bytes: Seq<u8>,
)
    requires
        log_chunk_outcome(result, stream, offset, bytes),
    ensures
        result is Ok <==> bytes.len() <= 65536 && offset + bytes.len() <= 0xffff_ffff_ffff_ffff,
        bytes.len() > 65536 ==> (result matches Err(error) && (error matches WorkerError::Protocol(
            text,
        ) && text@ == "log chunk exceeds its byte limit"@)),
        bytes.len() <= 65536 && offset + bytes.len() > 0xffff_ffff_ffff_ffff ==> (
        result matches Err(error) && (error matches WorkerError::Protocol(text) && text@
            == "log offset overflow"@)),
        result matches Ok(chunk) ==> chunk.stream == stream && chunk.offset == offset
            && chunk.next_offset == offset + bytes.len() && base64_bytes(chunk.data@) == Some(bytes),
{
}

/// Answers with logs are refused for their version first, then for their status,
/// and last where a chunk is of the other log.
pub proof fn unfit_log_answers_are_told(single: LogChunkResponse, both: StatusLogsResponse)
    ensures
        single.protocol_version != 1 ==> single.fault() == Some(
            "log chunk response has an incompatible protocol version"@,
        ),
        single.protocol_version == 1 ==> single.fault() == single.chunk.fault(),
        both.protocol_version != 1 ==> both.fault() == Some(
            "status-logs response has an incompatible protocol version"@,
        ),
        both.protocol_version == 1 && both.status@.fault() is Some ==> both.fault()
            == both.status@.fault(),
        both.protocol_version == 1 && both.status@.fault() is None && both.stdout.fault() is None
            && both.stderr.fault() is None && (both.stdout.stream is Stderr || both.stderr.stream
            is Stdout) ==> both.fault() == Some(
            "status-logs chunks do not match stdout and stderr"@,
        ),
        both.protocol_version == 1 && both.status@.fault() is None && both.stdout.fault() is None
            && both.stderr.fault() is None && both.stdout.stream is Stdout && both.stderr.stream
            is Stderr ==> both.fault() is None,
{
}

/// Both logs have a cursor of their own; a status is used only where it is sound
/// and the job has ended, and it contradicts only another one that is known.
pub proof fn drains_keep_to_one_ending(drain: TerminalLogDrain, response: StatusResponseModel)
    ensures
        drain.cursor_of(LogStream::Stdout) == drain.stdout,
        drain.cursor_of(LogStream::Stderr) == drain.stderr,
        response.fault() is Some ==> TerminalLogDrain::unusable(response) == response.fault(),
        response.fault() is None && !has_ended(response.status.state)
            ==> TerminalLogDrain::unusable(response) == Some("log drain status is not terminal"@),
        response.fault() is None && has_ended(response.status.state) ==> TerminalLogDrain::unusable(
            response,
        ) is None,
        drain.contradicts(response) <==> drain.terminal is Some && drain.terminal->0@ != response,
        drain.complete() <==> drain.stdout.eof_confirmed && drain.stdout.terminal_target == Some(
            drain.stdout.next_offset,
        ) && drain.stderr.eof_confirmed && drain.stderr.terminal_target == Some(
            drain.stderr.next_offset,
        ) && drain.status_revalidated,
{
}

/// A drain that is sound aims both cursors at the lengths of the known ending.
pub proof fn sound_drains_aim_at_the_ending(drain: TerminalLogDrain)
    ensures
        drain.wf() <==> {
            &&& drain.stdout.stream is Stdout && drain.stdout.valid()
            &&& drain.stderr.stream is Stderr && drain.stderr.valid()
            &&& drain.terminal is Some ==> has_ended(drain.terminal->0.status.state)
                && drain.stdout.terminal_target == drain.terminal->0.status.final_stdout_bytes
                && drain.stderr.terminal_target == drain.terminal->0.status.final_stderr_bytes
            &&& drain.status_revalidated ==> drain.terminal is Some && drain.stdout.drained()
                && drain.stderr.drained()
        },
{
}

} // verus!
