//! Logs of a job, read in chunks until they are complete.
use vstd::prelude::*;
use crate::error::{earliest, fault_if, outcome_of, protocol_error, WorkerError};
use crate::job::control::{StatusResponse, StatusResponseModel};
use crate::job::ids::JobId;
use crate::job::{MAX_LOG_CHUNK_BYTES, PROTOCOL_VERSION};
use crate::outside::{base64_bytes, base64_decode, base64_encode, base64_text};

verus! {

#[derive(Debug, Clone, Copy, PartialEq, Eq, Structural)]
pub enum LogStream {
    Stdout,
    Stderr,
}

/// A request for the next bytes of one log.
#[derive(Debug, Clone, Copy, PartialEq, Eq, Structural)]
pub struct LogChunkRequest {
    pub protocol_version: u32,
    pub job_id: JobId,
    pub stream: LogStream,
    pub offset: u64,
    pub limit: u32,
}

impl LogChunkRequest {
    pub fn new(job_id: JobId, stream: LogStream, offset: u64, limit: u32) -> (request:
        LogChunkRequest)
        ensures
            request == (LogChunkRequest {
                protocol_version: PROTOCOL_VERSION,
                job_id,
                stream,
                offset,
                limit,
            }),
    {
        LogChunkRequest { protocol_version: PROTOCOL_VERSION, job_id, stream, offset, limit }
    }

    pub fn validate(&self) -> (result: Result<(), WorkerError>)
        ensures
            outcome_of(
                result,
                fault_if(
                    self.protocol_version != PROTOCOL_VERSION,
                    "log chunk request has an incompatible protocol version"@,
                ),
            ),
    {
        if self.protocol_version != PROTOCOL_VERSION {
            return Err(protocol_error("log chunk request has an incompatible protocol version"));
        }
        Ok(())
    }

    pub fn protocol_version(&self) -> (value: u32)
        ensures
            value == self.protocol_version,
    {
        self.protocol_version
    }

    pub fn job_id(&self) -> (value: JobId)
        ensures
            value == self.job_id,
    {
        self.job_id
    }

    pub fn stream(&self) -> (value: LogStream)
        ensures
            value == self.stream,
    {
        self.stream
    }

    pub fn offset(&self) -> (value: u64)
        ensures
            value == self.offset,
    {
        self.offset
    }

    pub fn limit(&self) -> (value: u32)
        ensures
            value == self.limit,
    {
        self.limit
    }

}

/// Some bytes of one log, in base64, and where they stand in it.
#[derive(Debug, PartialEq, Eq)]
pub struct LogChunk {
    pub stream: LogStream,
    pub offset: u64,
    pub next_offset: u64,
    pub data: String,
}

/// A chunk that carries these bytes from this offset on, where they are few
/// enough and end within the range of offsets.
pub open spec fn log_chunk_outcome(
    result: Result<LogChunk, WorkerError>,
    stream: LogStream,
    offset: u64,
    bytes: Seq<u8>,
) -> bool {
    &&& outcome_of(
        result,
        earliest(
            fault_if(bytes.len() > MAX_LOG_CHUNK_BYTES, "log chunk exceeds its byte limit"@),
            fault_if(offset + bytes.len() > u64::MAX, "log offset overflow"@),
        ),
    )
    &&& result matches Ok(chunk) ==> {
        &&& chunk.stream == stream
        &&& chunk.offset == offset
        &&& chunk.next_offset == offset + bytes.len()
        &&& chunk.data@ == base64_text(bytes)
        &&& chunk.content() == Some(bytes)
        &&& chunk.fault() is None
    }
}

impl LogChunk {
    /// The bytes that the chunk carries.
    pub open spec fn content(&self) -> Option<Seq<u8>> {
        base64_bytes(self.data@)
    }

    /// The chunk decodes to at most 64 KiB that reach from its offset to its
    /// next offset.
    pub open spec fn fault(&self) -> Option<Seq<char>> {
        match self.content() {
            None => Some("log chunk data is not base64"@),
            Some(bytes) => if bytes.len() > MAX_LOG_CHUNK_BYTES {
                Some("log chunk offsets do not match decoded bytes"@)
            } else {
                earliest(
                    fault_if(self.offset + bytes.len() > u64::MAX, "log offset overflow"@),
                    fault_if(
                        self.next_offset != self.offset + bytes.len(),
                        "log chunk offsets do not match decoded bytes"@,
                    ),
                )
            },
        }
    }

    /// A chunk of at most 64 KiB. Decoding it gives back the same bytes.
    pub fn new(stream: LogStream, offset: u64, bytes: Vec<u8>) -> (result: Result<
        LogChunk,
        WorkerError,
    >)
        ensures
            log_chunk_outcome(result, stream, offset, bytes@),
            result is Ok <==> bytes@.len() <= 65536 && offset + bytes@.len() <= u64::MAX,
    {
        if bytes.len() > MAX_LOG_CHUNK_BYTES {
            return Err(protocol_error("log chunk exceeds its byte limit"));
        }
        match offset.checked_add(bytes.len() as u64) {
            Some(next_offset) => Ok(
                LogChunk { stream, offset, next_offset, data: base64_encode(bytes.as_slice()) },
            ),
            None => Err(protocol_error("log offset overflow")),
        }
    }

    pub fn decoded_bytes(&self) -> (result: Result<Vec<u8>, WorkerError>)
        ensures
            outcome_of(result, self.fault()),
            result matches Ok(bytes) ==> self.content() == Some(bytes@),
    {
        let bytes = match base64_decode(self.data.as_str()) {
            Some(bytes) => bytes,
            None => {
                return Err(protocol_error("log chunk data is not base64"));
            },
        };
        if bytes.len() > MAX_LOG_CHUNK_BYTES {
            return Err(protocol_error("log chunk offsets do not match decoded bytes"));
        }
        match self.offset.checked_add(bytes.len() as u64) {
            Some(end) => {
                if self.next_offset != end {
                    return Err(protocol_error("log chunk offsets do not match decoded bytes"));
                }
                Ok(bytes)
            },
            None => Err(protocol_error("log offset overflow")),
        }
    }

    pub fn validate(&self) -> (result: Result<(), WorkerError>)
        ensures
            outcome_of(result, self.fault()),
    {
        match self.decoded_bytes() {
            Ok(_) => Ok(()),
            Err(error) => Err(error),
        }
    }

    pub fn stream(&self) -> (value: LogStream)
        ensures
            value == self.stream,
    {
        self.stream
    }

    pub fn offset(&self) -> (value: u64)
        ensures
            value == self.offset,
    {
        self.offset
    }

    pub fn next_offset(&self) -> (value: u64)
        ensures
            value == self.next_offset,
    {
        self.next_offset
    }

    pub fn data(&self) -> (value: &str)
        ensures
            value@ == self.data@,
    {
        self.data.as_str()
    }

}

/// The chunk carries some bytes of this log, at most 64 KiB, from this offset on.
pub open spec fn carries(chunk: &LogChunk, stream: LogStream, offset: u64) -> bool {
    &&& chunk.stream == stream
    &&& chunk.offset == offset
    &&& base64_bytes(chunk.data@) matches Some(bytes) && bytes.len() <= 65536 && chunk.next_offset
        == offset + bytes.len()
}

/// How far one log has been read, and how long it is once that is known.
#[derive(Debug, Clone, Copy, PartialEq, Eq, Structural)]
pub struct LogCursor {
    pub stream: LogStream,
    pub next_offset: u64,
    pub limit: u32,
    pub terminal_target: Option<u64>,
    pub eof_confirmed: bool,
}

impl LogCursor {
    /// The cursor has not passed the log's end, and has confirmed the end only
    /// where it stands on it.
    pub open spec fn valid(self) -> bool {
        &&& self.terminal_target matches Some(target) ==> self.next_offset <= target
        &&& self.eof_confirmed ==> self.terminal_target == Some(self.next_offset)
    }

    /// The log is known to reach so far, or its length is not known yet.
    pub open spec fn reaches(self, offset: u64) -> bool {
        match self.terminal_target {
            Some(length) => offset <= length,
            None => true,
        }
    }

    pub open spec fn drained(self) -> bool {
        self.eof_confirmed && self.terminal_target == Some(self.next_offset)
    }

    pub fn new(stream: LogStream, next_offset: u64, limit: u32) -> (result: Result<
        LogCursor,
        WorkerError,
    >)
        ensures
            result == Ok::<LogCursor, WorkerError>(
                LogCursor {
                    stream,
                    next_offset,
                    limit,
                    terminal_target: None,
                    eof_confirmed: false,
                },
            ),
            result matches Ok(cursor) ==> cursor.valid(),
    {
        let cursor = LogCursor {
            stream,
            next_offset,
            limit,
            terminal_target: None,
            eof_confirmed: false,
        };
        cursor.validate()?;
        Ok(cursor)
    }

    pub fn validate(&self) -> (result: Result<(), WorkerError>)
        ensures
            outcome_of(result, fault_if(!self.valid(), "log cursor state is inconsistent"@)),
            result is Ok <==> match self.terminal_target {
                Some(target) => self.next_offset <= target && (self.eof_confirmed
                    ==> self.next_offset == target),
                None => !self.eof_confirmed,
            },
    {
        let behind = match self.terminal_target {
            Some(target) => target < self.next_offset,
            None => false,
        };
        if behind || (self.eof_confirmed && self.terminal_target != Some(self.next_offset)) {
            return Err(protocol_error("log cursor state is inconsistent"));
        }
        Ok(())
    }

    /// A request for what follows the cursor.
    pub fn request(&self, job_id: JobId) -> (request: LogChunkRequest)
        ensures
            request == (LogChunkRequest {
                protocol_version: PROTOCOL_VERSION,
                job_id,
                stream: self.stream,
                offset: self.next_offset,
                limit: self.limit,
            }),
    {
        LogChunkRequest::new(job_id, self.stream, self.next_offset, self.limit)
    }

    /// Why a chunk may not follow here.
    pub open spec fn chunk_fault(self, chunk: &LogChunk) -> Option<Seq<char>> {
        earliest(
            chunk.fault(),
            earliest(
                fault_if(
                    chunk.stream != self.stream,
                    "log chunk stream does not match cursor"@,
                ),
                earliest(
                    fault_if(
                        chunk.offset != self.next_offset,
                        "log chunk offset does not match cursor"@,
                    ),
                    fault_if(
                        self.terminal_target matches Some(target) && chunk.next_offset > target,
                        "log chunk crosses terminal byte length"@,
                    ),
                ),
            ),
        )
    }

    /// The cursor behind a chunk. An empty chunk at the known end confirms it.
    pub open spec fn behind(self, chunk: &LogChunk) -> LogCursor {
        LogCursor {
            next_offset: chunk.next_offset,
            eof_confirmed: chunk.next_offset == chunk.offset && self.terminal_target == Some(
                chunk.next_offset,
            ),
            ..self
        }
    }

    pub fn observe_chunk(&mut self, chunk: &LogChunk) -> (result: Result<(), WorkerError>)
        ensures
            outcome_of(result, old(self).chunk_fault(chunk)),
            *final(self) == (if result is Ok {
                old(self).behind(chunk)
            } else {
                *old(self)
            }),
            result is Ok ==> final(self).valid(),
            old(self).valid() ==> final(self).valid(),
            result is Ok <==> carries(chunk, old(self).stream, old(self).next_offset)
                && old(self).reaches(chunk.next_offset),
            result is Ok ==> final(self).next_offset == chunk.next_offset
                && final(self).terminal_target == old(self).terminal_target,
    {
        chunk.validate()?;
        if chunk.stream != self.stream {
            return Err(protocol_error("log chunk stream does not match cursor"));
        }
        if chunk.offset != self.next_offset {
            return Err(protocol_error("log chunk offset does not match cursor"));
        }
        if let Some(target) = self.terminal_target {
            if chunk.next_offset > target {
                return Err(protocol_error("log chunk crosses terminal byte length"));
            }
        }
        let empty = chunk.next_offset == chunk.offset;
        self.next_offset = chunk.next_offset;
        self.eof_confirmed = empty && self.terminal_target == Some(self.next_offset);
        self.validate()
    }

    /// Why a log of this length cannot be the one that was read so far.
    pub open spec fn target_fault(self, bytes: u64) -> Option<Seq<char>> {
        earliest(
            fault_if(
                bytes < self.next_offset,
                "terminal log byte length precedes the cursor"@,
            ),
            fault_if(
                self.terminal_target matches Some(current) && current != bytes,
                "terminal log byte length changed"@,
            ),
        )
    }

    pub open spec fn targeting(self, bytes: u64) -> LogCursor {
        LogCursor { terminal_target: Some(bytes), eof_confirmed: false, ..self }
    }

    /// Learns the log's final length. It may be learned again, but not change;
    /// a change takes back a confirmed end.
    pub fn set_terminal_target(&mut self, bytes: u64) -> (result: Result<(), WorkerError>)
        ensures
            outcome_of(result, old(self).target_fault(bytes)),
            *final(self) == (if result is Ok {
                old(self).targeting(bytes)
            } else if bytes < old(self).next_offset {
                *old(self)
            } else {
                LogCursor { eof_confirmed: false, ..*old(self) }
            }),
            old(self).valid() ==> final(self).valid(),
            result is Ok <==> old(self).next_offset <= bytes && (old(self).terminal_target is None
                || old(self).terminal_target == Some(bytes)),
            result is Ok ==> final(self).terminal_target == Some(bytes)
                && final(self).next_offset == old(self).next_offset && final(self).stream
                == old(self).stream,
    {
        if bytes < self.next_offset {
            return Err(protocol_error("terminal log byte length precedes the cursor"));
        }
        if let Some(current) = self.terminal_target {
            if current != bytes {
                self.eof_confirmed = false;
                return Err(protocol_error("terminal log byte length changed"));
            }
        }
        self.terminal_target = Some(bytes);
        self.eof_confirmed = false;
        self.validate()
    }

    pub fn is_drained(&self) -> (drained: bool)
        ensures
            drained == self.drained(),
            drained ==> self.terminal_target == Some(self.next_offset),
    {
        self.eof_confirmed && self.terminal_target == Some(self.next_offset)
    }

    pub fn stream(&self) -> (value: LogStream)
        ensures
            value == self.stream,
    {
        self.stream
    }

    pub fn next_offset(&self) -> (value: u64)
        ensures
            value == self.next_offset,
    {
        self.next_offset
    }

    pub fn limit(&self) -> (value: u32)
        ensures
            value == self.limit,
    {
        self.limit
    }

    pub fn terminal_target(&self) -> (value: Option<u64>)
        ensures
            value == self.terminal_target,
    {
        self.terminal_target
    }

}

/// Reads both logs of an ended job to their ends, and checks that the job's
/// status did not change meanwhile.
#[derive(Debug, PartialEq, Eq)]
pub struct TerminalLogDrain {
    pub stdout: LogCursor,
    pub stderr: LogCursor,
    pub terminal: Option<StatusResponse>,
    pub status_revalidated: bool,
}

impl TerminalLogDrain {
    /// Both cursors are sound, aim at the lengths that the recorded status
    /// binds, and are drained where that status has been confirmed.
    pub open spec fn wf(&self) -> bool {
        &&& self.stdout.stream == LogStream::Stdout
        &&& self.stderr.stream == LogStream::Stderr
        &&& self.stdout.valid()
        &&& self.stderr.valid()
        &&& self.terminal matches Some(response) ==> {
            &&& response@.status.state.terminal()
            &&& self.stdout.terminal_target == response@.status.final_stdout_bytes
            &&& self.stderr.terminal_target == response@.status.final_stderr_bytes
        }
        &&& self.status_revalidated ==> self.terminal is Some && self.stdout.drained()
            && self.stderr.drained()
    }

    pub fn new(stdout: LogCursor, stderr: LogCursor) -> (result: Result<
        TerminalLogDrain,
        WorkerError,
    >)
        ensures
            outcome_of(
                result,
                earliest(
                    fault_if(
                        !stdout.valid() || !stderr.valid(),
                        "log cursor state is inconsistent"@,
                    ),
                    fault_if(
                        stdout.stream != LogStream::Stdout || stderr.stream != LogStream::Stderr,
                        "terminal log drain requires stdout and stderr cursors"@,
                    ),
                ),
            ),
            result matches Ok(drain) ==> drain == (TerminalLogDrain {
                stdout,
                stderr,
                terminal: None,
                status_revalidated: false,
            }) && drain.wf(),
    {
        stdout.validate()?;
        stderr.validate()?;
        if stdout.stream != LogStream::Stdout || stderr.stream != LogStream::Stderr {
            return Err(protocol_error("terminal log drain requires stdout and stderr cursors"));
        }
        Ok(TerminalLogDrain { stdout, stderr, terminal: None, status_revalidated: false })
    }

    pub open spec fn cursor_of(&self, stream: LogStream) -> LogCursor {
        match stream {
            LogStream::Stdout => self.stdout,
            LogStream::Stderr => self.stderr,
        }
    }

    pub fn cursor(&self, stream: LogStream) -> (cursor: &LogCursor)
        ensures
            *cursor == self.cursor_of(stream),
    {
        match stream {
            LogStream::Stdout => &self.stdout,
            LogStream::Stderr => &self.stderr,
        }
    }

    /// Moves the cursor of the chunk's log. Every chunk takes back a confirmed
    /// status.
    pub fn observe_chunk(&mut self, chunk: &LogChunk) -> (result: Result<(), WorkerError>)
        ensures
            outcome_of(result, old(self).cursor_of(chunk.stream).chunk_fault(chunk)),
            *final(self) == (if result is Err {
                *old(self)
            } else if chunk.stream == LogStream::Stdout {
                TerminalLogDrain {
                    stdout: old(self).stdout.behind(chunk),
                    status_revalidated: false,
                    ..*old(self)
                }
            } else {
                TerminalLogDrain {
                    stderr: old(self).stderr.behind(chunk),
                    status_revalidated: false,
                    ..*old(self)
                }
            }),
            old(self).wf() ==> final(self).wf(),
            result is Ok <==> carries(
                chunk,
                chunk.stream,
                (match chunk.stream {
                    LogStream::Stdout => old(self).stdout,
                    LogStream::Stderr => old(self).stderr,
                }).next_offset,
            ) && old(self).cursor_of(chunk.stream).stream == chunk.stream && old(self).cursor_of(
                chunk.stream,
            ).reaches(chunk.next_offset),
    {
        match chunk.stream {
            LogStream::Stdout => {
                let mut cursor = self.stdout;
                cursor.observe_chunk(chunk)?;
                self.stdout = cursor;
            },
            LogStream::Stderr => {
                let mut cursor = self.stderr;
                cursor.observe_chunk(chunk)?;
                self.stderr = cursor;
            },
        }
        self.status_revalidated = false;
        Ok(())
    }

    /// Why a response is no ended status at all.
    pub open spec fn unusable(response: StatusResponseModel) -> Option<Seq<char>> {
        earliest(
            response.fault(),
            fault_if(
                !response.status.state.terminal(),
                "log drain status is not terminal"@,
            ),
        )
    }

    /// Another ended status was recorded before.
    pub open spec fn contradicts(&self, response: StatusResponseModel) -> bool {
        self.terminal matches Some(current) && current@ != response
    }

    /// Records the job's ended status, and aims both cursors at its lengths. A
    /// refused status leaves the cursors as they were.
    pub fn set_terminal_status(&mut self, response: &StatusResponse) -> (result: Result<
        (),
        WorkerError,
    >)
        ensures
            ({
                let refused = TerminalLogDrain::unusable(response@);
                let changed = fault_if(
                    old(self).contradicts(response@),
                    "terminal log status changed"@,
                );
                let misaimed = earliest(
                    old(self).stdout.target_fault(response@.status.final_stdout_bytes->0),
                    old(self).stderr.target_fault(response@.status.final_stderr_bytes->0),
                );
                if refused is Some {
                    outcome_of(result, refused) && *final(self) == *old(self)
                } else if changed is Some {
                    outcome_of(result, changed) && *final(self) == (TerminalLogDrain {
                        status_revalidated: false,
                        ..*old(self)
                    })
                } else if misaimed is Some {
                    outcome_of(result, misaimed) && *final(self) == *old(self)
                } else {
                    result is Ok && *final(self) == (TerminalLogDrain {
                        stdout: old(self).stdout.targeting(
                            response@.status.final_stdout_bytes->0,
                        ),
                        stderr: old(self).stderr.targeting(
                            response@.status.final_stderr_bytes->0,
                        ),
                        terminal: Some(*response),
                        status_revalidated: false,
                    })
                }
            }),
            old(self).wf() ==> final(self).wf(),
            result is Ok <==> {
                &&& response@.fault() is None
                &&& response.status.state.terminal()
                &&& old(self).terminal matches Some(known) ==> known@ == response@
                &&& old(self).stdout.next_offset <= response.status.final_stdout_bytes->0
                &&& old(self).stderr.next_offset <= response.status.final_stderr_bytes->0
                &&& old(self).stdout.terminal_target matches Some(length) ==> Some(length)
                    == response.status.final_stdout_bytes
                &&& old(self).stderr.terminal_target matches Some(length) ==> Some(length)
                    == response.status.final_stderr_bytes
            },
            result is Ok ==> final(self).stdout.terminal_target
                == response.status.final_stdout_bytes && final(self).stderr.terminal_target
                == response.status.final_stderr_bytes && final(self).terminal == Some(*response),
    {
        response.validate()?;
        if !response.status.state.is_terminal() {
            return Err(protocol_error("log drain status is not terminal"));
        }
        if let Some(current) = &self.terminal {
            if !current.same(response) {
                self.status_revalidated = false;
                return Err(protocol_error("terminal log status changed"));
            }
        }
        let stdout_target: u64 = response.status.final_stdout_bytes.unwrap();
        let stderr_target: u64 = response.status.final_stderr_bytes.unwrap();
        let mut stdout = self.stdout;
        let mut stderr = self.stderr;
        stdout.set_terminal_target(stdout_target)?;
        stderr.set_terminal_target(stderr_target)?;
        self.stdout = stdout;
        self.stderr = stderr;
        self.terminal = Some(response.clone());
        self.status_revalidated = false;
        Ok(())
    }

    /// Confirms, once both logs are drained, that the status still stands.
    pub fn revalidate_terminal_status(&mut self, response: &StatusResponse) -> (result: Result<
        (),
        WorkerError,
    >)
        ensures
            outcome_of(
                result,
                earliest(
                    fault_if(
                        !old(self).stdout.drained() || !old(self).stderr.drained(),
                        "terminal logs are not both confirmed at EOF"@,
                    ),
                    earliest(
                        response@.fault(),
                        earliest(
                            fault_if(
                                old(self).terminal is None,
                                "terminal log status is absent"@,
                            ),
                            fault_if(
                                old(self).contradicts(response@),
                                "terminal log status changed"@,
                            ),
                        ),
                    ),
                ),
            ),
            *final(self) == (TerminalLogDrain {
                status_revalidated: result is Ok,
                ..*old(self)
            }),
            old(self).wf() ==> final(self).wf(),
            result is Ok <==> {
                &&& old(self).stdout.drained() && old(self).stderr.drained()
                &&& response@.fault() is None
                &&& old(self).terminal matches Some(known) && known@ == response@
            },
            final(self).complete() <==> result is Ok,
    {
        self.status_revalidated = false;
        if !self.stdout.is_drained() || !self.stderr.is_drained() {
            return Err(protocol_error("terminal logs are not both confirmed at EOF"));
        }
        response.validate()?;
        match &self.terminal {
            None => {
                return Err(protocol_error("terminal log status is absent"));
            },
            Some(expected) => {
                if !expected.same(response) {
                    return Err(protocol_error("terminal log status changed"));
                }
            },
        }
        self.status_revalidated = true;
        Ok(())
    }

    pub open spec fn complete(&self) -> bool {
        self.stdout.drained() && self.stderr.drained() && self.status_revalidated
    }

    pub fn is_complete(&self) -> (complete: bool)
        ensures
            complete == self.complete(),
    {
        self.stdout.is_drained() && self.stderr.is_drained() && self.status_revalidated
    }
}

/// A host's answer with one chunk.
#[derive(Debug, PartialEq, Eq)]
pub struct LogChunkResponse {
    pub protocol_version: u32,
    pub chunk: LogChunk,
}

impl LogChunkResponse {
    pub open spec fn fault(&self) -> Option<Seq<char>> {
        earliest(
            fault_if(
                self.protocol_version != PROTOCOL_VERSION,
                "log chunk response has an incompatible protocol version"@,
            ),
            self.chunk.fault(),
        )
    }

    pub fn new(chunk: LogChunk) -> (result: Result<LogChunkResponse, WorkerError>)
        ensures
            outcome_of(result, chunk.fault()),
            result matches Ok(response) ==> response == (LogChunkResponse {
                protocol_version: PROTOCOL_VERSION,
                chunk,
            }),
    {
        let response = LogChunkResponse { protocol_version: PROTOCOL_VERSION, chunk };
        response.validate()?;
        Ok(response)
    }

    pub fn validate(&self) -> (result: Result<(), WorkerError>)
        ensures
            outcome_of(result, self.fault()),
    {
        if self.protocol_version != PROTOCOL_VERSION {
            return Err(protocol_error("log chunk response has an incompatible protocol version"));
        }
        self.chunk.validate()
    }

    pub fn protocol_version(&self) -> (value: u32)
        ensures
            value == self.protocol_version,
    {
        self.protocol_version
    }

    pub fn chunk(&self) -> (value: &LogChunk)
        ensures
            *value == self.chunk,
    {
        &self.chunk
    }

    pub fn into_chunk(self) -> (chunk: LogChunk)
        ensures
            chunk == self.chunk,
    {
        self.chunk
    }
}

/// A request for a job's status and both logs at once.
#[derive(Debug, Clone, Copy, PartialEq, Eq, Structural)]
pub struct StatusLogsRequest {
    pub protocol_version: u32,
    pub job_id: JobId,
    pub stdout_offset: u64,
    pub stdout_limit: u32,
    pub stderr_offset: u64,
    pub stderr_limit: u32,
}

impl StatusLogsRequest {
    pub fn new(
        job_id: JobId,
        stdout_offset: u64,
        stdout_limit: u32,
        stderr_offset: u64,
        stderr_limit: u32,
    ) -> (request: StatusLogsRequest)
        ensures
            request == (StatusLogsRequest {
                protocol_version: PROTOCOL_VERSION,
                job_id,
                stdout_offset,
                stdout_limit,
                stderr_offset,
                stderr_limit,
            }),
    {
        StatusLogsRequest {
            protocol_version: PROTOCOL_VERSION,
            job_id,
            stdout_offset,
            stdout_limit,
            stderr_offset,
            stderr_limit,
        }
    }

    pub fn validate(&self) -> (result: Result<(), WorkerError>)
        ensures
            outcome_of(
                result,
                fault_if(
                    self.protocol_version != PROTOCOL_VERSION,
                    "status-logs request has an incompatible protocol version"@,
                ),
            ),
    {
        if self.protocol_version != PROTOCOL_VERSION {
            return Err(protocol_error("status-logs request has an incompatible protocol version"));
        }
        Ok(())
    }

    pub fn protocol_version(&self) -> (value: u32)
        ensures
            value == self.protocol_version,
    {
        self.protocol_version
    }

    pub fn job_id(&self) -> (value: JobId)
        ensures
            value == self.job_id,
    {
        self.job_id
    }

    pub fn stdout_offset(&self) -> (value: u64)
        ensures
            value == self.stdout_offset,
    {
        self.stdout_offset
    }

    pub fn stdout_limit(&self) -> (value: u32)
        ensures
            value == self.stdout_limit,
    {
        self.stdout_limit
    }

    pub fn stderr_offset(&self) -> (value: u64)
        ensures
            value == self.stderr_offset,
    {
        self.stderr_offset
    }

    pub fn stderr_limit(&self) -> (value: u32)
        ensures
            value == self.stderr_limit,
    {
        self.stderr_limit
    }

}

/// A job's status with the next chunk of each log.
#[derive(Debug, PartialEq, Eq)]
pub struct StatusLogsResponse {
    pub protocol_version: u32,
    pub status: StatusResponse,
    pub stdout: LogChunk,
    pub stderr: LogChunk,
}

impl StatusLogsResponse {
    pub open spec fn fault(&self) -> Option<Seq<char>> {
        earliest(
            fault_if(
                self.protocol_version != PROTOCOL_VERSION,
                "status-logs response has an incompatible protocol version"@,
            ),
            earliest(
                self.status@.fault(),
                earliest(
                    self.stdout.fault(),
                    earliest(
                        self.stderr.fault(),
                        fault_if(
                            self.stdout.stream != LogStream::Stdout || self.stderr.stream
                                != LogStream::Stderr,
                            "status-logs chunks do not match stdout and stderr"@,
                        ),
                    ),
                ),
            ),
        )
    }

    pub fn new(status: StatusResponse, stdout: LogChunk, stderr: LogChunk) -> (result: Result<
        StatusLogsResponse,
        WorkerError,
    >)
        ensures
            ({
                let response = StatusLogsResponse {
                    protocol_version: PROTOCOL_VERSION,
                    status,
                    stdout,
                    stderr,
                };
                &&& outcome_of(result, response.fault())
                &&& result matches Ok(made) ==> made == response
            }),
    {
        let response = StatusLogsResponse {
            protocol_version: PROTOCOL_VERSION,
            status,
            stdout,
            stderr,
        };
        response.validate()?;
        Ok(response)
    }

    pub fn validate(&self) -> (result: Result<(), WorkerError>)
        ensures
            outcome_of(result, self.fault()),
    {
        if self.protocol_version != PROTOCOL_VERSION {
            return Err(protocol_error("status-logs response has an incompatible protocol version"));
        }
        self.status.validate()?;
        self.stdout.validate()?;
        self.stderr.validate()?;
        if self.stdout.stream != LogStream::Stdout || self.stderr.stream != LogStream::Stderr {
            return Err(protocol_error("status-logs chunks do not match stdout and stderr"));
        }
        Ok(())
    }

    pub fn protocol_version(&self) -> (value: u32)
        ensures
            value == self.protocol_version,
    {
        self.protocol_version
    }

    pub fn status(&self) -> (value: &StatusResponse)
        ensures
            *value == self.status,
    {
        &self.status
    }

    pub fn stdout(&self) -> (value: &LogChunk)
        ensures
            *value == self.stdout,
    {
        &self.stdout
    }

    pub fn stderr(&self) -> (value: &LogChunk)
        ensures
            *value == self.stderr,
    {
        &self.stderr
    }

    pub fn into_parts(self) -> (parts: (StatusResponse, LogChunk, LogChunk))
        ensures
            parts == (self.status, self.stdout, self.stderr),
    {
        (self.status, self.stdout, self.stderr)
    }
}

/// A complete drain has read each log to exactly the length that the job's
/// ended status binds, under a status that was confirmed afterwards.
pub proof fn complete_drains_hold_whole_logs(drain: TerminalLogDrain)
    requires
        drain.wf(),
        drain.complete(),
    ensures
        drain.terminal matches Some(response) && response@.status.final_stdout_bytes == Some(
            drain.stdout.next_offset,
        ) && response@.status.final_stderr_bytes == Some(drain.stderr.next_offset)
            && response@.status.state.terminal(),
{
}

/// The end of a log is confirmed only by an empty chunk at its known length:
/// one that carries bytes never drains a cursor.
pub proof fn only_empty_chunks_drain(cursor: LogCursor, chunk: LogChunk)
    requires
        cursor.chunk_fault(&chunk) is None,
        chunk.next_offset > chunk.offset,
    ensures
        !cursor.behind(&chunk).drained(),
        cursor.next_offset < cursor.behind(&chunk).next_offset,
{
}

/// Two chunks that follow each other carry the log's bytes without gap or
/// overlap.
pub proof fn chunks_join_without_gaps(cursor: LogCursor, first: LogChunk, second: LogChunk)
    requires
        cursor.chunk_fault(&first) is None,
        cursor.behind(&first).chunk_fault(&second) is None,
    ensures
        second.offset == first.next_offset,
        second.next_offset == cursor.next_offset + first.content()->0.len()
            + second.content()->0.len(),
{
}

/// The cursor after some chunks were shown to it in turn; `None` once one was
/// refused.
pub open spec fn after_chunks(cursor: LogCursor, chunks: Seq<LogChunk>) -> Option<LogCursor>
    decreases chunks.len(),
{
    if chunks.len() == 0 {
        Some(cursor)
    } else if cursor.chunk_fault(&chunks[0]) is Some {
        None
    } else {
        after_chunks(cursor.behind(&chunks[0]), chunks.drop_first())
    }
}

/// The chunks carry a log from one offset to another, each from where the last
/// one ended.
pub open spec fn splits_log(chunks: Seq<LogChunk>, stream: LogStream, start: u64, end: u64) -> bool
    decreases chunks.len(),
{
    if chunks.len() == 0 {
        start == end
    } else {
        carries(&chunks[0], stream, start) && splits_log(
            chunks.drop_first(),
            stream,
            chunks[0].next_offset,
            end,
        )
    }
}

/// A chunk is accepted exactly where it carries bytes of the cursor's log from
/// the cursor on, and does not pass the log's end where that is known; and it
/// moves the cursor to its own end.
pub proof fn fitting_chunks_move_the_cursor(cursor: LogCursor, chunk: LogChunk)
    ensures
        cursor.chunk_fault(&chunk) is None <==> carries(&chunk, cursor.stream, cursor.next_offset)
            && cursor.reaches(chunk.next_offset),
        cursor.chunk_fault(&chunk) is None ==> {
            let next = cursor.behind(&chunk);
            &&& next.next_offset == chunk.next_offset
            &&& next.stream == cursor.stream
            &&& next.limit == cursor.limit
            &&& next.terminal_target == cursor.terminal_target
            &&& next.eof_confirmed <==> base64_bytes(chunk.data@)->0.len() == 0
                && cursor.terminal_target == Some(chunk.next_offset)
        },
{
}

proof fn splits_end_no_earlier(chunks: Seq<LogChunk>, stream: LogStream, start: u64, end: u64)
    requires
        splits_log(chunks, stream, start, end),
    ensures
        start <= end,
        chunks.len() > 0 ==> start <= chunks[0].next_offset <= end,
    decreases chunks.len(),
{
    if chunks.len() > 0 {
        splits_end_no_earlier(chunks.drop_first(), stream, chunks[0].next_offset, end);
    }
}

/// However a log is split into chunks, the cursor follows them to their end.
pub proof fn split_logs_are_followed(cursor: LogCursor, chunks: Seq<LogChunk>, end: u64)
    requires
        splits_log(chunks, cursor.stream, cursor.next_offset, end),
        cursor.reaches(end),
    ensures
        after_chunks(cursor, chunks) matches Some(last) && last.next_offset == end && last.stream
            == cursor.stream && last.terminal_target == cursor.terminal_target,
    decreases chunks.len(),
{
    splits_end_no_earlier(chunks, cursor.stream, cursor.next_offset, end);
    if chunks.len() > 0 {
        fitting_chunks_move_the_cursor(cursor, chunks[0]);
        split_logs_are_followed(cursor.behind(&chunks[0]), chunks.drop_first(), end);
    }
}

/// An ended job's log, split in any way into chunks that are followed by an
/// empty one, drains the cursor that knows its length.
pub proof fn split_logs_drain(cursor: LogCursor, chunks: Seq<LogChunk>, closing: LogChunk)
    requires
        cursor.terminal_target matches Some(length) && splits_log(
            chunks,
            cursor.stream,
            cursor.next_offset,
            length,
        ) && carries(&closing, cursor.stream, length) && closing.next_offset == length,
    ensures
        after_chunks(cursor, chunks) matches Some(last) && last.chunk_fault(&closing) is None
            && last.behind(&closing).drained(),
{
    let length = cursor.terminal_target->0;
    split_logs_are_followed(cursor, chunks, length);
    fitting_chunks_move_the_cursor(after_chunks(cursor, chunks)->0, closing);
}

/// A cursor that has passed some bytes has seen chunks for exactly those bytes.
pub proof fn followed_chunks_split_the_log(cursor: LogCursor, chunks: Seq<LogChunk>)
    requires
        after_chunks(cursor, chunks) is Some,
    ensures
        splits_log(
            chunks,
            cursor.stream,
            cursor.next_offset,
            after_chunks(cursor, chunks)->0.next_offset,
        ),
    decreases chunks.len(),
{
    if chunks.len() > 0 {
        fitting_chunks_move_the_cursor(cursor, chunks[0]);
        followed_chunks_split_the_log(cursor.behind(&chunks[0]), chunks.drop_first());
    }
}

} // verus!
