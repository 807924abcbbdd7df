//! Jobs: what is asked, queued, leased, run and reported.
pub mod checks;
pub mod command;
pub mod control;
pub mod debug_text;
pub mod ids;
pub mod logs;
pub mod observation;
pub mod queue;
pub mod record;
pub mod request;
pub mod status;

use vstd::prelude::*;

verus! {

/// The version of every request and response between a laptop and a host.
pub const PROTOCOL_VERSION: u32 = 1;

pub const MAX_ARG_COUNT: usize = 256;

pub const MAX_ARG_BYTES: usize = 16384;

pub const MAX_COMMAND_BYTES: usize = 131072;

pub const MAX_LOG_CHUNK_BYTES: usize = 65536;

pub const MAX_TIMEOUT_MILLIS: u64 = 86400000;

pub const MAX_CONTROL_CODE_BYTES: usize = 128;

pub const MAX_CONTROL_MESSAGE_BYTES: usize = 4096;

pub const MAX_FLEET_RECONCILE_IDS: usize = 100;

} // verus!
