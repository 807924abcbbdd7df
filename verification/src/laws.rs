//! What the operations are for: which inputs they accept, and what their results
//! have to do with one another.
pub mod commands;
pub mod control;
pub mod controller;
pub mod debug;
pub mod dispatch;
pub mod errors;
pub mod files;
pub mod fingerprint;
pub mod init;
pub mod jobs;
pub mod laptop;
pub mod leases;
pub mod logs;
pub mod manifest;
pub mod names;
pub mod options;
pub mod outcomes;
pub mod pieces;
pub mod queue;
pub mod reasons;
pub mod records;
pub mod refusals;
pub mod remains;
pub mod report;
pub mod report_json;
pub mod settle;
pub mod setup;
pub mod slots;
pub mod status;
pub mod submit;
pub mod texts;
pub mod turns;
pub mod wire;
pub mod workers;
