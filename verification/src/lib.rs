//! Rules, records and decisions of a fleet of Mac workers that run agent tasks
//! over SSH: queueing, leases, job status, logs, and the wire checks between a
//! laptop and its hosts.
#![allow(unused_imports)]

pub mod config;
pub mod controller;
pub mod dispatch;
pub mod error;
pub mod freeze;
pub mod host_store;
pub mod job;
pub mod job_service;
pub mod json_laws;
pub mod keychain;
pub mod laptop;
pub mod laws;
pub mod lease;
pub mod lease_laws;
pub mod manifest;
pub mod onboarding;
pub mod outside;
pub mod report;
pub mod report_json;
pub mod scheduler;
pub mod task;
pub mod task_options;
pub mod text;
pub mod wire;
pub mod words;
