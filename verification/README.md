# mac_worker

The rules of a small fleet of Mac workers that run agent tasks and commands over
SSH, with their contracts proved by Verus.

A laptop queues work and talks to hosts. A host leases its slots, publishes jobs,
launches a supervisor for each, and answers what became of it. Everything that
decides something stands in `src/` as a function from plain values to plain
values: what the files hold and what a call returned comes in as evidence, and
what to do next comes out as a step. `app/` reads files, runs processes, prints,
and turns JSON into the records of the library.

## Layout

| Part | What it holds |
| --- | --- |
| `src/job/` | identifiers, commands, requests, leases, status, logs, the queue and its journal |
| `src/job_service/` | what a host does to submit, query, cancel, resolve and run turns |
| `src/lease.rs`, `src/lease_laws.rs` | slots: acquiring, reclaiming and releasing them |
| `src/host_store.rs` | index entries and dispositions of jobs |
| `src/laptop.rs`, `src/keychain.rs`, `src/onboarding.rs`, `src/manifest.rs` | locks of the laptop, unlocking, setting up a fleet, source manifests |
| `src/wire.rs` | what a host accepts on standard input and how it refuses |
| `src/dispatch.rs`, `src/task_options.rs`, `src/controller.rs`, `src/freeze.rs` | which part of the program a command line reaches |
| `src/report.rs`, `src/report_json.rs` | the lines and the JSON that commands print |
| `src/outside.rs` | every call into another crate, with what is believed of it |
| `app/` | the program around the library; not verified |

## Reading the contracts

A check that can fail in several ways has a `fault` function: the complaint that
a value deserves, or `None`. The executable check returns that complaint exactly,
in the order in which the `fault` function lists them. A function that decides on
evidence returns a `Step` or a `Route` enum, and its `ensures` says which one for
every evidence. Laws that relate several functions are public proof functions
beside them.
