//! The inventory of workers.
use vstd::prelude::*;
use vstd::string::*;
use crate::error::{config_refusal, WorkerError};
use crate::job::checks::{all_bytes, all_in, among_first, ByteClass};
use crate::lease::MAX_HOST_SLOTS;
use crate::outside::{debug_quoted, debug_quoted_text};
use crate::text::{clone_texts, is_digit, is_lower, is_upper, text_eq, texts, texts_eq, utf8};

verus! {

/// A worker of the inventory.
#[derive(Debug, PartialEq, Eq)]
pub struct WorkerEntry {
    pub name: String,
    pub ssh: String,
    pub slots: u8,
    pub capabilities: Vec<String>,
    pub remote_binary: String,
}

/// What a [`WorkerEntry`] says.
pub struct WorkerModel {
    pub name: Seq<char>,
    pub ssh: Seq<char>,
    pub slots: u8,
    pub capabilities: Seq<Seq<char>>,
    pub remote_binary: Seq<char>,
}

impl View for WorkerEntry {
    type V = WorkerModel;

    open spec fn view(&self) -> WorkerModel {
        WorkerModel {
            name: self.name@,
            ssh: self.ssh@,
            slots: self.slots,
            capabilities: texts(self.capabilities@),
            remote_binary: self.remote_binary@,
        }
    }
}

impl Clone for WorkerEntry {
    fn clone(&self) -> (copy: WorkerEntry)
        ensures
            copy@ == self@,
    {
        WorkerEntry {
            name: self.name.clone(),
            ssh: self.ssh.clone(),
            slots: self.slots,
            capabilities: clone_texts(&self.capabilities),
            remote_binary: self.remote_binary.clone(),
        }
    }
}

impl WorkerEntry {
    /// Whether two records say the same.
    pub fn same(&self, other: &WorkerEntry) -> (same: bool)
        ensures
            same == (self@ == other@),
    {
        text_eq(self.name.as_str(), other.name.as_str())
            && text_eq(self.ssh.as_str(), other.ssh.as_str())
            && self.slots == other.slots
            && texts_eq(&self.capabilities, &other.capabilities)
            && text_eq(self.remote_binary.as_str(), other.remote_binary.as_str())
    }
}

/// The inventory and how it is used.
#[derive(Debug, PartialEq, Eq)]
pub struct Config {
    pub version: u32,
    pub workers: Vec<WorkerEntry>,
    pub controller_enabled: bool,
}

/// A name of at least one letter, digit, dot, underscore, hyphen or at sign.
pub open spec fn identifier_ok(value: Seq<char>) -> bool {
    utf8(value).len() > 0 && all_bytes(value, ByteClass::Worker)
}

pub fn valid_identifier(value: &str) -> (valid: bool)
    ensures
        valid == identifier_ok(value@),
{
    value.as_bytes().len() > 0 && all_in(value, ByteClass::Worker)
}

/// An SSH destination that cannot be read as an option of the SSH client: it
/// starts with a letter or a digit.
pub open spec fn ssh_destination_ok(value: Seq<char>) -> bool {
    let bytes = utf8(value);
    &&& identifier_ok(value)
    &&& is_lower(bytes[0]) || is_upper(bytes[0]) || is_digit(bytes[0])
}

pub fn valid_ssh_destination(value: &str) -> (valid: bool)
    ensures
        valid == ssh_destination_ok(value@),
{
    let bytes = value.as_bytes();
    if !valid_identifier(value) {
        return false;
    }
    let first: u8 = bytes[0];
    (0x61 <= first && first <= 0x7a) || (0x41 <= first && first <= 0x5a) || (0x30 <= first && first
        <= 0x39)
}

/// A helper path below the worker account's home.
pub open spec fn remote_binary_ok(value: Seq<char>) -> bool {
    utf8(value).len() > 2 && utf8(value)[0] == 0x7e && utf8(value)[1] == 0x2f
}

/// No text stands twice in a list.
pub open spec fn distinct(items: Seq<Seq<char>>) -> bool {
    forall|i: int, j: int| 0 <= i < j < items.len() ==> items[i] != items[j]
}

impl WorkerModel {
    pub open spec fn valid(self) -> bool {
        &&& identifier_ok(self.name)
        &&& ssh_destination_ok(self.ssh)
        &&& 1 <= self.slots <= MAX_HOST_SLOTS
        &&& distinct(self.capabilities)
        &&& remote_binary_ok(self.remote_binary)
    }
}

pub open spec fn names(workers: Seq<WorkerEntry>) -> Seq<Seq<char>> {
    workers.map_values(|worker: WorkerEntry| worker.name@)
}

pub open spec fn destinations(workers: Seq<WorkerEntry>) -> Seq<Seq<char>> {
    workers.map_values(|worker: WorkerEntry| worker.ssh@)
}

impl Config {
    /// Version 1, with well-formed workers of distinct names and destinations;
    /// at least one, unless a controller holds the inventory.
    pub open spec fn valid(&self) -> bool {
        &&& self.version == 1
        &&& self.workers@.len() > 0 || self.controller_enabled
        &&& forall|i: int| 0 <= i < self.workers@.len() ==> (#[trigger] self.workers@[i])@.valid()
        &&& distinct(names(self.workers@))
        &&& distinct(destinations(self.workers@))
    }

    pub fn validate(&self) -> (result: Result<(), WorkerError>)
        ensures
            result is Ok <==> self.valid(),
            result matches Err(error) ==> error is Config,
    {
        if self.version != 1 {
            return Err(WorkerError::Config("configuration version must be 1".to_owned()));
        }
        if self.workers.len() == 0 && !self.controller_enabled {
            return Err(WorkerError::Config("inventory holds no worker".to_owned()));
        }
        let mut i: usize = 0;
        while i < self.workers.len()
            invariant
                i <= self.workers.len(),
                forall|k: int| 0 <= k < i ==> (#[trigger] self.workers@[k])@.valid(),
                forall|k: int, m: int|
                    0 <= k < m < i ==> names(self.workers@)[k] != names(self.workers@)[m],
                forall|k: int, m: int|
                    0 <= k < m < i ==> destinations(self.workers@)[k] != destinations(
                        self.workers@,
                    )[m],
            decreases self.workers.len() - i,
        {
            let worker = &self.workers[i];
            if !worker_is_valid(worker) {
                assert(!self.workers@[i as int]@.valid());
                return Err(WorkerError::Config("inventory holds an invalid worker".to_owned()));
            }
            let mut j: usize = 0;
            while j < i
                invariant
                    j <= i < self.workers.len(),
                    *worker == self.workers@[i as int],
                    forall|k: int|
                        0 <= k < j ==> names(self.workers@)[k] != worker.name@ && destinations(
                            self.workers@,
                        )[k] != worker.ssh@,
                decreases i - j,
            {
                let earlier = &self.workers[j];
                if text_eq(earlier.name.as_str(), worker.name.as_str()) {
                    assert(names(self.workers@)[j as int] == names(self.workers@)[i as int]);
                    return Err(WorkerError::Config("worker names are not unique".to_owned()));
                }
                if text_eq(earlier.ssh.as_str(), worker.ssh.as_str()) {
                    assert(destinations(self.workers@)[j as int] == destinations(
                        self.workers@,
                    )[i as int]);
                    return Err(WorkerError::Config("SSH destinations are not unique".to_owned()));
                }
                j += 1;
            }
            i += 1;
        }
        Ok(())
    }

    /// The worker of this name.
    pub fn worker(&self, name: &str) -> (found: Option<&WorkerEntry>)
        ensures
            match found {
                Some(worker) => exists|i: int|
                    0 <= i < self.workers@.len() && #[trigger] self.workers@[i] == *worker
                        && worker.name@ == name@ && !names(self.workers@).take(i).contains(name@),
                None => !names(self.workers@).contains(name@),
            },
    {
        let mut i: usize = 0;
        while i < self.workers.len()
            invariant
                i <= self.workers.len(),
                forall|k: int| 0 <= k < i ==> names(self.workers@)[k] != name@,
            decreases self.workers.len() - i,
        {
            if text_eq(self.workers[i].name.as_str(), name) {
                assert(self.workers@[i as int].name@ == name@);
                return Some(&self.workers[i]);
            }
            assert(names(self.workers@)[i as int] != name@);
            i += 1;
        }
        None
    }
}

fn texts_distinct(items: &Vec<String>) -> (all: bool)
    ensures
        all == distinct(texts(items@)),
{
    let mut i: usize = 0;
    while i < items.len()
        invariant
            i <= items.len(),
            forall|k: int, m: int| 0 <= k < m < i ==> texts(items@)[k] != texts(items@)[m],
        decreases items.len() - i,
    {
        assert(texts(items@)[i as int] == items@[i as int]@);
        if among_first(items, i, items[i].as_str()) {
            let ghost k = choose|k: int|
                0 <= k < i && texts(items@).take(i as int)[k] == texts(items@)[i as int];
            assert(texts(items@)[k] == texts(items@)[i as int]);
            return false;
        }
        assert forall|k: int| 0 <= k < i implies texts(items@)[k] != texts(items@)[i as int] by {
            assert(texts(items@).take(i as int)[k] == texts(items@)[k]);
        }
        i += 1;
    }
    true
}

fn worker_is_valid(worker: &WorkerEntry) -> (valid: bool)
    ensures
        valid == worker@.valid(),
{
    let binary = worker.remote_binary.as_str().as_bytes();
    valid_identifier(worker.name.as_str()) && valid_ssh_destination(worker.ssh.as_str()) && 1
        <= worker.slots && worker.slots <= MAX_HOST_SLOTS && texts_distinct(&worker.capabilities)
        && binary.len() > 2 && binary[0] == 0x7e && binary[1] == 0x2f
}

/// The first of the hosts from `at` on that the inventory does not hold.
pub open spec fn first_unknown(hosts: Seq<Seq<char>>, known: Seq<Seq<char>>, at: int) -> Option<
    Seq<char>,
>
    decreases hosts.len() - at,
{
    if at >= hosts.len() {
        None
    } else if !known.contains(hosts[at]) {
        Some(hosts[at])
    } else {
        first_unknown(hosts, known, at + 1)
    }
}

/// The workers that a command names, in the order in which it names them; the
/// whole inventory where it names none.
pub fn select_workers(config: &Config, hosts: &Vec<String>) -> (result: Result<
    Vec<WorkerEntry>,
    WorkerError,
>)
    ensures
        match first_unknown(texts(hosts@), names(config.workers@), 0) {
            Some(host) => result matches Err(error) && config_refusal(
                error,
                "worker "@ + debug_quoted_text(host) + " is not present in the inventory"@,
            ),
            None => result is Ok,
        },
        result matches Ok(selected) ==> if hosts@.len() == 0 {
            &&& selected@.len() == config.workers@.len()
            &&& forall|i: int|
                0 <= i < selected@.len() ==> (#[trigger] selected@[i])@ == config.workers@[i]@
        } else {
            &&& names(selected@) == texts(hosts@)
            &&& forall|i: int|
                0 <= i < selected@.len() ==> exists|j: int|
                    0 <= j < config.workers@.len() && (#[trigger] selected@[i])@
                        == #[trigger] config.workers@[j]@
        },
{
    let mut selected: Vec<WorkerEntry> = Vec::new();
    if hosts.len() == 0 {
        let mut i: usize = 0;
        while i < config.workers.len()
            invariant
                i <= config.workers.len(),
                selected@.len() == i,
                forall|k: int| 0 <= k < i ==> (#[trigger] selected@[k])@ == config.workers@[k]@,
            decreases config.workers.len() - i,
        {
            selected.push(config.workers[i].clone());
            i += 1;
        }
        return Ok(selected);
    }
    let ghost asked = texts(hosts@);
    let ghost known = names(config.workers@);
    let mut i: usize = 0;
    while i < hosts.len()
        invariant
            i <= hosts.len(),
            asked == texts(hosts@),
            known == names(config.workers@),
            first_unknown(asked, known, 0) == first_unknown(asked, known, i as int),
            selected@.len() == i,
            forall|k: int| 0 <= k < i ==> (#[trigger] selected@[k]).name@ == asked[k],
            forall|k: int|
                0 <= k < i ==> exists|j: int|
                    0 <= j < config.workers@.len() && (#[trigger] selected@[k])@
                        == #[trigger] config.workers@[j]@,
        decreases hosts.len() - i,
    {
        assert(asked[i as int] == hosts@[i as int]@);
        match config.worker(hosts[i].as_str()) {
            Some(worker) => {
                let ghost at = choose|j: int|
                    0 <= j < config.workers@.len() && #[trigger] config.workers@[j] == *worker
                        && worker.name@ == hosts@[i as int]@;
                assert(known[at] == asked[i as int]);
                let copy = worker.clone();
                assert(copy@ == config.workers@[at]@);
                selected.push(copy);
            },
            None => {
                return Err(
                    WorkerError::Config(
                        "worker ".to_owned().concat(debug_quoted(hosts[i].as_str()).as_str()).concat(
                            " is not present in the inventory",
                        ),
                    ),
                );
            },
        }
        i += 1;
    }
    assert(names(selected@) =~= texts(hosts@));
    Ok(selected)
}

} // verus!
