//! Long-running laptop processes that still run a replaced binary.
//!
//! A running process cannot pick up a new binary, so a laptop warns about
//! dashboards and controllers that were started before the installed file was
//! written.
use vstd::prelude::*;
use vstd::string::*;
use crate::error::WorkerError;
use crate::outside::{lossy_text, text_from_utf8_lossy};
use crate::text::{
    clone_texts, decimal, decimal_text, join, joined, opt_text, parse_unsigned, text_eq, texts,
    texts_eq, unsigned_number,
};
use crate::words::{cut_at, cut_once, lines, parts, split_lines, split_parts, split_words, words};

verus! {

/// The file that a long-running process was started from. A replaced file
/// differs in at least one of these.
#[derive(Debug, PartialEq, Eq)]
pub struct BinaryIdentity {
    pub path: String,
    pub inode: u64,
    pub size: u64,
    pub mtime_millis: u64,
}

/// What a [`BinaryIdentity`] says.
pub struct BinaryModel {
    pub path: Seq<char>,
    pub inode: u64,
    pub size: u64,
    pub mtime_millis: u64,
}

impl View for BinaryIdentity {
    type V = BinaryModel;

    open spec fn view(&self) -> BinaryModel {
        BinaryModel {
            path: self.path@,
            inode: self.inode,
            size: self.size,
            mtime_millis: self.mtime_millis,
        }
    }
}

impl Clone for BinaryIdentity {
    fn clone(&self) -> (copy: BinaryIdentity)
        ensures
            copy == *self,
    {
        BinaryIdentity {
            path: self.path.clone(),
            inode: self.inode,
            size: self.size,
            mtime_millis: self.mtime_millis,
        }
    }
}

impl BinaryIdentity {
    /// Whether two records say the same.
    pub fn same(&self, other: &BinaryIdentity) -> (same: bool)
        ensures
            same == (self@ == other@),
    {
        text_eq(self.path.as_str(), other.path.as_str())
            && self.inode == other.inode
            && self.size == other.size
            && self.mtime_millis == other.mtime_millis
    }
}

/// Where a process learns which file it was started from, and which file is
/// installed there now.
pub trait BinaryIdentitySource {
    fn started(&self) -> (identity: Option<BinaryIdentity>);

    fn installed(&self) -> (identity: Option<BinaryIdentity>);
}

/// Two identities that never change.
#[derive(Debug)]
pub struct FixedBinaryIdentitySource {
    pub started: Option<BinaryIdentity>,
    pub installed: Option<BinaryIdentity>,
}

fn clone_identity(identity: &Option<BinaryIdentity>) -> (copy: Option<BinaryIdentity>)
    ensures
        copy == *identity,
{
    match identity {
        Some(held) => Some(held.clone()),
        None => None,
    }
}

impl BinaryIdentitySource for FixedBinaryIdentitySource {
    fn started(&self) -> (identity: Option<BinaryIdentity>)
        ensures
            identity == self.started,
    {
        clone_identity(&self.started)
    }

    fn installed(&self) -> (identity: Option<BinaryIdentity>)
        ensures
            identity == self.installed,
    {
        clone_identity(&self.installed)
    }
}

/// Both identities are known, and they differ.
pub open spec fn replaced(started: Option<BinaryIdentity>, installed: Option<BinaryIdentity>) -> bool {
    started is Some && installed is Some && started->0@ != installed->0@
}

pub fn identities_differ(
    started: &Option<BinaryIdentity>,
    installed: &Option<BinaryIdentity>,
) -> (differ: bool)
    ensures
        differ == replaced(*started, *installed),
{
    match (started, installed) {
        (Some(old_file), Some(new_file)) => !old_file.same(new_file),
        _ => false,
    }
}

/// Whether the process runs a file that has been replaced, by what the source
/// says now.
pub fn binary_is_outdated<S: BinaryIdentitySource>(source: &S) -> (outdated: bool)
    ensures
        exists|started: Option<BinaryIdentity>, installed: Option<BinaryIdentity>|
            call_ensures(S::started, (source,), started) && call_ensures(
                S::installed,
                (source,),
                installed,
            ) && outdated == #[trigger] replaced(started, installed),
{
    let started = source.started();
    let installed = source.installed();
    identities_differ(&started, &installed)
}

/// A moment of the system clock: whole seconds since the epoch, which may lie
/// before it, and the nanoseconds after them.
#[derive(Debug, Clone, Copy, PartialEq, Eq, Structural)]
pub struct Moment {
    pub seconds: i64,
    pub nanos: u32,
}

impl Moment {
    pub open spec fn earlier(self, other: Moment) -> bool {
        self.seconds < other.seconds || (self.seconds == other.seconds && self.nanos < other.nanos)
    }

    pub fn is_before(self, other: Moment) -> (before: bool)
        ensures
            before == self.earlier(other),
    {
        self.seconds < other.seconds || (self.seconds == other.seconds && self.nanos < other.nanos)
    }

    /// The moment that many seconds ago, where the clock can show it.
    pub open spec fn ago(self, seconds: nat) -> Option<Moment> {
        if self.seconds - seconds < i64::MIN {
            None
        } else {
            Some(Moment { seconds: (self.seconds - seconds) as i64, nanos: self.nanos })
        }
    }

    pub fn seconds_ago(self, seconds: u64) -> (moment: Option<Moment>)
        ensures
            moment == self.ago(seconds as nat),
    {
        let earlier: i128 = self.seconds as i128 - seconds as i128;
        if earlier < -0x8000_0000_0000_0000i128 {
            None
        } else {
            Some(Moment { seconds: earlier as i64, nanos: self.nanos })
        }
    }
}

/// One row of the laptop's process table.
#[derive(Debug, PartialEq, Eq)]
pub struct LaptopProcess {
    pub pid: u32,
    pub started_at: Moment,
    pub args: Vec<String>,
}

/// What a [`LaptopProcess`] says.
pub struct ProcessModel {
    pub pid: u32,
    pub started_at: Moment,
    pub args: Seq<Seq<char>>,
}

impl View for LaptopProcess {
    type V = ProcessModel;

    open spec fn view(&self) -> ProcessModel {
        ProcessModel {
            pid: self.pid,
            started_at: self.started_at,
            args: texts(self.args@),
        }
    }
}

impl Clone for LaptopProcess {
    fn clone(&self) -> (copy: LaptopProcess)
        ensures
            copy@ == self@,
    {
        LaptopProcess {
            pid: self.pid,
            started_at: self.started_at,
            args: clone_texts(&self.args),
        }
    }
}

impl LaptopProcess {
    /// Whether two records say the same.
    pub fn same(&self, other: &LaptopProcess) -> (same: bool)
        ensures
            same == (self@ == other@),
    {
        self.pid == other.pid
            && self.started_at == other.started_at
            && texts_eq(&self.args, &other.args)
    }
}

/// What a list of processes says.
pub open spec fn process_models(processes: Seq<LaptopProcess>) -> Seq<ProcessModel> {
    processes.map_values(|process: LaptopProcess| process@)
}

/// Where a laptop learns which processes run on it.
pub trait LaptopProcessTable {
    fn list(&self) -> (result: Result<Vec<LaptopProcess>, WorkerError>);
}

/// A table without processes.
pub struct EmptyLaptopProcessTable;

impl LaptopProcessTable for EmptyLaptopProcessTable {
    fn list(&self) -> (result: Result<Vec<LaptopProcess>, WorkerError>)
        ensures
            result matches Ok(processes) && processes@.len() == 0,
    {
        Ok(Vec::new())
    }
}

/// A table whose processes never change.
#[derive(Debug)]
pub struct FixedLaptopProcessTable {
    pub processes: Vec<LaptopProcess>,
}

impl LaptopProcessTable for FixedLaptopProcessTable {
    fn list(&self) -> (result: Result<Vec<LaptopProcess>, WorkerError>)
        ensures
            result matches Ok(processes) && process_models(processes@) == process_models(
                self.processes@,
            ),
    {
        let mut copies: Vec<LaptopProcess> = Vec::new();
        let mut i: usize = 0;
        while i < self.processes.len()
            invariant
                i <= self.processes@.len(),
                copies@.len() == i,
                forall|j: int| 0 <= j < i ==> #[trigger] copies@[j]@ == self.processes@[j]@,
            decreases self.processes.len() - i,
        {
            copies.push(self.processes[i].clone());
            i += 1;
        }
        assert(process_models(copies@) =~= process_models(self.processes@));
        Ok(copies)
    }
}

#[derive(Debug, Clone, Copy, PartialEq, Eq, Structural)]
pub enum LaptopCliKind {
    Dashboard,
    ControllerRun,
}

impl LaptopCliKind {
    pub open spec fn spelling(self) -> Seq<char> {
        match self {
            LaptopCliKind::Dashboard => "worker dashboard"@,
            LaptopCliKind::ControllerRun => "worker controller run"@,
        }
    }

    pub fn command(self) -> (command: &'static str)
        ensures
            command@ == self.spelling(),
    {
        match self {
            LaptopCliKind::Dashboard => "worker dashboard",
            LaptopCliKind::ControllerRun => "worker controller run",
        }
    }
}

#[derive(Debug, Clone, Copy, PartialEq, Eq, Structural)]
pub struct OutdatedLaptopCli {
    pub pid: u32,
    pub kind: LaptopCliKind,
}

/// The last of some path components that names anything.
pub open spec fn last_name(components: Seq<Seq<char>>, count: int) -> Option<Seq<char>>
    decreases count,
{
    if count <= 0 {
        None
    } else if components[count - 1].len() == 0 || components[count - 1] == "."@ {
        last_name(components, count - 1)
    } else {
        Some(components[count - 1])
    }
}

/// The name of the file that a path leads to; a path to a parent directory
/// shows as `..`.
pub open spec fn file_name(path: Seq<char>) -> Option<Seq<char>> {
    last_name(parts(path, '/'), parts(path, '/').len() as int)
}

fn names_worker(path: &str) -> (named: bool)
    ensures
        named == (file_name(path@) == Some("worker"@)),
{
    let components = split_parts(path, '/');
    let ghost all = parts(path@, '/');
    let mut count: usize = components.len();
    while count > 0
        invariant
            count <= components@.len(),
            texts(components@) == all,
            all == parts(path@, '/'),
            file_name(path@) == last_name(all, count as int),
        decreases count,
    {
        let name = components[count - 1].as_str();
        assert(all[count - 1] == name@);
        if !name.is_empty() && !text_eq(name, ".") {
            return text_eq(name, "worker");
        }
        count -= 1;
    }
    false
}

/// The long-running command that some arguments start.
pub open spec fn cli_kind(args: Seq<Seq<char>>) -> Option<LaptopCliKind> {
    if args.len() < 2 || file_name(args[0]) != Some("worker"@) {
        None
    } else if args[1] == "dashboard"@ {
        Some(LaptopCliKind::Dashboard)
    } else if args[1] == "controller"@ && args.len() > 2 && args[2] == "run"@ {
        Some(LaptopCliKind::ControllerRun)
    } else {
        None
    }
}

pub fn laptop_cli_kind(args: &[String]) -> (kind: Option<LaptopCliKind>)
    ensures
        kind == cli_kind(texts(args@)),
{
    if args.len() < 2 {
        return None;
    }
    assert(texts(args@)[0] == args@[0]@ && texts(args@)[1] == args@[1]@);
    if !names_worker(args[0].as_str()) {
        return None;
    }
    if text_eq(args[1].as_str(), "dashboard") {
        return Some(LaptopCliKind::Dashboard);
    }
    if text_eq(args[1].as_str(), "controller") && args.len() > 2 {
        assert(texts(args@)[2] == args@[2]@);
        if text_eq(args[2].as_str(), "run") {
            return Some(LaptopCliKind::ControllerRun);
        }
    }
    None
}

/// The first `count` processes that run a long-running command and were started
/// before the installed binary was written.
pub open spec fn outdated_among(processes: Seq<ProcessModel>, installed: Moment, count: int) -> Seq<
    OutdatedLaptopCli,
>
    decreases count,
{
    if count <= 0 {
        seq![]
    } else {
        let found = outdated_among(processes, installed, count - 1);
        let process = processes[count - 1];
        match cli_kind(process.args) {
            Some(kind) => if process.started_at.earlier(installed) {
                found.push(OutdatedLaptopCli { pid: process.pid, kind })
            } else {
                found
            },
            None => found,
        }
    }
}

proof fn outdated_grows(processes: Seq<ProcessModel>, installed: Moment, less: int, more: int)
    requires
        0 <= less <= more,
    ensures
        outdated_among(processes, installed, less).len() <= outdated_among(
            processes,
            installed,
            more,
        ).len(),
        outdated_among(processes, installed, more).take(
            outdated_among(processes, installed, less).len() as int,
        ) == outdated_among(processes, installed, less),
    decreases more - less,
{
    let few = outdated_among(processes, installed, less);
    if less < more {
        outdated_grows(processes, installed, less, more - 1);
        let most = outdated_among(processes, installed, more - 1);
        let all = outdated_among(processes, installed, more);
        assert(all.take(few.len() as int) =~= most.take(few.len() as int));
    } else {
        assert(few.take(few.len() as int) =~= few);
    }
}

/// How many outdated processes a warning names at most.
pub const MAX_OUTDATED_NAMED: usize = 8;

/// The first outdated processes, as many as a warning names.
pub open spec fn first_outdated(processes: Seq<ProcessModel>, installed: Moment) -> Seq<
    OutdatedLaptopCli,
> {
    let all = outdated_among(processes, installed, processes.len() as int);
    if all.len() <= MAX_OUTDATED_NAMED {
        all
    } else {
        all.take(MAX_OUTDATED_NAMED as int)
    }
}

/// The long-running laptop commands that were started before the installed
/// binary was written, eight at most.
pub fn outdated_laptop_cli(processes: &[LaptopProcess], installed_mtime: Moment) -> (outdated: Vec<
    OutdatedLaptopCli,
>)
    ensures
        outdated@ == first_outdated(process_models(processes@), installed_mtime),
{
    let mut outdated: Vec<OutdatedLaptopCli> = Vec::new();
    let ghost models = process_models(processes@);
    let mut i: usize = 0;
    while i < processes.len()
        invariant
            i <= processes@.len(),
            models == process_models(processes@),
            outdated@ == outdated_among(models, installed_mtime, i as int),
            outdated@.len() < MAX_OUTDATED_NAMED,
        decreases processes.len() - i,
    {
        let process = &processes[i];
        assert(models[i as int] == process@);
        if let Some(kind) = laptop_cli_kind(process.args.as_slice()) {
            if process.started_at.is_before(installed_mtime) {
                outdated.push(OutdatedLaptopCli { pid: process.pid, kind });
                if outdated.len() == MAX_OUTDATED_NAMED {
                    proof {
                        outdated_grows(
                            models,
                            installed_mtime,
                            i + 1,
                            processes@.len() as int,
                        );
                        assert(outdated@ == outdated_among(models, installed_mtime, i + 1));
                        let all = outdated_among(
                            models,
                            installed_mtime,
                            processes@.len() as int,
                        );
                        assert(all.take(all.len() as int) =~= all);
                    }
                    return outdated;
                }
            }
        }
        i += 1;
    }
    outdated
}

impl OutdatedLaptopCli {
    pub open spec fn named(self) -> Seq<char> {
        self.kind.spelling() + " (pid "@ + decimal(self.pid as nat) + ")"@
    }
}

/// The names of some outdated processes.
pub open spec fn named_all(outdated: Seq<OutdatedLaptopCli>) -> Seq<Seq<char>> {
    outdated.map_values(|item: OutdatedLaptopCli| item.named())
}

/// The text that names the outdated processes; none where there are none.
pub open spec fn outdated_warning(outdated: Seq<OutdatedLaptopCli>) -> Option<Seq<char>> {
    if outdated.len() == 0 {
        None
    } else if outdated.len() == 1 {
        Some(outdated[0].named() + " was started before the installed binary; restart it"@)
    } else {
        Some(
            join(named_all(outdated), " and "@)
                + " were started before the installed binary; restart them"@,
        )
    }
}

/// A warning that names the outdated processes; none where there are none.
pub fn format_outdated_laptop_cli(outdated: &[OutdatedLaptopCli]) -> (warning: Option<String>)
    ensures
        opt_text(warning) == outdated_warning(outdated@),
{
    if outdated.len() == 0 {
        return None;
    }
    let mut names: Vec<String> = Vec::new();
    let mut i: usize = 0;
    while i < outdated.len()
        invariant
            i <= outdated@.len(),
            names@.len() == i,
            forall|j: int| 0 <= j < i ==> #[trigger] names@[j]@ == outdated@[j].named(),
        decreases outdated.len() - i,
    {
        let item = outdated[i];
        names.push(
            item.kind.command().to_owned().concat(" (pid ").concat(
                decimal_text(item.pid as u64).as_str(),
            ).concat(")"),
        );
        i += 1;
    }
    assert(texts(names@) =~= named_all(outdated@));
    if outdated.len() == 1 {
        let first = names[0].clone();
        Some(first.concat(" was started before the installed binary; restart it"))
    } else {
        Some(
            joined(&names, " and ").concat(
                " were started before the installed binary; restart them",
            ),
        )
    }
}

/// What a set-up warns of: the processes that run an older binary than the one
/// installed, where both can be told.
pub fn laptop_setup_warnings(
    installed_mtime: Option<Moment>,
    processes: Option<Vec<LaptopProcess>>,
) -> (warning: Option<String>)
    ensures
        opt_text(warning) == match (installed_mtime, processes) {
            (Some(installed), Some(listed)) => outdated_warning(
                first_outdated(process_models(listed@), installed),
            ),
            _ => None,
        },
{
    match (installed_mtime, processes) {
        (Some(installed), Some(listed)) => {
            let outdated = outdated_laptop_cli(listed.as_slice(), installed);
            format_outdated_laptop_cli(outdated.as_slice())
        },
        _ => None,
    }
}

/// `value` where it fits, else the largest number.
pub open spec fn saturated(value: nat) -> nat {
    if value > u64::MAX {
        u64::MAX as nat
    } else {
        value
    }
}

/// The numbers that some texts write, if all of them do.
pub open spec fn all_numbers(values: Seq<Seq<char>>, count: int) -> Option<Seq<nat>>
    decreases count,
{
    if count <= 0 {
        Some(seq![])
    } else {
        match (all_numbers(values, count - 1), unsigned_number(values[count - 1], u64::MAX as nat)) {
            (Some(numbers), Some(number)) => Some(numbers.push(number)),
            _ => None,
        }
    }
}

/// The seconds that one to three numbers of an elapsed time write; the steps
/// saturate one by one.
pub open spec fn clock_seconds(numbers: Seq<nat>) -> Option<nat> {
    if numbers.len() == 1 {
        Some(numbers[0])
    } else if numbers.len() == 2 {
        Some(saturated(saturated(numbers[0] * 60) + numbers[1]))
    } else if numbers.len() == 3 {
        Some(
            saturated(
                saturated(saturated(numbers[0] * 3600) + saturated(numbers[1] * 60)) + numbers[2],
            ),
        )
    } else {
        None
    }
}

/// The days of an elapsed time and the rest of it.
pub open spec fn elapsed_days(value: Seq<char>) -> Option<(nat, Seq<char>)> {
    match cut_at(value, '-') {
        None => Some((0, value)),
        Some((days, rest)) => match unsigned_number(days, u64::MAX as nat) {
            Some(number) => Some((number, rest)),
            None => None,
        },
    }
}

/// The seconds of an elapsed time `[[dd-]hh:]mm:ss`; `mm:ss` and `ss` are
/// accepted too.
pub open spec fn elapsed_seconds(value: Seq<char>) -> Option<nat> {
    match elapsed_days(value) {
        None => None,
        Some((days, rest)) => match all_numbers(parts(rest, ':'), parts(rest, ':').len() as int) {
            None => None,
            Some(numbers) => match clock_seconds(numbers) {
                None => None,
                Some(seconds) => Some(saturated(saturated(days * 86400) + seconds)),
            },
        },
    }
}

fn scaled(number: u64, factor: u64) -> (product: u64)
    requires
        0 < factor <= 86400,
    ensures
        product == saturated((number * factor) as nat),
{
    assert(number * factor <= 0xffff_ffff_ffff_ffff * 86400) by (nonlinear_arith)
        requires
            number <= 0xffff_ffff_ffff_ffff,
            factor <= 86400,
    ;
    let wide: u128 = (number as u128) * (factor as u128);
    if wide > 0xffff_ffff_ffff_ffff {
        0xffff_ffff_ffff_ffff
    } else {
        wide as u64
    }
}

fn summed(left: u64, right: u64) -> (sum: u64)
    ensures
        sum == saturated((left + right) as nat),
{
    match left.checked_add(right) {
        Some(sum) => sum,
        None => 0xffff_ffff_ffff_ffff,
    }
}

fn parse_numbers(values: &Vec<String>) -> (numbers: Option<Vec<u64>>)
    ensures
        (match numbers {
            Some(held) => Some(held@.map_values(|number: u64| number as nat)),
            None => None,
        }) == all_numbers(texts(values@), values@.len() as int),
{
    let mut numbers: Vec<u64> = Vec::new();
    let ghost all = texts(values@);
    let mut i: usize = 0;
    assert(numbers@.map_values(|number: u64| number as nat) =~= seq![]);
    while i < values.len()
        invariant
            i <= values@.len(),
            all == texts(values@),
            all_numbers(all, i as int) == Some(numbers@.map_values(|number: u64| number as nat)),
        decreases values.len() - i,
    {
        assert(all[i as int] == values@[i as int]@);
        match parse_unsigned(values[i].as_str(), 0xffff_ffff_ffff_ffff) {
            Some(number) => {
                let ghost before = numbers@;
                numbers.push(number);
                assert(numbers@.map_values(|number: u64| number as nat) =~= before.map_values(
                    |number: u64| number as nat,
                ).push(number as nat));
            },
            None => {
                proof {
                    no_numbers_after(all, i + 1, values@.len() as int);
                }
                return None;
            },
        }
        i += 1;
    }
    Some(numbers)
}

proof fn no_numbers_after(values: Seq<Seq<char>>, less: int, more: int)
    requires
        0 <= less <= more,
        all_numbers(values, less) is None,
    ensures
        all_numbers(values, more) is None,
    decreases more - less,
{
    if less < more {
        no_numbers_after(values, less, more - 1);
    }
}

/// The seconds that a process has run for.
pub fn parse_etime(value: &str) -> (seconds: Option<u64>)
    ensures
        (match seconds {
            Some(held) => Some(held as nat),
            None => None,
        }) == elapsed_seconds(value@),
{
    let halves = cut_once(value, '-');
    let mut days: u64 = 0;
    let rest = match halves {
        Some((head, tail)) => {
            match parse_unsigned(head.as_str(), 0xffff_ffff_ffff_ffff) {
                Some(number) => {
                    days = number;
                },
                None => {
                    return None;
                },
            }
            tail
        },
        None => value.to_owned(),
    };
    assert(elapsed_days(value@) == Some((days as nat, rest@)));
    let fields = split_parts(rest.as_str(), ':');
    let numbers = match parse_numbers(&fields) {
        Some(numbers) => numbers,
        None => {
            return None;
        },
    };
    let ghost plain = numbers@.map_values(|number: u64| number as nat);
    assert(numbers@.len() >= 1 ==> plain[0] == numbers@[0]);
    assert(numbers@.len() >= 2 ==> plain[1] == numbers@[1]);
    assert(numbers@.len() >= 3 ==> plain[2] == numbers@[2]);
    let seconds: u64 = if numbers.len() == 1 {
        numbers[0]
    } else if numbers.len() == 2 {
        summed(scaled(numbers[0], 60), numbers[1])
    } else if numbers.len() == 3 {
        summed(summed(scaled(numbers[0], 3600), scaled(numbers[1], 60)), numbers[2])
    } else {
        return None;
    };
    Some(summed(scaled(days, 86400), seconds))
}

/// The process that a row of the process table describes: its number, how long
/// it has run, and its arguments, of which there must be one.
pub open spec fn process_row(line: Seq<char>, now: Moment) -> Option<ProcessModel> {
    let tokens = words(line);
    if tokens.len() < 3 {
        None
    } else {
        match (unsigned_number(tokens[0], u32::MAX as nat), elapsed_seconds(tokens[1])) {
            (Some(pid), Some(age)) => match now.ago(age) {
                Some(started_at) => Some(
                    ProcessModel {
                        pid: pid as u32,
                        started_at,
                        args: tokens.subrange(2, tokens.len() as int),
                    },
                ),
                None => None,
            },
            _ => None,
        }
    }
}

pub fn parse_ps_line(line: &str, now: Moment) -> (process: Option<LaptopProcess>)
    ensures
        (match process {
            Some(held) => Some(held@),
            None => None,
        }) == process_row(line@, now),
{
    let tokens = split_words(line);
    let ghost all = texts(tokens@);
    if tokens.len() < 3 {
        return None;
    }
    assert(all[0] == tokens@[0]@ && all[1] == tokens@[1]@);
    let pid: u64 = match parse_unsigned(tokens[0].as_str(), 0xffff_ffff) {
        Some(pid) => pid,
        None => {
            return None;
        },
    };
    let age: u64 = match parse_etime(tokens[1].as_str()) {
        Some(age) => age,
        None => {
            return None;
        },
    };
    let started_at = match now.seconds_ago(age) {
        Some(moment) => moment,
        None => {
            return None;
        },
    };
    let mut args: Vec<String> = Vec::new();
    let mut i: usize = 2;
    while i < tokens.len()
        invariant
            2 <= i <= tokens@.len(),
            all == texts(tokens@),
            texts(args@) == all.subrange(2, i as int),
        decreases tokens.len() - i,
    {
        let ghost before = texts(args@);
        args.push(tokens[i].clone());
        assert(texts(args@) =~= before.push(all[i as int]));
        assert(all.subrange(2, i + 1) =~= all.subrange(2, i as int).push(all[i as int]));
        i += 1;
    }
    Some(LaptopProcess { pid: pid as u32, started_at, args })
}

/// The processes that the first `count` rows describe; other rows are passed
/// over.
pub open spec fn process_rows(rows: Seq<Seq<char>>, now: Moment, count: int) -> Seq<ProcessModel>
    decreases count,
{
    if count <= 0 {
        seq![]
    } else {
        let found = process_rows(rows, now, count - 1);
        match process_row(rows[count - 1], now) {
            Some(process) => found.push(process),
            None => found,
        }
    }
}

/// The processes of a table's text.
pub fn parse_ps_text(text: &str, now: Moment) -> (processes: Vec<LaptopProcess>)
    ensures
        process_models(processes@) == process_rows(
            lines(text@),
            now,
            lines(text@).len() as int,
        ),
{
    let rows = split_lines(text);
    let ghost all = texts(rows@);
    let mut processes: Vec<LaptopProcess> = Vec::new();
    assert(process_models(processes@) =~= seq![]);
    let mut i: usize = 0;
    while i < rows.len()
        invariant
            i <= rows@.len(),
            all == texts(rows@),
            process_models(processes@) == process_rows(all, now, i as int),
        decreases rows.len() - i,
    {
        assert(all[i as int] == rows@[i as int]@);
        if let Some(process) = parse_ps_line(rows[i].as_str(), now) {
            let ghost before = process_models(processes@);
            let ghost model = process@;
            processes.push(process);
            assert(process_models(processes@) =~= before.push(model));
        }
        i += 1;
    }
    processes
}

/// The processes of a table as the system prints it.
pub fn parse_ps_table(stdout: &[u8], now: Moment) -> (processes: Vec<LaptopProcess>)
    ensures
        ({
            let rows = lines(lossy_text(stdout@));
            process_models(processes@) == process_rows(rows, now, rows.len() as int)
        }),
{
    let text = text_from_utf8_lossy(stdout);
    parse_ps_text(text.as_str(), now)
}

/// Only a process of the table that runs one of the two commands and was
/// started before the installed binary is ever named as outdated.
pub proof fn only_older_commands_are_outdated(
    processes: Seq<ProcessModel>,
    installed: Moment,
    count: int,
    item: OutdatedLaptopCli,
)
    requires
        0 <= count <= processes.len(),
        outdated_among(processes, installed, count).contains(item),
    ensures
        exists|k: int|
            0 <= k < count && (#[trigger] processes[k]).pid == item.pid && cli_kind(
                processes[k].args,
            ) == Some(item.kind) && processes[k].started_at.earlier(installed),
    decreases count,
{
    if count > 0 {
        let found = outdated_among(processes, installed, count - 1);
        let all = outdated_among(processes, installed, count);
        let at = choose|at: int| 0 <= at < all.len() && all[at] == item;
        if at < found.len() {
            assert(found[at] == item);
            only_older_commands_are_outdated(processes, installed, count - 1, item);
        }
    }
}

} // verus!
