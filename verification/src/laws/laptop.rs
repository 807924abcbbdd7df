//! Which processes of a laptop run a replaced binary, and what is said of them.
use vstd::prelude::*;
use vstd::string::*;
use crate::json_laws::{decimals_spell_their_number, digit_char};
use crate::laptop::{
    all_numbers, cli_kind, clock_seconds, elapsed_days, elapsed_seconds, file_name, first_outdated,
    last_name, named_all, outdated_among, outdated_warning, process_models, process_row,
    process_rows, replaced, saturated, BinaryIdentity, LaptopCliKind, LaptopProcess, Moment,
    OutdatedLaptopCli, ProcessModel,
};
use crate::laws::texts::written_numbers_read_back;
use crate::text::{decimal, join, texts, unsigned_number};
use crate::words::{cut_at, find, find_bounds, parts, parts_from, words};

verus! {

/// A binary was replaced where both files are known and differ in their path,
/// their inode, their size or the time of their last change.
pub proof fn replaced_binaries_differ(started: BinaryIdentity, installed: BinaryIdentity)
    ensures
        replaced(Some(started), Some(installed)) <==> started.path@ != installed.path@
            || started.inode != installed.inode || started.size != installed.size
            || started.mtime_millis != installed.mtime_millis,
        !replaced(None, Some(installed)) && !replaced(Some(started), None) && !replaced(None, None),
{
}

/// Of two moments the earlier one has fewer seconds, or as many seconds and
/// fewer nanoseconds; a moment some seconds ago is that much earlier.
pub proof fn moments_are_in_order(left: Moment, right: Moment, third: Moment, seconds: nat)
    ensures
        left.earlier(right) || right.earlier(left) || left == right,
        !(left.earlier(right) && right.earlier(left)),
        !left.earlier(left),
        left.earlier(right) && right.earlier(third) ==> left.earlier(third),
        left.seconds < right.seconds ==> left.earlier(right),
        left.ago(seconds) matches Some(moment) ==> moment.seconds + seconds == left.seconds
            && moment.nanos == left.nanos,
        left.ago(seconds) is None <==> left.seconds - seconds < -0x8000_0000_0000_0000,
{
}

/// What a process and a list of processes say.
pub proof fn processes_say_everything(processes: Seq<LaptopProcess>, at: int)
    requires
        0 <= at < processes.len(),
    ensures
        process_models(processes).len() == processes.len(),
        process_models(processes)[at].pid == processes[at].pid,
        process_models(processes)[at].started_at == processes[at].started_at,
        process_models(processes)[at].args.len() == processes[at].args@.len(),
        forall|i: int|
            0 <= i < processes[at].args@.len() ==> #[trigger] process_models(processes)[at].args[i]
                == processes[at].args@[i]@,
{
}

proof fn marks_are_found_alike(head: Seq<char>, mark: char, tail: Seq<char>, from: int)
    requires
        0 <= from <= head.len(),
    ensures
        find(head, mark, from) < head.len() ==> find(head + seq![mark] + tail, mark, from) == find(
            head,
            mark,
            from,
        ),
        find(head, mark, from) >= head.len() ==> find(head + seq![mark] + tail, mark, from)
            == head.len(),
    decreases head.len() - from,
{
    let text = head + seq![mark] + tail;
    if from < head.len() {
        assert(text[from] == head[from]);
        if head[from] != mark {
            marks_are_found_alike(head, mark, tail, from + 1);
        }
    } else {
        assert(text[from] == mark);
    }
}

proof fn tails_are_searched_alike(head: Seq<char>, mark: char, tail: Seq<char>, from: int)
    requires
        0 <= from <= tail.len(),
    ensures
        find(head + seq![mark] + tail, mark, head.len() + 1 + from) == head.len() + 1 + find(
            tail,
            mark,
            from,
        ),
    decreases tail.len() - from,
{
    let text = head + seq![mark] + tail;
    if from < tail.len() {
        assert(text[head.len() + 1 + from] == tail[from]);
        if tail[from] != mark {
            tails_are_searched_alike(head, mark, tail, from + 1);
        }
    }
}

proof fn tails_are_parted_alike(head: Seq<char>, mark: char, tail: Seq<char>, from: int)
    requires
        0 <= from <= tail.len(),
    ensures
        parts_from(head + seq![mark] + tail, mark, head.len() + 1 + from) == parts_from(
            tail,
            mark,
            from,
        ),
    decreases tail.len() - from,
{
    let text = head + seq![mark] + tail;
    let start = head.len() + 1 + from;
    tails_are_searched_alike(head, mark, tail, from);
    find_bounds(tail, mark, from);
    let at = find(tail, mark, from);
    if at >= tail.len() {
        assert(text.subrange(start, text.len() as int) =~= tail.subrange(from, tail.len() as int));
    } else {
        assert(text.subrange(start, head.len() + 1 + at) =~= tail.subrange(from, at));
        tails_are_parted_alike(head, mark, tail, at + 1);
    }
}

proof fn parts_follow_each_other_from(head: Seq<char>, mark: char, tail: Seq<char>, from: int)
    requires
        0 <= from <= head.len(),
    ensures
        parts_from(head + seq![mark] + tail, mark, from) == parts_from(head, mark, from) + parts(
            tail,
            mark,
        ),
    decreases head.len() - from,
{
    let text = head + seq![mark] + tail;
    marks_are_found_alike(head, mark, tail, from);
    find_bounds(head, mark, from);
    let at = find(head, mark, from);
    if at >= head.len() {
        assert(text.subrange(from, head.len() as int) =~= head.subrange(from, head.len() as int));
        tails_are_parted_alike(head, mark, tail, 0);
        assert(parts_from(text, mark, from) =~= parts_from(head, mark, from) + parts(tail, mark));
    } else {
        assert(text.subrange(from, at) =~= head.subrange(from, at));
        parts_follow_each_other_from(head, mark, tail, at + 1);
        assert(parts_from(text, mark, from) =~= parts_from(head, mark, from) + parts(tail, mark));
    }
}

/// The parts of two texts with a mark between them are those of the first,
/// followed by those of the second; a text without marks is one part.
pub proof fn parts_follow_each_other(head: Seq<char>, mark: char, tail: Seq<char>)
    ensures
        parts(head + seq![mark] + tail, mark) == parts(head, mark) + parts(tail, mark),
        (forall|i: int| 0 <= i < head.len() ==> head[i] != mark) ==> parts(head, mark) == seq![head],
{
    parts_follow_each_other_from(head, mark, tail, 0);
    find_bounds(head, mark, 0);
    if forall|i: int| 0 <= i < head.len() ==> head[i] != mark {
        assert(find(head, mark, 0) == head.len());
        assert(head.subrange(0, head.len() as int) =~= head);
    }
}

proof fn last_names_stay(components: Seq<Seq<char>>, more: Seq<Seq<char>>, count: int)
    requires
        0 <= count <= components.len(),
    ensures
        last_name(components + more, count) == last_name(components, count),
    decreases count,
{
    if count > 0 {
        assert((components + more)[count - 1] == components[count - 1]);
        last_names_stay(components, more, count - 1);
    }
}

/// The name of a file is what stands behind the last slash of its path;
/// slashes behind it, and a dot behind them, change nothing.
pub proof fn files_are_named_last(directory: Seq<char>, name: Seq<char>, path: Seq<char>)
    requires
        name.len() > 0,
        name != seq!['.'],
        forall|i: int| 0 <= i < name.len() ==> name[i] != '/',
    ensures
        file_name(name) == Some(name),
        file_name(directory + seq!['/'] + name) == Some(name),
        file_name(path + seq!['/']) == file_name(path),
        file_name(path + seq!['/', '.']) == file_name(path),
        file_name(Seq::empty()) is None,
{
    reveal_strlit(".");
    assert("."@ =~= seq!['.']);
    parts_follow_each_other(name, '/', name);
    assert(last_name(seq![name], 1) == Some(name));
    parts_follow_each_other(directory, '/', name);
    let led = parts(directory, '/') + seq![name];
    assert(led[led.len() - 1] == name);
    let nothing = Seq::<char>::empty();
    parts_follow_each_other(nothing, '/', nothing);
    parts_follow_each_other(path, '/', nothing);
    assert(path + seq!['/'] + nothing =~= path + seq!['/']);
    let components = parts(path, '/');
    let ended = components + seq![nothing];
    assert(ended[ended.len() - 1] == nothing);
    last_names_stay(components, seq![nothing], components.len() as int);
    let dot = seq!['.'];
    parts_follow_each_other(dot, '/', nothing);
    parts_follow_each_other(path, '/', dot);
    assert(path + seq!['/'] + dot =~= path + seq!['/', '.']);
    let dotted = components + seq![dot];
    assert(dotted[dotted.len() - 1] == dot);
    last_names_stay(components, seq![dot], components.len() as int);
    assert(last_name(seq![nothing], 1) == last_name(seq![nothing], 0));
}

/// A process is a dashboard or a controller where its file is the worker's and
/// its next arguments say so, whatever follows them.
pub proof fn commands_are_told_by_their_arguments(args: Seq<Seq<char>>)
    ensures
        cli_kind(args) == Some(LaptopCliKind::Dashboard) <==> args.len() >= 2 && file_name(args[0])
            == Some("worker"@) && args[1] == "dashboard"@,
        cli_kind(args) == Some(LaptopCliKind::ControllerRun) <==> args.len() >= 3 && file_name(
            args[0],
        ) == Some("worker"@) && args[1] == "controller"@ && args[2] == "run"@,
{
    reveal_strlit("dashboard");
    reveal_strlit("controller");
    assert("dashboard"@.len() == 9);
    assert("controller"@.len() == 10);
}

/// Every long-running command that was started before the installed binary is
/// among the outdated ones.
pub proof fn older_commands_are_outdated(
    processes: Seq<ProcessModel>,
    installed: Moment,
    at: int,
    count: int,
)
    requires
        0 <= at < count <= processes.len(),
        cli_kind(processes[at].args) is Some,
        processes[at].started_at.earlier(installed),
    ensures
        outdated_among(processes, installed, count).contains(
            OutdatedLaptopCli {
                pid: processes[at].pid,
                kind: cli_kind(processes[at].args)->0,
            },
        ),
    decreases count,
{
    let item = OutdatedLaptopCli {
        pid: processes[at].pid,
        kind: cli_kind(processes[at].args)->0,
    };
    let all = outdated_among(processes, installed, count);
    let found = outdated_among(processes, installed, count - 1);
    if at == count - 1 {
        assert(all[all.len() - 1] == item);
    } else {
        older_commands_are_outdated(processes, installed, at, count - 1);
        let k = choose|k: int| 0 <= k < found.len() && found[k] == item;
        assert(all[k] == item);
    }
}

/// The outdated processes come in the order of the table, one for each, and
/// eight of them at most are named: the first ones.
pub proof fn outdated_processes_come_in_order(
    processes: Seq<ProcessModel>,
    next: ProcessModel,
    installed: Moment,
)
    ensures
        outdated_among(processes.push(next), installed, (processes.len() + 1) as int) == outdated_among(
            processes,
            installed,
            processes.len() as int,
        ) + if cli_kind(next.args) is Some && next.started_at.earlier(installed) {
            seq![OutdatedLaptopCli { pid: next.pid, kind: cli_kind(next.args)->0 }]
        } else {
            seq![]
        },
        first_outdated(processes, installed).len() <= 8,
        outdated_among(processes, installed, processes.len() as int).len() <= 8 ==> first_outdated(
            processes,
            installed,
        ) == outdated_among(processes, installed, processes.len() as int),
        outdated_among(processes, installed, processes.len() as int).len() > 8 ==> first_outdated(
            processes,
            installed,
        ) == outdated_among(processes, installed, processes.len() as int).subrange(0, 8),
{
    let longer = processes.push(next);
    outdated_is_decided_by_the_first(processes, longer, installed, processes.len() as int);
    assert(longer[processes.len() as int] == next);
    let all = outdated_among(processes, installed, processes.len() as int);
    assert(all + seq![] =~= all);
    if cli_kind(next.args) is Some {
        let item = OutdatedLaptopCli { pid: next.pid, kind: cli_kind(next.args)->0 };
        assert(all.push(item) =~= all + seq![item]);
    }
}

proof fn outdated_is_decided_by_the_first(
    processes: Seq<ProcessModel>,
    others: Seq<ProcessModel>,
    installed: Moment,
    count: int,
)
    requires
        0 <= count <= processes.len(),
        count <= others.len(),
        forall|i: int| 0 <= i < count ==> processes[i] == others[i],
    ensures
        outdated_among(processes, installed, count) == outdated_among(others, installed, count),
    decreases count,
{
    if count > 0 {
        outdated_is_decided_by_the_first(processes, others, installed, count - 1);
        assert(processes[count - 1] == others[count - 1]);
    }
}

/// What a warning says of one outdated process, of two, and of none.
pub proof fn warnings_name_the_processes(first: OutdatedLaptopCli, second: OutdatedLaptopCli)
    ensures
        outdated_warning(Seq::empty()) is None,
        outdated_warning(seq![first]) == Some(
            first.named() + " was started before the installed binary; restart it"@,
        ),
        outdated_warning(seq![first, second]) == Some(
            first.named() + " and "@ + second.named()
                + " were started before the installed binary; restart them"@,
        ),
        (first.kind is Dashboard ==> first.named() == "worker dashboard"@ + " (pid "@ + decimal(
            first.pid as nat,
        ) + ")"@),
        (first.kind is ControllerRun ==> first.named() == "worker controller run"@ + " (pid "@
            + decimal(first.pid as nat) + ")"@),
{
    let names = named_all(seq![first, second]);
    assert(names =~= seq![first.named(), second.named()]);
    assert(names.drop_last() =~= seq![first.named()]);
    assert(join(names.drop_last(), " and "@) == first.named());
    assert(join(names, " and "@) == first.named() + " and "@ + second.named());
}

/// A warning names every outdated process, in order, with a word between each
/// two of them.
pub proof fn warnings_name_every_process(outdated: Seq<OutdatedLaptopCli>)
    requires
        outdated.len() > 1,
    ensures
        outdated_warning(outdated) == Some(
            join(Seq::new(outdated.len(), |i: int| outdated[i].named()), " and "@)
                + " were started before the installed binary; restart them"@,
        ),
{
    assert(named_all(outdated) =~= Seq::new(outdated.len(), |i: int| outdated[i].named()));
}

proof fn decimals_hold_no_mark(n: nat, mark: char)
    requires
        !digit_char(mark),
    ensures
        forall|i: int| 0 <= i < decimal(n).len() ==> decimal(n)[i] != mark,
{
    decimals_spell_their_number(n);
    assert forall|i: int| 0 <= i < decimal(n).len() implies decimal(n)[i] != mark by {
        assert(digit_char(decimal(n)[i]));
    }
}

proof fn numbers_are_read_in_order(values: Seq<Seq<char>>, numbers: Seq<nat>, count: int)
    requires
        values.len() == numbers.len(),
        0 <= count <= values.len(),
        forall|i: int| 0 <= i < values.len() ==> values[i] == decimal(#[trigger] numbers[i]),
        forall|i: int| 0 <= i < numbers.len() ==> #[trigger] numbers[i] <= u64::MAX,
    ensures
        all_numbers(values, count) == Some(numbers.take(count)),
    decreases count,
{
    if count > 0 {
        numbers_are_read_in_order(values, numbers, count - 1);
        assert(values[count - 1] == decimal(numbers[count - 1]));
        written_numbers_read_back(numbers[count - 1], u64::MAX as nat);
        assert(numbers.take(count - 1).push(numbers[count - 1]) =~= numbers.take(count));
    } else {
        assert(numbers.take(0) =~= seq![]);
    }
}

proof fn uncut_texts_have_no_days(value: Seq<char>)
    requires
        forall|i: int| 0 <= i < value.len() ==> value[i] != '-',
    ensures
        elapsed_days(value) == Some((0nat, value)),
{
    find_bounds(value, '-', 0);
}

/// An elapsed time is read as it is written: seconds, minutes and seconds,
/// hours, minutes and seconds, and days before them.
pub proof fn elapsed_times_read_back(days: nat, hours: nat, minutes: nat, seconds: nat)
    requires
        days <= 0xffff_ffff,
        hours <= 0xffff_ffff,
        minutes <= 0xffff_ffff,
        seconds <= 0xffff_ffff,
    ensures
        elapsed_seconds(decimal(seconds)) == Some(seconds),
        elapsed_seconds(decimal(minutes) + seq![':'] + decimal(seconds)) == Some(
            minutes * 60 + seconds,
        ),
        elapsed_seconds(
            decimal(hours) + seq![':'] + (decimal(minutes) + seq![':'] + decimal(seconds)),
        ) == Some(hours * 3600 + minutes * 60 + seconds),
        elapsed_seconds(
            decimal(days) + seq!['-'] + (decimal(hours) + seq![':'] + (decimal(minutes) + seq![':']
                + decimal(seconds))),
        ) == Some(days * 86400 + hours * 3600 + minutes * 60 + seconds),
{
    let d = decimal(days);
    let h = decimal(hours);
    let m = decimal(minutes);
    let s = decimal(seconds);
    decimals_hold_no_mark(days, '-');
    decimals_hold_no_mark(hours, '-');
    decimals_hold_no_mark(minutes, '-');
    decimals_hold_no_mark(seconds, '-');
    decimals_hold_no_mark(hours, ':');
    decimals_hold_no_mark(minutes, ':');
    decimals_hold_no_mark(seconds, ':');
    let short = m + seq![':'] + s;
    let long = h + seq![':'] + short;
    let whole = d + seq!['-'] + long;
    uncut_texts_have_no_days(s);
    uncut_texts_have_no_days(short);
    uncut_texts_have_no_days(long);
    parts_follow_each_other(s, ':', s);
    parts_follow_each_other(m, ':', s);
    parts_follow_each_other(h, ':', short);
    assert(parts(short, ':') =~= seq![m, s]);
    assert(parts(long, ':') =~= seq![h, m, s]);
    numbers_are_read_in_order(seq![s], seq![seconds], 1);
    numbers_are_read_in_order(seq![m, s], seq![minutes, seconds], 2);
    numbers_are_read_in_order(seq![h, m, s], seq![hours, minutes, seconds], 3);
    assert(seq![seconds].take(1) =~= seq![seconds]);
    assert(seq![minutes, seconds].take(2) =~= seq![minutes, seconds]);
    assert(seq![hours, minutes, seconds].take(3) =~= seq![hours, minutes, seconds]);
    assert(clock_seconds(seq![seconds]) == Some(seconds));
    assert(clock_seconds(seq![minutes, seconds]) == Some(minutes * 60 + seconds));
    assert(clock_seconds(seq![hours, minutes, seconds]) == Some(
        hours * 3600 + minutes * 60 + seconds,
    ));
    marks_are_found_alike(d, '-', long, 0);
    find_bounds(d, '-', 0);
    assert(find(whole, '-', 0) == d.len());
    assert(whole.subrange(0, d.len() as int) =~= d);
    assert(whole.subrange(d.len() as int + 1, whole.len() as int) =~= long);
    assert(cut_at(whole, '-') == Some((d, long)));
    written_numbers_read_back(days, u64::MAX as nat);
}

/// A time that is too long for the clock counts as the longest there is, and no
/// time is shorter for having more days, hours, minutes or seconds.
pub proof fn long_times_saturate(numbers: Seq<nat>, days: nat, value: nat)
    ensures
        saturated(value) <= u64::MAX,
        value <= u64::MAX ==> saturated(value) == value,
        value > u64::MAX ==> saturated(value) == u64::MAX,
        clock_seconds(numbers) is Some <==> 1 <= numbers.len() <= 3,
        clock_seconds(seq![days, value]) == Some(
            if days * 60 + value > u64::MAX {
                u64::MAX as nat
            } else {
                days * 60 + value
            },
        ),
{
}

/// A row of the process table gives its process: the number, a start as long
/// ago as the process has run, and all the arguments. Fewer than three words, a
/// number or a time that cannot be read, and a start before the clock give none.
pub proof fn rows_give_their_process(line: Seq<char>, now: Moment)
    ensures
        process_row(line, now) is Some <==> words(line).len() >= 3 && unsigned_number(
            words(line)[0],
            0xffff_ffff,
        ) is Some && elapsed_seconds(words(line)[1]) is Some && now.seconds - elapsed_seconds(
            words(line)[1],
        )->0 >= -0x8000_0000_0000_0000,
        process_row(line, now) matches Some(process) ==> process.pid == unsigned_number(
            words(line)[0],
            0xffff_ffff,
        )->0 && process.started_at.seconds + elapsed_seconds(words(line)[1])->0 == now.seconds
            && process.started_at.nanos == now.nanos && process.args.len() == words(line).len() - 2
            && (forall|i: int|
            0 <= i < process.args.len() ==> #[trigger] process.args[i] == words(line)[i + 2]),
{
    let read = unsigned_number(words(line)[0], 0xffff_ffff);
    if read is Some {
        assert(read->0 <= 0xffff_ffff);
    }
}

/// The rows of a table are read one after the other; a row that gives no
/// process is passed over.
pub proof fn rows_are_read_in_order(rows: Seq<Seq<char>>, next: Seq<char>, now: Moment)
    ensures
        process_rows(rows.push(next), now, (rows.len() + 1) as int) == process_rows(
            rows,
            now,
            rows.len() as int,
        ) + match process_row(next, now) {
            Some(process) => seq![process],
            None => seq![],
        },
        process_rows(rows, now, 0).len() == 0,
{
    let longer = rows.push(next);
    rows_are_decided_by_the_first(rows, longer, now, rows.len() as int);
    assert(longer[rows.len() as int] == next);
    let all = process_rows(rows, now, rows.len() as int);
    assert(all + seq![] =~= all);
    if let Some(process) = process_row(next, now) {
        assert(all.push(process) =~= all + seq![process]);
    }
}

proof fn rows_are_decided_by_the_first(
    rows: Seq<Seq<char>>,
    others: Seq<Seq<char>>,
    now: Moment,
    count: int,
)
    requires
        0 <= count <= rows.len(),
        count <= others.len(),
        forall|i: int| 0 <= i < count ==> rows[i] == others[i],
    ensures
        process_rows(rows, now, count) == process_rows(others, now, count),
    decreases count,
{
    if count > 0 {
        rows_are_decided_by_the_first(rows, others, now, count - 1);
        assert(rows[count - 1] == others[count - 1]);
    }
}

} // verus!
