//! The rules by which the service owns a local worker process: how it is
//! started, recognised, reclaimed, stopped and restarted.
use crate::model::views;
use crate::text::characters;
use crate::text::is_white_space;
use crate::text::joined;
use crate::text::white_space;
use vstd::prelude::*;

verus! {

/// How long a worker that was asked to end is waited for before it is ended by
/// force, in milliseconds.
pub const SHUTDOWN_TIMEOUT_MILLIS: u64 = 10_000;

/// The pause between two looks at a worker, in milliseconds.
pub const RETRY_PAUSE_MILLIS: u64 = 50;

/// The longest row of attempts to restart a worker.
pub const WORKER_RESTART_ATTEMPTS: u32 = 5;

/// The pause before the first attempt to restart a worker, in milliseconds.
pub const WORKER_RESTART_BACKOFF_MILLIS: u64 = 200;

/// The longest pause before an attempt to restart a worker, in milliseconds.
pub const WORKER_RESTART_BACKOFF_MAX_MILLIS: u64 = 5_000;

/// The durable identity of the worker that owns a home. A process ID alone is
/// not enough, because it is reused: the start time tells whether a live
/// process is still the one that was spawned.
#[derive(Clone, Copy, Debug, PartialEq, Eq, Structural)]
pub struct OwnershipRecord {
    pub pid: u32,
    pub start_time: u64,
}

/// What is known of a live process. A zombie has exited and no longer runs.
#[derive(Clone, Copy, Debug, PartialEq, Eq, Structural)]
pub struct ProcessInfo {
    pub start_time: u64,
    pub zombie: bool,
}

/// The index of the last closing parenthesis.
pub open spec fn last_parenthesis(text: Seq<char>) -> Option<int>
    decreases text.len(),
{
    if text.len() == 0 {
        None
    } else if text.last() == ')' {
        Some(text.len() - 1)
    } else {
        last_parenthesis(text.drop_last())
    }
}

/// The runs of characters between white space, in order.
pub open spec fn words(text: Seq<char>) -> Seq<Seq<char>>
    decreases text.len(),
{
    if text.len() == 0 {
        Seq::empty()
    } else {
        let before = words(text.drop_last());
        if white_space(text.last()) {
            before
        } else if text.len() == 1 || white_space(text[text.len() - 2]) {
            before.push(seq![text.last()])
        } else {
            before.drop_last().push(before.last().push(text.last()))
        }
    }
}

/// Whether `c` is a decimal digit.
pub open spec fn decimal_digit(c: char) -> bool {
    '0' <= c <= '9'
}

/// The number that decimal digits write.
pub open spec fn digits_value(digits: Seq<char>) -> nat
    decreases digits.len(),
{
    if digits.len() == 0 {
        0
    } else {
        digits_value(digits.drop_last()) * 10 + (digits.last() as u32 - '0' as u32) as nat
    }
}

/// What `text` writes after a plus sign that it may start with.
pub open spec fn unsigned_digits(text: Seq<char>) -> Seq<char> {
    if text.len() > 0 && text[0] == '+' {
        text.skip(1)
    } else {
        text
    }
}

/// The unsigned 64-bit number that `text` writes: digits, with or without a
/// plus sign before them.
pub open spec fn unsigned_value(text: Seq<char>) -> Option<u64> {
    let digits = unsigned_digits(text);
    if digits.len() > 0 && (forall|i: int| 0 <= i < digits.len() ==> decimal_digit(#[trigger] digits[i]))
        && digits_value(digits) <= u64::MAX {
        Some(digits_value(digits) as u64)
    } else {
        None
    }
}

/// What a process's status line says: after the parenthesised command name
/// come its state and, as the twentieth word, its start time.
pub open spec fn process_info(stat: Seq<char>) -> Option<ProcessInfo> {
    match last_parenthesis(stat) {
        None => None,
        Some(at) => {
            let fields = words(stat.skip(at + 1));
            if fields.len() <= 19 {
                None
            } else {
                match unsigned_value(fields[19]) {
                    None => None,
                    Some(start_time) => Some(
                        ProcessInfo { start_time, zombie: fields[0] == seq!['Z'] },
                    ),
                }
            }
        },
    }
}

/// The process with the record's number lives, and is the one on record.
pub open spec fn same_process(record: OwnershipRecord, info: Option<ProcessInfo>) -> bool {
    match info {
        Some(info) => !info.zombie && info.start_time == record.start_time,
        None => false,
    }
}

proof fn lemma_digits_prefix(digits: Seq<char>, n: int)
    requires
        0 <= n <= digits.len(),
    ensures
        digits_value(digits.take(n)) <= digits_value(digits),
    decreases digits.len(),
{
    if n == digits.len() {
        assert(digits.take(n) =~= digits);
    } else {
        lemma_digits_prefix(digits.drop_last(), n);
        assert(digits.drop_last().take(n) =~= digits.take(n));
    }
}

/// The unsigned 64-bit number that `text` writes.
fn parse_unsigned(text: &Vec<char>) -> (value: Option<u64>)
    ensures
        value == unsigned_value(text@),
{
    let start: usize = if text.len() > 0 && text[0] == '+' {
        1
    } else {
        0
    };
    let ghost digits = unsigned_digits(text@);
    assert(digits =~= text@.skip(start as int));
    if text.len() == start {
        return None;
    }
    let mut total: u64 = 0;
    let mut i: usize = start;
    assert(digits.take(0) =~= Seq::<char>::empty());
    while i < text.len()
        invariant
            start <= i <= text@.len(),
            digits == unsigned_digits(text@),
            digits == text@.skip(start as int),
            total == digits_value(digits.take(i - start)),
            forall|j: int| 0 <= j < i - start ==> decimal_digit(#[trigger] digits[j]),
        decreases text@.len() - i,
    {
        let c = text[i];
        assert(digits[i - start] == c);
        if !('0' <= c && c <= '9') {
            return None;
        }
        proof {
            let next = digits.take(i - start + 1);
            assert(next.drop_last() =~= digits.take(i - start));
            assert(next.last() == c);
            lemma_digits_prefix(digits, i - start + 1);
        }
        let digit: u64 = (c as u32 - '0' as u32) as u64;
        match total.checked_mul(10) {
            None => {
                return None;
            },
            Some(scaled) => match scaled.checked_add(digit) {
                None => {
                    return None;
                },
                Some(sum) => {
                    total = sum;
                },
            },
        }
        i += 1;
    }
    assert(digits.take(i - start) =~= digits);
    Some(total)
}

/// The words of `text` from `start` on.
fn split_words(text: &Vec<char>, start: usize) -> (found: Vec<Vec<char>>)
    requires
        start <= text@.len(),
    ensures
        found@.map_values(|w: Vec<char>| w@) == words(text@.skip(start as int)),
{
    let ghost rest = text@.skip(start as int);
    let mut found: Vec<Vec<char>> = Vec::new();
    let mut i: usize = start;
    assert(rest.take(0) =~= Seq::<char>::empty());
    assert(found@.map_values(|w: Vec<char>| w@) =~= Seq::<Seq<char>>::empty());
    while i < text.len()
        invariant
            start <= i <= text@.len(),
            rest == text@.skip(start as int),
            found@.map_values(|w: Vec<char>| w@) == words(rest.take(i - start)),
            i > start && !white_space(rest[i - start - 1]) ==> found@.len() > 0,
        decreases text@.len() - i,
    {
        let c = text[i];
        let ghost before = found@.map_values(|w: Vec<char>| w@);
        let ghost next = rest.take(i - start + 1);
        proof {
            assert(next.drop_last() =~= rest.take(i - start));
            assert(next.last() == c);
        }
        if !is_white_space(c) {
            if i == start || is_white_space(text[i - 1]) {
                let mut word: Vec<char> = Vec::new();
                word.push(c);
                assert(word@ =~= seq![c]);
                found.push(word);
                assert(found@.map_values(|w: Vec<char>| w@) =~= before.push(seq![c]));
            } else {
                let mut word = found.pop().unwrap();
                let ghost short = word@;
                word.push(c);
                found.push(word);
                assert(found@.map_values(|w: Vec<char>| w@) =~= before.drop_last().push(
                    before.last().push(c),
                ));
            }
        }
        i += 1;
    }
    assert(rest.take(i - start) =~= rest);
    found
}

/// The index after the last closing parenthesis.
fn after_last_parenthesis(text: &Vec<char>) -> (start: Option<usize>)
    ensures
        match start {
            Some(start) => start <= text@.len() && last_parenthesis(text@) == Some(start - 1),
            None => last_parenthesis(text@) is None,
        },
{
    let mut i: usize = text.len();
    assert(text@.take(i as int) =~= text@);
    while i > 0
        invariant
            i <= text@.len(),
            last_parenthesis(text@) == last_parenthesis(text@.take(i as int)),
        decreases i,
    {
        assert(text@.take(i as int).drop_last() =~= text@.take(i - 1));
        if text[i - 1] == ')' {
            return Some(i);
        }
        i -= 1;
    }
    None
}

/// Read a process's start time and whether it has become a zombie from its
/// status line, or nothing where the line does not say.
pub fn probe(stat: &str) -> (info: Option<ProcessInfo>)
    ensures
        info == process_info(stat@),
{
    let text = characters(stat);
    match after_last_parenthesis(&text) {
        None => None,
        Some(start) => {
            let fields = split_words(&text, start);
            let ghost model = words(stat@.skip(start as int));
            assert(fields@.len() == model.len());
            if fields.len() <= 19 {
                return None;
            }
            assert(fields@[19]@ == model[19]);
            assert(fields@[0]@ == model[0]);
            let zombie = fields[0].len() == 1 && fields[0][0] == 'Z';
            assert(zombie == (model[0] =~= seq!['Z']));
            match parse_unsigned(&fields[19]) {
                None => None,
                Some(start_time) => Some(ProcessInfo { start_time, zombie }),
            }
        },
    }
}

/// The process that is signalled to end the worker `pid`: none where the
/// system has no process of that number.
pub fn terminate(pid: u32) -> (target: Option<i32>)
    ensures
        target == if pid <= i32::MAX {
            Some(pid as i32)
        } else {
            None
        },
{
    if pid <= i32::MAX as u32 {
        Some(pid as i32)
    } else {
        None
    }
}

/// What was found of the record of the worker that owns a home.
#[derive(Clone, Copy, Debug, PartialEq, Eq, Structural)]
pub enum FoundRecord {
    /// There is no record.
    Missing,
    /// There is one that cannot be read.
    Unreadable,
    /// A worker is on record.
    Worker(OwnershipRecord),
}

/// What is done about a worker that an earlier process may have left behind.
#[derive(Clone, Copy, Debug, PartialEq, Eq, Structural)]
pub enum Reclaim {
    /// Nothing: no worker is on record.
    Nothing,
    /// The record is removed; nobody is signalled.
    Clear,
    /// The worker is signalled once and waited for until it runs no more; only
    /// then the record is removed.
    Terminate {
        /// The process to signal, if the system has one of that number.
        target: Option<i32>,
    },
}

/// Whether the process of a record still runs: it lives, it is no zombie, and
/// it started when the one on record did. `info` is what is known of the process
/// with the record's number.
pub fn still_runs(record: OwnershipRecord, info: Option<ProcessInfo>) -> (result: bool)
    ensures
        result == same_process(record, info),
{
    match info {
        Some(info) => !info.zombie && info.start_time == record.start_time,
        None => false,
    }
}

/// What is done about a worker that an earlier process may have left behind.
/// `info` is what is known of the process with the record's number.
pub open spec fn reclaiming(found: FoundRecord, info: Option<ProcessInfo>) -> Reclaim {
    match found {
        FoundRecord::Missing => Reclaim::Nothing,
        FoundRecord::Unreadable => Reclaim::Clear,
        FoundRecord::Worker(record) => if same_process(record, info) {
            Reclaim::Terminate {
                target: if record.pid <= i32::MAX {
                    Some(record.pid as i32)
                } else {
                    None
                },
            }
        } else {
            Reclaim::Clear
        },
    }
}

/// What is done about a worker that an earlier process may have left behind.
/// `info` is what is known of the process with the record's number.
pub fn reclaim_orphan(found: FoundRecord, info: Option<ProcessInfo>) -> (step: Reclaim)
    ensures
        step == reclaiming(found, info),
{
    match found {
        FoundRecord::Missing => Reclaim::Nothing,
        FoundRecord::Unreadable => Reclaim::Clear,
        FoundRecord::Worker(record) => if still_runs(record, info) {
            Reclaim::Terminate { target: terminate(record.pid) }
        } else {
            Reclaim::Clear
        },
    }
}

/// Whether a worker that was signalled is waited for any longer: it is for as
/// long as it runs. `info` is what is known now of the process with the record's
/// number.
pub fn waits_for_orphan(record: OwnershipRecord, info: Option<ProcessInfo>) -> (result: bool)
    ensures
        result == same_process(record, info),
{
    still_runs(record, info)
}

/// Whether the record of a worker is removed, and the home given to another
/// worker, after the process with the record's number has been looked at time and
/// again: what was seen first decides whether the worker is signalled, and what
/// is seen after that whether it is waited for.
pub open spec fn cleared_after(record: OwnershipRecord, seen: Seq<Option<ProcessInfo>>) -> bool {
    if seen.len() == 0 {
        false
    } else if seen.len() == 1 {
        reclaiming(FoundRecord::Worker(record), seen[0]) is Clear
    } else {
        &&& reclaiming(FoundRecord::Worker(record), seen[0]) is Terminate
        &&& forall|i: int|
            0 < i < seen.len() - 1 ==> same_process(record, #[trigger] seen[i])
        &&& !same_process(record, seen.last())
    }
}

/// A home is given to another worker only once the worker on record runs no more,
/// and as soon as that is seen: while it runs, however long, the record stays and
/// no other worker is started.
pub proof fn law_home_is_given_on_only_when_free(
    record: OwnershipRecord,
    seen: Seq<Option<ProcessInfo>>,
)
    requires
        seen.len() > 0,
    ensures
        cleared_after(record, seen) ==> !same_process(record, seen.last()),
        cleared_after(record, seen) <==> {
            &&& !same_process(record, seen.last())
            &&& forall|i: int| 0 <= i < seen.len() - 1 ==> same_process(record, #[trigger] seen[i])
        },
{
    let running = forall|i: int|
        0 <= i < seen.len() - 1 ==> same_process(record, #[trigger] seen[i]);
    if seen.len() > 1 {
        if running {
            assert(same_process(record, seen[0]));
        }
        if cleared_after(record, seen) {
            assert forall|i: int| 0 <= i < seen.len() - 1 implies same_process(
                record,
                #[trigger] seen[i],
            ) by {
                if i == 0 {
                    assert(reclaiming(FoundRecord::Worker(record), seen[0]) is Terminate);
                }
            }
        }
    }
}

/// The record that is kept of a worker: none where nothing is known of its
/// process.
pub fn record_worker(pid: Option<u32>, info: Option<ProcessInfo>) -> (record: Option<
    OwnershipRecord,
>)
    ensures
        record == worker_record(pid, info),
{
    match (pid, info) {
        (Some(pid), Some(info)) => Some(OwnershipRecord { pid, start_time: info.start_time }),
        _ => None,
    }
}

/// The record that is kept of a worker: none where nothing is known of its
/// process.
pub open spec fn worker_record(pid: Option<u32>, info: Option<ProcessInfo>) -> Option<
    OwnershipRecord,
> {
    match (pid, info) {
        (Some(pid), Some(info)) => Some(OwnershipRecord { pid, start_time: info.start_time }),
        _ => None,
    }
}

/// A process is signalled only where a worker was put on record under its number
/// and it is still the process of then: one that has exited, or that got the
/// number later, is left alone. `then` is what was known of the worker's process
/// when it was put on record, `later` what is known of the process with its
/// number now.
pub proof fn law_only_own_worker_is_signalled(
    pid: u32,
    then: ProcessInfo,
    later: Option<ProcessInfo>,
)
    ensures
        ({
            let record = worker_record(Some(pid), Some(then));
            let step = reclaiming(FoundRecord::Worker(record->0), later);
            &&& record is Some
            &&& step is Terminate <==> later is Some && !later->0.zombie && later->0.start_time
                == then.start_time
            &&& step matches Reclaim::Terminate { target: Some(target) } ==> target == pid
            &&& step !is Terminate ==> step is Clear
        }),
        reclaiming(FoundRecord::Missing, later) is Nothing,
        reclaiming(FoundRecord::Unreadable, later) is Clear,
{
}

/// How a worker is started.
pub struct Launch {
    /// Its arguments.
    pub arguments: Vec<String>,
    /// What is set in its environment.
    pub set: (String, String),
    /// What is taken out of its environment.
    pub removed: String,
    /// Where it runs.
    pub directory: String,
}

/// How the worker of a home is started so that it listens at a socket. The API
/// token is kept from it.
pub fn launch(home: &str, socket: &str) -> (launch: Launch)
    ensures
        views(launch.arguments@) == seq!["--listen"@, "unix://"@ + socket@, "--strict-config"@],
        launch.set.0@ == "CODEX_HOME"@,
        launch.set.1@ == home@,
        launch.removed@ == "CODEX_AGENTS_API_TOKEN"@,
        launch.directory@ == home@,
{
    let arguments = vec![
        "--listen".to_owned(),
        joined("unix://", socket),
        "--strict-config".to_owned(),
    ];
    assert(views(arguments@) =~= seq!["--listen"@, "unix://"@ + socket@, "--strict-config"@]);
    Launch {
        arguments,
        set: ("CODEX_HOME".to_owned(), home.to_owned()),
        removed: "CODEX_AGENTS_API_TOKEN".to_owned(),
        directory: home.to_owned(),
    }
}

/// What is done first to stop a worker.
#[derive(Clone, Copy, Debug, PartialEq, Eq, Structural)]
pub enum StopStep {
    /// Nothing: it has exited.
    Done,
    /// It cannot be stopped: its process has no number.
    Unknown,
    /// It is asked to end, and waited for.
    Ask {
        /// The process to signal, if the system has one of that number.
        target: Option<i32>,
    },
    /// It is ended by force.
    Force,
}

/// What is done first to stop a worker.
pub open spec fn stopping(exited: bool, pid: Option<u32>) -> StopStep {
    if exited {
        StopStep::Done
    } else {
        match pid {
            None => StopStep::Unknown,
            Some(pid) => StopStep::Ask {
                target: if pid <= i32::MAX {
                    Some(pid as i32)
                } else {
                    None
                },
            },
        }
    }
}

/// What is done first to stop a worker.
pub fn shutdown(exited: bool, pid: Option<u32>) -> (step: StopStep)
    ensures
        step == stopping(exited, pid),
{
    if exited {
        return StopStep::Done;
    }
    match pid {
        None => StopStep::Unknown,
        Some(pid) => StopStep::Ask { target: terminate(pid) },
    }
}

/// What is done once a worker was asked to end.
pub open spec fn stopped(ended: bool, exited: bool) -> StopStep {
    if ended || exited {
        StopStep::Done
    } else {
        StopStep::Force
    }
}

/// What is done once a worker was asked to end: one that could not be asked, or
/// did not end in time, is ended by force, unless it has exited after all.
pub fn finish_shutdown(ended: bool, exited: bool) -> (step: StopStep)
    ensures
        step == stopped(ended, exited),
{
    if ended || exited {
        StopStep::Done
    } else {
        StopStep::Force
    }
}

/// The pause before an attempt to restart a worker, in milliseconds: it doubles
/// from attempt to attempt, up to a limit.
pub open spec fn backoff(attempt: nat) -> nat
    decreases attempt,
{
    if attempt <= 1 {
        WORKER_RESTART_BACKOFF_MILLIS as nat
    } else {
        let doubled = 2 * backoff((attempt - 1) as nat);
        if doubled < WORKER_RESTART_BACKOFF_MAX_MILLIS {
            doubled
        } else {
            WORKER_RESTART_BACKOFF_MAX_MILLIS as nat
        }
    }
}

/// An attempt to restart a worker.
#[derive(Clone, Copy, Debug, PartialEq, Eq, Structural)]
pub struct Restart {
    /// The number of the attempt, from 1.
    pub attempt: u32,
    /// The pause before it, in milliseconds.
    pub pause: u64,
}

impl Restart {
    /// Whether this is an attempt that may be made.
    pub open spec fn well_formed(self) -> bool {
        1 <= self.attempt <= WORKER_RESTART_ATTEMPTS && self.pause == backoff(
            self.attempt as nat,
        )
    }

    /// The first attempt, if there is any.
    pub open spec fn beginning(managed: bool) -> Option<Restart> {
        if managed {
            Some(Restart { attempt: 1, pause: WORKER_RESTART_BACKOFF_MILLIS })
        } else {
            None
        }
    }

    /// The attempt after this one, if there is any.
    pub open spec fn following(self) -> Option<Restart> {
        if self.attempt >= WORKER_RESTART_ATTEMPTS {
            None
        } else {
            Some(
                Restart {
                    attempt: (self.attempt + 1) as u32,
                    pause: if 2 * self.pause < WORKER_RESTART_BACKOFF_MAX_MILLIS {
                        (2 * self.pause) as u64
                    } else {
                        WORKER_RESTART_BACKOFF_MAX_MILLIS
                    },
                },
            )
        }
    }

    /// The first attempt. A worker that somebody else manages is not restarted.
    pub fn first(managed: bool) -> (restart: Option<Restart>)
        ensures
            restart == Restart::beginning(managed),
            restart is Some ==> restart->0.well_formed(),
    {
        if managed {
            Some(Restart { attempt: 1, pause: WORKER_RESTART_BACKOFF_MILLIS })
        } else {
            None
        }
    }

    /// The attempt after one that failed; none where it was the last.
    pub fn next(self) -> (restart: Option<Restart>)
        ensures
            restart == self.following(),
            self.well_formed() && restart is Some ==> restart->0.well_formed(),
    {
        if self.attempt >= WORKER_RESTART_ATTEMPTS {
            return None;
        }
        let pause: u64 = if self.pause < WORKER_RESTART_BACKOFF_MAX_MILLIS / 2 {
            self.pause * 2
        } else {
            WORKER_RESTART_BACKOFF_MAX_MILLIS
        };
        Some(Restart { attempt: self.attempt + 1, pause })
    }
}

proof fn lemma_backoff_bounded(attempt: nat)
    ensures
        WORKER_RESTART_BACKOFF_MILLIS <= backoff(attempt) <= WORKER_RESTART_BACKOFF_MAX_MILLIS,
    decreases attempt,
{
    if attempt > 1 {
        lemma_backoff_bounded((attempt - 1) as nat);
    }
}

/// The pause before an attempt never gets shorter from attempt to attempt, and
/// never exceeds its limit.
pub proof fn law_backoff_grows_to_its_limit(attempt: nat)
    ensures
        backoff(attempt) <= backoff(attempt + 1) <= WORKER_RESTART_BACKOFF_MAX_MILLIS,
        WORKER_RESTART_BACKOFF_MILLIS <= backoff(attempt),
{
    lemma_backoff_bounded(attempt);
    lemma_backoff_bounded(attempt + 1);
}

} // verus!
