//! What holds of how the backend's worker is known again and started again.
use crate::runtime::backoff;
use crate::runtime::decimal_digit;
use crate::runtime::digits_value;
use crate::runtime::last_parenthesis;
use crate::runtime::process_info;
use crate::runtime::reclaiming;
use crate::runtime::stopped;
use crate::runtime::stopping;
use crate::runtime::unsigned_digits;
use crate::runtime::unsigned_value;
use crate::runtime::words;
use crate::runtime::worker_record;
use crate::runtime::FoundRecord;
use crate::runtime::OwnershipRecord;
use crate::runtime::ProcessInfo;
use crate::runtime::Reclaim;
use crate::runtime::Restart;
use crate::runtime::StopStep;
use crate::runtime::RETRY_PAUSE_MILLIS;
use crate::runtime::SHUTDOWN_TIMEOUT_MILLIS;
use crate::text::white_space;
use vstd::prelude::*;

verus! {

/// The character that writes a digit.
pub open spec fn digit(d: nat) -> char {
    if d == 0 {
        '0'
    } else if d == 1 {
        '1'
    } else if d == 2 {
        '2'
    } else if d == 3 {
        '3'
    } else if d == 4 {
        '4'
    } else if d == 5 {
        '5'
    } else if d == 6 {
        '6'
    } else if d == 7 {
        '7'
    } else if d == 8 {
        '8'
    } else {
        '9'
    }
}

/// A number in decimal digits.
pub open spec fn decimal(n: nat) -> Seq<char>
    decreases n,
{
    if n < 10 {
        seq![digit(n)]
    } else {
        decimal(n / 10).push(digit(n % 10))
    }
}

/// A number is read back from its digits.
proof fn lemma_decimal(n: nat)
    ensures
        decimal(n).len() > 0,
        forall|i: int| 0 <= i < decimal(n).len() ==> decimal_digit(#[trigger] decimal(n)[i]),
        digits_value(decimal(n)) == n,
    decreases n,
{
    if n < 10 {
        let digits = seq![digit(n)];
        assert(digits.drop_last() =~= Seq::empty());
        assert(digits.last() == digit(n));
        assert(digits_value(digits.drop_last()) == 0);
    } else {
        let front = decimal(n / 10);
        lemma_decimal(n / 10);
        assert(decimal(n).drop_last() =~= front);
        assert(decimal(n).last() == digit(n % 10));
        assert forall|i: int| 0 <= i < decimal(n).len() implies decimal_digit(
            #[trigger] decimal(n)[i],
        ) by {
            if i < front.len() {
                assert(decimal(n)[i] == front[i]);
            }
        }
        assert(n == (n / 10) * 10 + n % 10);
    }
}

/// Numbers are read as they are written, in decimal digits, with a plus sign or
/// without; what holds anything else, or nothing, or more than 64 bits hold, is no
/// number.
pub proof fn law_numbers_are_read_as_written(n: nat, text: Seq<char>)
    ensures
        n <= u64::MAX ==> unsigned_value(decimal(n)) == Some(n as u64),
        n <= u64::MAX ==> unsigned_value(seq!['+'] + decimal(n)) == Some(n as u64),
        n > u64::MAX ==> unsigned_value(decimal(n)) is None,
        (exists|i: int| 0 < i < text.len() && !('0' <= #[trigger] text[i] && text[i] <= '9'))
            ==> unsigned_value(text) is None,
        text.len() > 0 && text[0] != '+' && !('0' <= text[0] && text[0] <= '9') ==> unsigned_value(
            text,
        ) is None,
        text.len() == 0 ==> unsigned_value(text) is None,
{
    let digits = decimal(n);
    lemma_decimal(n);
    assert(decimal_digit(digits[0]));
    assert(unsigned_digits(digits) == digits);
    let signed = seq!['+'] + digits;
    assert(signed[0] == '+');
    assert(signed.skip(1) =~= digits);
    if exists|i: int| 0 < i < text.len() && !('0' <= #[trigger] text[i] && text[i] <= '9') {
        let i = choose|i: int|
            0 < i < text.len() && !('0' <= #[trigger] text[i] && text[i] <= '9');
        if text[0] == '+' {
            assert(text.skip(1)[i - 1] == text[i]);
        }
    }
}

/// Fields with a space before each.
pub open spec fn spaced(fields: Seq<Seq<char>>) -> Seq<char>
    decreases fields.len(),
{
    if fields.len() == 0 {
        Seq::empty()
    } else {
        spaced(fields.drop_last()) + seq![' '] + fields.last()
    }
}

/// Whether a text can stand as a field: it holds something, but no white space and
/// no parenthesis.
pub open spec fn is_field(text: Seq<char>) -> bool {
    &&& text.len() > 0
    &&& forall|i: int|
        0 <= i < text.len() ==> !white_space(#[trigger] text[i]) && text[i] != ')'
}

/// A word behind a space is one more word.
proof fn lemma_word_behind(text: Seq<char>, word: Seq<char>)
    requires
        word.len() > 0,
        forall|i: int| 0 <= i < word.len() ==> !white_space(#[trigger] word[i]),
    ensures
        words(text + seq![' '] + word) == words(text).push(word),
    decreases word.len(),
{
    let whole = text + seq![' '] + word;
    let front = word.drop_last();
    assert(whole.drop_last() =~= text + seq![' '] + front);
    assert(whole.last() == word.last());
    assert(!white_space(word[word.len() - 1]));
    if front.len() == 0 {
        let spaced = text + seq![' '];
        assert(text + seq![' '] + front =~= spaced);
        assert(spaced.drop_last() =~= text);
        assert(spaced.last() == ' ');
        assert(words(spaced) == words(text));
        assert(whole[whole.len() - 2] == ' ');
        assert(word =~= seq![word.last()]);
    } else {
        assert forall|i: int| 0 <= i < front.len() implies !white_space(#[trigger] front[i]) by {
            assert(front[i] == word[i]);
        }
        lemma_word_behind(text, front);
        assert(whole[whole.len() - 2] == word[word.len() - 2]);
        assert(words(text).push(front).drop_last() =~= words(text));
        assert(front.push(word.last()) =~= word);
    }
}

/// The words of fields with a space before each are the fields.
proof fn lemma_spaced(fields: Seq<Seq<char>>)
    requires
        forall|i: int| 0 <= i < fields.len() ==> is_field(#[trigger] fields[i]),
    ensures
        words(spaced(fields)) == fields,
        forall|i: int| 0 <= i < spaced(fields).len() ==> #[trigger] spaced(fields)[i] != ')',
    decreases fields.len(),
{
    if fields.len() == 0 {
        assert(words(spaced(fields)) =~= fields);
    } else {
        let front = fields.drop_last();
        assert forall|i: int| 0 <= i < front.len() implies is_field(#[trigger] front[i]) by {
            assert(front[i] == fields[i]);
        }
        lemma_spaced(front);
        assert(is_field(fields[fields.len() - 1]));
        lemma_word_behind(spaced(front), fields.last());
        assert(front.push(fields.last()) =~= fields);
        assert forall|i: int| 0 <= i < spaced(fields).len() implies #[trigger] spaced(fields)[i]
            != ')' by {
            let n = spaced(front).len();
            if i < n {
                assert(spaced(fields)[i] == spaced(front)[i]);
            } else if i > n {
                assert(spaced(fields)[i] == fields.last()[i - n - 1]);
            }
        }
    }
}

/// The last parenthesis is found behind whatever it closes.
proof fn lemma_parenthesis(head: Seq<char>, rest: Seq<char>)
    requires
        forall|i: int| 0 <= i < rest.len() ==> #[trigger] rest[i] != ')',
    ensures
        last_parenthesis(head + seq![')'] + rest) == Some(head.len() as int),
    decreases rest.len(),
{
    let whole = head + seq![')'] + rest;
    if rest.len() > 0 {
        let front = rest.drop_last();
        assert(whole.drop_last() =~= head + seq![')'] + front);
        assert forall|i: int| 0 <= i < front.len() implies #[trigger] front[i] != ')' by {
            assert(front[i] == rest[i]);
        }
        assert(whole.last() == rest[rest.len() - 1]);
        lemma_parenthesis(head, front);
    } else {
        assert(whole.last() == ')');
    }
}

/// What is known of a process is read from the fields behind the last parenthesis,
/// whatever its name holds: when it started is the twentieth of them, and the first
/// tells whether it has exited.
pub proof fn law_processes_are_read_by_their_fields(
    head: Seq<char>,
    fields: Seq<Seq<char>>,
    start_time: u64,
)
    requires
        forall|i: int| 0 <= i < fields.len() ==> is_field(#[trigger] fields[i]),
    ensures
        ({
            let info = process_info(head + seq![')'] + spaced(fields));
            &&& fields.len() < 20 ==> info is None
            &&& fields.len() >= 20 && fields[19] == decimal(start_time as nat) ==> info is Some
                && info->0.start_time == start_time && info->0.zombie == (fields[0] == "Z"@)
            &&& fields.len() >= 20 && (exists|i: int|
                0 < i < fields[19].len() && !('0' <= #[trigger] fields[19][i] && fields[19][i]
                    <= '9')) ==> info is None
        }),
{
    let stat = head + seq![')'] + spaced(fields);
    lemma_spaced(fields);
    lemma_parenthesis(head, spaced(fields));
    assert(stat.skip(head.len() as int + 1) =~= spaced(fields));
    reveal_strlit("Z");
    assert("Z"@ =~= seq!['Z']);
    law_numbers_are_read_as_written(start_time as nat, Seq::empty());
    if fields.len() >= 20 {
        law_numbers_are_read_as_written(start_time as nat, fields[19]);
    }
}

/// Nothing is known of a process without a parenthesis.
pub proof fn law_processes_have_a_name(stat: Seq<char>)
    requires
        forall|i: int| 0 <= i < stat.len() ==> #[trigger] stat[i] != ')',
    ensures
        process_info(stat) is None,
{
    lemma_no_parenthesis(stat);
}

/// No parenthesis is found where there is none.
proof fn lemma_no_parenthesis(text: Seq<char>)
    requires
        forall|i: int| 0 <= i < text.len() ==> #[trigger] text[i] != ')',
    ensures
        last_parenthesis(text) is None,
    decreases text.len(),
{
    if text.len() > 0 {
        let front = text.drop_last();
        assert forall|i: int| 0 <= i < front.len() implies #[trigger] front[i] != ')' by {
            assert(front[i] == text[i]);
        }
        assert(text.last() == text[text.len() - 1]);
        lemma_no_parenthesis(front);
    }
}

/// A worker that is found running is signalled under the number on record, where the
/// system has processes of that number; a record is kept only of a worker whose
/// process is known.
pub proof fn law_the_recorded_worker_is_signalled(
    pid: Option<u32>,
    info: Option<ProcessInfo>,
    record: OwnershipRecord,
)
    ensures
        worker_record(pid, info) is Some <==> pid is Some && info is Some,
        worker_record(pid, info) matches Some(kept) ==> kept.pid == pid->0 && kept.start_time
            == info->0.start_time,
        reclaiming(FoundRecord::Worker(record), info) matches Reclaim::Terminate { target } ==> {
            &&& info is Some && !info->0.zombie && info->0.start_time == record.start_time
            &&& target is Some <==> record.pid < 0x8000_0000
            &&& target is Some ==> target->0 == record.pid
        },
        reclaiming(FoundRecord::Worker(record), info) is Nothing ==> false,
{
}

/// A worker that keeps failing is started again five times, after 200 milliseconds
/// first and then twice as long from attempt to attempt, but never more than five
/// seconds. A worker that is asked to end has ten seconds.
pub proof fn law_restarts_wait_longer_and_longer(attempt: nat)
    requires
        attempt >= 1,
    ensures
        backoff(1) == 200,
        backoff(attempt + 1) == if backoff(attempt) <= 2500 {
            2 * backoff(attempt)
        } else {
            5000
        },
        forall|restart: Restart| #[trigger]
            restart.well_formed() ==> 1 <= restart.attempt <= 5 && restart.pause == backoff(
                restart.attempt as nat,
            ),
        SHUTDOWN_TIMEOUT_MILLIS == 10_000,
        RETRY_PAUSE_MILLIS == 50,
{
}

/// Attempts are numbered from one, each one more than the one before, and the fifth
/// is the last; only a worker that the service manages is started again.
pub proof fn law_restarts_are_made_one_after_another(restart: Restart, managed: bool)
    requires
        restart.well_formed(),
    ensures
        Restart::beginning(managed) is Some <==> managed,
        Restart::beginning(managed) matches Some(first) ==> first.attempt == 1 && first.pause == 200,
        restart.following() is None <==> restart.attempt == 5,
        restart.following() matches Some(next) ==> {
            &&& next.attempt == restart.attempt + 1
            &&& next.well_formed()
            &&& next.pause == if restart.pause <= 2500 {
                2 * restart.pause
            } else {
                5000
            }
        },
{
}

/// A worker that has exited is left alone. One that runs is asked to end, where it has
/// a number that the system signals, and is ended by force only where it neither ended
/// when asked nor has exited since.
pub proof fn law_workers_are_asked_before_they_are_forced(
    exited: bool,
    pid: Option<u32>,
    ended: bool,
)
    ensures
        stopping(exited, pid) is Done <==> exited,
        stopping(exited, pid) is Unknown <==> !exited && pid is None,
        stopping(exited, pid) !is Force,
        stopping(exited, pid) matches StopStep::Ask { target } ==> {
            &&& pid is Some
            &&& target is Some <==> pid->0 < 0x8000_0000
            &&& target is Some ==> target->0 == pid->0
        },
        stopped(ended, exited) is Force <==> !ended && !exited,
        stopped(ended, exited) is Done <==> ended || exited,
{
}

} // verus!
