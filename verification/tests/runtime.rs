use codex_agents_api::runtime::finish_shutdown;
use codex_agents_api::runtime::launch;
use codex_agents_api::runtime::probe;
use codex_agents_api::runtime::reclaim_orphan;
use codex_agents_api::runtime::record_worker;
use codex_agents_api::runtime::shutdown;
use codex_agents_api::runtime::still_runs;
use codex_agents_api::runtime::terminate;
use codex_agents_api::runtime::waits_for_orphan;
use codex_agents_api::runtime::FoundRecord;
use codex_agents_api::runtime::OwnershipRecord;
use codex_agents_api::runtime::ProcessInfo;
use codex_agents_api::runtime::Reclaim;
use codex_agents_api::runtime::Restart;
use codex_agents_api::runtime::StopStep;

const STAT: &str = "4242 (codex app) server) S 1 4242 4242 0 -1 4194560 1 2 3 4 5 6 7 8 20 0 1 0 987654 1000 200";

#[test]
fn probe_reads_the_start_time_after_the_last_parenthesis() {
    assert_eq!(
        probe(STAT),
        Some(ProcessInfo { start_time: 987654, zombie: false })
    );
}

#[test]
fn probe_tells_a_zombie() {
    let stat = STAT.replace(") S ", ") Z ");
    assert_eq!(
        probe(&stat),
        Some(ProcessInfo { start_time: 987654, zombie: true })
    );
}

#[test]
fn probe_accepts_a_plus_sign_and_rejects_what_is_no_number() {
    let signed = STAT.replace("987654", "+987654");
    assert_eq!(probe(&signed).map(|info| info.start_time), Some(987654));
    assert_eq!(probe(&STAT.replace("987654", "-987654")), None);
    assert_eq!(probe(&STAT.replace("987654", "98x654")), None);
    assert_eq!(probe(&STAT.replace("987654", "+")), None);
    assert_eq!(
        probe(&STAT.replace("987654", "18446744073709551615")).map(|info| info.start_time),
        Some(u64::MAX)
    );
    assert_eq!(probe(&STAT.replace("987654", "18446744073709551616")), None);
    assert_eq!(probe(&STAT.replace("987654", "98765432109876543210")), None);
}

#[test]
fn probe_needs_a_parenthesis_and_twenty_words() {
    assert_eq!(probe(""), None);
    assert_eq!(probe("4242 codex S 1 2 3"), None);
    assert_eq!(probe("4242 (codex) S 1 2 3"), None);
    let nineteen = "1 (x) S 1 2 3 4 5 6 7 8 9 10 11 12 13 14 15 16 17 18";
    assert_eq!(probe(nineteen), None);
    let twenty = format!("{nineteen}\t 77\n");
    assert_eq!(
        probe(&twenty),
        Some(ProcessInfo { start_time: 77, zombie: false })
    );
}

#[test]
fn terminate_targets_only_numbers_that_the_system_has() {
    assert_eq!(terminate(1), Some(1));
    assert_eq!(terminate(2147483647), Some(2147483647));
    assert_eq!(terminate(2147483648), None);
}

#[test]
fn only_the_worker_on_record_is_reclaimed() {
    let then = ProcessInfo { start_time: 5, zombie: false };
    let record = record_worker(Some(9), Some(then)).unwrap();
    assert_eq!(record, OwnershipRecord { pid: 9, start_time: 5 });
    assert_eq!(record_worker(None, Some(then)), None);
    assert_eq!(record_worker(Some(9), None), None);
    let found = FoundRecord::Worker(record);
    assert_eq!(
        reclaim_orphan(found, Some(then)),
        Reclaim::Terminate { target: Some(9) }
    );
    let reused = ProcessInfo { start_time: 6, zombie: false };
    assert_eq!(reclaim_orphan(found, Some(reused)), Reclaim::Clear);
    let dead = ProcessInfo { start_time: 5, zombie: true };
    assert_eq!(reclaim_orphan(found, Some(dead)), Reclaim::Clear);
    assert_eq!(reclaim_orphan(found, None), Reclaim::Clear);
    assert_eq!(reclaim_orphan(FoundRecord::Missing, Some(then)), Reclaim::Nothing);
    assert_eq!(reclaim_orphan(FoundRecord::Unreadable, Some(then)), Reclaim::Clear);
    assert!(still_runs(record, Some(then)));
    assert!(!still_runs(record, Some(reused)));
}

#[test]
fn a_reclaimed_worker_is_waited_for_until_it_runs_no_more() {
    let record = OwnershipRecord { pid: 9, start_time: 5 };
    let alive = Some(ProcessInfo { start_time: 5, zombie: false });
    assert!(waits_for_orphan(record, alive));
    assert!(!waits_for_orphan(record, Some(ProcessInfo { start_time: 5, zombie: true })));
    assert!(!waits_for_orphan(record, Some(ProcessInfo { start_time: 6, zombie: false })));
    assert!(!waits_for_orphan(record, None));
}

#[test]
fn a_worker_is_launched_without_the_token() {
    let plan = launch("/data/codex-home", "/tmp/agents-x/private/worker.sock");
    assert_eq!(
        plan.arguments,
        vec![
            "--listen".to_string(),
            "unix:///tmp/agents-x/private/worker.sock".to_string(),
            "--strict-config".to_string()
        ]
    );
    assert_eq!(plan.set.0, "CODEX_HOME");
    assert_eq!(plan.set.1, "/data/codex-home");
    assert_eq!(plan.removed, "CODEX_AGENTS_API_TOKEN");
    assert_eq!(plan.directory, "/data/codex-home");
}

#[test]
fn a_worker_is_asked_before_it_is_forced() {
    assert_eq!(shutdown(true, Some(7)), StopStep::Done);
    assert_eq!(shutdown(false, None), StopStep::Unknown);
    assert_eq!(shutdown(false, Some(7)), StopStep::Ask { target: Some(7) });
    assert_eq!(shutdown(false, Some(3_000_000_000)), StopStep::Ask { target: None });
    assert_eq!(finish_shutdown(true, false), StopStep::Done);
    assert_eq!(finish_shutdown(false, true), StopStep::Done);
    assert_eq!(finish_shutdown(false, false), StopStep::Force);
}

#[test]
fn restarts_are_bounded_and_back_off() {
    assert_eq!(Restart::first(false), None);
    let mut pauses = Vec::new();
    let mut restart = Restart::first(true);
    while let Some(attempt) = restart {
        pauses.push((attempt.attempt, attempt.pause));
        restart = attempt.next();
    }
    assert_eq!(
        pauses,
        vec![(1, 200), (2, 400), (3, 800), (4, 1600), (5, 3200)]
    );
}
