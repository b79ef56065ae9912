use reapclone::client::github::GithubClient;
use reapclone::client::models::Repo;
use reapclone::dispatch::{
    clone_command, CloneCommand, CloneDispatcher, CloneOutcome, CloneReport, DispatchStep,
    DEFAULT_CONCURRENCY,
};

fn repo(name: &str) -> Repo {
    Repo {
        ssh_url: format!("git@github.com:acme/{}.git", name),
        name: String::from(name),
        archived: false,
    }
}

fn repos(n: usize) -> Vec<Repo> {
    (0..n).map(|i| repo(&format!("r{}", i))).collect()
}

/// Runs a dispatcher to its end. Of the running clones, the one that was
/// started first ends first if `oldest_first`, the one started last if not;
/// the clone at place `i` succeeds if `succeeds(i)`. Hands back the last
/// step and the highest number of clones that ran at once.
fn drive(
    mut dispatcher: CloneDispatcher,
    oldest_first: bool,
    succeeds: fn(usize) -> bool,
) -> (DispatchStep, usize) {
    let mut running: Vec<usize> = Vec::new();
    let mut most = 0;
    loop {
        assert_eq!(dispatcher.in_flight(), running.len());
        match dispatcher.next() {
            DispatchStep::Start { index, dispatcher: next, .. } => {
                running.push(index);
                most = most.max(running.len());
                dispatcher = next;
            }
            DispatchStep::Wait { dispatcher: next } => {
                let index = if oldest_first { running.remove(0) } else { running.pop().unwrap() };
                dispatcher = next.finish(index, succeeds(index));
            }
            last => return (last, most),
        }
    }
}

fn report_of(step: DispatchStep) -> CloneReport {
    match step {
        DispatchStep::Done(report) => report,
        _ => panic!("the run did not complete"),
    }
}

#[test]
fn five_repositories_two_at_once() {
    let (last, most) =
        drive(CloneDispatcher::new(repos(5), String::from("./"), 2), true, |i| i % 2 == 0);
    let report = report_of(last);
    assert_eq!(most, 2);
    assert_eq!(report.outcomes.len(), 5);
    let mut places: Vec<usize> = report.outcomes.iter().map(|o| o.index).collect();
    places.sort();
    assert_eq!(places, vec![0, 1, 2, 3, 4]);
    for outcome in &report.outcomes {
        assert_eq!(outcome.clone_url, format!("git@github.com:acme/r{}.git", outcome.index));
        assert_eq!(outcome.succeeded, outcome.index % 2 == 0);
    }
}

#[test]
fn five_repositories_that_all_fail_are_all_reported() {
    let (last, most) =
        drive(CloneDispatcher::new(repos(5), String::from("./"), 2), false, |_| false);
    let report = report_of(last);
    assert!(most <= 2);
    assert_eq!(report.outcomes.len(), 5);
    assert!(report.outcomes.iter().all(|o| !o.succeeded));
}

#[test]
fn outcomes_come_in_the_order_in_which_clones_ended() {
    let (last, _) = drive(CloneDispatcher::new(repos(4), String::from("./"), 3), false, |_| true);
    let places: Vec<usize> = report_of(last).outcomes.iter().map(|o| o.index).collect();
    assert_eq!(places, vec![2, 3, 1, 0]);
}

#[test]
fn limit_is_never_exceeded() {
    for limit in 1..8u32 {
        for n in 0..12usize {
            for oldest_first in [false, true] {
                let dispatcher = CloneDispatcher::new(repos(n), String::from("out"), limit);
                let (last, most) = drive(dispatcher, oldest_first, |i| i % 3 != 0);
                assert!(most <= limit as usize);
                assert_eq!(most, n.min(limit as usize));
                assert_eq!(report_of(last).outcomes.len(), n);
            }
        }
    }
}

#[test]
fn no_repositories_is_a_complete_run() {
    let (last, most) = drive(CloneDispatcher::new(Vec::new(), String::from("./"), 20), true, |_| {
        true
    });
    assert_eq!(most, 0);
    assert_eq!(report_of(last), CloneReport { outcomes: Vec::new() });
}

#[test]
fn limit_of_zero_blocks_a_run_with_repositories() {
    match CloneDispatcher::new(repos(3), String::from("./"), 0).next() {
        DispatchStep::Blocked(report) => assert_eq!(report.outcomes.len(), 0),
        _ => panic!("no clone can start"),
    }
}

#[test]
fn limit_of_zero_without_repositories_is_complete() {
    match CloneDispatcher::new(Vec::new(), String::from("./"), 0).next() {
        DispatchStep::Done(report) => assert_eq!(report.outcomes.len(), 0),
        _ => panic!("there is nothing to clone"),
    }
}

#[test]
fn start_names_the_clone_of_the_next_repository() {
    match CloneDispatcher::new(repos(2), String::from("/tmp/out"), 1).next() {
        DispatchStep::Start { index, command, dispatcher } => {
            assert_eq!(index, 0);
            assert_eq!(
                command,
                CloneCommand {
                    program: String::from("git"),
                    arguments: vec![
                        String::from("clone"),
                        String::from("git@github.com:acme/r0.git")
                    ],
                    directory: String::from("/tmp/out"),
                }
            );
            assert_eq!(dispatcher.in_flight(), 1);
            match dispatcher.next() {
                DispatchStep::Wait { .. } => {}
                _ => panic!("the limit is reached"),
            }
        }
        _ => panic!("a clone can start"),
    }
}

#[test]
fn place_is_held_until_the_end_is_reported() {
    let dispatcher = CloneDispatcher::new(repos(2), String::from("./"), 1);
    let dispatcher = match dispatcher.next() {
        DispatchStep::Start { dispatcher, .. } => dispatcher,
        _ => panic!("a clone can start"),
    };
    let dispatcher = match dispatcher.next() {
        DispatchStep::Wait { dispatcher } => dispatcher,
        _ => panic!("the limit is reached"),
    };
    let dispatcher = dispatcher.finish(0, false);
    assert_eq!(dispatcher.in_flight(), 0);
    match dispatcher.next() {
        DispatchStep::Start { index, .. } => assert_eq!(index, 1),
        _ => panic!("a place is free"),
    }
}

#[test]
fn report_for_a_clone_that_does_not_run_is_dropped() {
    let dispatcher = CloneDispatcher::new(repos(3), String::from("./"), 2);
    let dispatcher = dispatcher.finish(0, true);
    assert_eq!(dispatcher.in_flight(), 0);
    let dispatcher = match dispatcher.next() {
        DispatchStep::Start { dispatcher, .. } => dispatcher,
        _ => panic!("a clone can start"),
    };
    let dispatcher = dispatcher.finish(1, true).finish(7, true).finish(usize::MAX, false);
    assert_eq!(dispatcher.in_flight(), 1);
    let dispatcher = dispatcher.finish(0, true).finish(0, false);
    assert_eq!(dispatcher.in_flight(), 0);
    let (last, _) = drive(dispatcher, true, |_| true);
    let report = report_of(last);
    assert_eq!(report.outcomes.len(), 3);
    assert_eq!(
        report.outcomes[0],
        CloneOutcome {
            index: 0,
            clone_url: String::from("git@github.com:acme/r0.git"),
            succeeded: true
        }
    );
}

#[test]
fn clone_command_of_a_repository() {
    let command = clone_command(&repo("tool"), "out");
    assert_eq!(command.program, "git");
    assert_eq!(command.arguments, vec!["clone", "git@github.com:acme/tool.git"]);
    assert_eq!(command.directory, "out");
    assert_eq!(GithubClient::clone_repo(&repo("tool"), String::from("out")), command);
}

#[test]
fn outcome_lines() {
    let good = CloneOutcome {
        index: 0,
        clone_url: String::from("git@github.com:acme/tool.git"),
        succeeded: true,
    };
    let bad = CloneOutcome { succeeded: false, ..good.clone() };
    assert_eq!(good.line(), "git@github.com:acme/tool.git|\x1B[32mSUCCESS\x1B[0m");
    assert_eq!(bad.line(), "git@github.com:acme/tool.git|\x1B[31mFAIL\x1B[0m");
}

#[test]
fn default_concurrency() {
    assert_eq!(DEFAULT_CONCURRENCY, 20);
}
