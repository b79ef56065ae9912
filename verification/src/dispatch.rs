//! The clone dispatcher: which repository to clone next, how many clones
//! may run at once, and what the run comes to.
//!
//! The dispatcher starts no process. It hands out one clone at a time, as
//! long as the number of running clones is below the limit, and is told of
//! each clone that ended. A clone holds its place among the running ones
//! from the moment it is handed out until its end is reported.

use crate::client::models::Repo;
use vstd::prelude::*;
use vstd::string::*;

verus! {

/// The number of clones that run at once where no limit is named.
pub const DEFAULT_CONCURRENCY: u32 = 20;

/// The end of one clone, as plain values.
pub ghost struct Finished {
    /// The place of the repository in the set that was given.
    pub index: nat,
    pub succeeded: bool,
}

/// What a dispatcher is told.
pub ghost enum DispatchEvent {
    /// The next repository was handed out.
    Started,
    /// A clone ended.
    Finished(Finished),
}

/// A run of the dispatcher, as plain values.
pub ghost struct DispatchView {
    /// The clone addresses of the repositories, in the order given.
    pub urls: Seq<Seq<char>>,
    /// The directory to clone into.
    pub directory: Seq<char>,
    /// How many clones may run at once.
    pub limit: nat,
    /// How many repositories were handed out: those before this place.
    pub started: nat,
    /// The places of the clones that run.
    pub running: Set<nat>,
    /// The clones that ended, in the order in which they ended.
    pub finished: Seq<Finished>,
}

impl DispatchView {
    /// The run before its first clone.
    pub open spec fn initial(urls: Seq<Seq<char>>, directory: Seq<char>, limit: nat) -> Self {
        DispatchView {
            urls,
            directory,
            limit,
            started: 0,
            running: Set::empty(),
            finished: Seq::empty(),
        }
    }

    /// How many clones run.
    pub open spec fn in_flight(self) -> nat {
        self.running.len()
    }

    /// Whether the end of the clone at place `index` was reported.
    pub open spec fn has_finished(self, index: nat) -> bool {
        exists|k: int| 0 <= k < self.finished.len() && (#[trigger] self.finished[k]).index == index
    }

    /// What holds at every point of every run.
    pub open spec fn wf(self) -> bool {
        &&& self.started <= self.urls.len()
        &&& self.running.finite()
        &&& self.running.len() <= self.limit
        &&& self.finished.len() + self.running.len() == self.started
        &&& forall|i: nat| self.running.contains(i) ==> i < self.started
        &&& forall|k: int|
            0 <= k < self.finished.len() ==> (#[trigger] self.finished[k]).index < self.started
                && !self.running.contains(self.finished[k].index)
        &&& forall|j: int, k: int|
            0 <= j < k < self.finished.len() ==> (#[trigger] self.finished[j]).index != (
            #[trigger] self.finished[k]).index
        &&& forall|i: nat|
            i < self.started ==> self.running.contains(i) || #[trigger] self.has_finished(i)
    }

    /// Whether the next repository may be handed out: there is one, and
    /// fewer clones run than the limit allows.
    pub open spec fn can_start(self) -> bool {
        self.started < self.urls.len() && self.in_flight() < self.limit
    }

    /// Whether every repository was handed out and no clone runs.
    pub open spec fn complete(self) -> bool {
        self.started == self.urls.len() && self.in_flight() == 0
    }

    /// The run after the next repository was handed out.
    pub open spec fn start(self) -> Self {
        DispatchView {
            started: self.started + 1,
            running: self.running.insert(self.started),
            ..self
        }
    }

    /// The run after the end of the clone at place `index` was reported.
    /// A report for a clone that does not run changes nothing.
    pub open spec fn finish(self, index: nat, succeeded: bool) -> Self {
        if self.running.contains(index) {
            DispatchView {
                running: self.running.remove(index),
                finished: self.finished.push(Finished { index, succeeded }),
                ..self
            }
        } else {
            self
        }
    }

    /// The run after one event. A start that may not happen changes
    /// nothing.
    pub open spec fn apply(self, event: DispatchEvent) -> Self {
        match event {
            DispatchEvent::Started => if self.can_start() {
                self.start()
            } else {
                self
            },
            DispatchEvent::Finished(end) => self.finish(end.index, end.succeeded),
        }
    }

    /// The run after a series of events.
    pub open spec fn run(self, events: Seq<DispatchEvent>) -> Self
        decreases events.len(),
    {
        if events.len() == 0 {
            self
        } else {
            self.apply(events[0]).run(events.skip(1))
        }
    }
}

/// Handing out a repository keeps a run as `wf` describes.
pub proof fn lemma_start_keeps_wf(s: DispatchView)
    requires
        s.wf(),
        s.can_start(),
    ensures
        s.start().wf(),
        s.start().in_flight() == s.in_flight() + 1,
{
    let t = s.start();
    assert(!s.running.contains(s.started));
    assert forall|i: nat| i < t.started implies t.running.contains(i) || #[trigger] t.has_finished(
        i,
    ) by {
        if i < s.started {
            if s.running.contains(i) {
                assert(t.running.contains(i));
            } else {
                assert(s.has_finished(i));
                let k = choose|k: int|
                    0 <= k < s.finished.len() && (#[trigger] s.finished[k]).index == i;
                assert(t.finished[k].index == i);
            }
        } else {
            assert(i == s.started);
            assert(t.running.contains(i));
        }
    }
}

/// The report of a clone's end keeps a run as `wf` describes.
pub proof fn lemma_finish_keeps_wf(s: DispatchView, index: nat, succeeded: bool)
    requires
        s.wf(),
    ensures
        s.finish(index, succeeded).wf(),
        s.running.contains(index) ==> s.finish(index, succeeded).in_flight() + 1 == s.in_flight(),
{
    if s.running.contains(index) {
        let t = s.finish(index, succeeded);
        let n = s.finished.len() as int;
        assert(t.finished[n].index == index);
        assert forall|k: int| 0 <= k < t.finished.len() implies (#[trigger] t.finished[k]).index
            < t.started && !t.running.contains(t.finished[k].index) by {
            if k < n {
                assert(t.finished[k] == s.finished[k]);
            }
        }
        assert forall|j: int, k: int| 0 <= j < k < t.finished.len() implies (
        #[trigger] t.finished[j]).index != (#[trigger] t.finished[k]).index by {
            assert(t.finished[j] == s.finished[j]);
            if k < n {
                assert(t.finished[k] == s.finished[k]);
            }
        }
        assert forall|i: nat| i < t.started implies t.running.contains(i)
            || #[trigger] t.has_finished(i) by {
            if i == index {
                assert(t.finished[n].index == i);
            } else if !s.running.contains(i) {
                assert(s.has_finished(i));
                let k = choose|k: int|
                    0 <= k < s.finished.len() && (#[trigger] s.finished[k]).index == i;
                assert(t.finished[k] == s.finished[k]);
            }
        }
    }
}

/// Whatever the events, a run stays as `wf` describes, with its
/// repositories and its limit.
pub proof fn lemma_run_keeps_wf(s: DispatchView, events: Seq<DispatchEvent>)
    requires
        s.wf(),
    ensures
        s.run(events).wf(),
        s.run(events).urls == s.urls,
        s.run(events).limit == s.limit,
    decreases events.len(),
{
    if events.len() > 0 {
        match events[0] {
            DispatchEvent::Started => {
                if s.can_start() {
                    lemma_start_keeps_wf(s);
                }
            },
            DispatchEvent::Finished(end) => {
                lemma_finish_keeps_wf(s, end.index, end.succeeded);
            },
        }
        lemma_run_keeps_wf(s.apply(events[0]), events.skip(1));
    }
}

/// At no point of a run are more clones running than the limit allows,
/// in whatever order clones are handed out and end.
pub proof fn lemma_never_over_limit(
    urls: Seq<Seq<char>>,
    directory: Seq<char>,
    limit: nat,
    events: Seq<DispatchEvent>,
)
    ensures
        DispatchView::initial(urls, directory, limit).run(events).in_flight() <= limit,
{
    lemma_run_keeps_wf(DispatchView::initial(urls, directory, limit), events);
}

/// When a run is complete, the end of every repository's clone was
/// reported exactly once: there are as many reports as repositories,
/// whether the clones succeeded or not.
pub proof fn lemma_complete_reports_all(s: DispatchView)
    requires
        s.wf(),
        s.complete(),
    ensures
        s.finished.len() == s.urls.len(),
        forall|i: nat| i < s.urls.len() ==> #[trigger] s.has_finished(i),
        forall|j: int, k: int|
            0 <= j < k < s.finished.len() ==> (#[trigger] s.finished[j]).index != (
            #[trigger] s.finished[k]).index,
{
    assert(s.running =~= Set::<nat>::empty());
}

/// With a limit above zero a run never stalls: until it is complete, a
/// repository can be handed out or a clone is running.
pub proof fn lemma_progress(s: DispatchView)
    requires
        s.wf(),
        s.limit > 0,
    ensures
        s.can_start() || s.in_flight() > 0 || s.complete(),
{
}

/// How to run one clone: the program, its arguments and the directory to
/// run it in.
#[derive(Clone, Debug, PartialEq, Eq)]
pub struct CloneCommand {
    pub program: String,
    pub arguments: Vec<String>,
    pub directory: String,
}

impl CloneCommand {
    /// Whether this is the command that clones from `clone_url` inside
    /// `directory`.
    pub open spec fn clones(&self, clone_url: Seq<char>, directory: Seq<char>) -> bool {
        &&& self.program@ == "git"@
        &&& self.arguments.deep_view() == seq!["clone"@, clone_url]
        &&& self.directory@ == directory
    }
}

/// How the clone of one repository ended.
#[derive(Clone, Debug, PartialEq, Eq)]
pub struct CloneOutcome {
    /// The place of the repository in the set that was given.
    pub index: usize,
    pub clone_url: String,
    pub succeeded: bool,
}

impl CloneOutcome {
    /// The line that tells a user of this outcome.
    pub open spec fn text(&self) -> Seq<char> {
        if self.succeeded {
            self.clone_url@ + "|\x1B[32mSUCCESS\x1B[0m"@
        } else {
            self.clone_url@ + "|\x1B[31mFAIL\x1B[0m"@
        }
    }

    /// The line that tells a user of this outcome.
    pub fn line(&self) -> (s: String)
        ensures
            s@ == self.text(),
    {
        let mut s = self.clone_url.clone();
        if self.succeeded {
            s.append("|\x1B[32mSUCCESS\x1B[0m");
        } else {
            s.append("|\x1B[31mFAIL\x1B[0m");
        }
        s
    }
}

/// How the clones of a run ended, one record for each clone that ended, in
/// the order in which they ended.
#[derive(Clone, Debug, PartialEq, Eq)]
pub struct CloneReport {
    pub outcomes: Vec<CloneOutcome>,
}

impl CloneReport {
    /// Whether this report holds the ends of the run `run`, each with the
    /// clone address of its repository.
    pub open spec fn describes(&self, run: DispatchView) -> bool {
        &&& self.outcomes.len() == run.finished.len()
        &&& forall|k: int|
            0 <= k < self.outcomes.len() ==> {
                &&& (#[trigger] self.outcomes[k]).index == run.finished[k].index
                &&& self.outcomes[k].succeeded == run.finished[k].succeeded
                &&& self.outcomes[k].index < run.urls.len()
                &&& self.outcomes[k].clone_url@ == run.urls[self.outcomes[k].index as int]
            }
    }
}

/// The command that clones `repo` inside `directory`.
pub fn clone_command(repo: &Repo, directory: &str) -> (command: CloneCommand)
    ensures
        command.clones(repo.ssh_url@, directory@),
{
    let mut arguments: Vec<String> = Vec::new();
    arguments.push(String::from_str("clone"));
    arguments.push(repo.ssh_url.clone());
    assert(arguments.deep_view() =~= seq!["clone"@, repo.ssh_url@]);
    CloneCommand { program: String::from_str("git"), arguments, directory: directory.to_owned() }
}

/// The dispatcher of one run.
pub struct CloneDispatcher {
    repos: Vec<Repo>,
    directory: String,
    limit: usize,
    started: usize,
    running: Vec<bool>,
    in_flight: usize,
    outcomes: Vec<CloneOutcome>,
    running_set: Ghost<Set<nat>>,
}

/// What a dispatcher asks of its caller next.
pub enum DispatchStep {
    /// Run this command, the clone of the repository at place `index`, and
    /// report its end to `dispatcher`. The clone counts as running from
    /// now on.
    Start { index: usize, command: CloneCommand, dispatcher: CloneDispatcher },
    /// As many clones run as may: report the end of one to `dispatcher`.
    Wait { dispatcher: CloneDispatcher },
    /// Every clone has ended.
    Done(CloneReport),
    /// Repositories are left and none can ever be cloned: the limit is
    /// zero.
    Blocked(CloneReport),
}

/// The clone addresses of a set of repositories.
pub open spec fn clone_urls(repos: Seq<Repo>) -> Seq<Seq<char>> {
    repos.map_values(|repo: Repo| repo.ssh_url@)
}

/// The end that an outcome records.
pub open spec fn outcome_end(outcome: CloneOutcome) -> Finished {
    Finished { index: outcome.index as nat, succeeded: outcome.succeeded }
}

impl View for CloneDispatcher {
    type V = DispatchView;

    closed spec fn view(&self) -> DispatchView {
        DispatchView {
            urls: clone_urls(self.repos@),
            directory: self.directory@,
            limit: self.limit as nat,
            started: self.started as nat,
            running: self.running_set@,
            finished: self.outcomes@.map_values(|outcome: CloneOutcome| outcome_end(outcome)),
        }
    }
}

impl CloneDispatcher {
    #[verifier::type_invariant]
    spec fn inv(self) -> bool {
        &&& self@.wf()
        &&& self.running.len() == self.repos.len()
        &&& forall|i: int|
            0 <= i < self.running.len() ==> (#[trigger] self.running[i]
                <==> self.running_set@.contains(i as nat))
        &&& self.in_flight == self.running_set@.len()
        &&& forall|k: int|
            0 <= k < self.outcomes.len() ==> (#[trigger] self.outcomes[k]).index
                < self.repos.len() && self.outcomes[k].clone_url@
                == self.repos[self.outcomes[k].index as int].ssh_url@
    }

    /// A dispatcher for `repositories`, to be cloned inside `directory`,
    /// at most `concurrency_limit` of them at once.
    pub fn new(repositories: Vec<Repo>, directory: String, concurrency_limit: u32) -> (dispatcher:
        CloneDispatcher)
        ensures
            dispatcher@ == DispatchView::initial(
                clone_urls(repositories@),
                directory@,
                concurrency_limit as nat,
            ),
    {
        let mut running: Vec<bool> = Vec::new();
        let mut i: usize = 0;
        while i < repositories.len()
            invariant
                i <= repositories.len(),
                running.len() == i,
                forall|j: int| 0 <= j < i ==> !(#[trigger] running[j]),
            decreases repositories.len() - i,
        {
            running.push(false);
            i = i + 1;
        }
        let outcomes: Vec<CloneOutcome> = Vec::new();
        assert(outcomes@.map_values(|outcome: CloneOutcome| outcome_end(outcome))
            =~= Seq::<Finished>::empty());
        CloneDispatcher {
            repos: repositories,
            directory,
            limit: concurrency_limit as usize,
            started: 0,
            running,
            in_flight: 0,
            outcomes,
            running_set: Ghost(Set::empty()),
        }
    }

    /// How many clones run: never more than the limit allows.
    pub fn in_flight(&self) -> (n: usize)
        ensures
            self@.wf(),
            n == self@.in_flight(),
            n <= self@.limit,
    {
        proof {
            use_type_invariant(self);
        }
        self.in_flight
    }

    /// Hands over the next thing to do. A repository is handed out as long
    /// as one is left and fewer clones run than the limit allows; when none
    /// can be handed out, the caller is to wait for a running clone; when
    /// none runs either, the run is over.
    pub fn next(self) -> (step: DispatchStep)
        ensures
            self@.wf(),
            match step {
                DispatchStep::Start { index, command, dispatcher } => {
                    &&& self@.can_start()
                    &&& index == self@.started
                    &&& command.clones(self@.urls[index as int], self@.directory)
                    &&& dispatcher@ == self@.start()
                },
                DispatchStep::Wait { dispatcher } => {
                    &&& !self@.can_start()
                    &&& self@.in_flight() > 0
                    &&& dispatcher@ == self@
                },
                DispatchStep::Done(report) => {
                    &&& self@.complete()
                    &&& report.describes(self@)
                    &&& report.outcomes.len() == self@.urls.len()
                },
                DispatchStep::Blocked(report) => {
                    &&& !self@.can_start()
                    &&& self@.in_flight() == 0
                    &&& !self@.complete()
                    &&& self@.limit == 0
                    &&& report.describes(self@)
                },
            },
    {
        proof {
            use_type_invariant(&self);
        }
        if self.started < self.repos.len() && self.in_flight < self.limit {
            let index = self.started;
            let command = clone_command(&self.repos[index], self.directory.as_str());
            proof {
                lemma_start_keeps_wf(self@);
            }
            let ghost before = self;
            let CloneDispatcher {
                repos,
                directory,
                limit,
                started,
                running,
                in_flight,
                outcomes,
                running_set,
            } = self;
            let mut running = running;
            running.set(index, true);
            let dispatcher = CloneDispatcher {
                repos,
                directory,
                limit,
                started: index + 1,
                running,
                in_flight: in_flight + 1,
                outcomes,
                running_set: Ghost(running_set@.insert(index as nat)),
            };
            assert(dispatcher@ == before@.start());
            DispatchStep::Start { index, command, dispatcher }
        } else if self.in_flight > 0 {
            DispatchStep::Wait { dispatcher: self }
        } else {
            let complete = self.started == self.repos.len();
            proof {
                if complete {
                    lemma_complete_reports_all(self@);
                }
            }
            let report = CloneReport { outcomes: self.outcomes };
            if complete {
                DispatchStep::Done(report)
            } else {
                DispatchStep::Blocked(report)
            }
        }
    }

    /// Takes the report that the clone at place `index` ended, well or
    /// not, and lets its place among the running clones go. A report for a
    /// clone that does not run is dropped.
    pub fn finish(self, index: usize, succeeded: bool) -> (dispatcher: CloneDispatcher)
        ensures
            self@.wf(),
            dispatcher@ == self@.finish(index as nat, succeeded),
            dispatcher@.wf(),
    {
        proof {
            use_type_invariant(&self);
        }
        if index >= self.running.len() || !self.running[index] {
            return self;
        }
        proof {
            lemma_finish_keeps_wf(self@, index as nat, succeeded);
        }
        let clone_url = self.repos[index].ssh_url.clone();
        let ghost before = self;
        let CloneDispatcher {
            repos,
            directory,
            limit,
            started,
            running,
            in_flight,
            outcomes,
            running_set,
        } = self;
        let mut running = running;
        let mut outcomes = outcomes;
        running.set(index, false);
        outcomes.push(CloneOutcome { index, clone_url, succeeded });
        assert(outcomes@.map_values(|outcome: CloneOutcome| outcome_end(outcome))
            =~= before@.finished.push(Finished { index: index as nat, succeeded }));
        CloneDispatcher {
            repos,
            directory,
            limit,
            started,
            running,
            in_flight: in_flight - 1,
            outcomes,
            running_set: Ghost(running_set@.remove(index as nat)),
        }
    }
}

} // verus!
