//! One run of `yt-dlp`, from its launch to its output.
//!
//! A [`SearchRun`] names what is to be done next. Whoever drives the run does it, and tells
//! [`SearchRun::next`] what came of it. The program is started by [`SearchRun::launch`], which
//! registers its process group in the same turn, and the registration is taken back by
//! [`SearchRun::released`] before the run is over: in between, a signal that ends `yttui` ends the
//! process group too.

use crate::process::ExitReport;
use crate::search;
use crate::search::{SearchError, SearchResult, SortOrder, YtDlpBackend};
use crate::signal;
use crate::signal::{ChildRegistry, SearchGuard};
use crate::text;
use crate::time::TimeSpan;
use vstd::prelude::*;

verus! {

/// Why a run is broken off.
#[derive(Debug, Clone, Copy, PartialEq, Eq, Structural)]
pub enum StopReason {
    Cancelled,
    TimedOut,
}

/// What a run waits for.
#[derive(Debug, PartialEq, Eq)]
pub enum SearchRun {
    /// Start the program in a process group of its own, with both outputs piped into threads
    /// that read them to the end, and register the group. The program is given by the bytes of its
    /// name or path.
    Launch { program: Vec<u8>, args: Vec<String> },
    /// Read the cancel flag.
    ReadCancelFlag,
    /// See whether the child has ended, without waiting.
    PollChild,
    /// Read how long the run has taken.
    ReadClock,
    /// Sleep for a moment.
    Pause,
    /// Kill the process group, wait for the child, and let both reader threads end.
    Stop(StopReason),
    /// Wait for the thread that reads the standard output.
    JoinStdout(ExitReport),
    /// Wait for the thread that reads the standard error.
    JoinStderr(ExitReport, Vec<u8>),
    /// Take the registration of the process group back.
    Release(Result<Vec<u8>, SearchError>),
    /// Nothing more: the run is over.
    Done(Result<Vec<u8>, SearchError>),
}

/// What came of reading a pipe to its end in a thread.
#[derive(Debug, PartialEq, Eq)]
pub enum ReaderOutcome {
    Panicked,
    Failed(String),
    Read(Vec<u8>),
}

/// A search program that was started, and its registration.
pub struct StartedSearch<C> {
    pub child: C,
    pub guard: SearchGuard,
}

/// What came of doing what a run waited for.
#[derive(Debug, PartialEq, Eq)]
pub enum RunEvent {
    CancelFlag(bool),
    StillRunning,
    Ended(ExitReport),
    PollFailed(String),
    Elapsed(TimeSpan),
    Paused,
    Stopped,
    Joined(ReaderOutcome),
}

/// How long a run pauses between two looks at the child.
pub const CANCEL_POLL_INTERVAL_MILLIS: u64 = 50;

/// The error that a run broken off ends with.
pub open spec fn stop_error(reason: StopReason, timeout: TimeSpan) -> SearchError {
    match reason {
        StopReason::Cancelled => SearchError::Cancelled,
        StopReason::TimedOut => SearchError::Timeout(timeout),
    }
}

impl SearchRun {
    /// The start of a run.
    pub fn begin(backend: &YtDlpBackend, query: &str, count: u32, sort: SortOrder) -> (r: SearchRun)
        ensures
            r matches SearchRun::Launch { program, args } && program@ == backend.binary@
                && text::texts(args@) == search::arguments_of(query@, count, sort),
    {
        SearchRun::Launch {
            program: backend.binary.clone(),
            args: search::search_args(query, count, sort),
        }
    }

    /// Whether a run that waits for `self` waits for `next` after an event. The cancel flag is
    /// looked at first, then the child, then the clock; whichever ends the run first wins. However
    /// it ends, the registration is taken back next. An event that answers nothing the run waits
    /// for changes nothing.
    pub open spec fn leads_to(self, timeout: TimeSpan, event: RunEvent, next: SearchRun) -> bool {
        match (self, event) {
            (SearchRun::ReadCancelFlag, RunEvent::CancelFlag(set)) => next == (if set {
                SearchRun::Stop(StopReason::Cancelled)
            } else {
                SearchRun::PollChild
            }),
            (SearchRun::PollChild, RunEvent::StillRunning) => next is ReadClock,
            (SearchRun::PollChild, RunEvent::Ended(report)) => next == SearchRun::JoinStdout(
                report,
            ),
            (SearchRun::PollChild, RunEvent::PollFailed(why)) => next == SearchRun::Release(
                Err(SearchError::Wait(why)),
            ),
            (SearchRun::ReadClock, RunEvent::Elapsed(elapsed)) => next == (if elapsed.in_nanos()
                >= timeout.in_nanos() {
                SearchRun::Stop(StopReason::TimedOut)
            } else {
                SearchRun::Pause
            }),
            (SearchRun::Pause, RunEvent::Paused) => next is ReadCancelFlag,
            (SearchRun::Stop(reason), RunEvent::Stopped) => next == SearchRun::Release(
                Err(stop_error(reason, timeout)),
            ),
            (SearchRun::JoinStdout(report), RunEvent::Joined(outcome)) => next == (match outcome {
                ReaderOutcome::Panicked => SearchRun::Release(Err(SearchError::ReaderPanicked)),
                ReaderOutcome::Failed(why) => SearchRun::Release(Err(SearchError::Read(why))),
                ReaderOutcome::Read(bytes) => SearchRun::JoinStderr(report, bytes),
            }),
            (SearchRun::JoinStderr(report, stdout), RunEvent::Joined(outcome)) => match outcome {
                ReaderOutcome::Panicked => next == SearchRun::Release(
                    Err(SearchError::ReaderPanicked),
                ),
                ReaderOutcome::Failed(why) => next == SearchRun::Release(Err(SearchError::Read(why))),
                ReaderOutcome::Read(stderr) => next matches SearchRun::Release(r) && ended_with(
                    report,
                    stdout,
                    stderr@,
                    r,
                ),
            },
            (state, _) => next == state,
        }
    }

    /// What a run waits for after an event.
    pub fn next(self, timeout: TimeSpan, event: RunEvent) -> (r: SearchRun)
        ensures
            self.leads_to(timeout, event, r),
    {
        match (self, event) {
            (SearchRun::ReadCancelFlag, RunEvent::CancelFlag(set)) => {
                if set {
                    SearchRun::Stop(StopReason::Cancelled)
                } else {
                    SearchRun::PollChild
                }
            },
            (SearchRun::PollChild, RunEvent::StillRunning) => SearchRun::ReadClock,
            (SearchRun::PollChild, RunEvent::Ended(report)) => SearchRun::JoinStdout(report),
            (SearchRun::PollChild, RunEvent::PollFailed(why)) => SearchRun::Release(
                Err(SearchError::Wait(why)),
            ),
            (SearchRun::ReadClock, RunEvent::Elapsed(elapsed)) => {
                if elapsed.reaches(&timeout) {
                    SearchRun::Stop(StopReason::TimedOut)
                } else {
                    SearchRun::Pause
                }
            },
            (SearchRun::Pause, RunEvent::Paused) => SearchRun::ReadCancelFlag,
            (SearchRun::Stop(StopReason::Cancelled), RunEvent::Stopped) => SearchRun::Release(
                Err(SearchError::Cancelled),
            ),
            (SearchRun::Stop(StopReason::TimedOut), RunEvent::Stopped) => SearchRun::Release(
                Err(SearchError::Timeout(timeout)),
            ),
            (SearchRun::JoinStdout(report), RunEvent::Joined(outcome)) => match outcome {
                ReaderOutcome::Panicked => SearchRun::Release(Err(SearchError::ReaderPanicked)),
                ReaderOutcome::Failed(why) => SearchRun::Release(Err(SearchError::Read(why))),
                ReaderOutcome::Read(bytes) => SearchRun::JoinStderr(report, bytes),
            },
            (SearchRun::JoinStderr(report, stdout), RunEvent::Joined(outcome)) => match outcome {
                ReaderOutcome::Panicked => SearchRun::Release(Err(SearchError::ReaderPanicked)),
                ReaderOutcome::Failed(why) => SearchRun::Release(Err(SearchError::Read(why))),
                ReaderOutcome::Read(bytes) => SearchRun::Release(outcome_of(report, stdout, &bytes)),
            },
            (state, _) => state,
        }
    }

    /// Starts the program of a run and registers its process group, in one turn of holding the
    /// registry, so that no signal finds the program running and its group not registered. `spawn`
    /// starts the program and names the leader of its group. Where the program could not be
    /// started, or it is not time to start it, the registry stays as it was.
    pub fn launch<C, F: FnOnce() -> Result<(C, u32), String>>(
        self,
        registry: &mut ChildRegistry,
        spawn: F,
    ) -> (r: (SearchRun, Option<StartedSearch<C>>))
        requires
            self is Launch ==> call_requires(spawn, ()),
        ensures
            self is Launch ==> exists|spawned: Result<(C, u32), String>| #[trigger]
                call_ensures(spawn, (), spawned) && goes_on(
                    spawned,
                    *old(registry),
                    *final(registry),
                    r.0,
                    r.1,
                ),
            !(self is Launch) ==> r.0 == self && r.1 is None && *final(registry) == *old(registry),
    {
        match self {
            SearchRun::Launch { program, args } => {
                let spawned = spawn();
                let ghost came_of_it = spawned;
                let r = match spawned {
                    Ok((child, pid)) => {
                        let guard = registry.register_search(pid);
                        (SearchRun::ReadCancelFlag, Some(StartedSearch { child, guard }))
                    },
                    Err(why) => (SearchRun::Done(Err(SearchError::Spawn(why))), None),
                };
                assert(call_ensures(spawn, (), came_of_it));
                assert(goes_on(came_of_it, *old(registry), *registry, r.0, r.1));
                r
            },
            other => (other, None),
        }
    }

    /// Takes the registration of a run back, which then is over. Where it is not time for that, the
    /// registration stays, and is handed back.
    pub fn released(self, registry: &mut ChildRegistry, guard: SearchGuard) -> (r: (
        SearchRun,
        Option<SearchGuard>,
    ))
        ensures
            self matches SearchRun::Release(raw) ==> {
                &&& r.0 == SearchRun::Done(raw)
                &&& r.1 is None
                &&& final(registry).registered() == old(registry).registered()
                &&& final(registry).searching() == signal::without(
                    old(registry).searching(),
                    guard.leader(),
                )
            },
            !(self is Release) ==> r.0 == self && r.1 == Some(guard) && *final(registry) == *old(
                registry,
            ),
    {
        match self {
            SearchRun::Release(raw) => {
                registry.release_search(guard);
                (SearchRun::Done(raw), None)
            },
            other => (other, Some(guard)),
        }
    }
}

/// How a run goes on after an attempt to start its program, which found the registry as `before`
/// and left it as `after`: a program that was started is registered, and nothing else changes.
pub open spec fn goes_on<C>(
    spawned: Result<(C, u32), String>,
    before: ChildRegistry,
    after: ChildRegistry,
    next: SearchRun,
    started: Option<StartedSearch<C>>,
) -> bool {
    match spawned {
        Ok(pair) => {
            &&& next is ReadCancelFlag
            &&& started matches Some(s) && s.child == pair.0 && s.guard.leader() == pair.1
            &&& after.searching() == before.searching().push(pair.1)
            &&& after.registered() == before.registered()
        },
        Err(why) => {
            &&& next == SearchRun::Done(Err(SearchError::Spawn(why)))
            &&& started is None
            &&& after == before
        },
    }
}

/// What a run that ended by itself comes to: its output where it succeeded, and else its exit
/// code with what it had to say.
pub open spec fn ended_with(
    report: ExitReport,
    stdout: Vec<u8>,
    stderr: Seq<u8>,
    r: Result<Vec<u8>, SearchError>,
) -> bool {
    if report.success {
        r == Ok::<Vec<u8>, SearchError>(stdout)
    } else {
        r matches Err(SearchError::NonZeroExit { status, stderr: said }) && status
            == report.code_or_minus_one() && said@ == text::trimmed(text::lossy(stderr))
    }
}

/// What a run that ended by itself comes to.
pub fn outcome_of(report: ExitReport, stdout: Vec<u8>, stderr: &Vec<u8>) -> (r: Result<
    Vec<u8>,
    SearchError,
>)
    ensures
        ended_with(report, stdout, stderr@, r),
{
    if report.success {
        Ok(stdout)
    } else {
        let said = text::read_lossy(stderr.as_slice());
        Err(
            SearchError::NonZeroExit {
                status: report.status(),
                stderr: text::trim(said.as_str()).to_owned(),
            },
        )
    }
}

/// Whether `r` is the answer to a search whose run came to `raw`, with what the log is to say.
pub open spec fn finishes<F: FnOnce(&[u8]) -> Result<Vec<serde_json::Value>, String>>(
    raw: Result<Vec<u8>, SearchError>,
    read: F,
    r: (Result<Vec<SearchResult>, SearchError>, Vec<String>),
) -> bool {
    match raw {
        Err(e) => r.0 == Err::<Vec<SearchResult>, SearchError>(e) && r.1@.len() == 0,
        Ok(output) => exists|bytes: &[u8], items: Result<Vec<serde_json::Value>, String>|
            bytes@ == output@ && #[trigger] call_ensures(read, (bytes,), items) && search::answers(
                items,
                r.0,
            ) && text::texts(r.1@) == search::answer_warnings(items),
    }
}

/// The answer to a search whose run came to `raw`: the results in the output, or the error; and
/// what the log is to say of the entries that are skipped. `read` takes the list of entries out of
/// the output, or says why there is none.
pub fn finish_search<F: FnOnce(&[u8]) -> Result<Vec<serde_json::Value>, String>>(
    raw: Result<Vec<u8>, SearchError>,
    read: F,
) -> (r: (Result<Vec<SearchResult>, SearchError>, Vec<String>))
    requires
        forall|bytes: &[u8]| #[trigger] call_requires(read, (bytes,)),
    ensures
        finishes(raw, read, r),
{
    match raw {
        Ok(output) => {
            let bytes = output.as_slice();
            let items = read(bytes);
            let ghost came_of_it = items;
            let r = search::read_answer(items);
            assert(bytes@ == output@ && call_ensures(read, (bytes,), came_of_it));
            r
        },
        Err(e) => (Err(e), Vec::new()),
    }
}

// ---------------------------------------------------------------------------
// What holds of every run.
// ---------------------------------------------------------------------------

/// A step of a run.
pub enum RunStep {
    /// The program was started as the leader of a process group.
    Launched(u32),
    /// The program could not be started.
    LaunchFailed(String),
    /// What the run waited for was done.
    Answered(RunEvent),
    /// The registration of the process group was taken back.
    Released,
}

/// Whether a run that waits for `state` waits for `next` after a step. Only a run that is to be
/// launched is launched, and only one that is to be released is released.
pub open spec fn steps_to(
    state: SearchRun,
    timeout: TimeSpan,
    step: RunStep,
    next: SearchRun,
) -> bool {
    match step {
        RunStep::Launched(pid) => state is Launch && next is ReadCancelFlag,
        RunStep::LaunchFailed(why) => state is Launch && next == SearchRun::Done(
            Err(SearchError::Spawn(why)),
        ),
        RunStep::Answered(event) => state.leads_to(timeout, event, next),
        RunStep::Released => state matches SearchRun::Release(raw) && next == SearchRun::Done(raw),
    }
}

/// Whether `states` are what a run waited for, one after another, and `steps` what was done.
pub open spec fn is_run(states: Seq<SearchRun>, steps: Seq<RunStep>, timeout: TimeSpan) -> bool {
    &&& states.len() == steps.len() + 1
    &&& states[0] is Launch
    &&& forall|i: int|
        0 <= i < steps.len() ==> steps_to(#[trigger] states[i], timeout, steps[i], states[i + 1])
}

/// Whether a program that was started is not yet given up: the run is launched, and not over.
pub open spec fn runs(state: SearchRun) -> bool {
    !(state is Launch || state is Done)
}

/// What a step does to the searches that are registered, for a run whose process group has the
/// given leader.
pub open spec fn recorded(searches: Seq<u32>, step: RunStep, leader: u32) -> Seq<u32> {
    match step {
        RunStep::Launched(pid) => searches.push(pid),
        RunStep::Released => signal::without(searches, leader),
        _ => searches,
    }
}

/// A run is registered exactly while its program runs: from its launch until it is over, whichever
/// way it goes, and no longer. `searches` are the registered searches before the run and after each
/// of its steps.
pub proof fn law_a_running_search_is_registered(
    states: Seq<SearchRun>,
    steps: Seq<RunStep>,
    timeout: TimeSpan,
    leader: u32,
    searches: Seq<Seq<u32>>,
    k: int,
)
    requires
        is_run(states, steps, timeout),
        forall|i: int|
            0 <= i < steps.len() ==> (#[trigger] steps[i] matches RunStep::Launched(pid) ==> pid
                == leader),
        searches.len() == states.len(),
        forall|i: int|
            0 <= i < steps.len() ==> searches[i + 1] == recorded(
                searches[i],
                #[trigger] steps[i],
                leader,
            ),
        0 <= k < states.len(),
    ensures
        runs(states[k]) ==> searches[k] == searches[0].push(leader),
        !runs(states[k]) ==> searches[k] == searches[0],
    decreases k,
{
    if k > 0 {
        law_a_running_search_is_registered(states, steps, timeout, leader, searches, k - 1);
        assert(steps_to(states[k - 1], timeout, steps[k - 1], states[k]));
        assert(searches[k - 1 + 1] == recorded(searches[k - 1], steps[k - 1], leader));
        signal::law_taking_back_undoes(searches[0], leader);
    }
}

/// Where a program was started, its process group is among those that a signal ends; and where none
/// was, nothing is registered that was not before.
pub proof fn law_who_was_started_is_registered<C>(
    spawned: Result<(C, u32), String>,
    before: ChildRegistry,
    after: ChildRegistry,
    next: SearchRun,
    started: Option<StartedSearch<C>>,
)
    requires
        goes_on(spawned, before, after, next, started),
    ensures
        runs(next) <==> started is Some,
        started matches Some(s) ==> signal::group_numbers(
            after.registered(),
            after.searching(),
        ).contains(signal::group_number(s.guard.leader())),
        started is None ==> after == before,
{
    if let Some(s) = started {
        let searches = after.searching();
        assert(searches[searches.len() - 1] == s.guard.leader());
        signal::law_a_signal_ends_all_that_is_registered(after.registered(), searches);
        assert(searches.contains(s.guard.leader()));
    }
}

/// The run was broken off for `reason`.
pub open spec fn broken_off(state: SearchRun, reason: StopReason, timeout: TimeSpan) -> bool {
    ||| state == SearchRun::Stop(reason)
    ||| state == SearchRun::Release(Err(stop_error(reason, timeout)))
    ||| state == SearchRun::Done(Err(stop_error(reason, timeout)))
}

/// A run whose cancel flag is seen to be set ends as cancelled, once its child is stopped and its
/// registration taken back.
pub proof fn law_a_set_flag_cancels(
    state: SearchRun,
    stopping: SearchRun,
    stopped: SearchRun,
    last: SearchRun,
    timeout: TimeSpan,
)
    requires
        state is ReadCancelFlag,
        state.leads_to(timeout, RunEvent::CancelFlag(true), stopping),
        stopping.leads_to(timeout, RunEvent::Stopped, stopped),
        steps_to(stopped, timeout, RunStep::Released, last),
    ensures
        stopping is Stop,
        last == SearchRun::Done(Err(SearchError::Cancelled)),
{
}

/// A run ends as cancelled only if its cancel flag was seen to be set.
pub proof fn law_cancelled_only_by_the_flag(
    states: Seq<SearchRun>,
    steps: Seq<RunStep>,
    timeout: TimeSpan,
    k: int,
)
    requires
        is_run(states, steps, timeout),
        0 <= k < states.len(),
        broken_off(states[k], StopReason::Cancelled, timeout),
    ensures
        exists|i: int|
            0 <= i < k && #[trigger] steps[i] == RunStep::Answered(RunEvent::CancelFlag(true)),
    decreases k,
{
    assert(steps_to(states[k - 1], timeout, steps[k - 1], states[k]));
    if broken_off(states[k - 1], StopReason::Cancelled, timeout) {
        law_cancelled_only_by_the_flag(states, steps, timeout, k - 1);
    } else {
        assert(steps[k - 1] == RunStep::Answered(RunEvent::CancelFlag(true)));
    }
}

/// A run times out only if it was seen to have taken as long as it may.
pub proof fn law_timed_out_only_by_the_clock(
    states: Seq<SearchRun>,
    steps: Seq<RunStep>,
    timeout: TimeSpan,
    k: int,
)
    requires
        is_run(states, steps, timeout),
        0 <= k < states.len(),
        broken_off(states[k], StopReason::TimedOut, timeout),
    ensures
        exists|i: int|
            0 <= i < k && (#[trigger] steps[i] matches RunStep::Answered(RunEvent::Elapsed(t))
                && t.in_nanos() >= timeout.in_nanos()),
    decreases k,
{
    assert(steps_to(states[k - 1], timeout, steps[k - 1], states[k]));
    if broken_off(states[k - 1], StopReason::TimedOut, timeout) {
        law_timed_out_only_by_the_clock(states, steps, timeout, k - 1);
    } else {
        assert(steps[k - 1] matches RunStep::Answered(RunEvent::Elapsed(t)) && t.in_nanos()
            >= timeout.in_nanos());
    }
}

/// No run that is cancelled or times out ends before its process group was killed: what it comes to
/// is settled by the step that kills it.
pub proof fn law_broken_off_only_after_the_kill(
    state: SearchRun,
    timeout: TimeSpan,
    event: RunEvent,
    next: SearchRun,
    reason: StopReason,
)
    requires
        state.leads_to(timeout, event, next),
        next == SearchRun::Release(Err(stop_error(reason, timeout))),
        next != state,
    ensures
        state == SearchRun::Stop(reason),
        event is Stopped,
{
}

/// A run gives output only if the child succeeded, and then it is all that the child wrote.
pub proof fn law_output_only_on_success(
    states: Seq<SearchRun>,
    steps: Seq<RunStep>,
    timeout: TimeSpan,
    output: Vec<u8>,
)
    requires
        is_run(states, steps, timeout),
        states.last() == SearchRun::Done(Ok(output)),
    ensures
        succeeded(steps, steps.len() as int),
        wrote(steps, steps.len() as int, output),
{
    lemma_towards_output(states, steps, timeout, states.len() - 1);
}

/// Whether the child was seen to have succeeded in one of the first `k` steps.
pub open spec fn succeeded(steps: Seq<RunStep>, k: int) -> bool {
    exists|i: int|
        0 <= i < k && (#[trigger] steps[i] matches RunStep::Answered(RunEvent::Ended(report))
            && report.success)
}

/// Whether `output` was read from the child in one of the first `k` steps.
pub open spec fn wrote(steps: Seq<RunStep>, k: int, output: Vec<u8>) -> bool {
    exists|i: int|
        0 <= i < k && #[trigger] steps[i] == RunStep::Answered(
            RunEvent::Joined(ReaderOutcome::Read(output)),
        )
}

/// What a run has seen before it holds output.
proof fn lemma_towards_output(
    states: Seq<SearchRun>,
    steps: Seq<RunStep>,
    timeout: TimeSpan,
    k: int,
)
    requires
        is_run(states, steps, timeout),
        0 <= k < states.len(),
    ensures
        states[k] matches SearchRun::JoinStdout(report) ==> report.success ==> succeeded(steps, k),
        states[k] matches SearchRun::JoinStderr(report, output) ==> (report.success ==> succeeded(
            steps,
            k,
        )) && wrote(steps, k, output),
        states[k] matches SearchRun::Release(Ok(output)) ==> succeeded(steps, k) && wrote(
            steps,
            k,
            output,
        ),
        states[k] matches SearchRun::Done(Ok(output)) ==> succeeded(steps, k) && wrote(
            steps,
            k,
            output,
        ),
    decreases k,
{
    if k > 0 {
        lemma_towards_output(states, steps, timeout, k - 1);
        assert(steps_to(states[k - 1], timeout, steps[k - 1], states[k]));
        assert(steps[k - 1] == steps[k - 1]);
    }
}

/// A run that is over stays as it is.
pub proof fn law_done_is_final(state: SearchRun, timeout: TimeSpan, step: RunStep, next: SearchRun)
    requires
        state is Done,
        steps_to(state, timeout, step, next),
    ensures
        next == state,
{
}

/// While the child runs, the run looks at the cancel flag, at the child and at the clock in turn,
/// and pauses; a flag that is set and a time that is up each break it off, and nothing else does.
pub proof fn law_what_breaks_a_run_off(
    state: SearchRun,
    timeout: TimeSpan,
    set: bool,
    elapsed: TimeSpan,
    next: SearchRun,
)
    ensures
        state is ReadCancelFlag && state.leads_to(timeout, RunEvent::CancelFlag(set), next)
            ==> next == (if set {
            SearchRun::Stop(StopReason::Cancelled)
        } else {
            SearchRun::PollChild
        }),
        state is PollChild && state.leads_to(timeout, RunEvent::StillRunning, next) ==> next
            is ReadClock,
        state is ReadClock && state.leads_to(timeout, RunEvent::Elapsed(elapsed), next)
            && elapsed.whole_seconds() * 1_000_000_000 + elapsed.left_over()
            >= timeout.whole_seconds() * 1_000_000_000 + timeout.left_over() ==> next
            == SearchRun::Stop(StopReason::TimedOut),
        state is ReadClock && state.leads_to(timeout, RunEvent::Elapsed(elapsed), next)
            && elapsed.whole_seconds() * 1_000_000_000 + elapsed.left_over()
            < timeout.whole_seconds() * 1_000_000_000 + timeout.left_over() ==> next is Pause,
        state is Pause && state.leads_to(timeout, RunEvent::Paused, next) ==> next is ReadCancelFlag,
{
}

/// A run that is broken off ends with the reason, once its process group is killed: cancelled, or
/// timed out after the time that it had.
pub proof fn law_a_run_broken_off_says_why(
    reason: StopReason,
    timeout: TimeSpan,
    stopped: SearchRun,
    over: SearchRun,
)
    requires
        SearchRun::Stop(reason).leads_to(timeout, RunEvent::Stopped, stopped),
        steps_to(stopped, timeout, RunStep::Released, over),
    ensures
        reason == StopReason::Cancelled ==> over == SearchRun::Done(Err(SearchError::Cancelled)),
        reason == StopReason::TimedOut ==> over == SearchRun::Done(
            Err(SearchError::Timeout(timeout)),
        ),
{
}

/// A child that ends is heard out on both its outputs. One that succeeded gives all of its standard
/// output, and one that failed its exit code, or -1, and all of its standard error but for the white
/// space around it.
pub proof fn law_a_run_that_ends_gives_what_the_child_wrote(
    timeout: TimeSpan,
    report: ExitReport,
    stdout: Vec<u8>,
    stderr: Vec<u8>,
    first: SearchRun,
    second: SearchRun,
    third: SearchRun,
    over: SearchRun,
)
    requires
        SearchRun::PollChild.leads_to(timeout, RunEvent::Ended(report), first),
        first.leads_to(timeout, RunEvent::Joined(ReaderOutcome::Read(stdout)), second),
        second.leads_to(timeout, RunEvent::Joined(ReaderOutcome::Read(stderr)), third),
        steps_to(third, timeout, RunStep::Released, over),
    ensures
        report.success ==> over == SearchRun::Done(Ok(stdout)),
        !report.success ==> (over matches SearchRun::Done(Err(SearchError::NonZeroExit {
            status,
            stderr: said,
        })) && said@ == text::trimmed(text::lossy(stderr@)) && (report.code matches Some(code)
            ==> status == code) && (report.code is None ==> status == -1)),
{
}

/// A child that cannot be looked at, and an output that cannot be read, end the run with what went
/// wrong.
pub proof fn law_what_cannot_be_read_ends_a_run(
    timeout: TimeSpan,
    report: ExitReport,
    stdout: Vec<u8>,
    why: String,
    next: SearchRun,
)
    ensures
        SearchRun::PollChild.leads_to(timeout, RunEvent::PollFailed(why), next) ==> next
            == SearchRun::Release(Err(SearchError::Wait(why))),
        SearchRun::JoinStdout(report).leads_to(
            timeout,
            RunEvent::Joined(ReaderOutcome::Failed(why)),
            next,
        ) ==> next == SearchRun::Release(Err(SearchError::Read(why))),
        SearchRun::JoinStdout(report).leads_to(
            timeout,
            RunEvent::Joined(ReaderOutcome::Panicked),
            next,
        ) ==> next == SearchRun::Release(Err(SearchError::ReaderPanicked)),
        SearchRun::JoinStderr(report, stdout).leads_to(
            timeout,
            RunEvent::Joined(ReaderOutcome::Failed(why)),
            next,
        ) ==> next == SearchRun::Release(Err(SearchError::Read(why))),
        SearchRun::JoinStderr(report, stdout).leads_to(
            timeout,
            RunEvent::Joined(ReaderOutcome::Panicked),
            next,
        ) ==> next == SearchRun::Release(Err(SearchError::ReaderPanicked)),
{
}

/// A program that was started is waited for, with the child and its registration at hand; and one
/// that was not ends the run with why.
pub proof fn law_how_a_run_begins<C>(
    spawned: Result<(C, u32), String>,
    before: ChildRegistry,
    after: ChildRegistry,
    next: SearchRun,
    started: Option<StartedSearch<C>>,
)
    requires
        goes_on(spawned, before, after, next, started),
    ensures
        spawned matches Ok(pair) ==> next is ReadCancelFlag && started is Some && started->0.child
            == pair.0 && started->0.guard.leader() == pair.1 && after.searching()
            == before.searching() + seq![pair.1] && after.registered() == before.registered(),
        spawned matches Err(why) ==> next == SearchRun::Done(Err(SearchError::Spawn(why)))
            && started is None && after == before,
{
    if let Ok(pair) = spawned {
        assert(before.searching().push(pair.1) =~= before.searching() + seq![pair.1]);
    }
}

/// The run of a search starts the program of its backend with the arguments for the search.
pub proof fn law_a_run_starts_the_program_of_its_backend(
    backend: &YtDlpBackend,
    query: &str,
    count: u32,
    sort: SortOrder,
    run: SearchRun,
)
    requires
        call_ensures(SearchRun::begin, (backend, query, count, sort), run),
    ensures
        run matches SearchRun::Launch { program, args } && program@ == backend.binary@ && args@.len()
            == 3 && args@[0]@ == "--flat-playlist"@ && args@[1]@ == "-J"@ && args@[2]@
            == search::target_of(query@, count, sort),
{
    let args = run->args;
    assert(text::texts(args@).len() == args@.len());
    assert(text::texts(args@)[0] == args@[0]@ && text::texts(args@)[1] == args@[1]@ && text::texts(
        args@,
    )[2] == args@[2]@);
}

/// The answer to a search is the error of its run, or else what the entries in its output stand for,
/// whatever the run took.
pub proof fn law_the_answer_comes_from_the_run<
    F: FnOnce(&[u8]) -> Result<Vec<serde_json::Value>, String>,
>(
    raw: Result<Vec<u8>, SearchError>,
    read: F,
    r: (Result<Vec<SearchResult>, SearchError>, Vec<String>),
)
    requires
        finishes(raw, read, r),
    ensures
        raw matches Err(e) ==> r.0 == Err::<Vec<SearchResult>, SearchError>(e) && r.1@.len() == 0,
        raw matches Ok(output) ==> exists|bytes: &[u8], items: Result<Vec<serde_json::Value>, String>|
            bytes@ == output@ && #[trigger] call_ensures(read, (bytes,), items) && (
            items matches Ok(values) ==> r.0 is Ok && search::result_views(r.0->Ok_0@)
                == search::results_of(search::entries_of(values@))) && (items matches Err(why)
                ==> r.0 == Err::<Vec<SearchResult>, SearchError>(SearchError::InvalidJson(why))),
{
}

/// What is done to a run that waits for something else changes nothing: one that is to be launched,
/// released or left alone is not moved by what a child does.
pub proof fn law_a_run_waits_for_what_it_waits_for(
    state: SearchRun,
    timeout: TimeSpan,
    event: RunEvent,
    next: SearchRun,
)
    requires
        state.leads_to(timeout, event, next),
    ensures
        state is Launch || state is Release || state is Done ==> next == state,
        event is Paused && !(state is Pause) ==> next == state,
        event is Stopped && !(state is Stop) ==> next == state,
        event is CancelFlag && !(state is ReadCancelFlag) ==> next == state,
        event is Elapsed && !(state is ReadClock) ==> next == state,
        (event is StillRunning || event is Ended || event is PollFailed) && !(state is PollChild)
            ==> next == state,
        event is Joined && !(state is JoinStdout || state is JoinStderr) ==> next == state,
{
}

} // verus!
