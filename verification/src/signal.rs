//! Signals: neither a player nor a search is left behind when the program is interrupted.
//!
//! The player and every search run in process groups of their own, so that an interrupt typed at
//! the terminal does not reach them. The program keeps the leaders of these groups in a
//! [`ChildRegistry`], and a watcher of the interrupt and termination signals ends the groups before
//! the program exits. The program shares one registry between its threads under a lock; each
//! function here is one turn of holding it.

use vstd::prelude::*;
use vstd::string::*;

verus! {

/// The status that the program exits with when it is interrupted.
pub const INTERRUPTED_STATUS: i32 = 130;

/// The leaders of the process groups that are to be ended with the program: that of the player, if
/// there is one, and those of the searches. A search that is given up can still be about to end
/// while the next one runs, so there can be several.
#[derive(Debug, PartialEq, Eq)]
pub struct ChildRegistry {
    inner: Option<u32>,
    searches: Vec<u32>,
}

/// A registration that is still to be taken back.
///
/// It comes with a registration and goes back with [`ChildRegistry::release`].
#[derive(Debug, PartialEq, Eq)]
#[must_use]
pub struct RegistrationGuard {
    pid: u32,
}

impl RegistrationGuard {
    /// The process group leader that was registered.
    pub closed spec fn leader(self) -> u32 {
        self.pid
    }

    /// The process group leader that was registered.
    pub fn pid(&self) -> (r: u32)
        ensures
            r == self.leader(),
    {
        self.pid
    }
}

/// A search that is registered, and still to be taken back.
///
/// It comes with [`ChildRegistry::register_search`] and goes back with
/// [`ChildRegistry::release_search`].
#[derive(Debug, PartialEq, Eq)]
#[must_use]
pub struct SearchGuard {
    pid: u32,
}

impl SearchGuard {
    /// The process group leader that was registered.
    pub closed spec fn leader(self) -> u32 {
        self.pid
    }

    /// The process group leader that was registered.
    pub fn pid(&self) -> (r: u32)
        ensures
            r == self.leader(),
    {
        self.pid
    }
}

/// The leaders without one of them, where it is among them.
pub open spec fn without(leaders: Seq<u32>, pid: u32) -> Seq<u32>
    decreases leaders.len(),
{
    if leaders.len() == 0 {
        leaders
    } else if leaders.last() == pid {
        leaders.drop_last()
    } else {
        without(leaders.drop_last(), pid).push(leaders.last())
    }
}

/// The number that stands for a process group in a system call: the leader, or the largest such
/// number for one that has none.
pub open spec fn group_number(pid: u32) -> i32 {
    if pid <= i32::MAX {
        pid as i32
    } else {
        i32::MAX
    }
}

fn to_group_number(pid: u32) -> (r: i32)
    ensures
        r == group_number(pid),
{
    if pid <= 0x7fff_ffff {
        pid as i32
    } else {
        i32::MAX
    }
}

/// The process groups of a player, if there is one, and of searches.
pub open spec fn group_numbers(player: Option<u32>, searches: Seq<u32>) -> Seq<i32> {
    (match player {
        Some(pid) => seq![group_number(pid)],
        None => Seq::empty(),
    }) + searches.map_values(|pid: u32| group_number(pid))
}

impl Default for ChildRegistry {
    fn default() -> (r: Self)
        ensures
            r.registered() is None,
            r.searching().len() == 0,
    {
        ChildRegistry::new()
    }
}

impl ChildRegistry {
    /// The process group leader of the player in the registry.
    pub closed spec fn registered(self) -> Option<u32> {
        self.inner
    }

    /// The process group leaders of the searches in the registry.
    pub closed spec fn searching(self) -> Seq<u32> {
        self.searches@
    }

    /// An empty registry.
    #[must_use]
    pub fn new() -> (r: Self)
        ensures
            r.registered() is None,
            r.searching().len() == 0,
    {
        ChildRegistry { inner: None, searches: Vec::new() }
    }

    /// Registers the process group leader of a player. Returns the one before it; there should be none.
    pub fn register(&mut self, pid: u32) -> (r: Option<u32>)
        ensures
            final(self).registered() == Some(pid),
            final(self).searching() == old(self).searching(),
            r == old(self).registered(),
    {
        let before = self.inner;
        self.inner = Some(pid);
        before
    }

    /// Forgets the player. Returns its process group leader; forgetting it again returns nothing.
    pub fn clear(&mut self) -> (r: Option<u32>)
        ensures
            final(self).registered() is None,
            final(self).searching() == old(self).searching(),
            r == old(self).registered(),
    {
        let before = self.inner;
        self.inner = None;
        before
    }

    /// The process group leader of the player in the registry.
    #[must_use]
    pub fn current(&self) -> (r: Option<u32>)
        ensures
            r == self.registered(),
    {
        self.inner
    }

    /// Registers the process group leader of a player, to be taken back with [`Self::release`].
    pub fn register_pid_with_guard(&mut self, pid: u32) -> (r: RegistrationGuard)
        ensures
            final(self).registered() == Some(pid),
            final(self).searching() == old(self).searching(),
            r.leader() == pid,
    {
        self.inner = Some(pid);
        RegistrationGuard { pid }
    }

    /// Takes the registration of a player back: none is registered after it.
    pub fn release(&mut self, guard: RegistrationGuard) -> (r: Option<u32>)
        ensures
            final(self).registered() is None,
            final(self).searching() == old(self).searching(),
            r == old(self).registered(),
    {
        self.clear()
    }

    /// Starts a player and registers it in one turn of holding the registry, so that nobody finds
    /// none registered while it lives. Where none could be started, the registry
    /// stays as it was.
    pub fn register_spawn<C, E, F: FnOnce() -> Result<(C, u32), E>>(&mut self, spawn: F) -> (r:
        Result<(C, RegistrationGuard), E>)
        requires
            call_requires(spawn, ()),
        ensures
            r matches Ok(started) ==> final(self).registered() == Some(started.1.leader())
                && final(self).searching() == old(self).searching() && call_ensures(spawn, (), Ok((started.0, started.1.leader()))),
            r matches Err(e) ==> *final(self) == *old(self) && call_ensures(spawn, (), Err(e)),
    {
        match spawn() {
            Ok((child, pid)) => {
                self.inner = Some(pid);
                Ok((child, RegistrationGuard { pid }))
            },
            Err(e) => Err(e),
        }
    }

    /// The process group of the player, to be ended with `SIGTERM`, if there is one.
    #[must_use]
    pub fn kill_group(&self) -> (r: Option<i32>)
        ensures
            self.registered() is None ==> r is None,
            self.registered() matches Some(pid) ==> r == Some(group_number(pid)),
    {
        match self.inner {
            Some(pid) => Some(to_group_number(pid)),
            None => None,
        }
    }

    /// Registers the process group leader of a search, to be taken back with
    /// [`Self::release_search`].
    pub fn register_search(&mut self, pid: u32) -> (r: SearchGuard)
        ensures
            final(self).registered() == old(self).registered(),
            final(self).searching() == old(self).searching().push(pid),
            r.leader() == pid,
    {
        self.searches.push(pid);
        SearchGuard { pid }
    }

    /// Takes the registration of a search back. The player and the other searches stay.
    pub fn release_search(&mut self, guard: SearchGuard)
        ensures
            final(self).registered() == old(self).registered(),
            final(self).searching() == without(old(self).searching(), guard.leader()),
    {
        let mut i: usize = self.searches.len();
        while i > 0
            invariant
                *self == *old(self),
                i <= self.searches.len(),
                forall|j: int| i <= j < self.searches.len() ==> self.searches[j] != guard.pid,
            decreases i,
        {
            i -= 1;
            if self.searches[i] == guard.pid {
                proof {
                    lemma_without(self.searches@, guard.pid, i as int);
                }
                self.searches.remove(i);
                return ;
            }
        }
        proof {
            lemma_without(self.searches@, guard.pid, -1);
        }
    }

    /// All process groups to be ended with `SIGTERM`: that of the player, if there is one, and those
    /// of the searches.
    #[must_use]
    pub fn kill_groups(&self) -> (r: Vec<i32>)
        ensures
            r@ == group_numbers(self.registered(), self.searching()),
    {
        let mut groups: Vec<i32> = Vec::new();
        if let Some(group) = self.kill_group() {
            groups.push(group);
        }
        let ghost first = groups@;
        let mut i: usize = 0;
        while i < self.searches.len()
            invariant
                i <= self.searches.len(),
                groups@ == first + self.searches@.take(i as int).map_values(
                    |pid: u32| group_number(pid),
                ),
            decreases self.searches.len() - i,
        {
            groups.push(to_group_number(self.searches[i]));
            i += 1;
            assert(groups@ =~= first + self.searches@.take(i as int).map_values(
                |pid: u32| group_number(pid),
            ));
        }
        assert(self.searches@.take(i as int) =~= self.searches@);
        assert(groups@ =~= group_numbers(self.registered(), self.searching()));
        groups
    }
}

/// Where `pid` is last at `i`, leaving it out is removing that place; where it is nowhere, nothing
/// is left out.
proof fn lemma_without(leaders: Seq<u32>, pid: u32, i: int)
    requires
        -1 <= i < leaders.len(),
        i >= 0 ==> leaders[i] == pid,
        forall|j: int| i < j < leaders.len() ==> leaders[j] != pid,
    ensures
        without(leaders, pid) == if i >= 0 {
            leaders.remove(i)
        } else {
            leaders
        },
    decreases leaders.len(),
{
    if leaders.len() > 0 {
        if i == leaders.len() - 1 {
            assert(leaders.remove(i) =~= leaders.drop_last());
        } else {
            lemma_without(leaders.drop_last(), pid, i);
            if i >= 0 {
                assert(leaders.drop_last().remove(i).push(leaders.last()) =~= leaders.remove(i));
            } else {
                assert(leaders.drop_last().push(leaders.last()) =~= leaders);
            }
        }
    }
}

// ---------------------------------------------------------------------------
// What holds of every registry.
// ---------------------------------------------------------------------------

/// Whether a process group is that of a player or of a search.
pub open spec fn belongs_to_a_child(player: Option<u32>, searches: Seq<u32>, group: i32) -> bool {
    exists|pid: u32|
        (player == Some(pid) || searches.contains(pid)) && #[trigger] group_number(pid) == group
}

/// A signal ends the process group of every child that is registered, and no other.
pub proof fn law_a_signal_ends_all_that_is_registered(player: Option<u32>, searches: Seq<u32>)
    ensures
        player matches Some(pid) ==> group_numbers(player, searches).contains(group_number(pid)),
        forall|pid: u32|
            searches.contains(pid) ==> group_numbers(player, searches).contains(
                #[trigger] group_number(pid),
            ),
        forall|group: i32| #[trigger]
            group_numbers(player, searches).contains(group) ==> belongs_to_a_child(
                player,
                searches,
                group,
            ),
{
    let groups = group_numbers(player, searches);
    let start = groups.len() - searches.len();
    if let Some(pid) = player {
        assert(groups[0] == group_number(pid));
    }
    assert forall|pid: u32| searches.contains(pid) implies groups.contains(
        #[trigger] group_number(pid),
    ) by {
        let i = choose|i: int| 0 <= i < searches.len() && searches[i] == pid;
        assert(groups[start + i] == group_number(pid));
    }
    assert forall|group: i32| #[trigger] groups.contains(group) implies belongs_to_a_child(
        player,
        searches,
        group,
    ) by {
        let i = choose|i: int| 0 <= i < groups.len() && groups[i] == group;
        if i < start {
            assert(group_number(player->Some_0) == group);
        } else {
            assert(searches.contains(searches[i - start]));
            assert(group_number(searches[i - start]) == group);
        }
    }
}

/// Taking a search back undoes its registration.
pub proof fn law_taking_back_undoes(searches: Seq<u32>, pid: u32)
    ensures
        without(searches.push(pid), pid) == searches,
{
    assert(searches.push(pid).drop_last() =~= searches);
}

/// Taking one search back leaves every other one registered.
pub proof fn law_the_other_searches_stay(searches: Seq<u32>, pid: u32, other: u32)
    requires
        other != pid,
    ensures
        without(searches, pid).contains(other) <==> searches.contains(other),
    decreases searches.len(),
{
    if searches.len() > 0 {
        let before = searches.drop_last();
        law_the_other_searches_stay(before, pid, other);
        lemma_contains_push(before, searches.last(), other);
        assert(before.push(searches.last()) =~= searches);
        lemma_contains_push(without(before, pid), searches.last(), other);
    }
}

proof fn lemma_contains_push(s: Seq<u32>, last: u32, pid: u32)
    ensures
        s.push(last).contains(pid) <==> s.contains(pid) || last == pid,
{
    if s.contains(pid) {
        let i = choose|i: int| 0 <= i < s.len() && s[i] == pid;
        assert(s.push(last)[i] == pid);
    }
    if last == pid {
        assert(s.push(last)[s.len() as int] == pid);
    }
    if s.push(last).contains(pid) {
        let i = choose|i: int| 0 <= i < s.len() + 1 && s.push(last)[i] == pid;
        if i < s.len() {
            assert(s[i] == pid);
        }
    }
}

// ---------------------------------------------------------------------------
// The watcher.
// ---------------------------------------------------------------------------

/// How far the watcher of the signals is.
#[derive(Debug, Clone, Copy, PartialEq, Eq, Structural)]
pub enum Watcher {
    /// No signal has come.
    Waiting,
    /// One signal has come, and the program cleans up after it.
    CleaningUp,
    /// There is nothing more to watch for.
    Over,
}

/// What the watcher asks for.
#[derive(Debug, Clone, Copy, PartialEq, Eq, Structural)]
pub enum WatcherAction {
    /// End the registered process groups, restore the terminal, and exit with
    /// [`INTERRUPTED_STATUS`]; in a thread of its own, so that the watcher goes on.
    CleanUp,
    /// Exit with [`INTERRUPTED_STATUS`] at once.
    ExitAtOnce,
    /// Stop watching.
    Leave,
}

impl Watcher {
    /// The state after the next signal, or after it is clear that no more will come.
    pub open spec fn after(self, signal: bool) -> Watcher {
        if self is Waiting && signal {
            Watcher::CleaningUp
        } else {
            Watcher::Over
        }
    }

    /// What is asked for at the next signal, or when it is clear that no more will come.
    pub open spec fn asks(self, signal: bool) -> WatcherAction {
        if self is Waiting && signal {
            WatcherAction::CleanUp
        } else if self is CleaningUp && signal {
            WatcherAction::ExitAtOnce
        } else {
            WatcherAction::Leave
        }
    }

    /// A watcher that has seen nothing.
    pub fn start() -> (r: Watcher)
        ensures
            r is Waiting,
    {
        Watcher::Waiting
    }

    /// Takes in the next signal (`true`), or that no more will come (`false`).
    ///
    /// The first signal makes the program clean up; a second one, while that goes on, makes it
    /// exit at once, as a shell would.
    pub fn on_signal(&mut self, signal: bool) -> (r: WatcherAction)
        ensures
            *final(self) == old(self).after(signal),
            r == old(self).asks(signal),
    {
        match *self {
            Watcher::Waiting => {
                if signal {
                    *self = Watcher::CleaningUp;
                    WatcherAction::CleanUp
                } else {
                    *self = Watcher::Over;
                    WatcherAction::Leave
                }
            },
            Watcher::CleaningUp => {
                *self = Watcher::Over;
                if signal {
                    WatcherAction::ExitAtOnce
                } else {
                    WatcherAction::Leave
                }
            },
            Watcher::Over => WatcherAction::Leave,
        }
    }
}

/// What the program says where the signals cannot be watched.
pub fn install_warning(error: &str) -> (r: String)
    ensures
        r@ == "yttui: warning: could not install signal handler: "@ + error@
            + " (Ctrl-C during playback may leak mpv)"@,
{
    let mut out = "yttui: warning: could not install signal handler: ".to_owned();
    out.append(error);
    out.append(" (Ctrl-C during playback may leak mpv)");
    out
}

/// What a watcher asks for over a sequence of signals.
pub open spec fn asked_over(watcher: Watcher, signals: Seq<bool>) -> Seq<WatcherAction>
    decreases signals.len(),
{
    if signals.len() == 0 {
        Seq::empty()
    } else {
        seq![watcher.asks(signals[0])] + asked_over(watcher.after(signals[0]), signals.drop_first())
    }
}

/// Whatever comes, the program is asked to clean up at most once, and only by the first signal;
/// to exit at once only by the second; and for nothing after that.
pub proof fn law_the_second_signal_escalates(signals: Seq<bool>, i: int)
    requires
        0 <= i < signals.len(),
    ensures
        asked_over(Watcher::Waiting, signals).len() == signals.len(),
        asked_over(Watcher::Waiting, signals)[i] == (if i == 0 && signals[0] {
            WatcherAction::CleanUp
        } else if i == 1 && signals[0] && signals[1] {
            WatcherAction::ExitAtOnce
        } else {
            WatcherAction::Leave
        }),
{
    lemma_nothing_after_the_end(signals.drop_first());
    reveal_with_fuel(asked_over, 3);
    if signals.len() > 1 {
        lemma_nothing_after_the_end(signals.drop_first().drop_first());
    }
}

proof fn lemma_nothing_after_the_end(signals: Seq<bool>)
    ensures
        asked_over(Watcher::Over, signals).len() == signals.len(),
        forall|i: int|
            0 <= i < signals.len() ==> #[trigger] asked_over(Watcher::Over, signals)[i]
                == WatcherAction::Leave,
    decreases signals.len(),
{
    if signals.len() > 0 {
        lemma_nothing_after_the_end(signals.drop_first());
    }
}

/// The number of a process group is that of its leader, for every leader that a system call can
/// name; so two such leaders are never taken for each other.
pub proof fn law_a_group_has_the_number_of_its_leader(pid: u32)
    ensures
        pid <= 0x7fff_ffff ==> group_number(pid) == pid,
        pid > 0x7fff_ffff ==> group_number(pid) == 0x7fff_ffff,
{
}

/// The groups that a signal ends are that of the player, if there is one, and then those of the
/// searches, one for each and in order.
pub proof fn law_which_groups_a_signal_ends(registry: &ChildRegistry, groups: Vec<i32>)
    requires
        call_ensures(ChildRegistry::kill_groups, (registry,), groups),
    ensures
        ({
            let first = if registry.registered() is Some {
                1int
            } else {
                0int
            };
            &&& groups@.len() == first + registry.searching().len()
            &&& registry.registered() matches Some(pid) ==> groups@[0] == group_number(pid)
            &&& forall|i: int|
                0 <= i < registry.searching().len() ==> groups@[first + i] == group_number(
                    #[trigger] registry.searching()[i],
                )
        }),
{
}

} // verus!
