//! Playing a video on the terminal that the program draws on.
//!
//! The player needs the terminal for itself. So the program leaves the alternate screen, starts
//! the player, waits for it, and enters the screen again; and while the player runs, its process
//! group is registered, so that it does not outlive an interrupted program.

use crate::player;
use crate::player::{spawn_result, PlaybackOptions, Player, PlayerError, RunningPlayer};
use crate::search::SearchResult;
use crate::signal::{ChildRegistry, RegistrationGuard};
use crate::text;
use vstd::prelude::*;

verus! {

/// What is to be done next.
#[derive(Debug, PartialEq, Eq)]
pub enum Playback {
    /// Leave the alternate screen.
    LeaveScreen,
    /// Start the player.
    Launch,
    /// Wait until the player ends.
    AwaitExit,
    /// Enter the alternate screen again.
    EnterScreen(Result<(), PlayerError>),
    /// Nothing: it is over.
    Done(Result<(), PlayerError>),
}

/// A player that runs, and the registration of its process group.
pub struct Launched<R> {
    pub running: R,
    pub guard: RegistrationGuard,
}

/// Whether a playback goes on as it should after the attempt to start the player came out as
/// `spawned`: it waits for a player that runs, and its process group is registered; where none
/// runs it enters the screen again, and the registry stays as it was.
pub open spec fn goes_on<R: RunningPlayer>(
    spawned: Result<R, PlayerError>,
    before: ChildRegistry,
    after: ChildRegistry,
    next: Playback,
    launched: Option<Launched<R>>,
) -> bool {
    match spawned {
        Ok(running) => {
            &&& next == Playback::AwaitExit
            &&& launched matches Some(launched) && launched.running == running
                && after.registered() == Some(launched.guard.leader()) && call_ensures(
                R::pid,
                (&running,),
                launched.guard.leader(),
            )
        },
        Err(e) => {
            &&& next == Playback::EnterScreen(Err(e))
            &&& launched is None
            &&& after == before
        },
    }
}

/// The player that an attempt started, or why it started none.
pub open spec fn player_of<R>(started: Result<(R, RegistrationGuard), PlayerError>) -> Result<
    R,
    PlayerError,
> {
    match started {
        Ok(pair) => Ok(pair.0),
        Err(e) => Err(e),
    }
}

/// Whether `started` is what an attempt to start the player on a result comes to: the player with
/// the leader of its process group, or why none was started.
pub open spec fn starts<P: Player>(
    player: &P,
    result: SearchResult,
    opts: &PlaybackOptions,
    started: Result<(P::Running, u32), PlayerError>,
) -> bool {
    match started {
        Ok(pair) => player::asked(player, result, opts, Ok(pair.0)) && call_ensures(
            P::Running::pid,
            (&pair.0,),
            pair.1,
        ),
        Err(e) => player::asked(player, result, opts, Err(e)),
    }
}

impl Playback {
    /// A playback that has not begun.
    pub fn begin() -> (r: Self)
        ensures
            r == Playback::LeaveScreen,
    {
        Playback::LeaveScreen
    }

    /// What is done after the alternate screen was left. Where it could not be left, the player is
    /// started all the same: entering the screen again clears up.
    pub fn screen_left(self) -> (r: Self)
        ensures
            self == Playback::LeaveScreen ==> r == Playback::Launch,
            self != Playback::LeaveScreen ==> r == self,
    {
        match self {
            Playback::LeaveScreen => Playback::Launch,
            other => other,
        }
    }

    /// Starts the player on a result and registers it, in one turn of holding the registry. A
    /// video that cannot be watched yet is refused and starts no player: for such a video, and
    /// where it is not time to launch, no permission to start it is asked for.
    pub fn launch<P: Player>(
        self,
        registry: &mut ChildRegistry,
        player: &P,
        result: &SearchResult,
        opts: &PlaybackOptions,
    ) -> (r: (Self, Option<Launched<P::Running>>))
        requires
            self == Playback::Launch && result.duration.playable() ==> player.may_spawn(result.id@),
        ensures
            self == Playback::Launch ==> exists|spawned: Result<P::Running, PlayerError>| #[trigger]
                player::asked(player, *result, opts, spawned) && goes_on(
                    spawned,
                    *old(registry),
                    *final(registry),
                    r.0,
                    r.1,
                ),
            self != Playback::Launch ==> r.0 == self && r.1 is None && *final(registry) == *old(
                registry,
            ),
    {
        match self {
            Playback::Launch => {
                let spawn = || -> (o: Result<(P::Running, u32), PlayerError>)
                    ensures
                        starts(player, *result, opts, o),
                    {
                        match spawn_result(player, result, opts) {
                            Ok(running) => {
                                let pid: u32 = running.pid();
                                Ok((running, pid))
                            },
                            Err(e) => Err(e),
                        }
                    };
                let started = registry.register_spawn(spawn);
                let ghost spawned = player_of(started);
                let r = match started {
                    Ok((running, guard)) => (
                        Playback::AwaitExit,
                        Some(Launched { running, guard }),
                    ),
                    Err(e) => (Playback::EnterScreen(Err(e)), None),
                };
                assert(player::asked(player, *result, opts, spawned));
                assert(goes_on(spawned, *old(registry), *registry, r.0, r.1));
                r
            },
            other => (other, None),
        }
    }

    /// What is done after the player ended. Its registration is taken back.
    pub fn exited(
        self,
        registry: &mut ChildRegistry,
        guard: RegistrationGuard,
        outcome: Result<(), PlayerError>,
    ) -> (r: Self)
        ensures
            final(registry).registered() is None,
            self == Playback::AwaitExit ==> r == Playback::EnterScreen(outcome),
            self != Playback::AwaitExit ==> r == self,
    {
        registry.release(guard);
        match self {
            Playback::AwaitExit => Playback::EnterScreen(outcome),
            other => other,
        }
    }

    /// What is done after the alternate screen was entered again, or could not be.
    pub fn screen_entered(self) -> (r: Self)
        ensures
            r == self.at_the_end(),
    {
        match self {
            Playback::EnterScreen(outcome) => Playback::Done(outcome),
            other => other,
        }
    }

    /// The playback after the alternate screen was entered again.
    pub open spec fn at_the_end(self) -> Playback {
        match self {
            Playback::EnterScreen(outcome) => Playback::Done(outcome),
            other => other,
        }
    }
}

/// What the log says where the alternate screen could not be left.
pub fn leave_warning(error: &str) -> (r: String)
    ensures
        r@ == "failed to leave alternate screen before mpv: "@ + error@,
{
    text::concat("failed to leave alternate screen before mpv: ", error)
}

/// What the log says where the alternate screen could not be entered again.
pub fn enter_warning(error: &str) -> (r: String)
    ensures
        r@ == "failed to re-enter alternate screen after mpv: "@ + error@,
{
    text::concat("failed to re-enter alternate screen after mpv: ", error)
}

// ---------------------------------------------------------------------------
// What holds of every playback.
// ---------------------------------------------------------------------------

/// A player is awaited only while it is registered, and where there is nothing to await the
/// registry was not touched.
pub proof fn law_who_is_awaited_is_registered<R: RunningPlayer>(
    spawned: Result<R, PlayerError>,
    before: ChildRegistry,
    after: ChildRegistry,
    next: Playback,
    launched: Option<Launched<R>>,
)
    requires
        goes_on(spawned, before, after, next, launched),
    ensures
        next == Playback::AwaitExit <==> launched is Some,
        next == Playback::AwaitExit ==> after.registered() is Some,
        next != Playback::AwaitExit ==> after == before,
{
}

/// A video that cannot be watched yet leaves nothing to wait for: the playback ends with the
/// refusal, and the registry stays as it was.
pub proof fn law_what_cannot_be_watched_is_refused<P: Player>(
    player: &P,
    result: SearchResult,
    opts: &PlaybackOptions,
    spawned: Result<P::Running, PlayerError>,
    before: ChildRegistry,
    after: ChildRegistry,
    next: Playback,
    launched: Option<Launched<P::Running>>,
)
    requires
        !result.duration.playable(),
        player::asked(player, result, opts, spawned),
        goes_on(spawned, before, after, next, launched),
    ensures
        launched is None,
        after == before,
        next matches Playback::EnterScreen(Err(PlayerError::NotPlayable { reason })) && reason@
            == result.duration.words(),
{
}

/// A player that was started is waited for, and is the one that was started; why one was not started
/// is what the playback ends with, once the screen is entered again.
pub proof fn law_what_follows_from_a_launch<R: RunningPlayer>(
    spawned: Result<R, PlayerError>,
    before: ChildRegistry,
    after: ChildRegistry,
    next: Playback,
    launched: Option<Launched<R>>,
)
    requires
        goes_on(spawned, before, after, next, launched),
    ensures
        spawned matches Ok(running) ==> next == Playback::AwaitExit && launched is Some
            && launched->0.running == running && after.registered() == Some(
            launched->0.guard.leader(),
        ),
        spawned matches Err(e) ==> next == Playback::EnterScreen(Err(e)) && launched is None && after
            == before && next.at_the_end() == Playback::Done(Err(e)),
{
}

/// However the player ended, that is what the playback ends with, and the screen is entered before.
pub proof fn law_a_playback_ends_as_its_player_ended(outcome: Result<(), PlayerError>)
    ensures
        Playback::EnterScreen(outcome).at_the_end() == Playback::Done(outcome),
        Playback::Done(outcome).at_the_end() == Playback::Done(outcome),
        Playback::LeaveScreen.at_the_end() == Playback::LeaveScreen,
        Playback::Launch.at_the_end() == Playback::Launch,
        Playback::AwaitExit.at_the_end() == Playback::AwaitExit,
{
}

} // verus!
