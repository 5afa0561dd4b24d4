use std::cell::RefCell;
use yttui::playback::{enter_warning, leave_warning, Launched, Playback};
use yttui::player::{PlaybackOptions, Player, PlayerError, RunningPlayer};
use yttui::search::{SearchResult, VideoDuration};
use yttui::signal::ChildRegistry;

struct Running {
    outcome: Result<(), PlayerError>,
}

impl RunningPlayer for Running {
    fn pid(&self) -> u32 {
        77
    }

    fn wait(self) -> Result<(), PlayerError> {
        self.outcome
    }
}

/// A player that starts unless it is broken, and then ends with a status. It records what it was
/// asked to play.
struct Scripted {
    broken: bool,
    status: i32,
    asked: RefCell<Vec<String>>,
}

impl Scripted {
    fn new(broken: bool, status: i32) -> Self {
        Scripted { broken, status, asked: RefCell::new(Vec::new()) }
    }
}

impl Player for Scripted {
    type Running = Running;

    fn spawn_player(&self, video_id: &str, _opts: &PlaybackOptions) -> Result<Running, PlayerError> {
        self.asked.borrow_mut().push(video_id.to_string());
        if self.broken {
            return Err(PlayerError::Spawn("no such file".to_string()));
        }
        let outcome = if self.status == 0 { Ok(()) } else { Err(PlayerError::NonZeroExit(self.status)) };
        Ok(Running { outcome })
    }
}

fn video(duration: VideoDuration) -> SearchResult {
    SearchResult { id: "v".to_string(), title: "V".to_string(), channel: None, duration }
}

/// Plays to the end; also returns what was registered while the player ran.
fn play_out(player: &Scripted, duration: VideoDuration) -> (Result<(), PlayerError>, Option<u32>) {
    let mut registry = ChildRegistry::new();
    let playback = Playback::begin();
    assert_eq!(playback, Playback::LeaveScreen);
    let playback = playback.screen_left();
    assert_eq!(playback, Playback::Launch);
    let (playback, launched) =
        playback.launch(&mut registry, player, &video(duration), &PlaybackOptions::default());
    let registered = registry.current();
    let playback = match launched {
        Some(Launched { running, guard }) => {
            assert_eq!(playback, Playback::AwaitExit);
            playback.exited(&mut registry, guard, running.wait())
        }
        None => playback,
    };
    assert_eq!(registry.current(), None);
    assert!(matches!(playback, Playback::EnterScreen(_)));
    match playback.screen_entered() {
        Playback::Done(outcome) => (outcome, registered),
        other => panic!("expected Done, got {other:?}"),
    }
}

#[test]
fn a_player_is_registered_while_it_runs() {
    let player = Scripted::new(false, 0);
    assert_eq!(play_out(&player, VideoDuration::Seconds(5)), (Ok(()), Some(77)));
    assert_eq!(*player.asked.borrow(), vec!["v".to_string()]);
}

#[test]
fn a_player_that_fails_is_taken_out_of_the_registry() {
    let player = Scripted::new(false, 3);
    assert_eq!(play_out(&player, VideoDuration::Live), (Err(PlayerError::NonZeroExit(3)), Some(77)));
}

#[test]
fn a_player_that_does_not_start_is_not_registered() {
    let player = Scripted::new(true, 0);
    assert_eq!(
        play_out(&player, VideoDuration::Unknown),
        (Err(PlayerError::Spawn("no such file".to_string())), None)
    );
}

#[test]
fn an_upcoming_stream_starts_no_player() {
    let player = Scripted::new(false, 0);
    let (outcome, registered) = play_out(&player, VideoDuration::Upcoming);
    assert!(matches!(outcome, Err(PlayerError::NotPlayable { .. })));
    assert_eq!(registered, None);
    assert!(player.asked.borrow().is_empty());
}

#[test]
fn a_failed_launch_leaves_another_registration() {
    let mut registry = ChildRegistry::new();
    registry.register(5);
    let player = Scripted::new(true, 0);
    let (_, launched) = Playback::Launch.launch(
        &mut registry,
        &player,
        &video(VideoDuration::Live),
        &PlaybackOptions::default(),
    );
    assert!(launched.is_none());
    assert_eq!(registry.current(), Some(5));
}

#[test]
fn failures_of_the_screen_are_logged() {
    assert_eq!(leave_warning("x"), "failed to leave alternate screen before mpv: x");
    assert_eq!(enter_warning("y"), "failed to re-enter alternate screen after mpv: y");
}

#[test]
fn nothing_is_launched_before_its_time() {
    let mut registry = ChildRegistry::new();
    let player = Scripted::new(false, 0);
    let (playback, launched) = Playback::LeaveScreen.launch(
        &mut registry,
        &player,
        &video(VideoDuration::Live),
        &PlaybackOptions::default(),
    );
    assert_eq!(playback, Playback::LeaveScreen);
    assert!(launched.is_none());
    assert!(player.asked.borrow().is_empty());
}
