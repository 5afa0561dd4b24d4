use std::sync::Mutex;
use yttui::player::{
    classify_exit, mpv_args, play, play_result, spawn_result, youtube_url, MpvPlayer, PlaybackOptions, Player,
    PlayerError, RunningPlayer,
};
use yttui::process::ExitReport;
use yttui::search::{SearchResult, VideoDuration};

#[test]
fn youtube_url_uses_canonical_form() {
    assert_eq!(
        youtube_url("dQw4w9WgXcQ"),
        "https://www.youtube.com/watch?v=dQw4w9WgXcQ"
    );
}

#[test]
fn default_args_are_just_the_url() {
    let args = mpv_args("abc123", &PlaybackOptions::default());
    assert_eq!(args, vec![youtube_url("abc123")]);
}

#[test]
fn audio_only_adds_no_video_flag() {
    let args = mpv_args(
        "abc123",
        &PlaybackOptions::default().with_audio_only(true),
    );
    assert_eq!(args[0], "--no-video");
    assert_eq!(args.last().unwrap(), &youtube_url("abc123"));
}

#[test]
fn extra_args_default_is_empty_so_default_invocation_is_unchanged() {
    let opts = PlaybackOptions::default();
    assert!(opts.extra_args.is_empty());
}

#[test]
fn extra_args_are_appended_before_the_url() {
    let opts = PlaybackOptions::default()
        .with_extra_args(vec!["--no-osc".to_string()]);
    let args = mpv_args("abc123", &opts);
    assert_eq!(args.last().unwrap(), &youtube_url("abc123"));
    let osc_pos = args.iter().position(|a| a == "--no-osc").unwrap();
    let url_pos = args
        .iter()
        .position(|a| a.starts_with("https://"))
        .unwrap();
    assert!(osc_pos < url_pos, "user arg must precede URL: {args:?}");
}

#[test]
fn extra_args_compose_with_audio_only() {
    let opts = PlaybackOptions::default()
        .with_audio_only(true)
        .with_extra_args(vec!["--save-position-on-quit".to_string()]);
    let args = mpv_args("vid", &opts);
    assert_eq!(args[0], "--no-video");
    assert_eq!(args[1], "--save-position-on-quit");
    assert_eq!(args[2], youtube_url("vid"));
}

#[test]
fn url_is_always_last_arg() {
    let args = mpv_args(
        "id",
        &PlaybackOptions::default().with_audio_only(true),
    );
    assert!(args.last().unwrap().starts_with("https://"));
}

/// How the program of a [`ScriptedPlayer`] ends.
struct Scripted {
    report: ExitReport,
}

impl RunningPlayer for Scripted {
    fn pid(&self) -> u32 {
        4321
    }

    fn wait(self) -> Result<(), PlayerError> {
        classify_exit(self.report)
    }
}

/// A player whose programs end as their names say.
struct ScriptedPlayer {
    mpv: MpvPlayer,
}

fn scripted(binary: &str) -> ScriptedPlayer {
    ScriptedPlayer { mpv: MpvPlayer { binary: binary.as_bytes().to_vec() } }
}

impl Player for ScriptedPlayer {
    type Running = Scripted;

    fn spawn_player(&self, _video_id: &str, _opts: &PlaybackOptions) -> Result<Scripted, PlayerError> {
        match String::from_utf8_lossy(&self.mpv.binary).as_ref() {
            "true" => Ok(Scripted { report: ExitReport { success: true, code: Some(0), signal: None } }),
            "false" => Ok(Scripted { report: ExitReport { success: false, code: Some(1), signal: None } }),
            other => Err(PlayerError::Spawn(format!("{other}: not found"))),
        }
    }
}

#[test]
fn play_succeeds_with_zero_exit_binary() {
    let player = scripted("true");
    play(&player, "anything", &PlaybackOptions::default()).unwrap();
}

#[test]
fn spawn_player_returns_running_player_with_live_pid() {
    let player = scripted("true");
    let running = player.spawn_player("anything", &PlaybackOptions::default()).unwrap();
    let pid = running.pid();
    assert!(pid > 0, "pid must be set: {pid}");
    running.wait().unwrap();
}

#[test]
fn play_returns_non_zero_exit_for_failing_binary() {
    let player = scripted("false");
    let err = play(&player, "anything", &PlaybackOptions::default()).unwrap_err();
    assert!(matches!(err, PlayerError::NonZeroExit(_)), "expected NonZeroExit, got {err:?}");
}

#[test]
fn missing_binary_returns_spawn_error() {
    let player = scripted("definitely-not-a-real-binary-xyz");
    let err = play(&player, "anything", &PlaybackOptions::default()).unwrap_err();
    assert!(matches!(err, PlayerError::Spawn(_)));
}

#[test]
fn classify_signal_killed_status() {
    let report = ExitReport { success: false, code: None, signal: Some(15) };
    let err = classify_exit(report).unwrap_err();
    assert!(
        matches!(err, PlayerError::KilledBySignal(15)),
        "expected KilledBySignal(15), got {err:?}"
    );
}

#[test]
fn classify_non_zero_exit_status() {
    let report = ExitReport { success: false, code: Some(1), signal: None };
    let err = classify_exit(report).unwrap_err();
    assert!(matches!(err, PlayerError::NonZeroExit(1)), "expected NonZeroExit(1), got {err:?}");
}

#[test]
fn classify_zero_exit_is_ok() {
    let report = ExitReport { success: true, code: Some(0), signal: None };
    classify_exit(report).unwrap();
}

/// Test double that records what it was asked to play without spawning.
struct FakePlayer {
    called_with: Mutex<Option<(String, bool)>>,
}

struct FakeRunning;

impl RunningPlayer for FakeRunning {
    fn pid(&self) -> u32 {
        1
    }

    fn wait(self) -> Result<(), PlayerError> {
        Ok(())
    }
}

impl FakePlayer {
    fn new() -> Self {
        Self { called_with: Mutex::new(None) }
    }
}

impl Player for FakePlayer {
    type Running = FakeRunning;

    fn spawn_player(&self, video_id: &str, opts: &PlaybackOptions) -> Result<FakeRunning, PlayerError> {
        *self.called_with.lock().unwrap() = Some((video_id.to_string(), opts.audio_only));
        Ok(FakeRunning)
    }
}

fn result_with_duration(duration: VideoDuration) -> SearchResult {
    SearchResult {
        id: "vid123".to_string(),
        title: "Test".to_string(),
        channel: None,
        duration,
    }
}

#[test]
fn play_result_refuses_upcoming_streams() {
    let player = FakePlayer::new();
    let r = result_with_duration(VideoDuration::Upcoming);
    let err =
        play_result(&player, &r, &PlaybackOptions::default()).unwrap_err();
    assert!(matches!(err, PlayerError::NotPlayable { .. }));
    assert!(
        player.called_with.lock().unwrap().is_none(),
        "player must not be invoked for unplayable videos"
    );
}

#[test]
fn not_playable_reason_uses_human_phrasing() {
    let player = FakePlayer::new();
    let r = result_with_duration(VideoDuration::Upcoming);
    let err =
        play_result(&player, &r, &PlaybackOptions::default()).unwrap_err();
    let msg = err.to_string();
    assert!(
        msg.contains("upcoming livestream"),
        "expected human phrasing, got: {msg}"
    );
    assert!(
        !msg.contains("Upcoming"),
        "Debug enum syntax leaked into user-facing message: {msg}"
    );
}

#[test]
fn play_result_allows_live_streams() {
    let player = FakePlayer::new();
    let r = result_with_duration(VideoDuration::Live);
    play_result(&player, &r, &PlaybackOptions::default()).unwrap();
    let called = player.called_with.lock().unwrap().clone().unwrap();
    assert_eq!(called.0, "vid123");
}

#[test]
fn play_result_allows_known_duration() {
    let player = FakePlayer::new();
    let r = result_with_duration(VideoDuration::Seconds(120));
    play_result(&player, &r, &PlaybackOptions::default()).unwrap();
    assert!(player.called_with.lock().unwrap().is_some());
}

#[test]
fn play_result_allows_unknown_duration() {
    let player = FakePlayer::new();
    let r = result_with_duration(VideoDuration::Unknown);
    play_result(&player, &r, &PlaybackOptions::default()).unwrap();
    assert!(player.called_with.lock().unwrap().is_some());
}

#[test]
fn play_result_forwards_audio_only_flag() {
    let player = FakePlayer::new();
    let r = result_with_duration(VideoDuration::Seconds(60));
    play_result(
        &player,
        &r,
        &PlaybackOptions::default().with_audio_only(true),
    )
    .unwrap();
    let called = player.called_with.lock().unwrap().clone().unwrap();
    assert!(called.1, "audio_only flag must reach the player");
}

#[test]
fn spawn_result_refuses_without_asking_the_player() {
    let player = FakePlayer::new();
    let refused = spawn_result(
        &player,
        &result_with_duration(VideoDuration::Upcoming),
        &PlaybackOptions::default(),
    );
    assert!(matches!(refused, Err(PlayerError::NotPlayable { .. })));
    assert!(player.called_with.lock().unwrap().is_none());
    let started = spawn_result(
        &player,
        &result_with_duration(VideoDuration::Live),
        &PlaybackOptions::default(),
    );
    assert_eq!(started.ok().map(|running| running.pid()), Some(1));
}

#[test]
fn every_player_error_has_its_words() {
    assert_eq!(PlayerError::Spawn("no such file".to_string()).to_string(), "failed to launch player: no such file");
    assert_eq!(PlayerError::Wait("gone".to_string()).to_string(), "failed waiting for player: gone");
    assert_eq!(PlayerError::NonZeroExit(-1).to_string(), "player exited with status -1");
    assert_eq!(PlayerError::KilledBySignal(9).to_string(), "player was killed by signal 9");
    assert_eq!(
        PlayerError::NotPlayable { reason: "upcoming livestream".to_string() }.to_string(),
        "video is not playable: upcoming livestream"
    );
}

#[test]
fn an_exit_without_code_or_signal_has_status_minus_one() {
    let report = ExitReport { success: false, code: None, signal: None };
    assert_eq!(report.status(), -1);
    assert_eq!(classify_exit(report), Err(PlayerError::NonZeroExit(-1)));
}

#[test]
fn the_default_player_is_mpv() {
    assert_eq!(MpvPlayer::default().binary, b"mpv");
}

#[test]
fn copied_options_are_the_same() {
    let opts = PlaybackOptions::default().with_audio_only(true).with_extra_args(vec!["-x".to_string()]);
    let copy = opts.clone();
    assert!(copy.audio_only);
    assert_eq!(copy.extra_args, opts.extra_args);
}
