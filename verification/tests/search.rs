use serde::de::{Deserialize, Deserializer, Error, IgnoredAny, MapAccess, SeqAccess, Visitor};
use std::fmt;
use std::sync::atomic::AtomicBool;
use std::sync::Mutex;
use yttui::double::to_whole_part;
use yttui::process::ExitReport;
use yttui::search::{
    entries_to_results, entry_to_result, parse_duration, parse_results, read_answer, read_entries, search_args, search_target,
    skipped_entries, RawEntry, SearchBackend, SearchError, SearchResult, SortOrder, VideoDuration, YtDlpBackend,
};
use yttui::search_run::{
    finish_search, outcome_of, ReaderOutcome, RunEvent, SearchRun, StopReason, CANCEL_POLL_INTERVAL_MILLIS,
};
use yttui::signal::{ChildRegistry, SearchGuard};
use yttui::time::TimeSpan;

/// The list of entries in the output of `yt-dlp`.
struct Playlist {
    entries: Vec<serde_json::Value>,
}

struct PlaylistVisitor;

impl<'de> Visitor<'de> for PlaylistVisitor {
    type Value = Playlist;

    fn expecting(&self, f: &mut fmt::Formatter) -> fmt::Result {
        f.write_str("struct Playlist")
    }

    fn visit_seq<A: SeqAccess<'de>>(self, mut fields: A) -> Result<Playlist, A::Error> {
        Ok(Playlist { entries: fields.next_element()?.unwrap_or_default() })
    }

    fn visit_map<A: MapAccess<'de>>(self, mut members: A) -> Result<Playlist, A::Error> {
        let mut entries = None;
        while let Some(key) = members.next_key::<String>()? {
            if key != "entries" {
                members.next_value::<IgnoredAny>()?;
            } else if entries.is_some() {
                return Err(A::Error::duplicate_field("entries"));
            } else {
                entries = Some(members.next_value()?);
            }
        }
        Ok(Playlist { entries: entries.unwrap_or_default() })
    }
}

impl<'de> Deserialize<'de> for Playlist {
    fn deserialize<D: Deserializer<'de>>(from: D) -> Result<Playlist, D::Error> {
        from.deserialize_struct("Playlist", &["entries"], PlaylistVisitor)
    }
}

fn entries_in(bytes: &[u8]) -> Result<Vec<serde_json::Value>, String> {
    match serde_json::from_slice::<Playlist>(bytes) {
        Ok(playlist) => Ok(playlist.entries),
        Err(e) => Err(e.to_string()),
    }
}

fn parse(bytes: &[u8]) -> Result<Vec<SearchResult>, SearchError> {
    parse_results(bytes, entries_in)
}

#[test]
fn upcoming_stream_is_distinct_from_live() {
    let json = br#"{
        "entries": [
            {"id": "a", "title": "Live now", "live_status": "is_live"},
            {"id": "b", "title": "Scheduled", "live_status": "is_upcoming"},
            {"id": "c", "title": "Past", "live_status": "was_live", "duration": 120.0}
        ]
    }"#;
    let r = parse(json).unwrap();
    assert_eq!(r[0].duration, VideoDuration::Live);
    assert_eq!(r[1].duration, VideoDuration::Upcoming);
    assert_eq!(r[2].duration, VideoDuration::Seconds(120));
}

#[test]
fn duration_display_uses_human_phrasing() {
    assert_eq!(VideoDuration::Live.to_string(), "live broadcast");
    assert_eq!(
        VideoDuration::Upcoming.to_string(),
        "upcoming livestream"
    );
    assert_eq!(VideoDuration::Unknown.to_string(), "unknown duration");
    assert_eq!(VideoDuration::Seconds(0).to_string(), "0:00");
    assert_eq!(VideoDuration::Seconds(2404).to_string(), "40:04");
    assert_eq!(VideoDuration::Seconds(3661).to_string(), "1:01:01");
}

#[test]
fn upcoming_is_not_playable() {
    assert!(VideoDuration::Live.is_playable());
    assert!(VideoDuration::Seconds(60).is_playable());
    assert!(VideoDuration::Unknown.is_playable());
    assert!(!VideoDuration::Upcoming.is_playable());
}

#[test]
fn skips_entries_missing_required_fields() {
    let json = br#"{
        "entries": [
            {"id": "abc123", "title": "Good", "channel": "Alice", "duration": 60.0},
            {"title": "No id"},
            {"id": "def456"},
            {"id": "ghi789", "title": "No duration", "channel": "Bob", "duration": null}
        ]
    }"#;
    let results = parse(json).expect("parses");
    assert_eq!(results.len(), 2);
    assert_eq!(results[0].id, "abc123");
    assert_eq!(results[0].duration, VideoDuration::Seconds(60));
    assert_eq!(results[1].id, "ghi789");
    assert_eq!(results[1].duration, VideoDuration::Unknown);
}

#[test]
fn missing_entries_field_parses_as_empty() {
    let results = parse(br"{}").expect("parses");
    assert!(results.is_empty());
}

#[test]
fn invalid_json_returns_error() {
    let err = parse(b"not json").unwrap_err();
    assert!(matches!(err, SearchError::InvalidJson(_)));
}

#[test]
fn missing_channel_is_none() {
    let json = br#"{
        "entries": [
            {"id": "x", "title": "T", "uploader": "Carol"},
            {"id": "y", "title": "T2"}
        ]
    }"#;
    let r = parse(json).unwrap();
    assert_eq!(r[0].channel.as_deref(), Some("Carol"));
    assert_eq!(r[1].channel, None);
}

#[test]
fn negative_or_nan_duration_is_unknown() {
    let json = br#"{
        "entries": [
            {"id": "a", "title": "T", "duration": -10.0},
            {"id": "b", "title": "T", "duration": null},
            {"id": "c", "title": "T"}
        ]
    }"#;
    let r = parse(json).unwrap();
    assert!(r.iter().all(|x| x.duration == VideoDuration::Unknown));
}

/// Test double that constructs results directly, without JSON.
struct FakeBackend {
    captured: Mutex<Option<(String, u32, SortOrder)>>,
    response: Vec<SearchResult>,
}

impl FakeBackend {
    fn ok(results: Vec<SearchResult>) -> Self {
        Self {
            captured: Mutex::new(None),
            response: results,
        }
    }
}

impl SearchBackend for FakeBackend {
    fn search(
        &self,
        query: &str,
        count: u32,
        sort: SortOrder,
        _cancel: &AtomicBool,
    ) -> Result<Vec<SearchResult>, SearchError> {
        *self.captured.lock().expect("lock") =
            Some((query.to_string(), count, sort));
        Ok(self.response.iter().cloned().collect())
    }
}

fn no_cancel() -> AtomicBool {
    AtomicBool::new(false)
}

fn fixture_results() -> Vec<SearchResult> {
    vec![
        SearchResult {
            id: "vid1".to_string(),
            title: "First".to_string(),
            channel: Some("Chan A".to_string()),
            duration: VideoDuration::Seconds(60),
        },
        SearchResult {
            id: "vid2".to_string(),
            title: "Second".to_string(),
            channel: None,
            duration: VideoDuration::Live,
        },
    ]
}

#[test]
fn fake_backend_passes_args_through() {
    let backend = FakeBackend::ok(fixture_results());
    let results = backend
        .search("rust ratatui", 20, SortOrder::Relevance, &no_cancel())
        .unwrap();
    assert_eq!(results.len(), 2);
    let captured = backend.captured.lock().unwrap().clone().unwrap();
    assert_eq!(captured.0, "rust ratatui");
    assert_eq!(captured.1, 20);
    assert_eq!(captured.2, SortOrder::Relevance);
}

#[test]
fn ytsearch_prefix_changes_with_sort() {
    assert_eq!(SortOrder::Relevance.ytsearch_prefix(), "ytsearch");
    assert_eq!(SortOrder::Date.ytsearch_prefix(), "ytsearchdate");
}

#[test]
fn empty_id_or_title_strings_are_skipped() {
    let json = br#"{
        "entries": [
            {"id": "", "title": "Has empty id"},
            {"id": "good1", "title": ""},
            {"id": "good2", "title": "Has both"}
        ]
    }"#;
    let r = parse(json).unwrap();
    assert_eq!(r.len(), 1);
    assert_eq!(r[0].id, "good2");
}

/// What the outside world does to a run: the program that `yt-dlp` stands for, when the user gives
/// up, and how many looks at the child it takes until it ends.
struct World {
    launches: bool,
    ends_after: Option<u32>,
    gives_up_after: Option<u32>,
    report: ExitReport,
    stdout: &'static [u8],
    stderr: &'static [u8],
}

const ENDLESS: World = World {
    launches: true,
    ends_after: None,
    gives_up_after: None,
    report: ExitReport { success: true, code: Some(0), signal: None },
    stdout: b"",
    stderr: b"",
};

/// The leader of the process group that a program is started in.
const LEADER: u32 = 4242;

/// What a run came to, and how often its process group was stopped.
struct Ran {
    outcome: Result<Vec<u8>, SearchError>,
    stops: u32,
}

/// Runs a search to its end. A pause takes as long as it says, and nothing else takes any time. The
/// player and another search are registered all the while.
fn run_in(world: &World, backend: &YtDlpBackend) -> Ran {
    let mut registry = ChildRegistry::new();
    registry.register(7);
    let other = registry.register_search(8);
    let run = SearchRun::begin(backend, "anything", 1, SortOrder::Relevance);
    let SearchRun::Launch { program, .. } = &run else { panic!("expected Launch, got {run:?}") };
    let missing = format!("{}: not found", String::from_utf8_lossy(program));
    let (mut run, started) = run.launch(&mut registry, || {
        if world.launches {
            Ok(((), LEADER))
        } else {
            Err(missing)
        }
    });
    assert_eq!(started.is_some(), world.launches);
    let mut guard: Option<SearchGuard> = started.map(|s| s.guard);
    let mut pauses: u32 = 0;
    let mut stops: u32 = 0;
    loop {
        if let SearchRun::Done(outcome) = run {
            assert_eq!(registry.kill_groups(), vec![7, 8]);
            registry.release_search(other);
            return Ran { outcome, stops };
        }
        assert_eq!(registry.kill_groups(), vec![7, 8, 4242]);
        let event = match &run {
            SearchRun::Launch { .. } | SearchRun::Done(_) => panic!("unexpected {run:?}"),
            SearchRun::ReadCancelFlag => {
                RunEvent::CancelFlag(world.gives_up_after.map_or(false, |n| pauses >= n))
            }
            SearchRun::PollChild => match world.ends_after {
                Some(n) if pauses >= n => RunEvent::Ended(world.report),
                _ => RunEvent::StillRunning,
            },
            SearchRun::ReadClock => {
                RunEvent::Elapsed(TimeSpan::from_millis(u64::from(pauses) * CANCEL_POLL_INTERVAL_MILLIS))
            }
            SearchRun::Pause => {
                pauses += 1;
                RunEvent::Paused
            }
            SearchRun::Stop(_) => {
                stops += 1;
                RunEvent::Stopped
            }
            SearchRun::JoinStdout(_) => RunEvent::Joined(ReaderOutcome::Read(world.stdout.to_vec())),
            SearchRun::JoinStderr(_, _) => RunEvent::Joined(ReaderOutcome::Read(world.stderr.to_vec())),
            SearchRun::Release(_) => {
                let (over, left) = run.released(&mut registry, guard.take().unwrap());
                assert_eq!(left, None);
                run = over;
                continue;
            }
        };
        run = run.next(backend.timeout, event);
    }
}

fn backend(timeout: TimeSpan, binary: &str) -> YtDlpBackend {
    YtDlpBackend { timeout, binary: binary.as_bytes().to_vec() }
}

#[test]
fn ytdlp_backend_search_parses_through_to_results() {
    let backend = backend(TimeSpan::from_secs(5), "definitely-not-a-real-binary-asdf");
    let world = World { launches: false, ..ENDLESS };
    let err = finish_search(run_in(&world, &backend).outcome, entries_in).0.unwrap_err();
    assert!(matches!(err, SearchError::Spawn(_)));
}

#[test]
fn non_zero_exit_is_classified() {
    let backend = backend(TimeSpan::from_secs(5), "false");
    let world = World {
        ends_after: Some(0),
        report: ExitReport { success: false, code: Some(1), signal: None },
        ..ENDLESS
    };
    let err = run_in(&world, &backend).outcome.unwrap_err();
    match err {
        SearchError::NonZeroExit { status, .. } => {
            assert_ne!(status, 0);
        }
        other => panic!("expected NonZeroExit, got {other:?}"),
    }
}

#[test]
fn missing_yt_dlp_binary_returns_spawn_error() {
    let backend = backend(TimeSpan::from_secs(5), "definitely-not-a-real-binary-asdf");
    let world = World { launches: false, ..ENDLESS };
    let err = run_in(&world, &backend).outcome.unwrap_err();
    assert!(matches!(err, SearchError::Spawn(_)));
}

#[test]
fn timeout_kills_long_running_process() {
    let backend = backend(TimeSpan::from_millis(200), "yes");
    let Ran { outcome, stops } = run_in(&ENDLESS, &backend);
    let err = outcome.unwrap_err();
    assert!(matches!(err, SearchError::Timeout(_)), "expected Timeout, got {err:?}");
    assert_eq!(stops, 1);
}

#[test]
fn cancel_flag_kills_running_process() {
    let backend = backend(TimeSpan::from_secs(60), "yes");
    let world = World { gives_up_after: Some(3), ..ENDLESS };
    let Ran { outcome, stops } = run_in(&world, &backend);
    let err = outcome.unwrap_err();
    assert!(matches!(err, SearchError::Cancelled), "expected Cancelled, got {err:?}");
    assert_eq!(stops, 1);
}

#[test]
fn a_run_hands_over_the_output() {
    let backend = backend(TimeSpan::from_secs(5), "yt-dlp");
    let world = World {
        ends_after: Some(2),
        stdout: br#"{"entries": [{"id": "a", "title": "T"}]}"#,
        ..ENDLESS
    };
    let Ran { outcome, stops } = run_in(&world, &backend);
    assert_eq!(stops, 0);
    let (results, warnings) = finish_search(outcome, entries_in);
    let results = results.unwrap();
    assert!(warnings.is_empty());
    assert_eq!(results.len(), 1);
    assert_eq!(results[0].id, "a");
}

#[test]
fn a_failed_run_hands_over_what_was_said() {
    let report = ExitReport { success: false, code: Some(2), signal: None };
    let stderr = b"  ERROR: no network \xff\n".to_vec();
    assert_eq!(
        outcome_of(report, vec![1, 2, 3], &stderr),
        Err(SearchError::NonZeroExit { status: 2, stderr: "ERROR: no network \u{fffd}".to_string() })
    );
    let report = ExitReport { success: true, code: Some(0), signal: None };
    assert_eq!(outcome_of(report, vec![1, 2, 3], &stderr), Ok(vec![1, 2, 3]));
}

#[test]
fn a_reader_that_fails_ends_the_run() {
    let report = ExitReport { success: true, code: Some(0), signal: None };
    let timeout = TimeSpan::from_secs(1);
    let run = SearchRun::JoinStdout(report).next(timeout, RunEvent::Joined(ReaderOutcome::Panicked));
    assert_eq!(run, SearchRun::Release(Err(SearchError::ReaderPanicked)));
    let run = SearchRun::JoinStdout(report)
        .next(timeout, RunEvent::Joined(ReaderOutcome::Failed("broken pipe".to_string())));
    assert_eq!(run, SearchRun::Release(Err(SearchError::Read("broken pipe".to_string()))));
    let run = SearchRun::PollChild.next(timeout, RunEvent::PollFailed("no child".to_string()));
    assert_eq!(run, SearchRun::Release(Err(SearchError::Wait("no child".to_string()))));
    let run = SearchRun::Stop(StopReason::TimedOut).next(timeout, RunEvent::Stopped);
    assert_eq!(run, SearchRun::Release(Err(SearchError::Timeout(timeout))));
}

#[test]
fn a_run_that_is_over_is_no_longer_registered() {
    let timeout = TimeSpan::from_secs(1);
    let mut registry = ChildRegistry::new();
    let guard = registry.register_search(LEADER);
    let (run, left) = SearchRun::Pause.released(&mut registry, guard);
    assert_eq!(run, SearchRun::Pause);
    assert_eq!(registry.kill_groups(), vec![4242]);
    let run = SearchRun::Release(Ok(vec![1])).next(timeout, RunEvent::Paused);
    let (run, left) = run.released(&mut registry, left.unwrap());
    assert_eq!(run, SearchRun::Done(Ok(vec![1])));
    assert_eq!(left, None);
    assert!(registry.kill_groups().is_empty());
    let (run, started) = run.launch(&mut registry, || Ok(((), LEADER)));
    assert_eq!(run, SearchRun::Done(Ok(vec![1])));
    assert!(started.is_none());
    assert!(registry.kill_groups().is_empty());
}

#[test]
fn a_run_starts_yt_dlp_with_its_arguments() {
    match SearchRun::begin(&YtDlpBackend::default(), "rust ratatui", 20, SortOrder::Date) {
        SearchRun::Launch { program, args } => {
            assert_eq!(program, b"yt-dlp");
            assert_eq!(args, search_args("rust ratatui", 20, SortOrder::Date));
        }
        other => panic!("expected Launch, got {other:?}"),
    }
}

#[test]
fn the_query_is_the_last_argument() {
    assert_eq!(search_target("a b", 5, SortOrder::Relevance), "ytsearch5:a b");
    assert_eq!(search_target("--x", 100, SortOrder::Date), "ytsearchdate100:--x");
    assert_eq!(
        search_args("q", 20, SortOrder::Relevance),
        vec!["--flat-playlist", "-J", "ytsearch20:q"]
    );
}

#[test]
fn the_backend_waits_half_a_minute() {
    let backend = YtDlpBackend::default();
    assert_eq!(backend.timeout.secs(), 30);
    assert_eq!(backend.timeout.subsec_nanos(), 0);
    assert_eq!(backend.clone().binary, b"yt-dlp");
    assert_eq!(backend.clone().timeout, backend.timeout);
}

#[test]
fn every_search_error_has_its_words() {
    let said = |e: SearchError| e.to_string();
    assert_eq!(said(SearchError::Timeout(TimeSpan::from_millis(1500))), "yt-dlp timed out after 1.5s");
    assert_eq!(said(SearchError::InvalidJson("x".to_string())), "yt-dlp returned invalid JSON: x");
    assert_eq!(said(SearchError::Spawn("no such file".to_string())), "failed to launch yt-dlp: no such file");
    assert_eq!(said(SearchError::Wait("gone".to_string())), "failed while waiting for yt-dlp: gone");
    assert_eq!(said(SearchError::Read("pipe".to_string())), "failed to read yt-dlp output: pipe");
    assert_eq!(said(SearchError::ReaderPanicked), "yt-dlp output reader thread panicked");
    assert_eq!(
        said(SearchError::NonZeroExit { status: 7, stderr: "boom".to_string() }),
        "yt-dlp exited with status 7: boom"
    );
    assert_eq!(said(SearchError::Cancelled), "search cancelled by user");
}

#[test]
fn what_is_no_playlist_is_an_error() {
    for document in [&b"[1]"[..], &b"3"[..], &b"null"[..], &br#"{"entries": 3}"#[..], &b""[..]] {
        assert!(matches!(parse(document), Err(SearchError::InvalidJson(_))));
    }
    assert_eq!(parse(b"[]"), Ok(vec![]));
}

#[test]
fn members_of_another_kind_are_left_out() {
    let json = br#"{"entries": [{"id": "a", "title": "T", "channel": 5, "uploader": "U", "duration": "9"}, 7]}"#;
    let r = parse(json).unwrap();
    assert_eq!(r.len(), 1);
    assert_eq!(r[0].channel.as_deref(), Some("U"));
    assert_eq!(r[0].duration, VideoDuration::Unknown);
}

#[test]
fn entries_are_read_from_values() {
    let mut entry = serde_json::Map::new();
    entry.insert("id".to_string(), serde_json::Value::String("x".to_string()));
    let items = vec![serde_json::Value::Object(entry), serde_json::Value::Null];
    let entries = read_entries(&items);
    assert_eq!(entries.len(), 2);
    assert_eq!(entries[0].id.as_deref(), Some("x"));
    assert_eq!(entries[0].title, None);
    assert_eq!(entries[1].id, None);
}

#[test]
fn members_that_are_not_looked_at_do_not_matter() {
    let deep = format!(r#"{{"x": {}1{}, "entries": []}}"#, "[".repeat(1000), "]".repeat(1000));
    let documents = [
        &br#"{"epoch": 1e400, "entries": []}"#[..],
        &b"{\"note\": \"\xff\", \"entries\": []}"[..],
        deep.as_bytes(),
    ];
    for document in documents {
        assert_eq!(parse(document), Ok(vec![]));
    }
}

#[test]
fn what_is_wrong_is_said_in_the_words_of_the_reader() {
    let said = |document: &[u8]| match parse(document) {
        Err(SearchError::InvalidJson(said)) => said,
        other => panic!("expected InvalidJson, got {other:?}"),
    };
    assert_eq!(said(b"not json"), "expected ident at line 1 column 2");
    assert_eq!(
        said(br#"{"entries": [], "entries": []}"#),
        "duplicate field `entries` at line 1 column 25"
    );
    assert_eq!(
        said(br#"{"entries": 3}"#),
        "invalid type: integer `3`, expected a sequence at line 1 column 13"
    );
    let (answer, warnings) = read_answer(Err("no".to_string()));
    assert_eq!(answer, Err(SearchError::InvalidJson("no".to_string())));
    assert!(warnings.is_empty());
}

fn raw(id: &str, title: &str) -> RawEntry {
    RawEntry {
        id: Some(id.to_string()),
        title: Some(title.to_string()),
        channel: None,
        uploader: None,
        live_status: None,
        duration: None,
    }
}

#[test]
fn malformed_entries_cost_no_other_its_result() {
    let entries = vec![raw("a", "A"), raw("", "B"), raw("c", ""), raw("d", "D")];
    let results = entries_to_results(&entries);
    let ids: Vec<&str> = results.iter().map(|r| r.id.as_str()).collect();
    assert_eq!(ids, vec!["a", "d"]);
    assert_eq!(entry_to_result(&entries[1]), None);
}

#[test]
fn durations_are_cut_to_whole_seconds() {
    let with = |seconds: f64| RawEntry { duration: Some(seconds.to_bits()), ..raw("a", "A") };
    assert_eq!(parse_duration(&with(59.999)), VideoDuration::Seconds(59));
    assert_eq!(parse_duration(&with(0.5)), VideoDuration::Seconds(0));
    assert_eq!(parse_duration(&with(-0.0)), VideoDuration::Seconds(0));
    assert_eq!(parse_duration(&with(-1.0)), VideoDuration::Unknown);
    assert_eq!(parse_duration(&with(f64::NAN)), VideoDuration::Unknown);
    assert_eq!(parse_duration(&with(f64::INFINITY)), VideoDuration::Unknown);
}

#[test]
fn doubles_are_cut_as_casts_cut_them() {
    for value in [0.0, 0.25, 1.0, 1.5, 2404.0, 3661.75, 4503599627370496.5, 9007199254740993.0, 1e18, 1.8e19, 1e300] {
        let value: f64 = value;
        assert_eq!(to_whole_part(value.to_bits()), Some(value as u64), "{value}");
    }
    assert_eq!(to_whole_part(f64::MIN_POSITIVE.to_bits()), Some(0));
    assert_eq!(to_whole_part((-2.5f64).to_bits()), None);
}

#[test]
fn the_log_names_what_is_skipped() {
    let json = br#"{"entries": [{"id": "a\"b"}, {"title": "T"}, {"id": "c", "title": "C"}]}"#;
    let (results, warnings) = read_answer(entries_in(json));
    let results = results.unwrap();
    assert_eq!(results.len(), 1);
    assert_eq!(
        warnings,
        vec![
            r#"skipping malformed yt-dlp entry id=Some("a\"b")"#,
            "skipping malformed yt-dlp entry id=None",
        ]
    );
    assert_eq!(skipped_entries(&vec![raw("a", "A")]), Vec::<String>::new());
}
