use yttui::signal::{
    install_warning, ChildRegistry, RegistrationGuard, Watcher, WatcherAction, INTERRUPTED_STATUS,
};

/// Holds a registration for as long as it lives.
struct Held<'a> {
    registry: &'a mut ChildRegistry,
    guard: Option<RegistrationGuard>,
}

impl<'a> Held<'a> {
    fn new(registry: &'a mut ChildRegistry, pid: u32) -> Self {
        let guard = registry.register_pid_with_guard(pid);
        Held { registry, guard: Some(guard) }
    }
}

impl Drop for Held<'_> {
    fn drop(&mut self) {
        if let Some(guard) = self.guard.take() {
            self.registry.release(guard);
        }
    }
}

#[test]
fn registry_starts_empty() {
    let r = ChildRegistry::new();
    assert_eq!(r.current(), None);
}

#[test]
fn register_returns_previous_value() {
    let mut r = ChildRegistry::new();
    assert_eq!(r.register(1234), None);
    assert_eq!(r.current(), Some(1234));
    assert_eq!(r.register(5678), Some(1234));
    assert_eq!(r.current(), Some(5678));
}

#[test]
fn clear_returns_previous_and_empties() {
    let mut r = ChildRegistry::new();
    r.register(42);
    assert_eq!(r.clear(), Some(42));
    assert_eq!(r.current(), None);
    assert_eq!(r.clear(), None);
}

#[test]
fn kill_group_with_no_registered_pid_is_a_noop() {
    let r = ChildRegistry::new();
    assert_eq!(r.kill_group(), None);
    assert_eq!(r.current(), None);
}

#[test]
fn kill_group_names_the_registered_group() {
    let mut r = ChildRegistry::new();
    r.register(1234);
    assert_eq!(r.kill_group(), Some(1234));
    assert_eq!(r.current(), Some(1234));
    r.register(u32::MAX);
    assert_eq!(r.kill_group(), Some(i32::MAX));
}

#[test]
fn register_spawn_registers_what_was_started() {
    let mut r = ChildRegistry::default();
    let (child, guard) = r.register_spawn(|| Ok::<_, ()>(("child", 424_242))).expect("register_spawn ok");
    assert_eq!(child, "child");
    assert_eq!(guard.pid(), 424_242);
    assert_eq!(r.current(), Some(424_242));
    assert_eq!(r.release(guard), Some(424_242));
    assert_eq!(r.current(), None);
}

#[test]
fn register_spawn_leaves_the_registry_alone_where_nothing_starts() {
    let mut r = ChildRegistry::new();
    r.register(5);
    let failed = r.register_spawn(|| Err::<((), u32), _>("no such program"));
    assert!(matches!(failed, Err("no such program")));
    assert_eq!(r.current(), Some(5));
}

#[test]
fn registration_guard_clears_registry_on_drop() {
    let mut r = ChildRegistry::new();
    {
        let held = Held::new(&mut r, 99);
        assert_eq!(held.registry.current(), Some(99));
    }
    assert_eq!(r.current(), None, "guard must clear the registry on drop");
}

#[test]
fn registration_guard_clears_even_on_early_return_path() {
    fn inner(r: &mut ChildRegistry) -> Result<(), &'static str> {
        let _held = Held::new(r, 7);
        Err("simulated playback error")
    }
    let mut r = ChildRegistry::new();
    let _ = inner(&mut r);
    assert_eq!(r.current(), None);
}

#[test]
fn a_signal_ends_the_player_and_every_search() {
    let mut r = ChildRegistry::new();
    assert!(r.kill_groups().is_empty());
    let first = r.register_search(11);
    let second = r.register_search(12);
    let again = r.register_search(11);
    assert_eq!(r.kill_groups(), vec![11, 12, 11]);
    r.register(10);
    assert_eq!(r.kill_groups(), vec![10, 11, 12, 11]);
    assert_eq!((first.pid(), second.pid(), again.pid()), (11, 12, 11));
    r.release_search(again);
    assert_eq!(r.kill_groups(), vec![10, 11, 12]);
    assert_eq!(r.clear(), Some(10));
    assert_eq!(r.kill_groups(), vec![11, 12]);
    r.release_search(first);
    assert_eq!(r.kill_groups(), vec![12]);
    r.release_search(second);
    assert!(r.kill_groups().is_empty());
}

#[test]
fn a_player_comes_and_goes_beside_the_searches() {
    let mut r = ChildRegistry::new();
    let search = r.register_search(u32::MAX);
    let ((), guard) = r.register_spawn(|| Ok::<_, ()>(((), 5))).unwrap();
    assert_eq!(r.kill_groups(), vec![5, i32::MAX]);
    assert_eq!(r.kill_group(), Some(5));
    assert_eq!(r.release(guard), Some(5));
    assert_eq!(r.kill_group(), None);
    assert_eq!(r.kill_groups(), vec![i32::MAX]);
    r.release_search(search);
    assert!(r.kill_groups().is_empty());
}

fn watch(signals: &[bool]) -> Vec<WatcherAction> {
    let mut watcher = Watcher::start();
    signals.iter().map(|signal| watcher.on_signal(*signal)).collect()
}

#[test]
fn watcher_first_signal_runs_graceful_does_not_hard_exit() {
    assert_eq!(watch(&[true, false]), vec![WatcherAction::CleanUp, WatcherAction::Leave]);
}

#[test]
fn watcher_second_signal_invokes_hard_exit() {
    assert_eq!(watch(&[true, true]), vec![WatcherAction::CleanUp, WatcherAction::ExitAtOnce]);
}

#[test]
fn watcher_no_signal_is_a_noop() {
    assert_eq!(watch(&[false]), vec![WatcherAction::Leave]);
}

#[test]
fn watcher_asks_for_nothing_once_it_is_over() {
    assert_eq!(
        watch(&[false, true, true]),
        vec![WatcherAction::Leave, WatcherAction::Leave, WatcherAction::Leave]
    );
    assert_eq!(INTERRUPTED_STATUS, 130);
}

#[test]
fn the_user_is_told_where_signals_cannot_be_watched() {
    assert_eq!(
        install_warning("denied"),
        "yttui: warning: could not install signal handler: denied (Ctrl-C during playback may leak mpv)"
    );
}
