use yttui::logging::LogSetup;

#[test]
fn the_log_is_in_the_directory_for_caches() {
    let setup = LogSetup::begin(Some(b"/home/user/.cache".to_vec()));
    assert_eq!(setup, LogSetup::CreateDirectory(b"/home/user/.cache/yttui".to_vec()));
    let setup = setup.next(None);
    assert_eq!(setup, LogSetup::OpenFile(b"/home/user/.cache/yttui/yttui.log".to_vec()));
    let setup = setup.next(None);
    assert_eq!(setup, LogSetup::Ready);
    assert_eq!(setup.next(Some("late".to_string())), LogSetup::Ready);
}

#[test]
fn every_failure_is_told() {
    assert_eq!(
        LogSetup::begin(None),
        LogSetup::Disabled("yttui: warning: no cache directory available; logs disabled".to_string())
    );
    assert_eq!(
        LogSetup::CreateDirectory(b"/c/yttui".to_vec()).next(Some("denied".to_string())),
        LogSetup::Disabled("yttui: warning: cannot create log dir /c/yttui: denied; logs disabled".to_string())
    );
    assert_eq!(
        LogSetup::OpenFile(b"/c/yttui/yttui.log".to_vec()).next(Some("denied".to_string())),
        LogSetup::Disabled(
            "yttui: warning: cannot open log file /c/yttui/yttui.log: denied; logs disabled".to_string()
        )
    );
}
