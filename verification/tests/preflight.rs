use yttui::preflight::{check, install_instructions, MissingBinary, PreflightError};

#[test]
fn yt_dlp_instructions_mention_brew() {
    let s = install_instructions("yt-dlp");
    assert!(s.contains("brew install yt-dlp"));
    assert!(s.contains("yt-dlp/yt-dlp"));
}

#[test]
fn mpv_instructions_mention_brew() {
    let s = install_instructions("mpv");
    assert!(s.contains("brew install mpv"));
    assert!(s.contains("mpv.io"));
}

#[test]
fn unknown_bin_falls_back_gracefully() {
    let s = install_instructions("nonexistent");
    assert!(s.contains("README"));
}

#[test]
fn missing_binary_display_includes_name_and_instructions() {
    let mb = MissingBinary {
        name: "yt-dlp",
        instructions: install_instructions("yt-dlp"),
    };
    let s = mb.to_string();
    assert!(s.contains("yt-dlp"));
    assert!(s.contains("brew install yt-dlp"));
}

#[test]
fn preflight_error_lists_every_missing_binary() {
    let err = PreflightError::Missing(vec![
        MissingBinary {
            name: "yt-dlp",
            instructions: install_instructions("yt-dlp"),
        },
        MissingBinary {
            name: "mpv",
            instructions: install_instructions("mpv"),
        },
    ]);
    let s = err.to_string();
    assert!(s.contains("yt-dlp"), "missing yt-dlp section: {s}");
    assert!(s.contains("mpv"), "missing mpv section: {s}");
    assert!(s.contains("brew install yt-dlp"));
    assert!(s.contains("brew install mpv"));
}

#[test]
fn nothing_is_missing_where_both_are_found() {
    assert!(check(true, true).is_ok());
}

#[test]
fn what_is_missing_is_named_and_nothing_else() {
    let both = check(false, false).unwrap_err().to_string();
    assert!(both.contains("yt-dlp") && both.contains("brew install mpv"));
    let one = check(true, false).unwrap_err().to_string();
    assert!(one.contains("mpv") && !one.contains("yt-dlp"));
    let other = check(false, true).unwrap_err().to_string();
    assert!(other.contains("yt-dlp") && !other.contains("brew install mpv"));
}
