use yttui::cli::{is_count_allowed, Cli, DEFAULT_COUNT, LONG_VERSION, MAX_COUNT};

fn asked(words: &[&str]) -> Cli {
    Cli { query: words.iter().map(|word| word.to_string()).collect(), ..Cli::default() }
}

#[test]
fn no_args_produces_defaults() {
    let cli = Cli::default();
    assert!(cli.query.is_empty());
    assert!(!cli.recent);
    assert!(!cli.audio_only);
    assert_eq!(cli.count, DEFAULT_COUNT);
    assert_eq!(cli.initial_query(), None);
}

#[test]
fn single_word_query() {
    let cli = asked(&["rust"]);
    assert_eq!(cli.initial_query().as_deref(), Some("rust"));
}

#[test]
fn multi_word_query_is_joined_with_spaces() {
    let cli = asked(&["rust", "ratatui", "tutorial"]);
    assert_eq!(cli.initial_query().as_deref(), Some("rust ratatui tutorial"));
}

#[test]
fn count_zero_is_rejected() {
    assert!(!is_count_allowed(0));
}

#[test]
fn count_above_max_is_rejected() {
    assert!(!is_count_allowed(101));
}

#[test]
fn counts_between_one_and_the_maximum_are_allowed() {
    assert_eq!(DEFAULT_COUNT, 20);
    assert_eq!(MAX_COUNT, 100);
    assert!(is_count_allowed(1));
    assert!(is_count_allowed(50));
    assert!(is_count_allowed(100));
}

#[test]
fn the_version_names_the_program_the_author_and_the_license() {
    assert!(LONG_VERSION.contains("yttui v"));
    assert!(LONG_VERSION.contains("Justin Benge"));
    assert!(LONG_VERSION.contains("MIT License"));
}

#[test]
fn a_copied_command_line_asks_for_the_same() {
    let cli = Cli { count: 7, recent: true, ..asked(&["rust", "vim"]) };
    assert_eq!(cli.clone(), cli);
}
