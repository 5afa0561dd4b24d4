use yttui::palette::{Color, Palette};

#[test]
fn default_palette_matches_v1_colors_except_channel_fg() {
    let p = Palette::default();
    assert_eq!(p.selection_bg, Color::DarkGray);
    assert_eq!(p.channel_fg, Color::Blue);
    assert_eq!(p.duration_fg, Color::DarkGray);
    assert_eq!(p.error_fg, Color::Red);
    assert_eq!(p.prompt_marker_fg, Color::Cyan);
    assert_eq!(p.prompt_marker_inactive_fg, Color::DarkGray);
    assert_eq!(p.cursor_fg, Color::DarkGray);
    assert_eq!(p.keycap_fg, Color::Cyan);
    assert_eq!(p.warning_fg, Color::Yellow);
    assert_eq!(p.filter_marker_fg, Color::Yellow);
    assert_eq!(p.hint_fg, Color::DarkGray);
}

#[test]
fn default_palette_has_no_selection_collisions() {
    let p = Palette::default();
    assert_ne!(p.channel_fg, p.selection_bg);
    assert_ne!(p.error_fg, p.selection_bg);
}

#[test]
fn default_palette_distinct_roles_have_distinct_colors() {
    let p = Palette::default();
    assert_ne!(p.prompt_marker_fg, p.cursor_fg);
    assert_ne!(p.error_fg, p.warning_fg);
    assert_ne!(p.error_fg, p.hint_fg);
}

#[test]
fn progress_has_a_color_of_its_own() {
    let p = Palette { progress_fg: Color::Rgb(1, 2, 3), ..Palette::default() };
    assert_eq!(p.prompt_marker_fg, Color::Cyan);
    assert_eq!(Palette::default().progress_fg, Color::Cyan);
}
