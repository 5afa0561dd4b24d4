//! The colors of the screen, named by what they are for.

use vstd::prelude::*;

verus! {

/// A terminal color.
#[derive(Debug, Clone, Copy, PartialEq, Eq, Structural)]
pub enum Color {
    Reset,
    Black,
    Red,
    Green,
    Yellow,
    Blue,
    Magenta,
    Cyan,
    Gray,
    DarkGray,
    LightRed,
    LightGreen,
    LightYellow,
    LightBlue,
    LightMagenta,
    LightCyan,
    White,
    Rgb(u8, u8, u8),
    Indexed(u8),
}

/// The colors of the screen.
#[derive(Debug, Clone, Copy, PartialEq, Eq, Structural)]
pub struct Palette {
    /// Behind the selected row.
    pub selection_bg: Color,
    /// The channel in a row.
    pub channel_fg: Color,
    /// The duration in a row.
    pub duration_fg: Color,
    /// Errors in the footer.
    pub error_fg: Color,
    /// The `yt>` before the input.
    pub prompt_marker_fg: Color,
    /// The `yt>` before the query that was asked.
    pub prompt_marker_inactive_fg: Color,
    /// What a search does while it goes on.
    pub progress_fg: Color,
    /// The cursor after the input.
    pub cursor_fg: Color,
    /// The keys in the help.
    pub keycap_fg: Color,
    /// Warnings that are no errors.
    pub warning_fg: Color,
    /// The `/` before the filter.
    pub filter_marker_fg: Color,
    /// The hints in the footer.
    pub hint_fg: Color,
}

impl Default for Palette {
    fn default() -> (r: Self)
        ensures
            r == standard(),
    {
        Palette {
            selection_bg: Color::DarkGray,
            channel_fg: Color::Blue,
            duration_fg: Color::DarkGray,
            error_fg: Color::Red,
            prompt_marker_fg: Color::Cyan,
            prompt_marker_inactive_fg: Color::DarkGray,
            progress_fg: Color::Cyan,
            cursor_fg: Color::DarkGray,
            keycap_fg: Color::Cyan,
            warning_fg: Color::Yellow,
            filter_marker_fg: Color::Yellow,
            hint_fg: Color::DarkGray,
        }
    }
}

/// The colors that the screen has by default.
pub open spec fn standard() -> Palette {
    Palette {
        selection_bg: Color::DarkGray,
        channel_fg: Color::Blue,
        duration_fg: Color::DarkGray,
        error_fg: Color::Red,
        prompt_marker_fg: Color::Cyan,
        prompt_marker_inactive_fg: Color::DarkGray,
        progress_fg: Color::Cyan,
        cursor_fg: Color::DarkGray,
        keycap_fg: Color::Cyan,
        warning_fg: Color::Yellow,
        filter_marker_fg: Color::Yellow,
        hint_fg: Color::DarkGray,
    }
}

} // verus!
