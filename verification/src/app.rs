//! What is on the screen, and what a key does to it.
//!
//! There is no drawing here and no input or output: a key comes in, and the [`Action`] that the
//! program is to carry out comes back.

use crate::dispatcher::DispatchError;
use crate::keys::{KeyCode, KeyEvent};
use crate::player::PlayerError;
use crate::search;
use crate::search::{SearchError, SearchResult};
use crate::text;
use std::sync::Arc;
use vstd::prelude::*;
use vstd::string::*;

verus! {

broadcast use vstd::seq::group_seq_axioms;

/// The screen that is shown.
#[derive(Debug, Clone, Copy, PartialEq, Eq, Structural)]
pub enum Screen {
    Prompt,
    Searching,
    Results,
    Filter,
    Help,
}

/// The error in the status bar.
#[derive(Debug, Clone)]
pub enum LastError {
    Search(Arc<SearchError>),
    Player(Arc<PlayerError>),
    /// The thread that did the search crashed.
    Worker,
}

impl LastError {
    /// The error in words.
    pub open spec fn words(self) -> Seq<char> {
        match self {
            LastError::Search(e) => e.words(),
            LastError::Player(e) => e.words(),
            LastError::Worker => DispatchError::WorkerPanicked.words(),
        }
    }

    /// The error in words.
    #[must_use]
    pub fn message(&self) -> (r: String)
        ensures
            r@ == self.words(),
    {
        match self {
            LastError::Search(e) => e.to_string(),
            LastError::Player(e) => e.to_string(),
            LastError::Worker => DispatchError::WorkerPanicked.to_string(),
        }
    }
}

/// What the program is to carry out.
#[derive(Debug, Clone, PartialEq, Eq)]
pub enum Action {
    Nothing,
    Quit,
    StartSearch(String),
    Rerun,
    CancelSearch,
    Play(SearchResult),
}

/// What an [`Action`] says.
pub enum ActionView {
    Nothing,
    Quit,
    StartSearch(Seq<char>),
    Rerun,
    CancelSearch,
    Play(SearchResult),
}

impl View for Action {
    type V = ActionView;

    open spec fn view(&self) -> ActionView {
        match *self {
            Action::Nothing => ActionView::Nothing,
            Action::Quit => ActionView::Quit,
            Action::StartSearch(query) => ActionView::StartSearch(query@),
            Action::Rerun => ActionView::Rerun,
            Action::CancelSearch => ActionView::CancelSearch,
            Action::Play(result) => ActionView::Play(result),
        }
    }
}

/// The state of the program.
#[derive(Debug)]
pub struct App {
    pub screen: Screen,
    /// Where to return when leaving the help.
    pub help_return: Option<Screen>,
    /// What is typed into the prompt or the filter.
    pub input: String,
    /// The query that produced the results.
    pub committed_query: Option<String>,
    pub results: Vec<SearchResult>,
    /// The places in `results` of those that the filter shows.
    pub filtered: Vec<usize>,
    /// The place in `filtered` of the result that is selected.
    pub selected: usize,
    /// The error in the status bar. The next key takes it away.
    pub last_error: Option<LastError>,
    /// How many rows the list has on the screen.
    pub list_height: u16,
    /// Whether the last key was a first `g`.
    pub g_pending: bool,
}

/// What an [`App`] says.
#[verifier::ext_equal]
pub struct AppView {
    pub screen: Screen,
    pub help_return: Option<Screen>,
    pub input: Seq<char>,
    pub committed_query: Option<Seq<char>>,
    pub results: Seq<SearchResult>,
    pub filtered: Seq<usize>,
    pub selected: usize,
    pub last_error: Option<LastError>,
    pub list_height: u16,
    pub g_pending: bool,
}

impl View for App {
    type V = AppView;

    open spec fn view(&self) -> AppView {
        AppView {
            screen: self.screen,
            help_return: self.help_return,
            input: self.input@,
            committed_query: search::optional_text(self.committed_query),
            results: self.results@,
            filtered: self.filtered@,
            selected: self.selected,
            last_error: self.last_error,
            list_height: self.list_height,
            g_pending: self.g_pending,
        }
    }
}

// ---------------------------------------------------------------------------
// The filter.
// ---------------------------------------------------------------------------

/// What the filter looks for: the input in lower case.
pub open spec fn needle_of(input: Seq<char>) -> Seq<char> {
    if input.len() == 0 {
        Seq::empty()
    } else {
        text::lowercase(input)
    }
}

/// Whether the filter shows a result: `needle` stands in its title or in its channel, in lower
/// case.
pub open spec fn shows(needle: Seq<char>, result: SearchResult) -> bool {
    text::occurs(needle, text::lowercase(result.title@)) || (result.channel matches Some(channel)
        && text::occurs(needle, text::lowercase(channel@)))
}

/// The places of the results that the filter shows; without a needle it shows them all.
pub open spec fn shown(needle: Seq<char>, results: Seq<SearchResult>) -> Seq<usize>
    decreases results.len(),
{
    if results.len() == 0 {
        Seq::empty()
    } else {
        let before = shown(needle, results.drop_last());
        if needle.len() == 0 || shows(needle, results.last()) {
            before.push((results.len() - 1) as usize)
        } else {
            before
        }
    }
}

/// Whether the title and the channel of a result are ASCII texts.
pub open spec fn has_ascii_names(result: SearchResult) -> bool {
    vstd::utf8::is_ascii_chars(result.title@) && (result.channel matches Some(channel)
        ==> vstd::utf8::is_ascii_chars(channel@))
}

/// Whether the filter shows a result whose names are ASCII texts.
pub open spec fn shows_ascii(needle: Seq<char>, result: SearchResult) -> bool {
    text::occurs(needle, text::ascii_lowered(result.title@)) || (result.channel matches Some(channel)
        && text::occurs(needle, text::ascii_lowered(channel@)))
}

/// The places of the results that the filter shows where their names are ASCII texts.
pub open spec fn shown_ascii(needle: Seq<char>, results: Seq<SearchResult>) -> Seq<usize>
    decreases results.len(),
{
    if results.len() == 0 {
        Seq::empty()
    } else {
        let before = shown_ascii(needle, results.drop_last());
        if needle.len() == 0 || shows_ascii(needle, results.last()) {
            before.push((results.len() - 1) as usize)
        } else {
            before
        }
    }
}

/// Whether the input and the names of all results are ASCII texts.
pub open spec fn all_ascii(input: Seq<char>, results: Seq<SearchResult>) -> bool {
    vstd::utf8::is_ascii_chars(input) && forall|i: int|
        0 <= i < results.len() ==> has_ascii_names(#[trigger] results[i])
}

/// A place that is none of `count` places becomes the last of them.
pub open spec fn kept_within(selected: usize, count: nat) -> usize {
    if count == 0 {
        0
    } else if selected >= count {
        (count - 1) as usize
    } else {
        selected
    }
}

/// Whether `needle` stands in a title or in a channel, both in lower case already.
pub fn stands_in(title: &str, channel: Option<&str>, needle: &str) -> (r: bool)
    ensures
        r == (text::occurs(needle@, title@) || (channel matches Some(channel) && text::occurs(
            needle@,
            channel@,
        ))),
{
    if text::contains(title, needle) {
        return true;
    }
    match channel {
        Some(channel) => text::contains(channel, needle),
        None => false,
    }
}

/// Whether the filter shows a result: `needle` stands in its title or in its channel, in lower
/// case.
pub fn matches_filter(result: &SearchResult, needle: &str) -> (r: bool)
    ensures
        r == shows(needle@, *result),
        has_ascii_names(*result) ==> r == shows_ascii(needle@, *result),
{
    let title = text::to_lowercase(result.title.as_str());
    match &result.channel {
        Some(channel) => {
            let channel = text::to_lowercase(channel.as_str());
            stands_in(title.as_str(), Some(channel.as_str()), needle)
        },
        None => stands_in(title.as_str(), None, needle),
    }
}

// ---------------------------------------------------------------------------
// What changes.
// ---------------------------------------------------------------------------

impl AppView {
    /// The state after the filter was applied to the results.
    pub open spec fn refiltered(self) -> AppView {
        let filtered = shown(needle_of(self.input), self.results);
        AppView { filtered, selected: kept_within(self.selected, filtered.len()), ..self }
    }

    /// The state after the selection moved, as far as the list goes.
    pub open spec fn moved(self, delta: int) -> AppView {
        let selected = if self.filtered.len() == 0 {
            0
        } else {
            let count = if self.filtered.len() <= i32::MAX {
                self.filtered.len() as int
            } else {
                i32::MAX as int
            };
            let from = if self.selected <= i32::MAX {
                self.selected as int
            } else {
                0
            };
            if from + delta < 0 {
                0
            } else if from + delta >= count {
                count - 1
            } else {
                from + delta
            }
        };
        AppView { selected: selected as usize, ..self }
    }

    /// The state after the last character of the input was taken away.
    pub open spec fn shortened(self) -> AppView {
        AppView {
            input: if self.input.len() > 0 {
                self.input.drop_last()
            } else {
                self.input
            },
            ..self
        }
    }

    /// The state after a character was typed into the input.
    pub open spec fn lengthened(self, c: char) -> AppView {
        AppView { input: self.input.push(c), ..self }
    }

    /// The state with another screen.
    pub open spec fn on(self, screen: Screen) -> AppView {
        AppView { screen, ..self }
    }

    /// The state with nothing in the input.
    pub open spec fn emptied(self) -> AppView {
        AppView { input: Seq::empty(), ..self }
    }

    /// The state with the query that was asked back in the input.
    pub open spec fn prefilled(self) -> AppView {
        match self.committed_query {
            Some(query) => AppView { input: query, ..self },
            None => self,
        }
    }

    /// The result that is selected.
    pub open spec fn selection(self) -> Option<SearchResult> {
        if self.selected < self.filtered.len() && self.filtered[self.selected as int]
            < self.results.len() {
            Some(self.results[self.filtered[self.selected as int] as int])
        } else {
            None
        }
    }

    /// What asking for the input does: a search for it, without the white space around it;
    /// nothing where there is only white space.
    pub open spec fn committed(self) -> (AppView, ActionView) {
        let query = text::trimmed(self.input);
        if query.len() == 0 {
            (self, ActionView::Nothing)
        } else {
            (
                AppView { committed_query: Some(query), screen: Screen::Searching, ..self },
                ActionView::StartSearch(query),
            )
        }
    }

    /// What a key does on the prompt.
    pub open spec fn on_prompt(self, key: KeyEvent) -> (AppView, ActionView) {
        if key.code == KeyCode::Esc || key.is_ctrl('c') {
            (self, ActionView::Quit)
        } else if key.code == KeyCode::Enter {
            self.committed()
        } else if key.code == KeyCode::Backspace {
            (self.shortened(), ActionView::Nothing)
        } else {
            match key.types() {
                Some(c) => (self.lengthened(c), ActionView::Nothing),
                None => (self, ActionView::Nothing),
            }
        }
    }

    /// What a key does while a search goes on.
    pub open spec fn on_searching(self, key: KeyEvent) -> (AppView, ActionView) {
        if key.code == KeyCode::Esc || key.is_ctrl('c') {
            (self.prefilled().on(Screen::Prompt), ActionView::CancelSearch)
        } else {
            (self, ActionView::Nothing)
        }
    }

    /// What a key does on the results, `after_g` a first `g` or not.
    pub open spec fn on_results(self, key: KeyEvent, after_g: bool) -> (AppView, ActionView) {
        let half = (self.list_height / 2) as int;
        if key.is_bare('q') || key.code == KeyCode::Esc || key.is_ctrl('c') {
            (self, ActionView::Quit)
        } else if key.is_char('?') {
            (
                AppView { help_return: Some(Screen::Results), ..self }.on(Screen::Help),
                ActionView::Nothing,
            )
        } else if key.is_bare('j') || key.code == KeyCode::Down {
            (self.moved(1), ActionView::Nothing)
        } else if key.is_bare('k') || key.code == KeyCode::Up {
            (self.moved(-1), ActionView::Nothing)
        } else if key.is_bare('g') {
            (
                if after_g {
                    AppView { selected: 0, ..self }
                } else {
                    AppView { g_pending: true, ..self }
                },
                ActionView::Nothing,
            )
        } else if key.is_char('G') {
            (
                if self.filtered.len() > 0 {
                    AppView { selected: (self.filtered.len() - 1) as usize, ..self }
                } else {
                    self
                },
                ActionView::Nothing,
            )
        } else if key.is_ctrl('d') {
            (self.moved(half), ActionView::Nothing)
        } else if key.is_ctrl('u') {
            (self.moved(-half), ActionView::Nothing)
        } else if key.code == KeyCode::Enter {
            (
                self,
                match self.selection() {
                    Some(result) => ActionView::Play(result),
                    None => ActionView::Nothing,
                },
            )
        } else if key.is_bare('n') {
            (self.emptied().on(Screen::Prompt), ActionView::Nothing)
        } else if key.is_bare('r') {
            if self.committed_query is Some {
                (self.on(Screen::Searching), ActionView::Rerun)
            } else {
                (self, ActionView::Nothing)
            }
        } else if key.is_char('/') {
            (self.emptied().on(Screen::Filter), ActionView::Nothing)
        } else {
            (self, ActionView::Nothing)
        }
    }

    /// What a key does on the filter.
    pub open spec fn on_filter(self, key: KeyEvent) -> (AppView, ActionView) {
        if key.code == KeyCode::Esc {
            (self.emptied().refiltered().on(Screen::Results), ActionView::Nothing)
        } else if key.code == KeyCode::Enter {
            (self.on(Screen::Results), ActionView::Nothing)
        } else if key.code == KeyCode::Backspace {
            (self.shortened().refiltered(), ActionView::Nothing)
        } else {
            match key.types() {
                Some(c) => (self.lengthened(c).refiltered(), ActionView::Nothing),
                None => (self, ActionView::Nothing),
            }
        }
    }

    /// Whether a key changes the input of the filter: it then filters anew.
    pub open spec fn edits_filter(self, key: KeyEvent) -> bool {
        self.screen == Screen::Filter && (key.code == KeyCode::Esc || key.code == KeyCode::Backspace
            || key.types() is Some)
    }

    /// Whether what is shown is what the filter shows of ASCII texts, where there are no others.
    pub open spec fn filtered_as_ascii(self) -> bool {
        all_ascii(self.input, self.results) ==> self.filtered == shown_ascii(
            text::ascii_lowered(self.input),
            self.results,
        )
    }

    /// What a key does on the help.
    pub open spec fn on_help(self, key: KeyEvent) -> (AppView, ActionView) {
        if key.is_bare('q') || key.is_ctrl('c') {
            (self, ActionView::Quit)
        } else {
            (
                AppView { help_return: None, ..self }.on(
                    match self.help_return {
                        Some(screen) => screen,
                        None => Screen::Prompt,
                    },
                ),
                ActionView::Nothing,
            )
        }
    }

    /// The state without the error and without a pending `g`.
    pub open spec fn settled(self) -> AppView {
        AppView { last_error: None, g_pending: false, ..self }
    }

    /// What a key does.
    pub open spec fn after_key(self, key: KeyEvent) -> (AppView, ActionView) {
        match self.screen {
            Screen::Prompt => self.settled().on_prompt(key),
            Screen::Searching => self.settled().on_searching(key),
            Screen::Results => self.settled().on_results(key, self.g_pending),
            Screen::Filter => self.settled().on_filter(key),
            Screen::Help => self.settled().on_help(key),
        }
    }

    /// The state after results came back.
    pub open spec fn with_results(self, results: Seq<SearchResult>) -> AppView {
        AppView { results, selected: 0, ..self }.emptied().refiltered().on(Screen::Results)
    }

    /// The state after a search failed. The first one that fails leads back to the prompt, so
    /// that the query can be mended; a later one leaves the results that are there.
    pub open spec fn with_search_error(self, error: LastError) -> AppView {
        let failed = AppView { last_error: Some(error), ..self };
        if self.results.len() == 0 {
            failed.prefilled().on(Screen::Prompt)
        } else {
            failed.on(Screen::Results)
        }
    }
}

impl Default for App {
    fn default() -> (r: Self)
        ensures
            r@ == initial(),
    {
        App::new()
    }
}

/// The state that the program starts in.
pub open spec fn initial() -> AppView {
    AppView {
        screen: Screen::Prompt,
        help_return: None,
        input: Seq::empty(),
        committed_query: None,
        results: Seq::empty(),
        filtered: Seq::empty(),
        selected: 0,
        last_error: None,
        list_height: 20,
        g_pending: false,
    }
}

impl App {
    /// The state that the program starts in.
    #[must_use]
    pub fn new() -> (r: Self)
        ensures
            r@ == initial(),
    {
        let app = App {
            screen: Screen::Prompt,
            help_return: None,
            input: String::new(),
            committed_query: None,
            results: Vec::new(),
            filtered: Vec::new(),
            selected: 0,
            last_error: None,
            list_height: 20,
            g_pending: false,
        };
        assert(app@ =~= initial());
        app
    }

    /// Takes in a key. Returns what the program is to carry out.
    pub fn handle_key(&mut self, key: KeyEvent) -> (r: Action)
        ensures
            (final(self)@, r@) == old(self)@.after_key(key),
            old(self)@.edits_filter(key) ==> final(self)@.filtered_as_ascii(),
    {
        let after_g = self.g_pending;
        self.last_error = None;
        self.g_pending = false;
        assert(self@ =~= old(self)@.settled());
        match self.screen {
            Screen::Prompt => self.handle_prompt(key),
            Screen::Searching => self.handle_searching(key),
            Screen::Results => self.handle_results(key, after_g),
            Screen::Filter => self.handle_filter(key),
            Screen::Help => self.handle_help(key),
        }
    }

    fn handle_prompt(&mut self, key: KeyEvent) -> (r: Action)
        ensures
            (final(self)@, r@) == old(self)@.on_prompt(key),
    {
        if key.code == KeyCode::Esc || key.ctrl('c') {
            Action::Quit
        } else if key.code == KeyCode::Enter {
            self.commit_query()
        } else if key.code == KeyCode::Backspace {
            let _ = self.input.pop();
            assert(self@ =~= old(self)@.shortened());
            Action::Nothing
        } else {
            if let Some(c) = key.typed() {
                self.input.push(c);
                assert(self@ =~= old(self)@.lengthened(c));
            }
            Action::Nothing
        }
    }

    /// Asks for the input, without the white space around it. Does nothing where there is only
    /// white space.
    pub fn commit_query(&mut self) -> (r: Action)
        ensures
            (final(self)@, r@) == old(self)@.committed(),
    {
        let query = text::trim(self.input.as_str()).to_owned();
        if query.as_str().is_empty() {
            return Action::Nothing;
        }
        self.committed_query = Some(query.clone());
        self.screen = Screen::Searching;
        assert(self@ =~= old(self)@.committed().0);
        Action::StartSearch(query)
    }

    fn prefill(&mut self)
        ensures
            final(self)@ == old(self)@.prefilled(),
    {
        if let Some(query) = search::clone_optional(&self.committed_query) {
            self.input = query;
        }
        assert(self@ =~= old(self)@.prefilled());
    }

    fn show(&mut self, screen: Screen)
        ensures
            final(self)@ == old(self)@.on(screen),
    {
        self.screen = screen;
        assert(self@ =~= old(self)@.on(screen));
    }

    fn empty_input(&mut self)
        ensures
            final(self)@ == old(self)@.emptied(),
    {
        self.input.clear();
        assert(self@ =~= old(self)@.emptied());
    }

    fn handle_searching(&mut self, key: KeyEvent) -> (r: Action)
        ensures
            (final(self)@, r@) == old(self)@.on_searching(key),
    {
        if key.code == KeyCode::Esc || key.ctrl('c') {
            self.prefill();
            self.show(Screen::Prompt);
            Action::CancelSearch
        } else {
            Action::Nothing
        }
    }

    fn handle_results(&mut self, key: KeyEvent, after_g: bool) -> (r: Action)
        ensures
            (final(self)@, r@) == old(self)@.on_results(key, after_g),
    {
        let half: i64 = (self.list_height / 2) as i64;
        if key.bare('q') || key.code == KeyCode::Esc || key.ctrl('c') {
            Action::Quit
        } else if key.is('?') {
            self.help_return = Some(Screen::Results);
            self.screen = Screen::Help;
            assert(self@ =~= old(self)@.on_results(key, after_g).0);
            Action::Nothing
        } else if key.bare('j') || key.code == KeyCode::Down {
            self.move_selection(1);
            Action::Nothing
        } else if key.bare('k') || key.code == KeyCode::Up {
            self.move_selection(-1);
            Action::Nothing
        } else if key.bare('g') {
            if after_g {
                self.selected = 0;
            } else {
                self.g_pending = true;
            }
            assert(self@ =~= old(self)@.on_results(key, after_g).0);
            Action::Nothing
        } else if key.is('G') {
            if self.filtered.len() > 0 {
                self.selected = self.filtered.len() - 1;
            }
            assert(self@ =~= old(self)@.on_results(key, after_g).0);
            Action::Nothing
        } else if key.ctrl('d') {
            self.move_selection(half);
            Action::Nothing
        } else if key.ctrl('u') {
            self.move_selection(-half);
            Action::Nothing
        } else if key.code == KeyCode::Enter {
            match self.selected_result() {
                Some(result) => Action::Play(result.clone()),
                None => Action::Nothing,
            }
        } else if key.bare('n') {
            self.empty_input();
            self.show(Screen::Prompt);
            Action::Nothing
        } else if key.bare('r') {
            if self.committed_query.is_some() {
                self.show(Screen::Searching);
                Action::Rerun
            } else {
                Action::Nothing
            }
        } else if key.is('/') {
            self.empty_input();
            self.show(Screen::Filter);
            Action::Nothing
        } else {
            Action::Nothing
        }
    }

    fn handle_filter(&mut self, key: KeyEvent) -> (r: Action)
        ensures
            (final(self)@, r@) == old(self)@.on_filter(key),
            old(self)@.edits_filter(key) ==> final(self)@.filtered_as_ascii(),
    {
        if key.code == KeyCode::Esc {
            self.empty_input();
            self.recompute_filter();
            self.show(Screen::Results);
        } else if key.code == KeyCode::Enter {
            self.show(Screen::Results);
        } else if key.code == KeyCode::Backspace {
            let _ = self.input.pop();
            assert(self@ =~= old(self)@.shortened());
            self.recompute_filter();
        } else if let Some(c) = key.typed() {
            self.input.push(c);
            assert(self@ =~= old(self)@.lengthened(c));
            self.recompute_filter();
        }
        Action::Nothing
    }

    fn handle_help(&mut self, key: KeyEvent) -> (r: Action)
        ensures
            (final(self)@, r@) == old(self)@.on_help(key),
    {
        if key.bare('q') || key.ctrl('c') {
            return Action::Quit;
        }
        let screen = match self.help_return {
            Some(screen) => screen,
            None => Screen::Prompt,
        };
        self.help_return = None;
        self.screen = screen;
        assert(self@ =~= old(self)@.on_help(key).0);
        Action::Nothing
    }

    fn move_selection(&mut self, delta: i64)
        requires
            -0x1_0000 <= delta <= 0x1_0000,
        ensures
            final(self)@ == old(self)@.moved(delta as int),
    {
        if self.filtered.len() == 0 {
            self.selected = 0;
        } else {
            let count: i64 = if self.filtered.len() <= 0x7fff_ffff {
                self.filtered.len() as i64
            } else {
                0x7fff_ffff
            };
            let from: i64 = if self.selected <= 0x7fff_ffff {
                self.selected as i64
            } else {
                0
            };
            let to: i64 = from + delta;
            self.selected = if to < 0 {
                0
            } else if to >= count {
                (count - 1) as usize
            } else {
                to as usize
            };
        }
        assert(self@ =~= old(self)@.moved(delta as int));
    }

    /// Applies the filter in the input to the results. The selection stays within what is shown.
    pub fn recompute_filter(&mut self)
        ensures
            final(self)@ == old(self)@.refiltered(),
            final(self)@.filtered_as_ascii(),
    {
        let needle = text::to_lowercase(self.input.as_str());
        assert(needle@ =~= needle_of(self.input@));
        let all = needle.as_str().is_empty();
        let mut filtered: Vec<usize> = Vec::new();
        let mut i: usize = 0;
        assert(self.results@.take(0) =~= Seq::empty());
        while i < self.results.len()
            invariant
                i <= self.results.len(),
                *self == *old(self),
                all == (needle@.len() == 0),
                filtered@ == shown(needle@, self.results@.take(i as int)),
                all_ascii(self.input@, self.results@) ==> filtered@ == shown_ascii(
                    needle@,
                    self.results@.take(i as int),
                ),
            decreases self.results.len() - i,
        {
            if all || matches_filter(&self.results[i], needle.as_str()) {
                filtered.push(i);
            }
            proof {
                let next = self.results@.take(i + 1);
                assert(next.drop_last() =~= self.results@.take(i as int));
                assert(next.last() == self.results@[i as int]);
            }
            i += 1;
        }
        assert(self.results@.take(i as int) =~= self.results@);
        self.filtered = filtered;
        if self.filtered.len() == 0 {
            self.selected = 0;
        } else if self.selected >= self.filtered.len() {
            self.selected = self.filtered.len() - 1;
        }
        assert(self@ =~= old(self)@.refiltered());
    }

    /// Takes in the results of a search. The filter and the selection start anew.
    pub fn set_results(&mut self, results: Vec<SearchResult>)
        ensures
            final(self)@ == old(self)@.with_results(results@),
    {
        self.results = results;
        self.selected = 0;
        assert(self@ =~= (AppView { results: results@, selected: 0, ..old(self)@ }));
        self.empty_input();
        self.recompute_filter();
        self.show(Screen::Results);
    }

    fn set_failure(&mut self, error: LastError)
        ensures
            final(self)@ == old(self)@.with_search_error(error),
    {
        self.last_error = Some(error);
        assert(self@ =~= (AppView { last_error: Some(error), ..old(self)@ }));
        if self.results.len() == 0 {
            self.prefill();
            self.show(Screen::Prompt);
        } else {
            self.show(Screen::Results);
        }
    }

    /// Takes in that a search failed.
    pub fn set_search_error(&mut self, err: Arc<SearchError>)
        ensures
            final(self)@ == old(self)@.with_search_error(LastError::Search(err)),
    {
        self.set_failure(LastError::Search(err));
    }

    /// Takes in that a search came to nothing, whether it failed or its worker crashed.
    pub fn set_dispatch_error(&mut self, err: DispatchError)
        ensures
            final(self)@ == old(self)@.with_search_error(dispatch_failure(err)),
    {
        match err {
            DispatchError::Search(e) => self.set_failure(LastError::Search(Arc::new(e))),
            DispatchError::WorkerPanicked => self.set_failure(LastError::Worker),
        }
    }

    /// Takes in that a video was not played. The screen stays as it is.
    pub fn set_player_error(&mut self, err: Arc<PlayerError>)
        ensures
            final(self)@ == (AppView { last_error: Some(LastError::Player(err)), ..old(self)@ }),
    {
        self.last_error = Some(LastError::Player(err));
        assert(self@ =~= (AppView { last_error: Some(LastError::Player(err)), ..old(self)@ }));
    }

    /// Takes in how many rows the list has on the screen.
    pub fn set_list_height(&mut self, rows: u16)
        ensures
            final(self)@ == (AppView { list_height: rows, ..old(self)@ }),
    {
        self.list_height = rows;
        assert(self@ =~= (AppView { list_height: rows, ..old(self)@ }));
    }

    /// The result that is selected.
    #[must_use]
    pub fn selected_result(&self) -> (r: Option<&SearchResult>)
        ensures
            r matches Some(result) ==> self@.selection() == Some(*result),
            r is None ==> self@.selection() is None,
    {
        if self.selected < self.filtered.len() {
            let place: usize = self.filtered[self.selected];
            if place < self.results.len() {
                return Some(&self.results[place]);
            }
        }
        None
    }
}

/// The error in the status bar for a search that came to nothing.
pub open spec fn dispatch_failure(err: DispatchError) -> LastError {
    match err {
        DispatchError::Search(e) => LastError::Search(Arc::new(e)),
        DispatchError::WorkerPanicked => LastError::Worker,
    }
}

} // verus!
