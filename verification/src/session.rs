//! The main loop: what follows from a search that ends, from a key, and from a video that was
//! played.
//!
//! The program paints the screen, looks for the answer of the search in flight, and waits a moment
//! for a key, over and over. What it finds it hands to the [`Session`], and carries out the
//! [`Effect`] that comes back.

use crate::app;
use crate::app::{Action, ActionView, App, AppView, LastError};
use crate::cli::Cli;
use crate::dispatcher;
use crate::dispatcher::{try_recv, DispatchError, PendingSearch, Received, SearchDispatcher};
use crate::keys::KeyEvent;
use crate::player::PlayerError;
use crate::search::{SearchResult, SortOrder};
use crate::text;
use std::sync::Arc;
use vstd::prelude::*;

verus! {

broadcast use vstd::seq::group_seq_axioms;

/// How long the program waits for a key before it looks for the answer of a search again.
pub const EVENT_POLL_INTERVAL_MILLIS: u64 = 50;

/// The status that the program exits with where a program that it needs is missing.
pub const MISSING_PROGRAM_STATUS: i32 = 2;

/// The status that the program exits with where the terminal fails.
pub const FAILURE_STATUS: i32 = 1;

// ---------------------------------------------------------------------------
// Events and effects.
// ---------------------------------------------------------------------------

/// What happened to a key.
#[derive(Debug, Clone, Copy, PartialEq, Eq, Structural)]
pub enum KeyKind {
    Press,
    Repeat,
    Release,
}

/// What came from the terminal.
#[derive(Debug, Clone, Copy, PartialEq, Eq, Structural)]
pub enum TerminalEvent {
    Key(KeyEvent, KeyKind),
    /// Anything else: a new size, the mouse, a paste.
    Other,
}

/// What the program is to do.
#[derive(Debug, PartialEq, Eq)]
pub enum Effect {
    /// Nothing.
    Idle,
    /// End.
    Quit,
    /// Start the search that is now in flight. The answer of one before it is not waited for.
    Search,
    /// Tell the search that was in flight to give up. Its answer is not waited for.
    Cancel,
    /// Play a result.
    Play(SearchResult),
}

/// What a search in flight says.
pub struct PendingView {
    pub seq: u64,
    pub query: Seq<char>,
    pub count: u32,
    pub sort: SortOrder,
    pub cancelled: bool,
}

impl View for PendingSearch {
    type V = PendingView;

    open spec fn view(&self) -> PendingView {
        PendingView {
            seq: self.seq,
            query: self.query@,
            count: self.count,
            sort: self.sort,
            cancelled: self.cancelled,
        }
    }
}

/// What a search in flight says, where there is one.
pub open spec fn pending_view(pending: Option<PendingSearch>) -> Option<PendingView> {
    match pending {
        Some(pending) => Some(pending@),
        None => None,
    }
}

// ---------------------------------------------------------------------------
// The session.
// ---------------------------------------------------------------------------

/// A run of the program.
#[derive(Debug)]
pub struct Session<B> {
    pub app: App,
    pub dispatcher: SearchDispatcher<B>,
    /// The search in flight.
    pub pending: Option<PendingSearch>,
    /// How many results a search asks for.
    pub count: u32,
    /// Whether the newest videos come first.
    pub recent: bool,
}

/// What a [`Session`] says.
#[verifier::ext_equal]
pub struct SessionView {
    pub app: AppView,
    pub seq: u64,
    pub pending: Option<PendingView>,
    pub count: u32,
    pub recent: bool,
}

impl<B> View for Session<B> {
    type V = SessionView;

    open spec fn view(&self) -> SessionView {
        SessionView {
            app: self.app@,
            seq: self.dispatcher.seq_now(),
            pending: pending_view(self.pending),
            count: self.count,
            recent: self.recent,
        }
    }
}

impl SessionView {
    /// The session after a search was started.
    pub open spec fn searching_for(self, query: Seq<char>) -> SessionView {
        let seq = dispatcher::seq_after(self.seq, 1);
        SessionView {
            seq,
            pending: Some(
                PendingView {
                    seq,
                    query,
                    count: self.count,
                    sort: dispatcher::sort_for(self.recent),
                    cancelled: false,
                },
            ),
            ..self
        }
    }

    /// The session after the search in flight was given up.
    pub open spec fn given_up(self) -> SessionView {
        match self.pending {
            Some(_) => SessionView {
                seq: dispatcher::seq_after(self.seq, 1),
                pending: None,
                ..self
            },
            None => self,
        }
    }

    /// What an action of the screen leads to.
    pub open spec fn after_action(self, action: ActionView) -> (SessionView, Effect) {
        match action {
            ActionView::Nothing => (self, Effect::Idle),
            ActionView::Quit => (self, Effect::Quit),
            ActionView::StartSearch(query) => (self.searching_for(query), Effect::Search),
            ActionView::Rerun => match self.app.committed_query {
                Some(query) => (self.searching_for(query), Effect::Search),
                None => (self, Effect::Idle),
            },
            ActionView::CancelSearch => (
                self.given_up(),
                if self.pending is Some {
                    Effect::Cancel
                } else {
                    Effect::Idle
                },
            ),
            ActionView::Play(result) => (self, Effect::Play(result)),
        }
    }

    /// What a key leads to.
    pub open spec fn after_key(self, key: KeyEvent) -> (SessionView, Effect) {
        let (app, action) = self.app.after_key(key);
        SessionView { app, ..self }.after_action(action)
    }

    /// What an event of the terminal leads to.
    pub open spec fn after_event(self, event: TerminalEvent) -> (SessionView, Effect) {
        match event {
            TerminalEvent::Key(key, KeyKind::Press) => self.after_key(key),
            _ => (self, Effect::Idle),
        }
    }

    /// The session after a look at the channel of the search in flight.
    pub open spec fn after_look(self, received: Received) -> SessionView {
        if self.pending is None {
            self
        } else {
            match received {
                Received::Nothing => self,
                Received::Outcome((seq, outcome)) => SessionView {
                    app: if seq != self.seq {
                        self.app
                    } else {
                        match outcome {
                            Ok(results) => self.app.with_results(results@),
                            Err(e) => self.app.with_search_error(LastError::Search(Arc::new(e))),
                        }
                    },
                    pending: None,
                    ..self
                },
                Received::Disconnected => SessionView {
                    app: self.app.with_search_error(LastError::Worker),
                    pending: None,
                    ..self
                },
            }
        }
    }

    /// The session after a video was played.
    pub open spec fn after_playback(self, outcome: Result<(), PlayerError>) -> SessionView {
        match outcome {
            Ok(_) => self,
            Err(e) => SessionView {
                app: AppView { last_error: Some(LastError::Player(Arc::new(e))), ..self.app },
                ..self
            },
        }
    }
}

/// The session that a command line begins, and what is to be done first.
pub open spec fn begun(words: Seq<Seq<char>>, count: u32, recent: bool) -> (SessionView, Effect) {
    let session = SessionView { app: app::initial(), seq: 0, pending: None, count, recent };
    if words.len() == 0 {
        (session, Effect::Idle)
    } else {
        let typed = AppView { input: text::joined(words, " "@), ..app::initial() };
        let (app, action) = typed.committed();
        SessionView { app, ..session }.after_action(action)
    }
}

impl<B> Session<B> {
    /// Begins a session. A query on the command line is searched for at once.
    pub fn begin(cli: &Cli, backend: B) -> (r: (Self, Effect))
        ensures
            (r.0@, r.1) == begun(text::texts(cli.query@), cli.count, cli.recent),
            r.0.dispatcher.searcher() == backend,
    {
        let mut session = Session {
            app: App::new(),
            dispatcher: SearchDispatcher::new(backend),
            pending: None,
            count: cli.count,
            recent: cli.recent,
        };
        match cli.initial_query() {
            Some(query) => {
                session.app.input = query;
                let action = session.app.commit_query();
                let effect = session.carry_out(action);
                (session, effect)
            },
            None => (session, Effect::Idle),
        }
    }

    fn start_search(&mut self, query: String)
        ensures
            final(self)@ == old(self)@.searching_for(query@),
            final(self).dispatcher.searcher() == old(self).dispatcher.searcher(),
    {
        let pending = self.dispatcher.dispatch(query, self.count, self.recent);
        self.pending = Some(pending);
    }

    fn carry_out(&mut self, action: Action) -> (r: Effect)
        ensures
            (final(self)@, r) == old(self)@.after_action(action@),
            final(self).dispatcher.searcher() == old(self).dispatcher.searcher(),
    {
        match action {
            Action::Nothing => Effect::Idle,
            Action::Quit => Effect::Quit,
            Action::StartSearch(query) => {
                self.start_search(query);
                Effect::Search
            },
            Action::Rerun => {
                let query = match &self.app.committed_query {
                    Some(query) => query.clone(),
                    None => return Effect::Idle,
                };
                self.start_search(query);
                Effect::Search
            },
            Action::CancelSearch => {
                let pending = self.pending.take();
                match pending {
                    Some(mut pending) => {
                        self.dispatcher.cancel(&mut pending);
                        Effect::Cancel
                    },
                    None => Effect::Idle,
                }
            },
            Action::Play(result) => Effect::Play(result),
        }
    }

    /// Takes in an event of the terminal. Only a key that is pressed does anything.
    pub fn take_event(&mut self, event: TerminalEvent) -> (r: Effect)
        ensures
            (final(self)@, r) == old(self)@.after_event(event),
            final(self).dispatcher.searcher() == old(self).dispatcher.searcher(),
    {
        match event {
            TerminalEvent::Key(key, KeyKind::Press) => {
                let action = self.app.handle_key(key);
                self.carry_out(action)
            },
            _ => Effect::Idle,
        }
    }

    /// Takes in what a look at the channel of the search in flight found. An answer with an old
    /// number is dropped.
    pub fn take_look(&mut self, received: Received)
        ensures
            final(self)@ == old(self)@.after_look(received),
            final(self).dispatcher.searcher() == old(self).dispatcher.searcher(),
    {
        if self.pending.is_none() {
            return;
        }
        match try_recv(received) {
            Ok(Some((seq, outcome))) => {
                if seq == self.dispatcher.current_seq() {
                    match outcome {
                        Ok(results) => self.app.set_results(results),
                        Err(e) => self.app.set_dispatch_error(DispatchError::from(e)),
                    }
                }
                self.pending = None;
            },
            Ok(None) => {},
            Err(e) => {
                self.app.set_dispatch_error(e);
                self.pending = None;
            },
        }
    }

    /// Takes in how playing a video ended.
    pub fn take_playback(&mut self, outcome: Result<(), PlayerError>)
        ensures
            final(self)@ == old(self)@.after_playback(outcome),
            final(self).dispatcher.searcher() == old(self).dispatcher.searcher(),
    {
        match outcome {
            Ok(_) => {},
            Err(e) => self.app.set_player_error(Arc::new(e)),
        }
    }
}

// ---------------------------------------------------------------------------
// The end.
// ---------------------------------------------------------------------------

/// What the program says of an error when it ends.
pub fn complaint(error: &str) -> (r: String)
    ensures
        r@ == "yttui: "@ + error@,
{
    text::concat("yttui: ", error)
}

/// The error that the program ends with: that of the loop, or else that of restoring the terminal.
pub fn final_error(run: Option<String>, restored: Option<String>) -> (r: Option<String>)
    ensures
        r == (if run is Some {
            run
        } else {
            restored
        }),
{
    match run {
        Some(error) => Some(error),
        None => restored,
    }
}

} // verus!
