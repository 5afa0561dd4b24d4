//! What each key does on each screen, in terms of the key that is pressed and of the fields of the
//! state: what it changes, and that it changes nothing else.

use crate::app;
use crate::app::{ActionView, AppView, LastError, Screen};
use crate::app_laws;
use crate::keys::{KeyCode, KeyEvent};
use crate::search::SearchResult;
use crate::text;
use crate::text_laws;
use vstd::prelude::*;

verus! {

broadcast use vstd::seq::group_seq_axioms;

/// Nothing is held down with the key.
pub open spec fn alone(key: KeyEvent) -> bool {
    &&& !key.modifiers.shift
    &&& !key.modifiers.control
    &&& !key.modifiers.alt
    &&& !key.modifiers.super_key
    &&& !key.modifiers.hyper
    &&& !key.modifiers.meta
}

/// Control is held down with the key, and nothing else.
pub open spec fn with_control(key: KeyEvent) -> bool {
    &&& key.modifiers.control
    &&& !key.modifiers.shift
    &&& !key.modifiers.alt
    &&& !key.modifiers.super_key
    &&& !key.modifiers.hyper
    &&& !key.modifiers.meta
}

/// The key is Ctrl-c.
pub open spec fn interrupts(key: KeyEvent) -> bool {
    key.code == KeyCode::Char('c') && with_control(key)
}

/// The key is a character, with neither control nor alt held down.
pub open spec fn is_typed(key: KeyEvent, c: char) -> bool {
    key.code == KeyCode::Char(c) && !key.modifiers.control && !key.modifiers.alt
}

/// The state after a key that does nothing: any key takes the error away and ends the wait for a
/// second `g`.
pub open spec fn untouched(state: AppView) -> AppView {
    AppView {
        screen: state.screen,
        help_return: state.help_return,
        input: state.input,
        committed_query: state.committed_query,
        results: state.results,
        filtered: state.filtered,
        selected: state.selected,
        last_error: None,
        list_height: state.list_height,
        g_pending: false,
    }
}

/// How the program asks which key was pressed.
pub proof fn law_keys_are_told_apart(key: KeyEvent, c: char)
    ensures
        key.is_bare(c) <==> key.code == KeyCode::Char(c) && alone(key),
        key.is_ctrl(c) <==> key.code == KeyCode::Char(c) && with_control(key),
        key.is_char(c) <==> key.code == KeyCode::Char(c),
        key.types() == Some(c) <==> is_typed(key, c),
{
}

// ---------------------------------------------------------------------------
// The prompt.
// ---------------------------------------------------------------------------

/// Enter on the prompt searches for what was typed, without the white space around it, whatever was
/// searched for and found and selected before: the search is asked for, the screen says that it goes
/// on, and the query is remembered.
pub proof fn law_enter_searches_for_what_was_typed(
    state: AppView,
    key: KeyEvent,
    front: Seq<char>,
    query: Seq<char>,
    back: Seq<char>,
)
    requires
        state.screen == Screen::Prompt,
        key.code == KeyCode::Enter,
        state.input == front + query + back,
        text_laws::all_white(front),
        text_laws::is_bounded(query),
        text_laws::all_white(back),
    ensures
        state.after_key(key).1 == ActionView::StartSearch(query),
        state.after_key(key).0 == (AppView {
            screen: Screen::Searching,
            committed_query: Some(query),
            ..untouched(state)
        }),
{
    text_laws::law_trimming_takes_the_white_space_away(front, query, back);
}

/// Asking for the input does the same from every screen and in every state.
pub proof fn law_any_input_can_be_asked_for(
    state: AppView,
    front: Seq<char>,
    query: Seq<char>,
    back: Seq<char>,
)
    requires
        state.input == front + query + back,
        text_laws::all_white(front),
        text_laws::is_bounded(query),
        text_laws::all_white(back),
    ensures
        state.committed().1 == ActionView::StartSearch(query),
        state.committed().0 == (AppView {
            screen: Screen::Searching,
            committed_query: Some(query),
            ..state
        }),
{
    text_laws::law_trimming_takes_the_white_space_away(front, query, back);
}

/// An input that is empty or white space alone is not asked for, and stays.
pub proof fn law_an_empty_input_is_not_asked_for(state: AppView, key: KeyEvent)
    requires
        text_laws::all_white(state.input),
    ensures
        state.committed() == (state, ActionView::Nothing),
        state.screen == Screen::Prompt && key.code == KeyCode::Enter ==> state.after_key(key) == (
            untouched(state),
            ActionView::Nothing,
        ),
{
    text_laws::law_white_space_is_trimmed_away(state.input);
}

/// A character that is typed into the prompt stands at the end of the input, whatever the input is
/// and whatever the character is.
pub proof fn law_what_is_typed_is_in_the_prompt(state: AppView, key: KeyEvent, c: char)
    requires
        state.screen == Screen::Prompt,
        is_typed(key, c),
    ensures
        state.after_key(key) == (
            (AppView { input: state.input + seq![c], ..untouched(state) }),
            ActionView::Nothing,
        ),
{
    assert(state.input.push(c) =~= state.input + seq![c]);
}

/// Backspace takes the last character of the prompt away, if there is one.
pub proof fn law_backspace_shortens_the_prompt(
    state: AppView,
    key: KeyEvent,
    before: Seq<char>,
    c: char,
)
    requires
        state.screen == Screen::Prompt,
        key.code == KeyCode::Backspace,
    ensures
        state.input == before + seq![c] ==> state.after_key(key) == (
            (AppView { input: before, ..untouched(state) }),
            ActionView::Nothing,
        ),
        state.input.len() == 0 ==> state.after_key(key) == (untouched(state), ActionView::Nothing),
{
    assert((before + seq![c]).drop_last() =~= before);
}

/// Esc and Ctrl-c on the prompt quit, and every other key does nothing.
pub proof fn law_other_keys_on_the_prompt(state: AppView, key: KeyEvent)
    requires
        state.screen == Screen::Prompt,
        key.code != KeyCode::Enter,
        key.code != KeyCode::Backspace,
        forall|c: char| !is_typed(key, c),
    ensures
        state.after_key(key).0 == untouched(state),
        state.after_key(key).1 == (if key.code == KeyCode::Esc || interrupts(key) {
            ActionView::Quit
        } else {
            ActionView::Nothing
        }),
{
    if let KeyCode::Char(c) = key.code {
        assert(!is_typed(key, c));
    }
}

// ---------------------------------------------------------------------------
// A search that goes on.
// ---------------------------------------------------------------------------

/// While a search goes on, Esc and Ctrl-c give it up: the prompt comes back, with the query in it
/// where there is one. No other key does anything.
pub proof fn law_keys_while_a_search_goes_on(state: AppView, key: KeyEvent)
    requires
        state.screen == Screen::Searching,
    ensures
        key.code == KeyCode::Esc || interrupts(key) ==> state.after_key(key) == (
            (AppView {
                screen: Screen::Prompt,
                input: if state.committed_query is Some {
                    state.committed_query->0
                } else {
                    state.input
                },
                ..untouched(state)
            }),
            ActionView::CancelSearch,
        ),
        !(key.code == KeyCode::Esc || interrupts(key)) ==> state.after_key(key) == (
            untouched(state),
            ActionView::Nothing,
        ),
{
}

// ---------------------------------------------------------------------------
// The results.
// ---------------------------------------------------------------------------

/// `j` and Down select the next result that is shown, and `k` and Up the one before; the selection
/// stops at the ends. Nothing else changes, and nothing is to be carried out.
pub proof fn law_the_selection_moves_by_one(state: AppView, key: KeyEvent)
    requires
        state.screen == Screen::Results,
        app_laws::consistent(state),
        state.filtered.len() <= i32::MAX,
    ensures
        key.code == KeyCode::Down || key.code == KeyCode::Char('j') && alone(key)
            ==> state.after_key(key) == (
            (AppView {
                selected: if state.selected + 1 < state.filtered.len() {
                    (state.selected + 1) as usize
                } else {
                    state.selected
                },
                ..untouched(state)
            }),
            ActionView::Nothing,
        ),
        key.code == KeyCode::Up || key.code == KeyCode::Char('k') && alone(key)
            ==> state.after_key(key) == (
            (AppView {
                selected: if state.selected > 0 {
                    (state.selected - 1) as usize
                } else {
                    0
                },
                ..untouched(state)
            }),
            ActionView::Nothing,
        ),
{
}

/// Ctrl-d and Ctrl-u move the selection by half the rows that the list has, rounded down; the
/// selection stops at the ends. Nothing else changes.
pub proof fn law_the_selection_moves_by_half_a_page(state: AppView, key: KeyEvent)
    requires
        state.screen == Screen::Results,
        app_laws::consistent(state),
        state.filtered.len() <= i32::MAX,
        with_control(key),
    ensures
        key.code == KeyCode::Char('d') ==> ({
            let after = state.after_key(key);
            let to = state.selected + state.list_height as int / 2;
            &&& after.1 == ActionView::Nothing
            &&& after.0 == AppView { selected: after.0.selected, ..untouched(state) }
            &&& after.0.selected == if to < state.filtered.len() {
                to
            } else if state.filtered.len() > 0 {
                state.filtered.len() - 1
            } else {
                0
            }
        }),
        key.code == KeyCode::Char('u') ==> ({
            let after = state.after_key(key);
            let to = state.selected - state.list_height as int / 2;
            &&& after.1 == ActionView::Nothing
            &&& after.0 == AppView { selected: after.0.selected, ..untouched(state) }
            &&& after.0.selected == if to > 0 {
                to
            } else {
                0
            }
        }),
{
}

/// A first `g` is waited for, and a second one selects the first result; `G` selects the last one.
/// Nothing else changes.
pub proof fn law_the_selection_jumps_to_the_ends(state: AppView, key: KeyEvent)
    requires
        state.screen == Screen::Results,
        app_laws::consistent(state),
    ensures
        key.code == KeyCode::Char('g') && alone(key) && !state.g_pending ==> state.after_key(key)
            == ((AppView { g_pending: true, ..untouched(state) }), ActionView::Nothing),
        key.code == KeyCode::Char('g') && alone(key) && state.g_pending ==> state.after_key(key)
            == ((AppView { selected: 0, ..untouched(state) }), ActionView::Nothing),
        key.code == KeyCode::Char('G') ==> ({
            let after = state.after_key(key);
            &&& after.1 == ActionView::Nothing
            &&& after.0 == AppView { selected: after.0.selected, ..untouched(state) }
            &&& after.0.selected == if state.filtered.len() > 0 {
                state.filtered.len() - 1
            } else {
                0
            }
        }),
{
    if state.filtered.len() > 0 && key.code == KeyCode::Char('G') {
        app_laws::law_capital_g_selects_the_last(state, key);
    }
}

/// Enter plays the result that is selected among those that are shown, and changes nothing; where
/// nothing is shown it does nothing.
pub proof fn law_enter_plays_what_is_selected(state: AppView, key: KeyEvent)
    requires
        state.screen == Screen::Results,
        app_laws::consistent(state),
        key.code == KeyCode::Enter,
    ensures
        state.after_key(key).0 == untouched(state),
        state.after_key(key).1 == (if state.filtered.len() > 0 {
            ActionView::Play(state.results[state.filtered[state.selected as int] as int])
        } else {
            ActionView::Nothing
        }),
{
}

/// `n` leads to an empty prompt, `/` to an empty filter, and `?` to the help, each from the results
/// and with everything else as it was.
pub proof fn law_keys_that_lead_from_the_results(state: AppView, key: KeyEvent)
    requires
        state.screen == Screen::Results,
    ensures
        key.code == KeyCode::Char('n') && alone(key) ==> state.after_key(key) == (
            (AppView { screen: Screen::Prompt, input: Seq::empty(), ..untouched(state) }),
            ActionView::Nothing,
        ),
        key.code == KeyCode::Char('/') ==> state.after_key(key) == (
            (AppView { screen: Screen::Filter, input: Seq::empty(), ..untouched(state) }),
            ActionView::Nothing,
        ),
        key.code == KeyCode::Char('?') ==> state.after_key(key) == (
            (AppView {
                screen: Screen::Help,
                help_return: Some(Screen::Results),
                ..untouched(state)
            }),
            ActionView::Nothing,
        ),
{
}

/// `r` searches again, with the results still there, if anything was searched for.
pub proof fn law_r_searches_again(state: AppView, key: KeyEvent)
    requires
        state.screen == Screen::Results,
        key.code == KeyCode::Char('r'),
        alone(key),
    ensures
        state.committed_query is Some ==> state.after_key(key) == (
            (AppView { screen: Screen::Searching, ..untouched(state) }),
            ActionView::Rerun,
        ),
        state.committed_query is None ==> state.after_key(key) == (
            untouched(state),
            ActionView::Nothing,
        ),
{
}

/// Whether a key means something on the results.
pub open spec fn means_something_on_results(key: KeyEvent) -> bool {
    match key.code {
        KeyCode::Enter | KeyCode::Esc | KeyCode::Up | KeyCode::Down => true,
        KeyCode::Char(c) => c == '?' || c == '/' || c == 'G' || alone(key) && (c == 'q' || c == 'j'
            || c == 'k' || c == 'g' || c == 'n' || c == 'r') || with_control(key) && (c == 'c' || c
            == 'd' || c == 'u'),
        _ => false,
    }
}

/// `q`, Esc and Ctrl-c on the results quit, and a key that means nothing there does nothing.
pub proof fn law_other_keys_on_the_results(state: AppView, key: KeyEvent)
    requires
        state.screen == Screen::Results,
    ensures
        key.code == KeyCode::Esc || interrupts(key) || key.code == KeyCode::Char('q') && alone(key)
            ==> state.after_key(key) == (untouched(state), ActionView::Quit),
        !means_something_on_results(key) ==> state.after_key(key) == (
            untouched(state),
            ActionView::Nothing,
        ),
{
}

/// The result that is selected is the one whose place among all results is at the selected place
/// among those that are shown.
pub proof fn law_which_result_is_selected(state: AppView)
    ensures
        state.selection() is Some <==> state.selected < state.filtered.len()
            && state.filtered[state.selected as int] < state.results.len(),
        state.selection() matches Some(result) ==> result
            == state.results[state.filtered[state.selected as int] as int],
{
}

// ---------------------------------------------------------------------------
// The filter.
// ---------------------------------------------------------------------------

/// Whether a result has the input in its title or in its channel, whatever the case of the letters.
pub open spec fn has_input(input: Seq<char>, result: SearchResult) -> bool {
    ||| text::occurs(text::lowercase(input), text::lowercase(result.title@))
    ||| result.channel is Some && text::occurs(
        text::lowercase(input),
        text::lowercase(result.channel->0@),
    )
}

/// Whether `places` are those of the results that have the input in them, in the order of the
/// results, and of all of them where the input is empty.
pub open spec fn lists_what_matches(
    places: Seq<usize>,
    input: Seq<char>,
    results: Seq<SearchResult>,
) -> bool {
    &&& forall|j: int, k: int| 0 <= j < k < places.len() ==> places[j] < places[k]
    &&& forall|i: usize| #[trigger]
        places.contains(i) <==> i < results.len() && (input.len() == 0 || has_input(
            input,
            results[i as int],
        ))
}

/// The filter shows the results that have the input in their title or their channel, every one of
/// them and no other.
pub proof fn law_the_filter_lists_what_matches(input: Seq<char>, results: Seq<SearchResult>)
    requires
        results.len() <= usize::MAX,
    ensures
        lists_what_matches(app::shown(app::needle_of(input), results), input, results),
{
    let needle = app::needle_of(input);
    let places = app::shown(needle, results);
    app_laws::law_the_filter_shows_what_matches(needle, results);
    assert forall|i: usize| #[trigger]
        places.contains(i) <==> i < results.len() && (input.len() == 0 || has_input(
            input,
            results[i as int],
        )) by {
        if i < results.len() && input.len() > 0 && needle.len() == 0 {
            app_laws::law_the_empty_needle_matches(results[i as int]);
            assert(needle =~= Seq::empty());
        }
    }
}

/// Whether a state is filtered by its input: it shows what matches, and the selection is where it
/// was before, or at the last place where the list is shorter, or at none where it is empty.
pub open spec fn filtered_from(before: AppView, after: AppView) -> bool {
    &&& lists_what_matches(after.filtered, after.input, before.results)
    &&& after.selected == if after.filtered.len() == 0 {
        0
    } else if before.selected < after.filtered.len() {
        before.selected as int
    } else {
        after.filtered.len() - 1
    }
    &&& after == AppView {
        screen: after.screen,
        input: after.input,
        filtered: after.filtered,
        selected: after.selected,
        ..untouched(before)
    }
}

proof fn lemma_filtered(state: AppView)
    requires
        state.results.len() <= usize::MAX,
    ensures
        lists_what_matches(state.refiltered().filtered, state.input, state.results),
        state.refiltered().filtered.len() <= usize::MAX,
{
    law_the_filter_lists_what_matches(state.input, state.results);
    app_laws::law_the_filter_shows_what_matches(app::needle_of(state.input), state.results);
}

/// A character that is typed into the filter stands at the end of its input, and what is shown is
/// filtered by the new input.
pub proof fn law_what_is_typed_is_filtered_by(state: AppView, key: KeyEvent, c: char)
    requires
        state.screen == Screen::Filter,
        state.results.len() <= usize::MAX,
        is_typed(key, c),
    ensures
        state.after_key(key).1 == ActionView::Nothing,
        state.after_key(key).0.screen == Screen::Filter,
        state.after_key(key).0.input == state.input + seq![c],
        filtered_from(state, state.after_key(key).0),
{
    assert(state.input.push(c) =~= state.input + seq![c]);
    lemma_filtered(AppView { input: state.input.push(c), ..untouched(state) });
}

/// Backspace takes the last character of the filter away, if there is one, and what is shown is
/// filtered by what is left.
pub proof fn law_backspace_shortens_the_filter(
    state: AppView,
    key: KeyEvent,
    before: Seq<char>,
    c: char,
)
    requires
        state.screen == Screen::Filter,
        state.results.len() <= usize::MAX,
        key.code == KeyCode::Backspace,
    ensures
        state.after_key(key).1 == ActionView::Nothing,
        state.after_key(key).0.screen == Screen::Filter,
        state.input == before + seq![c] ==> state.after_key(key).0.input == before,
        state.input.len() == 0 ==> state.after_key(key).0.input.len() == 0,
        filtered_from(state, state.after_key(key).0),
{
    assert((before + seq![c]).drop_last() =~= before);
    let shorter = if state.input.len() > 0 {
        state.input.drop_last()
    } else {
        state.input
    };
    lemma_filtered(AppView { input: shorter, ..untouched(state) });
}

/// Esc on the filter empties it and leads back to the results, all of which are shown again; Enter
/// leads back to them with what the filter shows.
pub proof fn law_the_ways_out_of_the_filter(state: AppView, key: KeyEvent)
    requires
        state.screen == Screen::Filter,
        state.results.len() <= usize::MAX,
    ensures
        key.code == KeyCode::Esc ==> {
            &&& state.after_key(key).1 == ActionView::Nothing
            &&& state.after_key(key).0.screen == Screen::Results
            &&& state.after_key(key).0.input.len() == 0
            &&& filtered_from(state, state.after_key(key).0)
        },
        key.code == KeyCode::Enter ==> state.after_key(key) == (
            (AppView { screen: Screen::Results, ..untouched(state) }),
            ActionView::Nothing,
        ),
{
    lemma_filtered(AppView { input: Seq::empty(), ..untouched(state) });
}

/// Every other key does nothing on the filter, Ctrl-c among them.
pub proof fn law_other_keys_on_the_filter(state: AppView, key: KeyEvent)
    requires
        state.screen == Screen::Filter,
        key.code != KeyCode::Enter,
        key.code != KeyCode::Esc,
        key.code != KeyCode::Backspace,
        forall|c: char| !is_typed(key, c),
    ensures
        state.after_key(key) == (untouched(state), ActionView::Nothing),
{
    if let KeyCode::Char(c) = key.code {
        assert(!is_typed(key, c));
    }
}

// ---------------------------------------------------------------------------
// The help.
// ---------------------------------------------------------------------------

/// `q` and Ctrl-c quit from the help, and every other key leads back to where it was opened, or to
/// the prompt where that is not known.
pub proof fn law_keys_on_the_help(state: AppView, key: KeyEvent)
    requires
        state.screen == Screen::Help,
    ensures
        interrupts(key) || key.code == KeyCode::Char('q') && alone(key) ==> state.after_key(key)
            == (untouched(state), ActionView::Quit),
        !(interrupts(key) || key.code == KeyCode::Char('q') && alone(key)) ==> state.after_key(key)
            == (
            (AppView {
                screen: if state.help_return is Some {
                    state.help_return->0
                } else {
                    Screen::Prompt
                },
                help_return: None,
                ..untouched(state)
            }),
            ActionView::Nothing,
        ),
{
}

// ---------------------------------------------------------------------------
// What comes back.
// ---------------------------------------------------------------------------

/// Results that come back take the place of those before, whatever was there: all of them are
/// shown, in order, and the first is selected; the filter is empty, and everything else stays.
pub proof fn law_results_take_the_place_of_those_before(state: AppView, results: Seq<SearchResult>)
    requires
        results.len() <= usize::MAX,
    ensures
        state.with_results(results) == (AppView {
            screen: Screen::Results,
            input: Seq::empty(),
            results,
            filtered: Seq::new(results.len(), |i: int| i as usize),
            selected: 0,
            ..state
        }),
{
    app_laws::law_an_empty_filter_shows_all(results);
}

/// A search that failed says why. Results that were there stay, with the selection, and the screen
/// shows them; without any, the prompt comes back with the query in it, where there is one.
pub proof fn law_a_failure_keeps_what_is_there(state: AppView, error: LastError)
    ensures
        state.results.len() > 0 ==> state.with_search_error(error) == (AppView {
            screen: Screen::Results,
            last_error: Some(error),
            ..state
        }),
        state.results.len() == 0 ==> state.with_search_error(error) == (AppView {
            screen: Screen::Prompt,
            last_error: Some(error),
            input: if state.committed_query is Some {
                state.committed_query->0
            } else {
                state.input
            },
            ..state
        }),
{
}

/// The program starts at an empty prompt, with nothing found, nothing asked and nothing to complain
/// of.
pub proof fn law_the_start_is_an_empty_prompt()
    ensures
        app::initial().screen == Screen::Prompt,
        app::initial().help_return is None,
        app::initial().input.len() == 0,
        app::initial().committed_query is None,
        app::initial().results.len() == 0,
        app::initial().filtered.len() == 0,
        app::initial().selected == 0,
        app::initial().last_error is None,
        app::initial().list_height == 20,
        !app::initial().g_pending,
{
}

} // verus!
