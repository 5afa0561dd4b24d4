//! What holds of the program's state, whatever keys are pressed and whatever comes back.

use crate::app;
use crate::app::{ActionView, AppView, LastError, Screen};
use crate::keys::{KeyCode, KeyEvent};
use crate::search;
use crate::search::SearchResult;
use crate::text;
use vstd::prelude::*;

verus! {

broadcast use vstd::seq::group_seq_axioms;

// ---------------------------------------------------------------------------
// The filter.
// ---------------------------------------------------------------------------

/// The filter shows a result exactly if there is nothing to look for or the result has it in its
/// title or its channel; and it shows the results in their order, none of them twice.
pub proof fn law_the_filter_shows_what_matches(needle: Seq<char>, results: Seq<SearchResult>)
    requires
        results.len() <= usize::MAX,
    ensures
        forall|i: usize|
            #[trigger] app::shown(needle, results).contains(i) <==> i < results.len() && (needle.len()
                == 0 || app::shows(needle, results[i as int])),
        forall|j: int, k: int|
            0 <= j < k < app::shown(needle, results).len() ==> app::shown(needle, results)[j]
                < app::shown(needle, results)[k],
        app::shown(needle, results).len() <= results.len(),
    decreases results.len(),
{
    let shown = app::shown(needle, results);
    if results.len() > 0 {
        let rest = results.drop_last();
        let before = app::shown(needle, rest);
        law_the_filter_shows_what_matches(needle, rest);
        let last = (results.len() - 1) as usize;
        assert forall|j: int| 0 <= j < before.len() implies before[j] < last by {
            assert(before.contains(before[j]));
        }
        let taken = needle.len() == 0 || app::shows(needle, results.last());
        assert forall|i: usize|
            #[trigger] shown.contains(i) <==> i < results.len() && (needle.len() == 0 || app::shows(
                needle,
                results[i as int],
            )) by {
            assert(before.contains(i) <==> i < rest.len() && (needle.len() == 0 || app::shows(
                needle,
                rest[i as int],
            )));
            if taken {
                assert(shown == before.push(last));
                assert(shown[before.len() as int] == last);
                if before.contains(i) {
                    let j = choose|j: int| 0 <= j < before.len() && before[j] == i;
                    assert(shown[j] == i);
                }
                if shown.contains(i) && i != last {
                    let j = choose|j: int| 0 <= j < shown.len() && shown[j] == i;
                    assert(before[j] == i);
                }
            }
        }
    }
}

/// Where there is nothing to look for, every result is shown at its own place.
pub proof fn law_an_empty_filter_shows_all(results: Seq<SearchResult>)
    requires
        results.len() <= usize::MAX,
    ensures
        app::shown(Seq::empty(), results) == Seq::new(results.len(), |i: int| i as usize),
    decreases results.len(),
{
    if results.len() > 0 {
        law_an_empty_filter_shows_all(results.drop_last());
    }
    assert(app::shown(Seq::empty(), results) =~= Seq::new(results.len(), |i: int| i as usize));
}

proof fn lemma_a_part_occurs(part: Seq<char>, needle: Seq<char>, hay: Seq<char>)
    requires
        text::occurs(part, needle),
        text::occurs(needle, hay),
    ensures
        text::occurs(part, hay),
{
    let i = choose|i: int|
        0 <= i <= hay.len() - needle.len() && #[trigger] hay.subrange(i, i + needle.len()) == needle;
    let j = choose|j: int|
        0 <= j <= needle.len() - part.len() && #[trigger] needle.subrange(j, j + part.len()) == part;
    assert(hay.subrange(i + j, i + j + part.len()) =~= part) by {
        assert forall|k: int| 0 <= k < part.len() implies hay[i + j + k] == part[k] by {
            assert(needle[j + k] == needle.subrange(j, j + part.len())[k]);
            assert(hay.subrange(i, i + needle.len())[j + k] == hay[i + j + k]);
        }
    }
}

/// A result that matches a needle matches every part of it.
pub proof fn law_a_part_of_the_needle_matches(
    part: Seq<char>,
    needle: Seq<char>,
    result: SearchResult,
)
    requires
        text::occurs(part, needle),
        app::shows(needle, result),
    ensures
        app::shows(part, result),
{
    if text::occurs(needle, text::lowercase(result.title@)) {
        lemma_a_part_occurs(part, needle, text::lowercase(result.title@));
    } else {
        lemma_a_part_occurs(part, needle, text::lowercase(result.channel->Some_0@));
    }
}

/// What a filter shows, a filter for a part of its needle shows too.
pub proof fn law_a_longer_needle_shows_no_more(
    part: Seq<char>,
    needle: Seq<char>,
    results: Seq<SearchResult>,
    place: usize,
)
    requires
        results.len() <= usize::MAX,
        text::occurs(part, needle),
        app::shown(needle, results).contains(place),
    ensures
        app::shown(part, results).contains(place),
{
    law_the_filter_shows_what_matches(needle, results);
    law_the_filter_shows_what_matches(part, results);
    if part.len() > 0 {
        law_a_part_of_the_needle_matches(part, needle, results[place as int]);
    }
}

/// Every result matches the empty needle.
pub proof fn law_the_empty_needle_matches(result: SearchResult)
    ensures
        app::shows(Seq::empty(), result),
{
    let title = text::lowercase(result.title@);
    assert(title.subrange(0, 0int + Seq::<char>::empty().len()) =~= Seq::<char>::empty());
}

/// The filter looks at the title and at the channel of a result and at nothing else; where there
/// is no channel, at the title alone.
pub proof fn law_only_the_names_matter(needle: Seq<char>, result: SearchResult, other: SearchResult)
    requires
        result.title@ == other.title@,
        search::optional_text(result.channel) == search::optional_text(other.channel),
    ensures
        app::shows(needle, result) == app::shows(needle, other),
        app::shows_ascii(needle, result) == app::shows_ascii(needle, other),
        result.channel is None ==> app::shows(needle, result) == text::occurs(
            needle,
            text::lowercase(result.title@),
        ),
{
}

/// Whether two results have the same names but for the case of their ASCII letters.
pub open spec fn same_but_for_case(result: SearchResult, other: SearchResult) -> bool {
    &&& text::ascii_lowered(result.title@) == text::ascii_lowered(other.title@)
    &&& match (result.channel, other.channel) {
        (Some(channel), Some(name)) => text::ascii_lowered(channel@) == text::ascii_lowered(name@),
        (None, None) => true,
        _ => false,
    }
}

/// A text in upper case is the same text but for case, and stays an ASCII text.
pub proof fn law_upper_case_differs_in_case_only(s: Seq<char>)
    ensures
        text::ascii_lowered(text::ascii_uppered(s)) == text::ascii_lowered(s),
        vstd::utf8::is_ascii_chars(s) ==> vstd::utf8::is_ascii_chars(text::ascii_uppered(s)),
{
    let upper = text::ascii_uppered(s);
    assert forall|i: int| 0 <= i < s.len() implies text::ascii_lower(upper[i]) == text::ascii_lower(
        s[i],
    ) by {}
    assert(text::ascii_lowered(upper) =~= text::ascii_lowered(s));
}

/// The case of the letters in ASCII names does not matter to the filter: by
/// [`law_upper_case_differs_in_case_only`] not even where all of them are upper case.
pub proof fn law_the_case_of_names_does_not_matter(
    needle: Seq<char>,
    result: SearchResult,
    other: SearchResult,
)
    requires
        same_but_for_case(result, other),
    ensures
        app::shows_ascii(needle, result) == app::shows_ascii(needle, other),
{
}

/// The filter shows the same places whatever the case of the letters is in ASCII texts, in the
/// input and in the names.
pub proof fn law_the_filter_ignores_case(
    input: Seq<char>,
    other_input: Seq<char>,
    results: Seq<SearchResult>,
    others: Seq<SearchResult>,
)
    requires
        text::ascii_lowered(input) == text::ascii_lowered(other_input),
        results.len() == others.len(),
        forall|i: int| 0 <= i < results.len() ==> same_but_for_case(#[trigger] results[i], others[i]),
    ensures
        app::shown_ascii(text::ascii_lowered(input), results) == app::shown_ascii(
            text::ascii_lowered(other_input),
            others,
        ),
    decreases results.len(),
{
    if results.len() > 0 {
        law_the_filter_ignores_case(input, other_input, results.drop_last(), others.drop_last());
        assert(same_but_for_case(results[results.len() - 1], others[results.len() - 1]));
    }
}

/// Leaving the filter with Esc shows every result again, with nothing left in the input.
pub proof fn law_esc_takes_the_filter_away(state: AppView, key: KeyEvent)
    requires
        state.screen is Filter,
        state.results.len() <= usize::MAX,
        key.code == KeyCode::Esc,
    ensures
        ({
            let (after, action) = state.after_key(key);
            &&& action is Nothing
            &&& after.screen is Results
            &&& after.input.len() == 0
            &&& after.filtered == Seq::new(state.results.len(), |i: int| i as usize)
        }),
{
    law_an_empty_filter_shows_all(state.results);
}

/// Leaving the filter with Enter changes nothing but the screen: what is shown stays.
pub proof fn law_enter_keeps_the_filter(state: AppView, key: KeyEvent)
    requires
        state.screen is Filter,
        key.code == KeyCode::Enter,
    ensures
        state.after_key(key) == (state.settled().on(Screen::Results), ActionView::Nothing),
{
}

/// Every character typed into the filter, and every one taken back, is filtered by at once.
pub proof fn law_the_filter_is_live(state: AppView, key: KeyEvent)
    requires
        state.screen is Filter,
        key.types() is Some || key.code == KeyCode::Backspace,
    ensures
        ({
            let after = state.after_key(key).0;
            &&& after.screen is Filter
            &&& after.filtered == app::shown(app::needle_of(after.input), state.results)
        }),
{
}

/// Taking back a character just typed into the prompt restores the prompt.
pub proof fn law_backspace_takes_back_what_was_typed(state: AppView, key: KeyEvent, back: KeyEvent)
    requires
        state.screen is Prompt,
        key.types() is Some,
        back.code == KeyCode::Backspace,
    ensures
        state.after_key(key).0.after_key(back).0 == state.settled(),
{
    let c = key.types()->0;
    assert(state.input.push(c).drop_last() =~= state.input);
}

/// Taking back a character just typed into the filter shows again what the input before it shows.
pub proof fn law_backspace_takes_back_the_filter(state: AppView, key: KeyEvent, back: KeyEvent)
    requires
        state.screen is Filter,
        key.types() is Some,
        back.code == KeyCode::Backspace,
    ensures
        state.after_key(key).0.after_key(back).0.input == state.input,
        state.after_key(key).0.after_key(back).0.filtered == state.refiltered().filtered,
{
    let c = key.types()->0;
    assert(state.input.push(c).drop_last() =~= state.input);
}

// ---------------------------------------------------------------------------
// The selection.
// ---------------------------------------------------------------------------

/// What is shown are results, each at most once and in their order; and the selection is one of
/// what is shown, if anything is.
pub open spec fn consistent(state: AppView) -> bool {
    &&& state.results.len() <= usize::MAX
    &&& forall|j: int|
        0 <= j < state.filtered.len() ==> #[trigger] state.filtered[j] < state.results.len()
    &&& forall|j: int, k: int|
        0 <= j < k < state.filtered.len() ==> state.filtered[j] < state.filtered[k]
    &&& state.filtered.len() == 0 ==> state.selected == 0
    &&& state.filtered.len() > 0 ==> state.selected < state.filtered.len()
}

/// The program starts with a consistent state.
pub proof fn law_the_start_is_consistent()
    ensures
        consistent(app::initial()),
{
}

/// Applying the filter makes a state consistent.
pub proof fn law_filtering_is_consistent(state: AppView)
    requires
        state.results.len() <= usize::MAX,
    ensures
        consistent(state.refiltered()),
{
    let needle = app::needle_of(state.input);
    let shown = app::shown(needle, state.results);
    law_the_filter_shows_what_matches(needle, state.results);
    assert forall|j: int| 0 <= j < shown.len() implies #[trigger] shown[j] < state.results.len() by {
        assert(shown.contains(shown[j]));
    }
}

/// No key takes the selection out of what is shown.
pub proof fn law_keys_keep_the_state_consistent(state: AppView, key: KeyEvent)
    requires
        consistent(state),
    ensures
        consistent(state.after_key(key).0),
{
    let settled = state.settled();
    if state.screen is Filter {
        law_filtering_is_consistent(settled.emptied());
        law_filtering_is_consistent(settled.shortened());
        if let Some(c) = key.types() {
            law_filtering_is_consistent(settled.lengthened(c));
        }
    }
}

/// Neither results nor errors take the selection out of what is shown.
pub proof fn law_answers_keep_the_state_consistent(
    state: AppView,
    results: Seq<SearchResult>,
    error: LastError,
)
    requires
        consistent(state),
        results.len() <= usize::MAX,
    ensures
        consistent(state.with_results(results)),
        consistent(state.with_search_error(error)),
{
    law_filtering_is_consistent(AppView { results, selected: 0, ..state }.emptied());
}

/// A `g` changes nothing but that a second `g` is waited for, which selects the first result.
pub proof fn law_a_double_g_selects_the_first(state: AppView, g: KeyEvent)
    requires
        state.screen is Results,
        !state.g_pending,
        g.is_bare('g'),
    ensures
        state.after_key(g) == (AppView { g_pending: true, ..state.settled() }, ActionView::Nothing),
        state.after_key(g).0.after_key(g) == (
            AppView { selected: 0, ..state.settled() },
            ActionView::Nothing,
        ),
{
}

/// A first `g` is forgotten with the next key: only a `g` on the results, and no second one,
/// leaves one to be waited for.
pub proof fn law_a_single_g_is_forgotten(state: AppView, key: KeyEvent)
    ensures
        state.after_key(key).0.g_pending ==> state.screen is Results && key.is_bare('g')
            && !state.g_pending,
{
}

/// `G` selects the last of what is shown.
pub proof fn law_capital_g_selects_the_last(state: AppView, key: KeyEvent)
    requires
        state.screen is Results,
        consistent(state),
        state.filtered.len() > 0,
        key.is_char('G'),
    ensures
        state.after_key(key).0.selected == state.filtered.len() - 1,
{
    lemma_distinct_places(state.filtered, state.results.len());
}

/// `j` and `k` move the selection by one, and not beyond the ends of the list.
pub proof fn law_j_and_k_move_by_one(state: AppView, j: KeyEvent, k: KeyEvent)
    requires
        state.screen is Results,
        consistent(state),
        0 < state.filtered.len() <= i32::MAX,
        j.is_bare('j') || j.code == KeyCode::Down,
        k.is_bare('k') || k.code == KeyCode::Up,
    ensures
        state.after_key(j).0.selected == (if state.selected + 1 < state.filtered.len() {
            state.selected + 1
        } else {
            state.filtered.len() - 1
        }),
        state.after_key(k).0.selected == (if state.selected > 0 {
            state.selected - 1
        } else {
            0
        }),
{
}

/// `k` takes `j` back, unless the end of the list stopped it.
pub proof fn law_k_takes_j_back(state: AppView, j: KeyEvent, k: KeyEvent)
    requires
        state.screen is Results,
        consistent(state),
        state.selected + 1 < state.filtered.len() <= i32::MAX,
        j.is_bare('j') || j.code == KeyCode::Down,
        k.is_bare('k') || k.code == KeyCode::Up,
    ensures
        state.after_key(j).0.after_key(k).0 == state.settled(),
{
}

/// Ctrl-d and Ctrl-u move the selection by half of the list's height, and not beyond the ends of
/// the list.
pub proof fn law_half_pages(state: AppView, down: KeyEvent, up: KeyEvent)
    requires
        state.screen is Results,
        consistent(state),
        0 < state.filtered.len() <= i32::MAX,
        down.is_ctrl('d'),
        up.is_ctrl('u'),
    ensures
        state.after_key(down).0.selected == (if state.selected + state.list_height / 2
            < state.filtered.len() {
            state.selected + state.list_height / 2
        } else {
            state.filtered.len() - 1
        }),
        state.after_key(up).0.selected == (if state.selected >= state.list_height / 2 {
            state.selected - state.list_height / 2
        } else {
            0
        }),
{
}

/// Places that grow and stay below a bound are no more than the bound.
proof fn lemma_distinct_places(places: Seq<usize>, bound: nat)
    requires
        forall|j: int| 0 <= j < places.len() ==> #[trigger] places[j] < bound,
        forall|j: int, k: int| 0 <= j < k < places.len() ==> places[j] < places[k],
    ensures
        places.len() <= bound,
    decreases places.len(),
{
    if places.len() > 0 {
        let last = places.last();
        let rest = places.drop_last();
        assert forall|j: int| 0 <= j < rest.len() implies #[trigger] rest[j] < last by {
            assert(places[j] < places[places.len() - 1]);
        }
        lemma_distinct_places(rest, last as nat);
    }
}

/// Enter plays the result that is selected.
pub proof fn law_enter_plays_the_selection(state: AppView, key: KeyEvent)
    requires
        state.screen is Results,
        consistent(state),
        key.code == KeyCode::Enter,
    ensures
        state.filtered.len() > 0 ==> state.after_key(key) == (
            state.settled(),
            ActionView::Play(state.results[state.filtered[state.selected as int] as int]),
        ),
        state.filtered.len() == 0 ==> state.after_key(key) == (
            state.settled(),
            ActionView::Nothing,
        ),
{
}

// ---------------------------------------------------------------------------
// Searching.
// ---------------------------------------------------------------------------

/// What is searched for is the input of the prompt, without the white space around it; and it is
/// remembered.
pub proof fn law_a_search_is_for_the_input(state: AppView, key: KeyEvent, query: Seq<char>)
    requires
        state.after_key(key).1 == ActionView::StartSearch(query),
    ensures
        state.screen is Prompt,
        key.code == KeyCode::Enter,
        query == text::trimmed(state.input),
        query.len() > 0,
        !text::is_white(query.first()),
        !text::is_white(query.last()),
        state.after_key(key).0.committed_query == Some(query),
        state.after_key(key).0.screen is Searching,
{
    lemma_trimmed_ends(state.input);
}

/// An input of white space alone is not searched for.
pub proof fn law_white_space_is_not_searched_for(state: AppView, key: KeyEvent)
    requires
        state.screen is Prompt,
        key.code == KeyCode::Enter,
        forall|i: int| 0 <= i < state.input.len() ==> text::is_white(#[trigger] state.input[i]),
    ensures
        state.after_key(key) == (state.settled(), ActionView::Nothing),
{
    lemma_white_is_trimmed_away(state.input);
}

proof fn lemma_white_is_trimmed_away(s: Seq<char>)
    requires
        forall|i: int| 0 <= i < s.len() ==> text::is_white(#[trigger] s[i]),
    ensures
        text::trimmed(s).len() == 0,
    decreases s.len(),
{
    if s.len() > 0 {
        assert forall|i: int| 0 <= i < s.drop_first().len() implies text::is_white(
            #[trigger] s.drop_first()[i],
        ) by {
            assert(text::is_white(s[i + 1]));
        }
        lemma_white_is_trimmed_away(s.drop_first());
    }
}

proof fn lemma_trim_front_first(s: Seq<char>)
    ensures
        text::trim_front(s).len() > 0 ==> !text::is_white(text::trim_front(s).first()),
    decreases s.len(),
{
    if s.len() > 0 && text::is_white(s[0]) {
        lemma_trim_front_first(s.drop_first());
    }
}

proof fn lemma_trim_back_ends(s: Seq<char>)
    ensures
        text::trim_back(s).len() > 0 ==> !text::is_white(text::trim_back(s).last())
            && text::trim_back(s).first() == s.first(),
    decreases s.len(),
{
    if s.len() > 0 && text::is_white(s.last()) {
        lemma_trim_back_ends(s.drop_last());
    }
}

proof fn lemma_trimmed_ends(s: Seq<char>)
    ensures
        text::trimmed(s).len() > 0 ==> !text::is_white(text::trimmed(s).first())
            && !text::is_white(text::trimmed(s).last()),
{
    lemma_trim_front_first(s);
    lemma_trim_back_ends(text::trim_front(s));
    if text::trimmed(s).len() > 0 {
        assert(text::trim_front(s).len() > 0);
    }
}

/// Esc and Ctrl-c on a search give it up and lead back to the prompt, with the query in it.
pub proof fn law_giving_up_leads_back_to_the_prompt(state: AppView, key: KeyEvent, query: Seq<char>)
    requires
        state.screen is Searching,
        state.committed_query == Some(query),
        key.code == KeyCode::Esc || key.is_ctrl('c'),
    ensures
        state.after_key(key) == (
            AppView { input: query, screen: Screen::Prompt, ..state.settled() },
            ActionView::CancelSearch,
        ),
{
}

/// Only a search that goes on can be given up, and only Esc and Ctrl-c give it up.
pub proof fn law_only_searches_are_given_up(state: AppView, key: KeyEvent)
    ensures
        state.after_key(key).1 is CancelSearch ==> state.screen is Searching && (key.code
            == KeyCode::Esc || key.is_ctrl('c')),
{
}

/// `r` on the results asks again for what was asked, if anything was.
pub proof fn law_r_asks_again(state: AppView, key: KeyEvent)
    requires
        state.screen is Results,
        key.is_bare('r'),
    ensures
        state.committed_query is Some ==> state.after_key(key) == (
            state.settled().on(Screen::Searching),
            ActionView::Rerun,
        ),
        state.committed_query is None ==> state.after_key(key) == (
            state.settled(),
            ActionView::Nothing,
        ),
{
}

/// Results that come back are all shown, the first of them selected, with nothing in the input.
pub proof fn law_results_are_all_shown(state: AppView, results: Seq<SearchResult>)
    requires
        results.len() <= usize::MAX,
    ensures
        ({
            let after = state.with_results(results);
            &&& after.screen is Results
            &&& after.results == results
            &&& after.input.len() == 0
            &&& after.filtered == Seq::new(results.len(), |i: int| i as usize)
            &&& after.selected == 0
        }),
{
    law_an_empty_filter_shows_all(results);
}

/// A search that fails where there are results leaves them as they are, and what is shown of
/// them, and the selection.
pub proof fn law_a_failed_rerun_keeps_the_results(state: AppView, error: LastError)
    requires
        state.results.len() > 0,
    ensures
        state.with_search_error(error) == (AppView {
            last_error: Some(error),
            screen: Screen::Results,
            ..state
        }),
{
}

/// A search that fails where there are no results leads back to the prompt, with the query in it.
pub proof fn law_a_failed_first_search_leads_back_to_the_prompt(
    state: AppView,
    error: LastError,
    query: Seq<char>,
)
    requires
        state.results.len() == 0,
        state.committed_query == Some(query),
    ensures
        state.with_search_error(error) == (AppView {
            last_error: Some(error),
            screen: Screen::Prompt,
            input: query,
            ..state
        }),
{
}

// ---------------------------------------------------------------------------
// Every key.
// ---------------------------------------------------------------------------

/// Any key takes the error out of the status bar.
pub proof fn law_any_key_takes_the_error_away(state: AppView, key: KeyEvent)
    ensures
        state.after_key(key).0.last_error is None,
{
}

/// No key changes the results or the height of the list; and only a search changes what was asked.
pub proof fn law_keys_leave_the_results(state: AppView, key: KeyEvent)
    ensures
        state.after_key(key).0.results == state.results,
        state.after_key(key).0.list_height == state.list_height,
        !(state.after_key(key).1 is StartSearch) ==> state.after_key(key).0.committed_query
            == state.committed_query,
{
}

/// The help opens over the results, and any key but those that quit closes it again, with the
/// results as they were.
pub proof fn law_the_help_comes_and_goes(state: AppView, open: KeyEvent, close: KeyEvent)
    requires
        state.screen is Results,
        open.is_char('?'),
        !close.is_bare('q'),
        !close.is_ctrl('c'),
    ensures
        state.after_key(open).0.screen is Help,
        state.after_key(open).0.after_key(close) == (
            AppView { help_return: None, ..state.settled() },
            ActionView::Nothing,
        ),
{
}

/// `n` leads from the results to an empty prompt.
pub proof fn law_n_starts_anew(state: AppView, key: KeyEvent)
    requires
        state.screen is Results,
        key.is_bare('n'),
    ensures
        state.after_key(key) == (
            AppView { screen: Screen::Prompt, input: Seq::empty(), ..state.settled() },
            ActionView::Nothing,
        ),
{
}

/// Which keys quit: Esc and Ctrl-c on the prompt, these and `q` on the results, `q` and Ctrl-c on
/// the help; none on a search or on the filter. Quitting changes nothing but the error.
pub proof fn law_which_keys_quit(state: AppView, key: KeyEvent)
    ensures
        state.after_key(key).1 is Quit <==> match state.screen {
            Screen::Prompt => key.code == KeyCode::Esc || key.is_ctrl('c'),
            Screen::Results => key.is_bare('q') || key.code == KeyCode::Esc || key.is_ctrl('c'),
            Screen::Help => key.is_bare('q') || key.is_ctrl('c'),
            Screen::Searching => false,
            Screen::Filter => false,
        },
        state.after_key(key).1 is Quit ==> state.after_key(key).0 == state.settled(),
{
}

} // verus!
