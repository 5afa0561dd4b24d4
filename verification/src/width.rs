//! How wide text is on the screen, and how it is cut to fit.

use vstd::prelude::*;
use vstd::string::*;

verus! {

broadcast use vstd::seq::group_seq_axioms;

/// How many columns a text takes up, as `unicode-width` measures it.
pub uninterp spec fn display_width(s: Seq<char>) -> usize;

/// How many columns a character takes up, as `unicode-width` measures it; none is known for a
/// control character.
pub uninterp spec fn char_width(c: char) -> Option<usize>;

/// The characters of plain English text, with the ellipsis among them.
pub open spec fn is_plain(c: char) -> bool {
    ' ' <= c <= '~' || c == '…'
}

/// Whether a text has no other characters than those of plain English text.
pub open spec fn all_plain(s: Seq<char>) -> bool {
    forall|i: int| 0 <= i < s.len() ==> is_plain(#[trigger] s[i])
}

/// Calls `unicode_width::UnicodeWidthStr::width`. Plain characters take up one column each, and an
/// ellipsis at the end of any text takes up one more than the text before it.
#[verifier::external_body]
pub(crate) fn text_columns(s: &str) -> (r: usize)
    ensures
        r == display_width(s@),
        all_plain(s@) ==> r == s@.len(),
        s@.len() > 0 && s@.last() == '…' ==> r == display_width(s@.drop_last()) + 1,
{
    unicode_width::UnicodeWidthStr::width(s)
}

/// Calls `unicode_width::UnicodeWidthChar::width`. A plain character takes up one column.
#[verifier::external_body]
pub(crate) fn char_columns(c: char) -> (r: Option<usize>)
    ensures
        r == char_width(c),
        is_plain(c) ==> r == Some(1usize),
{
    unicode_width::UnicodeWidthChar::width(c)
}

/// How many columns a character takes up where one is known, and else none.
pub open spec fn columns(c: char) -> nat {
    match char_width(c) {
        Some(n) => n as nat,
        None => 0,
    }
}

/// How many columns characters take up one by one.
pub open spec fn total_columns(s: Seq<char>) -> nat
    decreases s.len(),
{
    if s.len() == 0 {
        0
    } else {
        total_columns(s.drop_last()) + columns(s.last())
    }
}

/// How many of the first characters fit into `max` columns.
pub open spec fn fitting(s: Seq<char>, max: nat) -> nat
    decreases s.len(),
{
    if s.len() == 0 {
        0
    } else {
        let before = fitting(s.drop_last(), max);
        if before == s.len() - 1 && total_columns(s) <= max {
            s.len()
        } else {
            before
        }
    }
}

/// The first characters that fit into `max` columns.
pub open spec fn prefix_within(s: Seq<char>, max: nat) -> Seq<char> {
    s.take(fitting(s, max) as int)
}

proof fn lemma_fitting(s: Seq<char>, n: int, max: nat)
    requires
        0 <= n <= s.len(),
    ensures
        fitting(s.take(n), max) <= n,
        fitting(s, max) <= s.len(),
        fitting(s, max) < n ==> fitting(s.take(n), max) == fitting(s, max),
        fitting(s, max) >= n ==> fitting(s.take(n), max) == n,
    decreases s.len(),
{
    if n == s.len() {
        assert(s.take(n) =~= s);
        if n > 0 {
            lemma_fitting(s.drop_last(), n - 1, max);
        }
    } else {
        assert(s.drop_last().take(n) =~= s.take(n));
        lemma_fitting(s.drop_last(), n, max);
    }
}

/// The first `max` characters, or all where there are no more.
pub open spec fn first_chars(s: Seq<char>, max: nat) -> Seq<char> {
    if s.len() <= max {
        s
    } else {
        s.take(max as int)
    }
}

/// The first characters that fit into `max_cols` columns. Of a plain text these are as many
/// characters as there are columns.
pub fn greedy_prefix(s: &str, max_cols: usize) -> (r: String)
    ensures
        r@ == prefix_within(s@, max_cols as nat),
        all_plain(s@) ==> r@ == first_chars(s@, max_cols as nat),
{
    let mut out = String::new();
    let mut width: usize = 0;
    let count: usize = s.unicode_len();
    let mut i: usize = 0;
    assert(s@.take(0) =~= Seq::empty());
    while i < count
        invariant
            count == s@.len(),
            i <= count,
            out@ == s@.take(i as int),
            width == total_columns(s@.take(i as int)),
            width <= max_cols,
            fitting(s@.take(i as int), max_cols as nat) == i,
            all_plain(s@) ==> width == i,
        decreases count - i,
    {
        let ch = s.get_char(i);
        let columns: usize = match char_columns(ch) {
            Some(n) => n,
            None => 0,
        };
        proof {
            let next = s@.take(i + 1);
            assert(next.drop_last() =~= s@.take(i as int));
            assert(next.last() == ch);
            lemma_fitting(s@, i + 1, max_cols as nat);
        }
        if columns > max_cols - width {
            assert(out@ =~= prefix_within(s@, max_cols as nat));
            return out;
        }
        out.push(ch);
        width += columns;
        i += 1;
        assert(out@ =~= s@.take(i as int));
    }
    assert(s@.take(i as int) =~= s@);
    out
}

/// The longest beginning of a text that takes up at most `max` columns, found by taking characters
/// away at the end; nothing where there is none.
pub open spec fn shortened(s: Seq<char>, max: nat) -> Seq<char>
    decreases s.len(),
{
    if s.len() == 0 || display_width(s) <= max {
        s
    } else {
        shortened(s.drop_last(), max)
    }
}

/// The first characters that fit into `max` columns one by one, and of these as many as fit
/// together: a sequence that is shown as one emoji can be wider than its characters.
pub open spec fn beginning(s: Seq<char>, max: nat) -> Seq<char> {
    shortened(prefix_within(s, max), max)
}

/// `s` as it is shown in `max` columns: whole where it fits, and else cut, with an ellipsis that
/// says so. Where the ellipsis would leave room for nothing else, what fits is shown without it,
/// and in no columns nothing is shown.
pub open spec fn truncated(s: Seq<char>, max: nat) -> Seq<char> {
    if max == 0 {
        Seq::empty()
    } else if display_width(s) <= max {
        s
    } else {
        let before_ellipsis = beginning(s, (max - 1) as nat);
        if before_ellipsis.len() == 0 && beginning(s, max).len() > 0 {
            beginning(s, max)
        } else {
            before_ellipsis.push('…')
        }
    }
}

/// A plain text as it is shown in `max` columns.
pub open spec fn truncated_plain(s: Seq<char>, max: nat) -> Seq<char> {
    if s.len() <= max || max <= 1 {
        first_chars(s, max)
    } else {
        s.take(max - 1).push('…')
    }
}

/// The longest beginning of a text that takes up at most `max_cols` columns. It does take up no
/// more.
fn shorten(s: String, max_cols: usize) -> (r: String)
    ensures
        r@ == shortened(s@, max_cols as nat),
        display_width(r@) <= max_cols,
        all_plain(s@) && s@.len() <= max_cols ==> r@ == s@,
{
    let mut out = s;
    let mut columns: usize = text_columns(out.as_str());
    while columns > max_cols
        invariant
            columns == display_width(out@),
            shortened(s@, max_cols as nat) == shortened(out@, max_cols as nat),
            out@.len() == 0 ==> columns == 0,
            all_plain(s@) && s@.len() <= max_cols ==> out@ == s@ && columns <= max_cols,
        decreases out@.len(),
    {
        let _ = out.pop();
        columns = text_columns(out.as_str());
    }
    out
}

/// `s` as it is shown in `max_cols` columns, and how many columns that takes up: no more than there
/// are. So cutting what was cut, to as many columns or to more, changes nothing.
pub fn cut_to_width(s: &str, max_cols: u16) -> (r: (String, usize))
    ensures
        r.0@ == truncated(s@, max_cols as nat),
        r.1 == display_width(r.0@),
        r.1 <= max_cols,
        forall|more: nat| more >= max_cols ==> #[trigger] truncated(r.0@, more) == r.0@,
        all_plain(s@) ==> r.0@ == truncated_plain(s@, max_cols as nat),
        all_plain(s@) ==> r.1 == r.0@.len(),
{
    let max: usize = max_cols as usize;
    let all: usize = text_columns(s);
    let shown = if max == 0 {
        String::new()
    } else if all <= max {
        s.to_owned()
    } else {
        let mut before_ellipsis = shorten(greedy_prefix(s, max - 1), max - 1);
        let whole = shorten(greedy_prefix(s, max), max);
        if before_ellipsis.as_str().is_empty() && !whole.as_str().is_empty() {
            whole
        } else {
            before_ellipsis.push('…');
            assert(before_ellipsis@.drop_last() =~= beginning(s@, (max - 1) as nat));
            before_ellipsis
        }
    };
    let columns: usize = text_columns(shown.as_str());
    proof {
        assert(shown@ =~= truncated(s@, max as nat));
        assert forall|more: nat| more >= max_cols implies #[trigger] truncated(shown@, more)
            == shown@ by {
            assert(truncated(shown@, more) =~= shown@);
        }
    }
    (shown, columns)
}

/// `s` as it is shown in `max_cols` columns. It then takes up no more columns than there are, and
/// cutting it again, to as many columns or to more, changes nothing.
pub fn truncate_to_width(s: &str, max_cols: u16) -> (r: String)
    ensures
        r@ == truncated(s@, max_cols as nat),
        display_width(r@) <= max_cols,
        forall|more: nat| more >= max_cols ==> #[trigger] truncated(r@, more) == r@,
        all_plain(s@) ==> r@ == truncated_plain(s@, max_cols as nat),
{
    cut_to_width(s, max_cols).0
}

// ---------------------------------------------------------------------------
// What holds of every text that is cut.
// ---------------------------------------------------------------------------

/// What fits is a beginning of the text, it takes up no more columns than there are, and one
/// more character would take up too many.
pub proof fn law_the_longest_prefix_that_fits(s: Seq<char>, max: nat)
    ensures
        fitting(s, max) <= s.len(),
        prefix_within(s, max) == s.take(fitting(s, max) as int),
        total_columns(prefix_within(s, max)) <= max,
        fitting(s, max) < s.len() ==> total_columns(s.take(fitting(s, max) as int + 1)) > max,
    decreases s.len(),
{
    assert(s.take(s.len() as int) =~= s);
    if s.len() > 0 {
        let rest = s.drop_last();
        law_the_longest_prefix_that_fits(rest, max);
        if fitting(s, max) < s.len() {
            let n = fitting(s, max) as int;
            assert(rest.take(n) =~= s.take(n));
            if n + 1 <= rest.len() {
                assert(rest.take(n + 1) =~= s.take(n + 1));
            } else {
                assert(s.take(n + 1) =~= s);
            }
        }
    } else {
        assert(prefix_within(s, max) =~= Seq::empty());
    }
}

/// What is left of a text that is shortened is a beginning of it, the longest that fits.
pub proof fn law_shortening_keeps_the_longest_beginning(s: Seq<char>, max: nat)
    ensures
        shortened(s, max).len() <= s.len(),
        shortened(s, max) == s.take(shortened(s, max).len() as int),
        shortened(s, max).len() > 0 ==> display_width(shortened(s, max)) <= max,
        forall|n: int|
            shortened(s, max).len() < n <= s.len() ==> display_width(#[trigger] s.take(n)) > max,
    decreases s.len(),
{
    assert(s.take(s.len() as int) =~= s);
    if s.len() > 0 && display_width(s) > max {
        let rest = s.drop_last();
        law_shortening_keeps_the_longest_beginning(rest, max);
        let kept = shortened(s, max).len() as int;
        assert(rest.take(kept) =~= s.take(kept));
        assert forall|n: int| kept < n <= s.len() implies display_width(#[trigger] s.take(n))
            > max by {
            if n < s.len() {
                assert(rest.take(n) =~= s.take(n));
            }
        }
    }
}

/// A text that fits into some columns is shown whole; one that does not is shown as a beginning of
/// it, alone or with an ellipsis.
pub proof fn law_cutting_keeps_a_beginning(s: Seq<char>, max: nat)
    ensures
        display_width(s) <= max && max > 0 ==> truncated(s, max) == s,
        display_width(s) > max ==> exists|n: int|
            0 <= n <= s.len() && {
                ||| #[trigger] s.take(n) == truncated(s, max)
                ||| s.take(n).push('…') == truncated(s, max)
            },
{
    if display_width(s) > max {
        if max == 0 {
            assert(s.take(0) =~= truncated(s, max));
        } else {
            lemma_a_beginning(s, max);
            lemma_a_beginning(s, (max - 1) as nat);
            let n = beginning(s, (max - 1) as nat).len() as int;
            let m = beginning(s, max).len() as int;
            assert(s.take(n).len() == n && s.take(m).len() == m);
        }
    }
}

proof fn lemma_a_beginning(s: Seq<char>, max: nat)
    ensures
        beginning(s, max).len() <= s.len(),
        beginning(s, max) == s.take(beginning(s, max).len() as int),
{
    law_the_longest_prefix_that_fits(s, max);
    law_shortening_keeps_the_longest_beginning(prefix_within(s, max), max);
    assert(beginning(s, max) =~= s.take(beginning(s, max).len() as int));
}

/// Nothing is shown where there are no columns.
pub proof fn law_no_columns_show_nothing(s: Seq<char>)
    ensures
        truncated(s, 0) == Seq::<char>::empty(),
{
}

/// Characters take up as many columns together as one after another, one of them as many as are
/// known for it, and one of which none are known takes up none.
pub proof fn law_columns_add_up(first: Seq<char>, second: Seq<char>, c: char)
    ensures
        total_columns(Seq::empty()) == 0,
        total_columns(seq![c]) == match char_width(c) {
            Some(n) => n as nat,
            None => 0,
        },
        total_columns(first + second) == total_columns(first) + total_columns(second),
    decreases second.len(),
{
    assert(seq![c].drop_last() =~= Seq::empty());
    reveal_with_fuel(total_columns, 2);
    if second.len() == 0 {
        assert(first + second =~= first);
    } else {
        assert((first + second).drop_last() =~= first + second.drop_last());
        assert((first + second).last() == second.last());
        law_columns_add_up(first, second.drop_last(), c);
    }
}

/// Whether characters fit into `max` columns, both one after another and together.
pub open spec fn goes_into(s: Seq<char>, max: nat) -> bool {
    total_columns(s) <= max && display_width(s) <= max
}

/// Whether the first `n` characters are the longest beginning that fits into `max` columns; with
/// none where no beginning fits.
pub open spec fn longest_that_fits(s: Seq<char>, n: int, max: nat) -> bool {
    &&& 0 <= n <= s.len()
    &&& n > 0 ==> goes_into(s.take(n), max)
    &&& forall|k: int| n < k <= s.len() ==> !goes_into(#[trigger] s.take(k), max)
}

proof fn lemma_wider(s: Seq<char>, n: int, k: int)
    requires
        0 <= n <= k <= s.len(),
    ensures
        total_columns(s.take(n)) <= total_columns(s.take(k)),
{
    law_columns_add_up(s.take(n), s.subrange(n, k), ' ');
    assert(s.take(n) + s.subrange(n, k) =~= s.take(k));
}

proof fn lemma_the_beginning_is_the_longest(s: Seq<char>, n: int, max: nat)
    requires
        longest_that_fits(s, n, max),
    ensures
        beginning(s, max) == s.take(n),
{
    law_the_longest_prefix_that_fits(s, max);
    let whole = prefix_within(s, max);
    law_shortening_keeps_the_longest_beginning(whole, max);
    lemma_a_beginning(s, max);
    let b = beginning(s, max).len() as int;
    let f = fitting(s, max) as int;
    if b > n {
        lemma_wider(s, b, f);
        assert(goes_into(s.take(b), max));
    }
    if b < n {
        if n > f {
            lemma_wider(s, f + 1, n);
        } else {
            assert(whole.take(n) =~= s.take(n));
        }
    }
}

/// A text that is too wide is shown as far as it fits before an ellipsis, and no less; where not
/// even one character fits before an ellipsis, as far as it fits without one; and where no character
/// fits at all, as an ellipsis alone.
pub proof fn law_a_cut_text_shows_as_much_as_fits(s: Seq<char>, max: nat, n: int, m: int)
    requires
        max > 0,
        display_width(s) > max,
        longest_that_fits(s, n, (max - 1) as nat),
        longest_that_fits(s, m, max),
    ensures
        truncated(s, max) == if n > 0 {
            s.take(n) + seq!['…']
        } else if m > 0 {
            s.take(m)
        } else {
            seq!['…']
        },
{
    lemma_the_beginning_is_the_longest(s, n, (max - 1) as nat);
    lemma_the_beginning_is_the_longest(s, m, max);
    assert(truncated(s, max) =~= if n > 0 {
        s.take(n) + seq!['…']
    } else if m > 0 {
        s.take(m)
    } else {
        seq!['…']
    });
}

/// There always is a longest beginning that fits.
pub proof fn law_there_is_a_longest_that_fits(s: Seq<char>, max: nat) -> (n: int)
    ensures
        longest_that_fits(s, n, max),
{
    law_the_longest_prefix_that_fits(s, max);
    let whole = prefix_within(s, max);
    law_shortening_keeps_the_longest_beginning(whole, max);
    lemma_a_beginning(s, max);
    let b = beginning(s, max).len() as int;
    let f = fitting(s, max) as int;
    if b > 0 {
        lemma_wider(s, b, f);
    }
    assert forall|k: int| b < k <= s.len() implies !goes_into(#[trigger] s.take(k), max) by {
        if k > f {
            lemma_wider(s, f + 1, k);
        } else {
            assert(whole.take(k) =~= s.take(k));
        }
    }
    b
}

/// The first characters that fit one after another are a beginning of the text, they fit, and one
/// more would not.
pub proof fn law_a_greedy_prefix_takes_all_that_fit(s: &str, max_cols: usize, r: String)
    requires
        call_ensures(greedy_prefix, (s, max_cols), r),
    ensures
        r@.len() <= s@.len(),
        r@ == s@.take(r@.len() as int),
        total_columns(r@) <= max_cols,
        r@.len() < s@.len() ==> total_columns(s@.take(r@.len() as int + 1)) > max_cols,
{
    law_the_longest_prefix_that_fits(s@, max_cols as nat);
}

/// A plain text that is cut keeps as many of its characters as there are columns, or one less
/// before an ellipsis; and one that is no longer than the columns stays as it is.
pub proof fn law_a_plain_text_fills_its_columns(s: &str, max_cols: u16, r: String)
    requires
        call_ensures(truncate_to_width, (s, max_cols), r),
        forall|i: int| 0 <= i < s@.len() ==> ' ' <= #[trigger] s@[i] <= '~',
    ensures
        s@.len() <= max_cols ==> r@ == s@,
        s@.len() > max_cols ==> r@.len() == max_cols,
        s@.len() > max_cols && max_cols >= 2 ==> r@ == s@.take(max_cols - 1) + seq!['…'],
        s@.len() > max_cols && max_cols == 1 ==> r@ == s@.take(1),
{
    assert(all_plain(s@));
    if s@.len() > max_cols && max_cols >= 2 {
        assert(r@ =~= s@.take(max_cols - 1) + seq!['…']);
    }
}

} // verus!
