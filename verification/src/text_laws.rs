//! What holds of every number and every text that is written out.

use crate::text;
use vstd::prelude::*;

verus! {

broadcast use vstd::seq::group_seq_axioms;

// ---------------------------------------------------------------------------
// Numbers.
// ---------------------------------------------------------------------------

/// Whether a character is one of `0` to `9`.
pub open spec fn is_digit(c: char) -> bool {
    '0' <= c <= '9'
}

/// Whether a text is made of digits alone.
pub open spec fn all_digits(s: Seq<char>) -> bool {
    forall|i: int| 0 <= i < s.len() ==> is_digit(#[trigger] s[i])
}

/// The number that a text of digits is read as: every digit counts ten times as much as the one
/// after it.
pub open spec fn number(s: Seq<char>) -> nat
    decreases s.len(),
{
    if s.len() == 0 {
        0
    } else {
        (10 * number(s.drop_last()) + (s.last() as int - '0' as int)) as nat
    }
}

/// A number that is written out is read back as itself, from digits alone, and has no zero in front
/// unless it is zero.
pub proof fn law_a_number_is_read_back(n: nat)
    ensures
        all_digits(text::decimal(n)),
        number(text::decimal(n)) == n,
        text::decimal(n).len() > 0,
        n > 0 ==> text::decimal(n)[0] != '0',
        n == 0 ==> text::decimal(n).len() == 1,
    decreases n,
{
    if n >= 10 {
        law_a_number_is_read_back(n / 10);
        let before = text::decimal(n / 10);
        assert(text::decimal(n).drop_last() =~= before);
        assert(text::decimal(n).last() as int - '0' as int == n % 10);
    } else {
        assert(text::decimal(n).drop_last() =~= Seq::empty());
        assert(text::decimal(n).last() as int - '0' as int == n);
        reveal_with_fuel(number, 2);
    }
}

/// Two numbers that are written alike are the same number.
pub proof fn law_numbers_are_told_apart(m: nat, n: nat)
    requires
        text::decimal(m) == text::decimal(n),
    ensures
        m == n,
{
    law_a_number_is_read_back(m);
    law_a_number_is_read_back(n);
}

/// A number is written with as many digits as it has: a number below a power of ten with no more
/// digits than the power has zeros.
pub proof fn law_a_number_is_no_longer_than_it_has_to_be(n: nat)
    ensures
        n < 10 <==> text::decimal(n).len() == 1,
        10 <= n < 100 <==> text::decimal(n).len() == 2,
        n >= 10 ==> text::decimal(n).len() == text::decimal(n / 10).len() + 1,
    decreases n,
{
    if n >= 10 {
        law_a_number_is_no_longer_than_it_has_to_be(n / 10);
        law_a_number_is_read_back(n / 10);
    }
}

/// A number below a hundred in two digits is read back as itself, from two digits.
pub proof fn law_two_digits_are_read_back(n: nat)
    requires
        n < 100,
    ensures
        text::two_digits(n).len() == 2,
        all_digits(text::two_digits(n)),
        number(text::two_digits(n)) == n,
{
    let s = text::two_digits(n);
    assert(s.drop_last() =~= seq![s[0]]);
    assert(s.drop_last().drop_last() =~= Seq::empty());
    reveal_with_fuel(number, 3);
    assert(s[0] as int - '0' as int == n / 10);
    assert(s[1] as int - '0' as int == n % 10);
}

/// A number with a sign is read back as itself: it starts with a minus exactly if it is below zero,
/// and the rest are the digits of its magnitude.
pub proof fn law_a_signed_number_is_read_back(n: int)
    ensures
        n >= 0 ==> all_digits(text::signed_decimal(n)) && number(text::signed_decimal(n)) == n,
        n < 0 ==> text::signed_decimal(n)[0] == '-' && all_digits(
            text::signed_decimal(n).skip(1),
        ) && number(text::signed_decimal(n).skip(1)) == -n,
{
    if n >= 0 {
        law_a_number_is_read_back(n as nat);
    } else {
        law_a_number_is_read_back((-n) as nat);
        assert(text::signed_decimal(n).skip(1) =~= text::decimal((-n) as nat));
    }
}

// ---------------------------------------------------------------------------
// White space.
// ---------------------------------------------------------------------------

/// Whether a text is made of white space alone.
pub open spec fn all_white(s: Seq<char>) -> bool {
    forall|i: int| 0 <= i < s.len() ==> text::is_white(#[trigger] s[i])
}

/// Whether a text has something in it and neither starts nor ends with white space.
pub open spec fn is_bounded(s: Seq<char>) -> bool {
    s.len() > 0 && !text::is_white(s[0]) && !text::is_white(s[s.len() - 1])
}

/// Whatever white space stands around a text, trimming gives back the text.
pub proof fn law_trimming_takes_the_white_space_away(
    front: Seq<char>,
    middle: Seq<char>,
    back: Seq<char>,
)
    requires
        all_white(front),
        all_white(back),
        is_bounded(middle),
    ensures
        text::trimmed(front + middle + back) == middle,
{
    lemma_front(front, middle + back);
    assert(front + middle + back =~= front + (middle + back));
    assert((middle + back)[0] == middle[0]);
    assert(text::trim_front(middle + back) == middle + back);
    lemma_back(middle, back);
}

proof fn lemma_front(front: Seq<char>, rest: Seq<char>)
    requires
        all_white(front),
    ensures
        text::trim_front(front + rest) == text::trim_front(rest),
    decreases front.len(),
{
    if front.len() > 0 {
        let less = front.drop_first();
        assert forall|i: int| 0 <= i < less.len() implies text::is_white(#[trigger] less[i]) by {
            assert(text::is_white(front[i + 1]));
        }
        lemma_front(less, rest);
        assert((front + rest)[0] == front[0]);
        assert(text::is_white(front[0]));
        assert((front + rest).drop_first() =~= less + rest);
    } else {
        assert(front + rest =~= rest);
    }
}

proof fn lemma_back(middle: Seq<char>, back: Seq<char>)
    requires
        all_white(back),
        is_bounded(middle),
    ensures
        text::trim_back(middle + back) == middle,
    decreases back.len(),
{
    if back.len() > 0 {
        let less = back.drop_last();
        assert forall|i: int| 0 <= i < less.len() implies text::is_white(#[trigger] less[i]) by {
            assert(text::is_white(back[i]));
        }
        lemma_back(middle, less);
        assert((middle + back).last() == back[back.len() - 1]);
        assert(text::is_white(back[back.len() - 1]));
        assert((middle + back).drop_last() =~= middle + less);
    } else {
        assert(middle + back =~= middle);
        assert(middle.last() == middle[middle.len() - 1]);
    }
}

/// Nothing is left of white space alone.
pub proof fn law_white_space_is_trimmed_away(s: Seq<char>)
    requires
        all_white(s),
    ensures
        text::trimmed(s).len() == 0,
{
    lemma_front(s, Seq::empty());
    assert(s + Seq::<char>::empty() =~= s);
}

/// Every text is white space alone, or one that starts and ends with something else, with white
/// space around it: nothing more is to be said of what is trimmed.
pub proof fn law_a_text_is_white_or_has_a_middle(s: Seq<char>) -> (parts: (
    Seq<char>,
    Seq<char>,
    Seq<char>,
))
    ensures
        all_white(s) || s == parts.0 + parts.1 + parts.2 && all_white(parts.0) && is_bounded(
            parts.1,
        ) && all_white(parts.2),
    decreases s.len(),
{
    if s.len() == 0 {
        (s, s, s)
    } else if text::is_white(s[0]) {
        let (front, middle, back) = law_a_text_is_white_or_has_a_middle(s.drop_first());
        let longer = seq![s[0]] + front;
        if all_white(s.drop_first()) {
            assert forall|i: int| 0 <= i < s.len() implies text::is_white(#[trigger] s[i]) by {
                if i > 0 {
                    assert(text::is_white(s.drop_first()[i - 1]));
                }
            }
        } else {
            assert(s =~= longer + middle + back) by {
                assert(s =~= seq![s[0]] + s.drop_first());
            }
            assert forall|i: int| 0 <= i < longer.len() implies text::is_white(
                #[trigger] longer[i],
            ) by {
                if i > 0 {
                    assert(text::is_white(front[i - 1]));
                }
            }
        }
        (longer, middle, back)
    } else if text::is_white(s.last()) {
        let (front, middle, back) = law_a_text_is_white_or_has_a_middle(s.drop_last());
        let longer = back.push(s.last());
        assert(!all_white(s.drop_last())) by {
            assert(s.drop_last()[0] == s[0]);
        }
        assert(s =~= front + middle + longer) by {
            assert(s =~= s.drop_last().push(s.last()));
        }
        assert forall|i: int| 0 <= i < longer.len() implies text::is_white(#[trigger] longer[i]) by {
            if i < back.len() {
                assert(text::is_white(back[i]));
            }
        }
        (front, middle, longer)
    } else {
        assert(s =~= Seq::<char>::empty() + s + Seq::<char>::empty());
        (Seq::empty(), s, Seq::empty())
    }
}

// ---------------------------------------------------------------------------
// Padding and joining.
// ---------------------------------------------------------------------------

/// Padding keeps the text as it is, adds nothing but spaces after it, and adds as few of them as
/// make the text long enough.
pub proof fn law_padding_adds_spaces_alone(s: Seq<char>, n: nat)
    ensures
        text::padded(s, n).len() == (if s.len() < n {
            n
        } else {
            s.len()
        }),
        text::padded(s, n).take(s.len() as int) == s,
        forall|i: int| s.len() <= i < text::padded(s, n).len() ==> #[trigger] text::padded(s, n)[i]
            == ' ',
{
    assert(text::padded(s, n).take(s.len() as int) =~= s);
}

/// A run of spaces is as long as it is to be, and has nothing else in it.
pub proof fn law_a_run_of_spaces(n: nat)
    ensures
        text::spaces(n).len() == n,
        forall|i: int| 0 <= i < n ==> #[trigger] text::spaces(n)[i] == ' ',
{
}

/// Texts that are joined stand one after another as they are: a single one alone, and of two lists
/// that are joined together first all of the one, then the separator, then all of the other.
pub proof fn law_joining_keeps_every_part(
    first: Seq<Seq<char>>,
    second: Seq<Seq<char>>,
    part: Seq<char>,
    separator: Seq<char>,
)
    requires
        first.len() > 0,
        second.len() > 0,
    ensures
        text::joined(seq![part], separator) == part,
        text::joined(first + second, separator) == text::joined(first, separator) + separator
            + text::joined(second, separator),
        text::joined(Seq::empty(), separator).len() == 0,
    decreases second.len(),
{
    let all = first + second;
    assert(all.drop_last() =~= first + second.drop_last());
    assert(all.last() == second.last());
    if second.len() == 1 {
        assert(all.drop_last() =~= first);
        assert(text::joined(all, separator) =~= text::joined(first, separator) + separator
            + text::joined(second, separator));
    } else {
        law_joining_keeps_every_part(first, second.drop_last(), part, separator);
        assert(text::joined(all, separator) =~= text::joined(first, separator) + separator
            + text::joined(second, separator));
    }
}

} // verus!
