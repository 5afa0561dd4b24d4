//! What holds of every answer of `yt-dlp`.

use crate::double;
use crate::json;
use crate::json::Json;
use crate::search;
use crate::search::{EntryView, ResultView, SearchError, SearchResult, SortOrder, VideoDuration};
use crate::text;
use crate::text_laws;
use vstd::prelude::*;

verus! {

broadcast use vstd::seq::group_seq_axioms;

/// Every result has an id and a title.
pub proof fn law_every_result_has_an_id_and_a_title(entries: Seq<EntryView>, i: int)
    requires
        0 <= i < search::results_of(entries).len(),
    ensures
        search::results_of(entries)[i].id.len() > 0,
        search::results_of(entries)[i].title.len() > 0,
    decreases entries.len(),
{
    let before = entries.drop_last();
    if i < search::results_of(before).len() {
        law_every_result_has_an_id_and_a_title(before, i);
    }
}

/// A malformed entry costs no other its result: what entries stand for together is what they
/// stand for in parts.
pub proof fn law_entries_stand_for_themselves(first: Seq<EntryView>, second: Seq<EntryView>)
    ensures
        search::results_of(first + second) == search::results_of(first) + search::results_of(second),
    decreases second.len(),
{
    if second.len() == 0 {
        assert(first + second =~= first);
        assert(search::results_of(first) + search::results_of(second) =~= search::results_of(first));
    } else {
        assert((first + second).drop_last() =~= first + second.drop_last());
        assert((first + second).last() == second.last());
        law_entries_stand_for_themselves(first, second.drop_last());
        assert(search::results_of(first + second) =~= search::results_of(first)
            + search::results_of(second));
    }
}

/// There are no more results than entries.
pub proof fn law_no_result_without_an_entry(entries: Seq<EntryView>)
    ensures
        search::results_of(entries).len() <= entries.len(),
    decreases entries.len(),
{
    if entries.len() > 0 {
        law_no_result_without_an_entry(entries.drop_last());
    }
}

/// The live status decides before the number of seconds does.
pub proof fn law_the_live_status_comes_first(entry: EntryView)
    ensures
        entry.live_status == Some("is_live"@) ==> search::duration_of(entry) == VideoDuration::Live,
        entry.live_status == Some("is_upcoming"@) ==> search::duration_of(entry)
            == VideoDuration::Upcoming,
        search::duration_of(entry) is Seconds ==> entry.duration is Some,
{
    reveal_strlit("is_live");
    reveal_strlit("is_upcoming");
    if entry.live_status == Some("is_upcoming"@) {
        assert("is_live"@.len() != "is_upcoming"@.len());
    }
}

/// The channel of a result is that of its entry, and the uploader where no channel is given.
pub proof fn law_the_uploader_stands_in_for_the_channel(entry: EntryView, result: ResultView)
    requires
        search::result_of(entry) == Some(result),
    ensures
        entry.channel is Some ==> result.channel == entry.channel,
        entry.channel is None ==> result.channel == entry.uploader,
{
}

/// What is searched for ends with the query, whatever the query holds: it is one argument, the
/// last.
pub proof fn law_the_query_is_asked_as_it_is(query: Seq<char>, count: u32, sort: SortOrder)
    ensures
        search::arguments_of(query, count, sort).last() == search::target_of(query, count, sort),
        search::target_of(query, count, sort).len() >= query.len(),
        search::target_of(query, count, sort).skip(
            search::target_of(query, count, sort).len() - query.len(),
        ) == query,
{
    let target = search::target_of(query, count, sort);
    assert(target.skip(target.len() - query.len()) =~= query);
}

// ---------------------------------------------------------------------------
// What is asked.
// ---------------------------------------------------------------------------

/// The name of an order ends where the digits begin.
proof fn lemma_the_names_of_the_orders()
    ensures
        "ytsearch"@ == seq!['y', 't', 's', 'e', 'a', 'r', 'c', 'h'],
        "ytsearchdate"@ == seq!['y', 't', 's', 'e', 'a', 'r', 'c', 'h', 'd', 'a', 't', 'e'],
{
    reveal_strlit("ytsearch");
    reveal_strlit("ytsearchdate");
}

/// What is searched is the name of the order, then digits that are read back as the count, then a
/// colon, then the query, for every count and every query.
pub proof fn law_as_many_results_are_asked_for_as_are_wanted(
    query: &str,
    count: u32,
    sort: SortOrder,
    target: String,
)
    requires
        call_ensures(search::search_target, (query, count, sort), target),
    ensures
        ({
            let name = if sort == SortOrder::Date {
                "ytsearchdate"@
            } else {
                "ytsearch"@
            };
            let colon = target@.len() - query@.len() - 1;
            &&& colon > name.len()
            &&& target@.take(name.len() as int) == name
            &&& text_laws::all_digits(target@.subrange(name.len() as int, colon))
            &&& text_laws::number(target@.subrange(name.len() as int, colon)) == count
            &&& target@[colon] == ':'
            &&& target@.skip(colon + 1) == query@
        }),
{
    lemma_the_names_of_the_orders();
    text_laws::law_a_number_is_read_back(count as nat);
    let digits = text::decimal(count as nat);
    let name = if sort == SortOrder::Date {
        "ytsearchdate"@
    } else {
        "ytsearch"@
    };
    let colon = target@.len() - query@.len() - 1;
    assert(target@.len() == name.len() + digits.len() + 1 + query@.len());
    assert(target@.take(name.len() as int) =~= name);
    assert(target@.subrange(name.len() as int, colon) =~= digits);
    assert(target@.skip(colon + 1) =~= query@);
}

/// Two searches for one query are asked for alike only if they want as many results in the same
/// order.
pub proof fn law_counts_and_orders_are_told_apart(
    query: Seq<char>,
    count: u32,
    sort: SortOrder,
    other_count: u32,
    other_sort: SortOrder,
)
    requires
        search::target_of(query, count, sort) == search::target_of(query, other_count, other_sort),
    ensures
        count == other_count,
        sort == other_sort,
{
    lemma_the_names_of_the_orders();
    text_laws::law_a_number_is_read_back(count as nat);
    text_laws::law_a_number_is_read_back(other_count as nat);
    let target = search::target_of(query, count, sort);
    let other = search::target_of(query, other_count, other_sort);
    let digits = text::decimal(count as nat);
    let others = text::decimal(other_count as nat);
    let start = search::prefix_of(sort).len() as int;
    let other_start = search::prefix_of(other_sort).len() as int;
    assert(target[8] == other[8]);
    if sort == SortOrder::Date {
        assert(target[8] == 'd');
    } else {
        assert(target[8] == digits[0]);
    }
    if other_sort == SortOrder::Date {
        assert(other[8] == 'd');
    } else {
        assert(other[8] == others[0]);
    }
    assert(text_laws::is_digit(digits[0]) && text_laws::is_digit(others[0]));
    assert(sort == other_sort);
    assert(target.len() == start + digits.len() + 1 + query.len());
    assert(other.len() == other_start + others.len() + 1 + query.len());
    assert(digits =~= target.subrange(start, start + digits.len()));
    assert(others =~= other.subrange(start, start + others.len()));
}

/// `yt-dlp` is asked for a flat playlist as one JSON document, and for the search, and for nothing
/// else.
pub proof fn law_yt_dlp_is_asked_for_one_document(
    query: &str,
    count: u32,
    sort: SortOrder,
    args: Vec<String>,
)
    requires
        call_ensures(search::search_args, (query, count, sort), args),
    ensures
        args@.len() == 3,
        args@[0]@ == "--flat-playlist"@,
        args@[1]@ == "-J"@,
        args@[2]@ == search::target_of(query@, count, sort),
{
    let views = text::texts(args@);
    assert(views.len() == args@.len());
    assert(views[0] == args@[0]@ && views[1] == args@[1]@ && views[2] == args@[2]@);
}

// ---------------------------------------------------------------------------
// What is read.
// ---------------------------------------------------------------------------

/// Every entry with an id and a title that have something in them has a result, with that id and
/// that title, whatever else the entry says; and no other entry has one.
pub proof fn law_only_the_names_make_a_result(entry: EntryView)
    ensures
        search::result_of(entry) is Some <==> entry.id is Some && entry.id->0.len() > 0
            && entry.title is Some && entry.title->0.len() > 0,
        search::result_of(entry) matches Some(result) ==> Some(result.id) == entry.id && Some(
            result.title,
        ) == entry.title && result.duration == search::duration_of(entry),
{
}

/// The same of the function that reads one entry.
pub proof fn law_an_entry_with_names_is_a_result(
    entry: &search::RawEntry,
    r: Option<SearchResult>,
)
    requires
        call_ensures(search::entry_to_result, (entry,), r),
    ensures
        r is Some <==> entry.id is Some && entry.id->0@.len() > 0 && entry.title is Some
            && entry.title->0@.len() > 0,
        r matches Some(result) ==> result.id@ == entry.id->0@ && result.title@ == entry.title->0@,
        r matches Some(result) ==> match entry.channel {
            Some(channel) => result.channel is Some && result.channel->0@ == channel@,
            None => search::optional_text(result.channel) == search::optional_text(entry.uploader),
        },
        r is Some && entry.live_status is Some && entry.live_status->0@ == "is_live"@
            ==> r->0.duration == VideoDuration::Live,
        r is Some && entry.live_status is Some && entry.live_status->0@ == "is_upcoming"@
            ==> r->0.duration == VideoDuration::Upcoming,
{
    law_only_the_names_make_a_result(entry@);
    law_the_live_status_comes_first(entry@);
    if let Some(result) = r {
        law_the_uploader_stands_in_for_the_channel(entry@, result@);
    }
}

/// Entries are read one by one: a list of one entry stands for its result, if it has one. By
/// [`law_entries_stand_for_themselves`] that says what every list stands for.
pub proof fn law_a_single_entry_stands_for_its_result(entry: EntryView)
    ensures
        search::results_of(Seq::empty()).len() == 0,
        search::result_of(entry) matches Some(result) ==> search::results_of(seq![entry])
            == seq![result],
        search::result_of(entry) is None ==> search::results_of(seq![entry]).len() == 0,
{
    assert(seq![entry].drop_last() =~= Seq::empty());
    reveal_with_fuel(search::results_of, 2);
    if let Some(result) = search::result_of(entry) {
        assert(search::results_of(seq![entry]) =~= seq![result]);
    }
}

/// Every entry with names is among the results, with its own id and title, and every result comes
/// from such an entry.
pub proof fn law_no_named_entry_is_lost(entries: Seq<EntryView>, i: int)
    requires
        0 <= i < entries.len(),
        entries[i].id is Some,
        entries[i].id->0.len() > 0,
        entries[i].title is Some,
        entries[i].title->0.len() > 0,
    ensures
        exists|j: int|
            0 <= j < search::results_of(entries).len() && (#[trigger] search::results_of(
                entries,
            )[j]).id == entries[i].id->0 && search::results_of(entries)[j].title
                == entries[i].title->0,
    decreases entries.len(),
{
    law_only_the_names_make_a_result(entries[i]);
    let before = search::results_of(entries.drop_last());
    let results = search::results_of(entries);
    if i == entries.len() - 1 {
        assert(results[before.len() as int].id == entries[i].id->0);
    } else {
        law_no_named_entry_is_lost(entries.drop_last(), i);
        let j = choose|j: int|
            0 <= j < before.len() && (#[trigger] before[j]).id == entries[i].id->0
                && before[j].title == entries[i].title->0;
        assert(results[j] == before[j]);
    }
}

/// Every entry is either among the results or spoken of in the log, and none is both.
pub proof fn law_every_entry_is_shown_or_logged(entries: Seq<EntryView>)
    ensures
        search::results_of(entries).len() + search::skip_warnings(entries).len() == entries.len(),
    decreases entries.len(),
{
    if entries.len() > 0 {
        law_every_entry_is_shown_or_logged(entries.drop_last());
    }
}

/// What the log says of an entry that is skipped names its id, in quotes, and says whether it has
/// one; nothing else about the entry matters.
pub proof fn law_the_log_names_the_id(entry: EntryView, other: EntryView, id: Seq<char>)
    ensures
        entry.id == other.id ==> search::skip_warning(entry) == search::skip_warning(other),
        entry.id == Some(id) ==> search::skip_warning(entry)
            == "skipping malformed yt-dlp entry id=Some("@ + text::quoted(id) + ")"@,
        entry.id is None ==> search::skip_warning(entry)
            == "skipping malformed yt-dlp entry id=None"@,
{
    reveal_strlit("skipping malformed yt-dlp entry id=");
    reveal_strlit("skipping malformed yt-dlp entry id=Some(");
    reveal_strlit("skipping malformed yt-dlp entry id=None");
    reveal_strlit("Some(");
    reveal_strlit("None");
    reveal_strlit(")");
    if entry.id == Some(id) {
        assert(search::skip_warning(entry) =~= "skipping malformed yt-dlp entry id=Some("@
            + text::quoted(id) + ")"@);
    } else if entry.id is None {
        assert(search::skip_warning(entry) =~= "skipping malformed yt-dlp entry id=None"@);
    }
}

/// The entries of the log are those that are skipped, one by one and in order.
pub proof fn law_the_log_speaks_of_each(first: Seq<EntryView>, second: Seq<EntryView>, entry: EntryView)
    ensures
        search::skip_warnings(first + second) == search::skip_warnings(first)
            + search::skip_warnings(second),
        search::result_of(entry) is None ==> search::skip_warnings(seq![entry])
            == seq![search::skip_warning(entry)],
        search::result_of(entry) is Some ==> search::skip_warnings(seq![entry]).len() == 0,
    decreases second.len(),
{
    assert(seq![entry].drop_last() =~= Seq::empty());
    reveal_with_fuel(search::skip_warnings, 2);
    assert(search::result_of(entry) is None ==> search::skip_warnings(seq![entry])
        =~= seq![search::skip_warning(entry)]);
    if second.len() == 0 {
        assert(first + second =~= first);
        assert(search::skip_warnings(first) + search::skip_warnings(second)
            =~= search::skip_warnings(first));
    } else {
        assert((first + second).drop_last() =~= first + second.drop_last());
        assert((first + second).last() == second.last());
        law_the_log_speaks_of_each(first, second.drop_last(), entry);
        assert(search::skip_warnings(first + second) =~= search::skip_warnings(first)
            + search::skip_warnings(second));
    }
}

/// What a member of an entry is read as: its text where it is a text.
pub open spec fn read_as_text(document: Json, key: Seq<char>, read: Option<Seq<char>>) -> bool {
    match document {
        Json::Object(members) => (read matches Some(t) ==> members.dom().contains(key)
            && members[key] == Json::Text(t)) && (members.dom().contains(key)
            && members[key] is Text ==> read is Some),
        _ => read is None,
    }
}

/// Every member of an entry is read from the member of that name, and from no other: a text is read
/// as it is, and what is no text as if it were not there. The same holds of the number of seconds.
pub proof fn law_members_are_read_by_their_names(document: Json)
    ensures
        ({
            let entry = search::entry_of(document);
            &&& read_as_text(document, "id"@, entry.id)
            &&& read_as_text(document, "title"@, entry.title)
            &&& read_as_text(document, "channel"@, entry.channel)
            &&& read_as_text(document, "uploader"@, entry.uploader)
            &&& read_as_text(document, "live_status"@, entry.live_status)
            &&& match document {
                Json::Object(members) => (entry.duration matches Some(bits)
                    ==> members.dom().contains("duration"@) && members["duration"@]
                    == Json::Number(bits)) && (members.dom().contains("duration"@)
                    && members["duration"@] is Number ==> entry.duration is Some),
                _ => entry.duration is None,
            }
        }),
{
}

/// The answer to a search is made of all the entries in its output, each read by itself and in
/// order; and a complaint is handed on as it is.
pub proof fn law_the_answer_is_what_the_output_says(
    read: Result<Vec<serde_json::Value>, String>,
    r: (Result<Vec<SearchResult>, SearchError>, Vec<String>),
)
    requires
        call_ensures(search::read_answer, (read,), r),
    ensures
        read matches Ok(items) ==> r.0 is Ok && search::result_views(r.0->Ok_0@)
            == search::results_of(
            Seq::new(items@.len(), |i: int| search::entry_of(json::json_of(items@[i]))),
        ) && r.0->Ok_0@.len() + r.1@.len() == items@.len(),
        read matches Err(complaint) ==> r.0 == Err::<Vec<SearchResult>, SearchError>(
            SearchError::InvalidJson(complaint),
        ) && r.1@.len() == 0,
{
    if let Ok(items) = read {
        let entries = Seq::new(items@.len(), |i: int| search::entry_of(json::json_of(items@[i])));
        assert(search::entries_of(items@) =~= entries);
        law_every_entry_is_shown_or_logged(entries);
        assert(search::result_views(r.0->Ok_0@).len() == r.0->Ok_0@.len());
    }
    assert(text::texts(r.1@).len() == r.1@.len());
}

// ---------------------------------------------------------------------------
// How long a video is.
// ---------------------------------------------------------------------------

/// All videos can be watched but those that have not begun.
pub proof fn law_only_what_has_not_begun_cannot_be_watched(duration: VideoDuration)
    ensures
        !duration.playable() <==> duration is Upcoming,
{
}

/// Where the live status says nothing, an entry that gives no number has no known length, and one
/// that gives a number has the length of that number's whole part.
pub proof fn law_the_number_of_seconds_counts(entry: EntryView)
    requires
        entry.live_status != Some("is_live"@),
        entry.live_status != Some("is_upcoming"@),
    ensures
        entry.duration is None ==> search::duration_of(entry) == VideoDuration::Unknown,
        entry.duration matches Some(bits) ==> match double::whole_part(bits) {
            Some(seconds) => search::duration_of(entry) == VideoDuration::Seconds(seconds),
            None => search::duration_of(entry) == VideoDuration::Unknown,
        },
{
}

/// What a clock face is read as, from its first field on: all that is above the last field, in
/// units of that field, and the last field.
pub open spec fn fields(s: Seq<char>) -> (nat, nat)
    decreases s.len(),
{
    if s.len() == 0 {
        (0, 0)
    } else {
        let (above, field) = fields(s.drop_last());
        if s.last() == ':' {
            ((60 * (above + field)) as nat, 0)
        } else {
            (above, (10 * field + (s.last() as int - '0' as int)) as nat)
        }
    }
}

/// How many seconds a clock face shows: of two fields the first are minutes, and of three hours.
pub open spec fn seconds_shown(s: Seq<char>) -> nat {
    fields(s).0 + fields(s).1
}

proof fn lemma_fields_of_digits(before: Seq<char>, digits: Seq<char>)
    requires
        text_laws::all_digits(digits),
        fields(before).1 == 0,
    ensures
        fields(before + digits) == (fields(before).0, text_laws::number(digits)),
    decreases digits.len(),
{
    if digits.len() == 0 {
        assert(before + digits =~= before);
    } else {
        let less = digits.drop_last();
        assert forall|i: int| 0 <= i < less.len() implies text_laws::is_digit(#[trigger] less[i]) by {
            assert(text_laws::is_digit(digits[i]));
        }
        assert(text_laws::is_digit(digits[digits.len() - 1]));
        lemma_fields_of_digits(before, less);
        assert((before + digits).drop_last() =~= before + less);
        assert((before + digits).last() == digits.last());
    }
}

proof fn lemma_fields_of_a_colon(before: Seq<char>)
    ensures
        fields(before.push(':')) == ((60 * (fields(before).0 + fields(before).1)) as nat, 0nat),
{
    assert(before.push(':').drop_last() =~= before);
}

/// A length that is shown on a clock face is read back as itself, for every number of seconds.
pub proof fn law_a_clock_face_is_read_back(seconds: u64, shown: String)
    requires
        call_ensures(search::clock_text, (seconds,), shown),
    ensures
        seconds_shown(shown@) == seconds,
{
    lemma_clock(seconds as nat);
}

/// Minutes and seconds after what stands before them are read as so many minutes and seconds.
proof fn lemma_minutes_and_seconds(before: Seq<char>, minutes: Seq<char>, seconds: Seq<char>)
    requires
        fields(before).1 == 0,
        text_laws::all_digits(minutes),
        text_laws::all_digits(seconds),
    ensures
        seconds_shown((before + minutes).push(':') + seconds) == 60 * (fields(before).0
            + text_laws::number(minutes)) + text_laws::number(seconds),
{
    lemma_fields_of_digits(before, minutes);
    lemma_fields_of_a_colon(before + minutes);
    lemma_fields_of_digits((before + minutes).push(':'), seconds);
}

/// What stands on a clock face: the digits of its fields with colons between them.
#[verifier::spinoff_prover]
proof fn lemma_clock(n: nat)
    ensures
        seconds_shown(search::clock(n)) == n,
{
    let hours = text::decimal(n / 3600);
    let m = (n % 3600) / 60;
    let s = text::two_digits(n % 60);
    text_laws::law_two_digits_are_read_back(n % 60);
    if n >= 3600 {
        let minutes = text::two_digits(m);
        let start = hours.push(':');
        text_laws::law_a_number_is_read_back(n / 3600);
        text_laws::law_two_digits_are_read_back(m);
        assert(Seq::<char>::empty() + hours =~= hours);
        lemma_fields_of_digits(Seq::empty(), hours);
        lemma_fields_of_a_colon(hours);
        lemma_minutes_and_seconds(start, minutes, s);
        assert(search::clock(n) =~= (start + minutes).push(':') + s);
    } else {
        let minutes = text::decimal(m);
        text_laws::law_a_number_is_read_back(m);
        lemma_minutes_and_seconds(Seq::empty(), minutes, s);
        assert(search::clock(n) =~= (Seq::<char>::empty() + minutes).push(':') + s);
    }
}

/// Two lengths that are shown alike are the same length.
pub proof fn law_lengths_are_told_apart(m: nat, n: nat)
    requires
        search::clock(m) == search::clock(n),
    ensures
        m == n,
{
    lemma_clock(m);
    lemma_clock(n);
}

/// The fields of a clock face after the first have two digits each, and there are hours only where
/// there is an hour; the first field has no zero in front, unless it is zero.
pub proof fn law_the_fields_of_a_clock_face(n: nat)
    ensures
        ({
            let face = search::clock(n);
            let end = face.len() as int;
            &&& end >= 4
            &&& face[end - 3] == ':'
            &&& text_laws::all_digits(face.skip(end - 2))
            &&& n < 60 ==> end == 4 && face[0] == '0'
            &&& n >= 60 ==> face[0] != '0'
            &&& n < 600 ==> end == 4
            &&& 600 <= n < 3600 ==> end == 5
            &&& n >= 3600 ==> end >= 7 && face[end - 6] == ':' && text_laws::all_digits(
                face.subrange(end - 5, end - 3),
            )
        }),
{
    let face = search::clock(n);
    let end = face.len() as int;
    let m = (n % 3600) / 60;
    text_laws::law_a_number_is_read_back(n / 3600);
    text_laws::law_a_number_is_read_back(m);
    text_laws::law_a_number_is_no_longer_than_it_has_to_be(m);
    text_laws::law_two_digits_are_read_back(m);
    text_laws::law_two_digits_are_read_back(n % 60);
    assert(face.skip(end - 2) =~= text::two_digits(n % 60));
    if n >= 3600 {
        assert(face.subrange(end - 5, end - 3) =~= text::two_digits(m));
    } else if m == 0 {
        assert(text_laws::number(text::decimal(m)) == 0);
        assert(text::decimal(0) =~= seq!['0']);
    }
}

/// A video of known length is spoken of by its clock face, wherever it is spoken of in words.
pub proof fn law_a_known_length_is_said_as_a_clock_face(seconds: u64)
    ensures
        VideoDuration::Seconds(seconds).words() == search::clock(seconds as nat),
        seconds_shown(VideoDuration::Seconds(seconds).words()) == seconds,
{
    lemma_clock(seconds as nat);
}

// ---------------------------------------------------------------------------
// What went wrong.
// ---------------------------------------------------------------------------

/// Whether two texts say the same, but for what they end with.
pub open spec fn differ_in_their_ends(
    s: Seq<char>,
    end: Seq<char>,
    other: Seq<char>,
    other_end: Seq<char>,
) -> bool {
    &&& s.len() >= end.len()
    &&& other.len() >= other_end.len()
    &&& s.skip(s.len() - end.len()) == end
    &&& other.skip(other.len() - other_end.len()) == other_end
    &&& s.take(s.len() - end.len()) == other.take(other.len() - other_end.len())
}

/// What is said of a search that failed ends with the whole of what was said about it, and all that
/// comes before is the same for every error of the kind.
pub proof fn law_errors_say_all_that_was_said(said: String, other: String)
    ensures
        differ_in_their_ends(
            SearchError::InvalidJson(said).words(),
            said@,
            SearchError::InvalidJson(other).words(),
            other@,
        ),
        differ_in_their_ends(
            SearchError::Spawn(said).words(),
            said@,
            SearchError::Spawn(other).words(),
            other@,
        ),
        differ_in_their_ends(
            SearchError::Wait(said).words(),
            said@,
            SearchError::Wait(other).words(),
            other@,
        ),
        differ_in_their_ends(
            SearchError::Read(said).words(),
            said@,
            SearchError::Read(other).words(),
            other@,
        ),
{
    lemma_ends("yt-dlp returned invalid JSON: "@, said@, other@);
    lemma_ends("failed to launch yt-dlp: "@, said@, other@);
    lemma_ends("failed while waiting for yt-dlp: "@, said@, other@);
    lemma_ends("failed to read yt-dlp output: "@, said@, other@);
}

/// Texts with one start differ in their ends.
pub proof fn lemma_ends(start: Seq<char>, end: Seq<char>, other_end: Seq<char>)
    ensures
        differ_in_their_ends(start + end, end, start + other_end, other_end),
{
    assert((start + end).skip(start.len() as int) =~= end);
    assert((start + other_end).skip(start.len() as int) =~= other_end);
    assert((start + end).take(start.len() as int) =~= start);
    assert((start + other_end).take(start.len() as int) =~= start);
}

/// What is said of a program that failed gives its status as a number and ends with all that the
/// program said.
pub proof fn law_a_failed_program_is_quoted(error: SearchError)
    ensures
        error matches SearchError::NonZeroExit { status, stderr } ==> error.words()
            == "yt-dlp exited with status "@ + text::signed_decimal(status as int) + ": "@ + stderr@,
{
}

/// What is said of a search that took too long tells how long it had.
pub proof fn law_a_timeout_tells_how_long_it_was(error: SearchError)
    ensures
        error matches SearchError::Timeout(had) ==> error.words() == "yt-dlp timed out after "@
            + crate::time::span_text(had.whole_seconds(), had.left_over()),
{
}

} // verus!
