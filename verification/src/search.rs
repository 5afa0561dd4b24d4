//! Searching: what is asked of `yt-dlp`, and what is read from its answer.

use crate::double;
use crate::json;
use crate::text;
use crate::time::TimeSpan;
use std::sync::atomic::AtomicBool;
use vstd::prelude::*;
use vstd::string::*;

verus! {

broadcast use vstd::seq::group_seq_axioms;

// ---------------------------------------------------------------------------
// Asking.
// ---------------------------------------------------------------------------

/// In which order results are asked for.
#[derive(Debug, Clone, Copy, PartialEq, Eq, Structural)]
pub enum SortOrder {
    Relevance,
    Date,
}

/// The search prefix that `yt-dlp` knows an order by.
pub open spec fn prefix_of(sort: SortOrder) -> Seq<char> {
    match sort {
        SortOrder::Relevance => "ytsearch"@,
        SortOrder::Date => "ytsearchdate"@,
    }
}

impl SortOrder {
    /// The search prefix that `yt-dlp` knows this order by.
    pub fn ytsearch_prefix(self) -> (r: &'static str)
        ensures
            r@ == prefix_of(self),
    {
        match self {
            SortOrder::Relevance => "ytsearch",
            SortOrder::Date => "ytsearchdate",
        }
    }
}

/// What is to be searched, in `yt-dlp`'s words: `ytsearch20:rust`.
pub open spec fn target_of(query: Seq<char>, count: u32, sort: SortOrder) -> Seq<char> {
    prefix_of(sort) + text::decimal(count as nat) + seq![':'] + query
}

/// What is to be searched, in `yt-dlp`'s words: `ytsearch20:rust`.
pub fn search_target(query: &str, count: u32, sort: SortOrder) -> (r: String)
    ensures
        r@ == target_of(query@, count, sort),
{
    let mut out = sort.ytsearch_prefix().to_owned();
    text::push_decimal(&mut out, count as u64);
    out.push(':');
    out.append(query);
    assert(out@ =~= target_of(query@, count, sort));
    out
}

/// The arguments that `yt-dlp` is started with.
pub open spec fn arguments_of(query: Seq<char>, count: u32, sort: SortOrder) -> Seq<Seq<char>> {
    seq!["--flat-playlist"@, "-J"@, target_of(query, count, sort)]
}

/// The arguments that `yt-dlp` is started with.
pub fn search_args(query: &str, count: u32, sort: SortOrder) -> (r: Vec<String>)
    ensures
        text::texts(r@) == arguments_of(query@, count, sort),
{
    let mut args: Vec<String> = Vec::new();
    args.push("--flat-playlist".to_owned());
    args.push("-J".to_owned());
    args.push(search_target(query, count, sort));
    assert(text::texts(args@) =~= arguments_of(query@, count, sort));
    args
}

// ---------------------------------------------------------------------------
// How long a video is.
// ---------------------------------------------------------------------------

/// How long a video is, as far as is known.
#[derive(Debug, Clone, Copy, PartialEq, Eq, Structural)]
#[non_exhaustive]
pub enum VideoDuration {
    Seconds(u64),
    Live,
    Upcoming,
    Unknown,
}

/// A length of time on a clock face: `0:07`, `40:04`, `1:01:01`.
pub open spec fn clock(seconds: nat) -> Seq<char> {
    let h = seconds / 3600;
    let m = (seconds % 3600) / 60;
    let s = seconds % 60;
    if h > 0 {
        text::decimal(h) + seq![':'] + text::two_digits(m) + seq![':'] + text::two_digits(s)
    } else {
        text::decimal(m) + seq![':'] + text::two_digits(s)
    }
}

/// A length of time on a clock face: `0:07`, `40:04`, `1:01:01`.
pub fn clock_text(seconds: u64) -> (r: String)
    ensures
        r@ == clock(seconds as nat),
{
    let h: u64 = seconds / 3600;
    let m: u64 = (seconds % 3600) / 60;
    let s: u64 = seconds % 60;
    let mut out = String::new();
    if h > 0 {
        text::push_decimal(&mut out, h);
        out.push(':');
        text::push_two_digits(&mut out, m);
    } else {
        text::push_decimal(&mut out, m);
    }
    out.push(':');
    text::push_two_digits(&mut out, s);
    assert(out@ =~= clock(seconds as nat));
    out
}

impl VideoDuration {
    /// Whether a video with this duration can be watched now: all can but those that have not
    /// begun.
    pub open spec fn playable(self) -> bool {
        self != VideoDuration::Upcoming
    }

    /// The duration in words.
    pub open spec fn words(self) -> Seq<char> {
        match self {
            VideoDuration::Live => "live broadcast"@,
            VideoDuration::Upcoming => "upcoming livestream"@,
            VideoDuration::Unknown => "unknown duration"@,
            VideoDuration::Seconds(s) => clock(s as nat),
        }
    }

    /// Whether this video is currently watchable. Upcoming streams (scheduled but not started)
    /// are explicitly not playable.
    #[must_use]
    pub fn is_playable(&self) -> (r: bool)
        ensures
            r == self.playable(),
    {
        match self {
            VideoDuration::Upcoming => false,
            _ => true,
        }
    }

    /// The duration in words.
    pub fn to_string(&self) -> (r: String)
        ensures
            r@ == self.words(),
    {
        match self {
            VideoDuration::Live => "live broadcast".to_owned(),
            VideoDuration::Upcoming => "upcoming livestream".to_owned(),
            VideoDuration::Unknown => "unknown duration".to_owned(),
            VideoDuration::Seconds(s) => clock_text(*s),
        }
    }
}

// ---------------------------------------------------------------------------
// Results.
// ---------------------------------------------------------------------------

/// One video that a search found.
#[derive(Debug, PartialEq, Eq)]
pub struct SearchResult {
    pub id: String,
    pub title: String,
    pub channel: Option<String>,
    pub duration: VideoDuration,
}

/// What a [`SearchResult`] says.
pub struct ResultView {
    pub id: Seq<char>,
    pub title: Seq<char>,
    pub channel: Option<Seq<char>>,
    pub duration: VideoDuration,
}

/// What an optional string says.
pub open spec fn optional_text(s: Option<String>) -> Option<Seq<char>> {
    match s {
        Some(s) => Some(s@),
        None => None,
    }
}

/// A copy of an optional string.
pub fn clone_optional(s: &Option<String>) -> (r: Option<String>)
    ensures
        r == *s,
{
    match s {
        Some(s) => Some(s.clone()),
        None => None,
    }
}

impl View for SearchResult {
    type V = ResultView;

    open spec fn view(&self) -> ResultView {
        ResultView {
            id: self.id@,
            title: self.title@,
            channel: optional_text(self.channel),
            duration: self.duration,
        }
    }
}

impl Clone for SearchResult {
    fn clone(&self) -> (r: Self)
        ensures
            r == *self,
    {
        SearchResult {
            id: self.id.clone(),
            title: self.title.clone(),
            channel: clone_optional(&self.channel),
            duration: self.duration,
        }
    }
}

/// What a list of results says.
pub open spec fn result_views(results: Seq<SearchResult>) -> Seq<ResultView> {
    results.map_values(|r: SearchResult| r@)
}

// ---------------------------------------------------------------------------
// What can go wrong.
// ---------------------------------------------------------------------------

/// Why a search gave no results. The operating system's and the parser's own words come as text.
#[derive(Debug, PartialEq, Eq)]
#[non_exhaustive]
pub enum SearchError {
    InvalidJson(String),
    Spawn(String),
    Wait(String),
    Read(String),
    ReaderPanicked,
    NonZeroExit { status: i32, stderr: String },
    Timeout(TimeSpan),
    Cancelled,
}

impl SearchError {
    /// The error in words.
    pub open spec fn words(self) -> Seq<char> {
        match self {
            SearchError::InvalidJson(t) => "yt-dlp returned invalid JSON: "@ + t@,
            SearchError::Spawn(t) => "failed to launch yt-dlp: "@ + t@,
            SearchError::Wait(t) => "failed while waiting for yt-dlp: "@ + t@,
            SearchError::Read(t) => "failed to read yt-dlp output: "@ + t@,
            SearchError::ReaderPanicked => "yt-dlp output reader thread panicked"@,
            SearchError::NonZeroExit { status, stderr } => "yt-dlp exited with status "@
                + text::signed_decimal(status as int) + ": "@ + stderr@,
            SearchError::Timeout(t) => "yt-dlp timed out after "@ + crate::time::span_text(
                t.whole_seconds(),
                t.left_over(),
            ),
            SearchError::Cancelled => "search cancelled by user"@,
        }
    }

    /// The error in words.
    pub fn to_string(&self) -> (r: String)
        ensures
            r@ == self.words(),
    {
        match self {
            SearchError::InvalidJson(t) => text::concat("yt-dlp returned invalid JSON: ", t.as_str()),
            SearchError::Spawn(t) => text::concat("failed to launch yt-dlp: ", t.as_str()),
            SearchError::Wait(t) => text::concat("failed while waiting for yt-dlp: ", t.as_str()),
            SearchError::Read(t) => text::concat("failed to read yt-dlp output: ", t.as_str()),
            SearchError::ReaderPanicked => "yt-dlp output reader thread panicked".to_owned(),
            SearchError::NonZeroExit { status, stderr } => {
                let mut out = "yt-dlp exited with status ".to_owned();
                text::push_signed(&mut out, *status);
                out.append(": ");
                out.append(stderr.as_str());
                out
            },
            SearchError::Timeout(t) => text::concat(
                "yt-dlp timed out after ",
                t.to_string().as_str(),
            ),
            SearchError::Cancelled => "search cancelled by user".to_owned(),
        }
    }
}

// ---------------------------------------------------------------------------
// Who searches.
// ---------------------------------------------------------------------------

/// Something that can search.
pub trait SearchBackend {
    /// Runs a search. The `cancel` flag is polled by the implementation; once it is set, the
    /// search in flight is given up and the answer is [`SearchError::Cancelled`].
    fn search(&self, query: &str, count: u32, sort: SortOrder, cancel: &AtomicBool) -> Result<
        Vec<SearchResult>,
        SearchError,
    >;
}

/// The `yt-dlp` program and how long it may take.
#[derive(Debug)]
pub struct YtDlpBackend {
    pub timeout: TimeSpan,
    /// The bytes of its name or path.
    pub binary: Vec<u8>,
}

impl Default for YtDlpBackend {
    /// `yt-dlp` with half a minute.
    fn default() -> (r: Self)
        ensures
            r.timeout.whole_seconds() == 30,
            r.timeout.left_over() == 0,
            r.binary@ == vstd::utf8::encode_utf8("yt-dlp"@),
    {
        YtDlpBackend { timeout: TimeSpan::from_secs(30), binary: text::bytes_of("yt-dlp") }
    }
}

impl Clone for YtDlpBackend {
    fn clone(&self) -> (r: Self)
        ensures
            r.timeout == self.timeout,
            r.binary@ == self.binary@,
    {
        YtDlpBackend { timeout: self.timeout, binary: self.binary.clone() }
    }
}

// ---------------------------------------------------------------------------
// Reading the answer.
// ---------------------------------------------------------------------------

/// The members of a playlist entry that matter, each where it is there and has the right kind.
/// The duration is a double-precision number, given by its bits.
#[derive(Debug, PartialEq, Eq)]
pub struct RawEntry {
    pub id: Option<String>,
    pub title: Option<String>,
    pub channel: Option<String>,
    pub uploader: Option<String>,
    pub live_status: Option<String>,
    pub duration: Option<u64>,
}

/// What a [`RawEntry`] says.
pub struct EntryView {
    pub id: Option<Seq<char>>,
    pub title: Option<Seq<char>>,
    pub channel: Option<Seq<char>>,
    pub uploader: Option<Seq<char>>,
    pub live_status: Option<Seq<char>>,
    pub duration: Option<u64>,
}

impl View for RawEntry {
    type V = EntryView;

    open spec fn view(&self) -> EntryView {
        EntryView {
            id: optional_text(self.id),
            title: optional_text(self.title),
            channel: optional_text(self.channel),
            uploader: optional_text(self.uploader),
            live_status: optional_text(self.live_status),
            duration: self.duration,
        }
    }
}

/// How long the video of an entry is: its live status decides, and else its number of seconds,
/// where that is a finite number and not negative.
pub open spec fn duration_of(entry: EntryView) -> VideoDuration {
    if entry.live_status == Some("is_live"@) {
        VideoDuration::Live
    } else if entry.live_status == Some("is_upcoming"@) {
        VideoDuration::Upcoming
    } else {
        match entry.duration {
            Some(bits) => match double::whole_part(bits) {
                Some(seconds) => VideoDuration::Seconds(seconds),
                None => VideoDuration::Unknown,
            },
            None => VideoDuration::Unknown,
        }
    }
}

/// How long the video of an entry is.
pub fn parse_duration(entry: &RawEntry) -> (r: VideoDuration)
    ensures
        r == duration_of(entry@),
{
    if let Some(status) = &entry.live_status {
        proof {
            reveal_strlit("is_live");
            reveal_strlit("is_upcoming");
        }
        if text::same_text(status.as_str(), "is_live") {
            return VideoDuration::Live;
        }
        if text::same_text(status.as_str(), "is_upcoming") {
            return VideoDuration::Upcoming;
        }
    }
    match entry.duration {
        Some(bits) => match double::to_whole_part(bits) {
            Some(seconds) => VideoDuration::Seconds(seconds),
            None => VideoDuration::Unknown,
        },
        None => VideoDuration::Unknown,
    }
}

/// The result that an entry stands for. There is none without an id and a title, both with
/// something in them. The uploader stands in for a channel that is not given.
pub open spec fn result_of(entry: EntryView) -> Option<ResultView> {
    match (entry.id, entry.title) {
        (Some(id), Some(title)) => if id.len() > 0 && title.len() > 0 {
            Some(
                ResultView {
                    id,
                    title,
                    channel: if entry.channel is Some {
                        entry.channel
                    } else {
                        entry.uploader
                    },
                    duration: duration_of(entry),
                },
            )
        } else {
            None
        },
        _ => None,
    }
}

/// The result that an entry stands for; `None` for a malformed entry.
pub fn entry_to_result(entry: &RawEntry) -> (r: Option<SearchResult>)
    ensures
        r matches Some(result) ==> result_of(entry@) == Some(result@),
        r is None ==> result_of(entry@) is None,
{
    let id = match &entry.id {
        Some(id) => id,
        None => return None,
    };
    let title = match &entry.title {
        Some(title) => title,
        None => return None,
    };
    if id.as_str().is_empty() || title.as_str().is_empty() {
        return None;
    }
    let channel = match &entry.channel {
        Some(channel) => Some(channel.clone()),
        None => clone_optional(&entry.uploader),
    };
    Some(
        SearchResult {
            id: id.clone(),
            title: title.clone(),
            channel,
            duration: parse_duration(entry),
        },
    )
}

/// The results that entries stand for, in the same order; malformed entries are skipped.
pub open spec fn results_of(entries: Seq<EntryView>) -> Seq<ResultView>
    decreases entries.len(),
{
    if entries.len() == 0 {
        Seq::empty()
    } else {
        match result_of(entries.last()) {
            Some(result) => results_of(entries.drop_last()).push(result),
            None => results_of(entries.drop_last()),
        }
    }
}

/// What a list of entries says.
pub open spec fn entry_views(entries: Seq<RawEntry>) -> Seq<EntryView> {
    entries.map_values(|e: RawEntry| e@)
}

/// The results that entries stand for, in the same order; malformed entries are skipped.
pub fn entries_to_results(entries: &Vec<RawEntry>) -> (r: Vec<SearchResult>)
    ensures
        result_views(r@) == results_of(entry_views(entries@)),
{
    let mut out: Vec<SearchResult> = Vec::new();
    let mut i: usize = 0;
    assert(result_views(out@) =~= results_of(entry_views(entries@).take(0)));
    while i < entries.len()
        invariant
            i <= entries.len(),
            result_views(out@) == results_of(entry_views(entries@).take(i as int)),
        decreases entries.len() - i,
    {
        let ghost before = out@;
        if let Some(result) = entry_to_result(&entries[i]) {
            out.push(result);
            assert(result_views(out@) =~= result_views(before).push(result@));
        }
        proof {
            let next = entry_views(entries@).take(i + 1);
            assert(next.drop_last() =~= entry_views(entries@).take(i as int));
            assert(next.last() == entries[i as int]@);
        }
        i += 1;
    }
    assert(entry_views(entries@).take(i as int) =~= entry_views(entries@));
    out
}

/// What the log says of an entry that is skipped.
pub open spec fn skip_warning(entry: EntryView) -> Seq<char> {
    "skipping malformed yt-dlp entry id="@ + match entry.id {
        Some(id) => "Some("@ + text::quoted(id) + ")"@,
        None => "None"@,
    }
}

fn make_skip_warning(entry: &RawEntry) -> (r: String)
    ensures
        r@ == skip_warning(entry@),
{
    let mut out = "skipping malformed yt-dlp entry id=".to_owned();
    match &entry.id {
        Some(id) => {
            let mut shown = "Some(".to_owned();
            shown.append(text::quote(id.as_str()).as_str());
            shown.append(")");
            out.append(shown.as_str());
        },
        None => {
            out.append("None");
        },
    }
    out
}

/// What the log says of entries: something of each that is skipped.
pub open spec fn skip_warnings(entries: Seq<EntryView>) -> Seq<Seq<char>>
    decreases entries.len(),
{
    if entries.len() == 0 {
        Seq::empty()
    } else if result_of(entries.last()) is None {
        skip_warnings(entries.drop_last()).push(skip_warning(entries.last()))
    } else {
        skip_warnings(entries.drop_last())
    }
}

/// What the log says of entries: something of each that is skipped.
pub fn skipped_entries(entries: &Vec<RawEntry>) -> (r: Vec<String>)
    ensures
        text::texts(r@) == skip_warnings(entry_views(entries@)),
{
    let mut out: Vec<String> = Vec::new();
    let mut i: usize = 0;
    assert(text::texts(out@) =~= skip_warnings(entry_views(entries@).take(0)));
    while i < entries.len()
        invariant
            i <= entries.len(),
            text::texts(out@) == skip_warnings(entry_views(entries@).take(i as int)),
        decreases entries.len() - i,
    {
        if entry_to_result(&entries[i]).is_none() {
            let warning = make_skip_warning(&entries[i]);
            proof {
                text::lemma_texts_push(out@, warning);
            }
            out.push(warning);
        }
        proof {
            let next = entry_views(entries@).take(i + 1);
            assert(next.drop_last() =~= entry_views(entries@).take(i as int));
            assert(next.last() == entries[i as int]@);
        }
        i += 1;
    }
    assert(entry_views(entries@).take(i as int) =~= entry_views(entries@));
    out
}

/// The text of a document's member, where it is there and is text.
pub open spec fn text_member(document: json::Json, key: Seq<char>) -> Option<Seq<char>> {
    match document {
        json::Json::Object(o) => if o.dom().contains(key) {
            match o[key] {
                json::Json::Text(t) => Some(t),
                _ => None,
            }
        } else {
            None
        },
        _ => None,
    }
}

/// The number of a document's member, where it is there and is a number.
pub open spec fn number_member(document: json::Json, key: Seq<char>) -> Option<u64> {
    match document {
        json::Json::Object(o) => if o.dom().contains(key) {
            match o[key] {
                json::Json::Number(bits) => Some(bits),
                _ => None,
            }
        } else {
            None
        },
        _ => None,
    }
}

/// The members of a document that matter to a playlist entry.
pub open spec fn entry_of(document: json::Json) -> EntryView {
    EntryView {
        id: text_member(document, "id"@),
        title: text_member(document, "title"@),
        channel: text_member(document, "channel"@),
        uploader: text_member(document, "uploader"@),
        live_status: text_member(document, "live_status"@),
        duration: number_member(document, "duration"@),
    }
}

fn read_text(value: &serde_json::Value, key: &str) -> (r: Option<String>)
    ensures
        optional_text(r) == text_member(json::json_of(*value), key@),
{
    match json::member(value, key) {
        Some(m) => match m.as_str() {
            Some(s) => Some(s.to_owned()),
            None => None,
        },
        None => None,
    }
}

fn read_number(value: &serde_json::Value, key: &str) -> (r: Option<u64>)
    ensures
        r == number_member(json::json_of(*value), key@),
{
    match json::member(value, key) {
        Some(m) => json::number_bits(m),
        None => None,
    }
}

fn read_entry(value: &serde_json::Value) -> (r: RawEntry)
    ensures
        r@ == entry_of(json::json_of(*value)),
{
    RawEntry {
        id: read_text(value, "id"),
        title: read_text(value, "title"),
        channel: read_text(value, "channel"),
        uploader: read_text(value, "uploader"),
        live_status: read_text(value, "live_status"),
        duration: read_number(value, "duration"),
    }
}

/// What the entries of a playlist say.
pub open spec fn entries_of(items: Seq<serde_json::Value>) -> Seq<EntryView> {
    items.map_values(|item: serde_json::Value| entry_of(json::json_of(item)))
}

/// What the entries of a playlist say.
pub fn read_entries(items: &Vec<serde_json::Value>) -> (r: Vec<RawEntry>)
    ensures
        entry_views(r@) == entries_of(items@),
{
    let mut out: Vec<RawEntry> = Vec::new();
    let mut i: usize = 0;
    while i < items.len()
        invariant
            i <= items.len(),
            out.len() == i,
            forall|j: int| 0 <= j < i ==> #[trigger] out[j]@ == entry_of(json::json_of(items[j])),
        decreases items.len() - i,
    {
        out.push(read_entry(&items[i]));
        i += 1;
    }
    assert(entry_views(out@) =~= entries_of(items@));
    out
}

/// Whether `r` is the answer to a search whose output held the given entries, or made `serde_json`
/// complain.
pub open spec fn answers(
    read: Result<Vec<serde_json::Value>, String>,
    r: Result<Vec<SearchResult>, SearchError>,
) -> bool {
    match read {
        Ok(items) => r matches Ok(results) && result_views(results@) == results_of(
            entries_of(items@),
        ),
        Err(complaint) => r == Err::<Vec<SearchResult>, SearchError>(
            SearchError::InvalidJson(complaint),
        ),
    }
}

/// What the log says of the output of a search: something of each entry that is skipped.
pub open spec fn answer_warnings(read: Result<Vec<serde_json::Value>, String>) -> Seq<Seq<char>> {
    match read {
        Ok(items) => skip_warnings(entries_of(items@)),
        Err(_) => Seq::empty(),
    }
}

/// The answer to a search, from what was read of its output: the results, and what the log is to say
/// of the entries that are skipped.
pub fn read_answer(read: Result<Vec<serde_json::Value>, String>) -> (r: (
    Result<Vec<SearchResult>, SearchError>,
    Vec<String>,
))
    ensures
        answers(read, r.0),
        text::texts(r.1@) == answer_warnings(read),
{
    match read {
        Ok(items) => {
            let entries = read_entries(&items);
            (Ok(entries_to_results(&entries)), skipped_entries(&entries))
        },
        Err(complaint) => {
            let none: Vec<String> = Vec::new();
            assert(text::texts(none@) =~= Seq::empty());
            (Err(SearchError::InvalidJson(complaint)), none)
        },
    }
}

/// Reads the output of `yt-dlp --flat-playlist -J`. Malformed entries (without an id or a title)
/// are skipped, and the rest of the batch is returned. What is not JSON in the shape of a
/// playlist is [`SearchError::InvalidJson`].
///
/// `read` takes the list of entries out of the bytes, or says why there is none.
pub fn parse_results<F: FnOnce(&[u8]) -> Result<Vec<serde_json::Value>, String>>(
    bytes: &[u8],
    read: F,
) -> (r: Result<Vec<SearchResult>, SearchError>)
    requires
        call_requires(read, (bytes,)),
    ensures
        exists|items: Result<Vec<serde_json::Value>, String>| #[trigger]
            call_ensures(read, (bytes,), items) && answers(items, r),
{
    let items = read(bytes);
    let ghost came_of_it = items;
    let r = read_answer(items).0;
    assert(call_ensures(read, (bytes,), came_of_it) && answers(came_of_it, r));
    r
}

} // verus!
