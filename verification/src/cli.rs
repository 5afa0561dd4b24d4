//! What the command line asks for.

use crate::text;
use vstd::prelude::*;

verus! {

/// How many results are asked for where the command line does not say.
pub const DEFAULT_COUNT: u32 = 20;

/// How many results can be asked for at most.
pub const MAX_COUNT: u32 = 100;

/// What `--version` prints.
pub const LONG_VERSION: &'static str =
    "             _   _         _\n _   _  ___ | |_| |_ _   _(_)\n| | | ||___|| __| __| | | | |\n| |_| |     | |_| |_| |_| | |\n \\__, |      \\__|\\__|\\__,_|_|\n |___/\n\nyttui v0.1.2\nA keyboard-driven YouTube TUI.\nJustin Benge\nMIT License\n";

/// The command line.
#[derive(Debug, PartialEq, Eq)]
pub struct Cli {
    /// The words of the first query; none to start at the empty prompt.
    pub query: Vec<String>,
    /// Whether the newest videos come first.
    pub recent: bool,
    /// How many results a search asks for.
    pub count: u32,
    /// Whether only the sound is played.
    pub audio_only: bool,
    /// Whether the version is all that is wanted.
    pub version: bool,
}

impl Default for Cli {
    /// A command line without arguments.
    fn default() -> (r: Self)
        ensures
            r.query@.len() == 0,
            !r.recent,
            r.count == DEFAULT_COUNT,
            !r.audio_only,
            !r.version,
    {
        Cli { query: Vec::new(), recent: false, count: DEFAULT_COUNT, audio_only: false, version: false }
    }
}

impl Clone for Cli {
    fn clone(&self) -> (r: Self)
        ensures
            r.query@ == self.query@,
            r.recent == self.recent,
            r.count == self.count,
            r.audio_only == self.audio_only,
            r.version == self.version,
    {
        let query = self.query.clone();
        assert(query@ =~= self.query@);
        Cli {
            query,
            recent: self.recent,
            count: self.count,
            audio_only: self.audio_only,
            version: self.version,
        }
    }
}

/// Whether a search can ask for so many results.
pub open spec fn count_allowed(count: u32) -> bool {
    1 <= count <= MAX_COUNT
}

/// Whether a search can ask for so many results.
pub fn is_count_allowed(count: u32) -> (r: bool)
    ensures
        r == count_allowed(count),
{
    1 <= count && count <= MAX_COUNT
}

impl Cli {
    /// The first query: its words with a space between two of them; `None` where there are none.
    #[must_use]
    pub fn initial_query(&self) -> (r: Option<String>)
        ensures
            self.query@.len() == 0 ==> r is None,
            self.query@.len() > 0 ==> (r matches Some(query) && query@ == text::joined(
                text::texts(self.query@),
                " "@,
            )),
    {
        if self.query.len() == 0 {
            None
        } else {
            Some(text::join(&self.query, " "))
        }
    }
}

/// From one to a hundred results can be asked for, and twenty are asked for by default.
pub proof fn law_how_many_results_can_be_asked_for(count: u32)
    ensures
        count_allowed(count) <==> 1 <= count <= 100,
        DEFAULT_COUNT == 20,
        count_allowed(DEFAULT_COUNT),
{
}

/// The first query has all the words of the command line in it, in order and as they are: the first
/// word alone where there is no other, and else the words before the last, a space, and the last.
pub proof fn law_the_first_query_has_all_the_words(cli: &Cli, query: Option<String>)
    requires
        call_ensures(Cli::initial_query, (cli,), query),
    ensures
        cli.query@.len() == 0 <==> query is None,
        cli.query@.len() == 1 ==> query->0@ == cli.query@[0]@,
        cli.query@.len() > 1 ==> query->0@ == text::joined(
            text::texts(cli.query@.drop_last()),
            seq![' '],
        ) + seq![' '] + cli.query@[cli.query@.len() - 1]@,
{
    reveal_strlit(" ");
    assert(" "@ =~= seq![' ']);
    let words = text::texts(cli.query@);
    assert(words.len() == cli.query@.len());
    if words.len() > 1 {
        assert(words.drop_last() =~= text::texts(cli.query@.drop_last()));
        assert(words.last() == cli.query@[cli.query@.len() - 1]@);
    }
}

} // verus!
