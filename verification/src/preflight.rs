//! Whether the programs that are needed are installed.

use crate::text;
use vstd::prelude::*;
use vstd::string::*;

verus! {

broadcast use vstd::seq::group_seq_axioms;

/// A program that is missing, and how to install it.
#[derive(Debug, Clone, Copy, PartialEq, Eq)]
pub struct MissingBinary {
    pub name: &'static str,
    pub instructions: &'static str,
}

/// What is said of a missing program.
pub open spec fn report_of(name: Seq<char>, instructions: Seq<char>) -> Seq<char> {
    "required binary not found in PATH: "@ + name + "\n\n"@ + instructions
}

impl MissingBinary {
    /// What is said of the program.
    pub open spec fn words(self) -> Seq<char> {
        report_of(self.name@, self.instructions@)
    }

    /// What is said of the program.
    pub fn to_string(&self) -> (r: String)
        ensures
            r@ == self.words(),
    {
        let mut out = text::concat("required binary not found in PATH: ", self.name);
        out.append("\n\n");
        out.append(self.instructions);
        out
    }
}

/// Why the program cannot start.
#[derive(Debug, PartialEq, Eq)]
#[non_exhaustive]
pub enum PreflightError {
    /// Programs are missing. They are reported together, so that they can be installed together.
    Missing(Vec<MissingBinary>),
}

/// What is said of missing programs, one after another.
pub open spec fn reports(missing: Seq<MissingBinary>) -> Seq<Seq<char>> {
    missing.map_values(|m: MissingBinary| m.words())
}

/// What is said of missing programs, with an empty line between two of them.
pub fn format_missing(missing: &Vec<MissingBinary>) -> (r: String)
    ensures
        r@ == text::joined(reports(missing@), "\n\n"@),
{
    let mut parts: Vec<String> = Vec::new();
    let mut i: usize = 0;
    while i < missing.len()
        invariant
            i <= missing.len(),
            text::texts(parts@) == reports(missing@).take(i as int),
        decreases missing.len() - i,
    {
        let part = missing[i].to_string();
        proof {
            text::lemma_texts_push(parts@, part);
        }
        parts.push(part);
        i += 1;
        assert(text::texts(parts@) =~= reports(missing@).take(i as int));
    }
    assert(reports(missing@).take(i as int) =~= reports(missing@));
    text::join(&parts, "\n\n")
}

impl PreflightError {
    /// The error in words.
    pub open spec fn words(self) -> Seq<char> {
        match self {
            PreflightError::Missing(missing) => text::joined(reports(missing@), "\n\n"@),
        }
    }

    /// The error in words.
    pub fn to_string(&self) -> (r: String)
        ensures
            r@ == self.words(),
    {
        match self {
            PreflightError::Missing(missing) => format_missing(missing),
        }
    }
}

/// How to install `yt-dlp`.
pub const YT_DLP_INSTRUCTIONS: &'static str = "Install yt-dlp:\n  macOS:  brew install yt-dlp\n  Linux:  pipx install yt-dlp  (or your package manager)\n  Docs:   https://github.com/yt-dlp/yt-dlp#installation";

/// How to install `mpv`.
pub const MPV_INSTRUCTIONS: &'static str = "Install mpv:\n  macOS:  brew install mpv\n  Linux:  your package manager\n  Docs:   https://mpv.io/installation/";

/// How to install anything else.
pub const OTHER_INSTRUCTIONS: &'static str = "See the project's README for installation instructions.";

/// How to install a program.
pub open spec fn instructions_for(bin: Seq<char>) -> &'static str {
    if bin == "yt-dlp"@ {
        YT_DLP_INSTRUCTIONS
    } else if bin == "mpv"@ {
        MPV_INSTRUCTIONS
    } else {
        OTHER_INSTRUCTIONS
    }
}

/// How to install a program.
#[must_use]
pub fn install_instructions(bin: &str) -> (r: &'static str)
    ensures
        r == instructions_for(bin@),
{
    if text::same_text(bin, "yt-dlp") {
        YT_DLP_INSTRUCTIONS
    } else if text::same_text(bin, "mpv") {
        MPV_INSTRUCTIONS
    } else {
        OTHER_INSTRUCTIONS
    }
}

/// Whether `missing` is the list of the programs that were not found, in the order in which they
/// are needed.
pub open spec fn lists(missing: Seq<MissingBinary>, yt_dlp_found: bool, mpv_found: bool) -> bool {
    let yt_dlp = MissingBinary { name: "yt-dlp", instructions: instructions_for("yt-dlp"@) };
    let mpv = MissingBinary { name: "mpv", instructions: instructions_for("mpv"@) };
    if yt_dlp_found {
        missing =~= (if mpv_found {
            Seq::empty()
        } else {
            seq![mpv]
        })
    } else {
        missing =~= (if mpv_found {
            seq![yt_dlp]
        } else {
            seq![yt_dlp, mpv]
        })
    }
}

/// Whether the programs that are needed were found. If not, every one that is missing is
/// reported, not just the first.
pub fn check(yt_dlp_found: bool, mpv_found: bool) -> (r: Result<(), PreflightError>)
    ensures
        r is Ok <==> yt_dlp_found && mpv_found,
        r matches Err(PreflightError::Missing(missing)) ==> lists(
            missing@,
            yt_dlp_found,
            mpv_found,
        ),
{
    let mut missing: Vec<MissingBinary> = Vec::new();
    if !yt_dlp_found {
        missing.push(
            MissingBinary { name: "yt-dlp", instructions: install_instructions("yt-dlp") },
        );
    }
    if !mpv_found {
        missing.push(MissingBinary { name: "mpv", instructions: install_instructions("mpv") });
    }
    assert(lists(missing@, yt_dlp_found, mpv_found));
    if missing.len() == 0 {
        Ok(())
    } else {
        Err(PreflightError::Missing(missing))
    }
}

/// A program is reported missing exactly if it was not found, and never twice.
pub proof fn law_every_missing_program_is_reported(
    missing: Seq<MissingBinary>,
    yt_dlp_found: bool,
    mpv_found: bool,
)
    requires
        lists(missing, yt_dlp_found, mpv_found),
    ensures
        !yt_dlp_found <==> exists|i: int|
            0 <= i < missing.len() && (#[trigger] missing[i]).name@ == "yt-dlp"@,
        !mpv_found <==> exists|i: int|
            0 <= i < missing.len() && (#[trigger] missing[i]).name@ == "mpv"@,
        missing.len() == (if yt_dlp_found {
            0int
        } else {
            1int
        }) + (if mpv_found {
            0int
        } else {
            1int
        }),
{
    reveal_strlit("yt-dlp");
    reveal_strlit("mpv");
    if !yt_dlp_found {
        assert(missing[0].name@ == "yt-dlp"@);
    }
    if !mpv_found {
        assert(missing.last().name@ == "mpv"@);
        assert(missing[missing.len() - 1].name@ == "mpv"@);
    }
}

/// What is said of a missing program names it and says all of how to install it.
pub proof fn law_a_missing_program_is_named(missing: MissingBinary)
    ensures
        missing.words() == "required binary not found in PATH: "@ + missing.name@ + "\n\n"@
            + missing.instructions@,
{
}

/// What is said of several missing programs is what is said of each, in order, with an empty line
/// between two of them.
pub proof fn law_every_missing_program_is_spoken_of(first: Vec<MissingBinary>, second: Vec<
    MissingBinary,
>, both: Vec<MissingBinary>)
    requires
        first@.len() > 0,
        second@.len() > 0,
        both@ == first@ + second@,
    ensures
        PreflightError::Missing(both).words() == PreflightError::Missing(first).words() + "\n\n"@
            + PreflightError::Missing(second).words(),
        first@.len() == 1 ==> PreflightError::Missing(first).words() == first@[0].words(),
{
    crate::text_laws::law_joining_keeps_every_part(
        reports(first@),
        reports(second@),
        Seq::empty(),
        "\n\n"@,
    );
    assert(reports(both@) =~= reports(first@) + reports(second@));
}

/// Every program has its own way to be installed, and a program that is not known is told to be
/// looked up.
pub proof fn law_how_a_program_is_installed(bin: Seq<char>)
    ensures
        bin == "yt-dlp"@ ==> instructions_for(bin) == YT_DLP_INSTRUCTIONS,
        bin == "mpv"@ ==> instructions_for(bin) == MPV_INSTRUCTIONS,
        bin != "yt-dlp"@ && bin != "mpv"@ ==> instructions_for(bin) == OTHER_INSTRUCTIONS,
{
    reveal_strlit("yt-dlp");
    reveal_strlit("mpv");
    assert("yt-dlp"@.len() == 6 && "mpv"@.len() == 3);
}

} // verus!
