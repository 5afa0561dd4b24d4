//! Playing: what `mpv` is started with, and what its end means.

use crate::process::ExitReport;
use crate::search::SearchResult;
use crate::text;
use vstd::prelude::*;
use vstd::string::*;

verus! {

broadcast use vstd::seq::group_seq_axioms;

// ---------------------------------------------------------------------------
// Options.
// ---------------------------------------------------------------------------

/// How videos are to be played.
#[derive(Debug)]
#[non_exhaustive]
pub struct PlaybackOptions {
    pub audio_only: bool,
    /// Arguments of the user's own. They stand before the URL, which `mpv` takes as a file, and
    /// after the flags of this program, so that they win where both speak of one thing.
    pub extra_args: Vec<String>,
}

impl Default for PlaybackOptions {
    /// Video and sound, without arguments of the user's own.
    fn default() -> (r: Self)
        ensures
            !r.audio_only,
            r.extra_args@.len() == 0,
    {
        PlaybackOptions { audio_only: false, extra_args: Vec::new() }
    }
}

impl Clone for PlaybackOptions {
    fn clone(&self) -> (r: Self)
        ensures
            r.audio_only == self.audio_only,
            r.extra_args@ == self.extra_args@,
    {
        let extra_args = self.extra_args.clone();
        assert(extra_args@ =~= self.extra_args@);
        PlaybackOptions { audio_only: self.audio_only, extra_args }
    }
}

impl PlaybackOptions {
    /// The same options with `audio_only` as given.
    #[must_use]
    pub fn with_audio_only(self, audio_only: bool) -> (r: Self)
        ensures
            r.audio_only == audio_only,
            r.extra_args == self.extra_args,
    {
        PlaybackOptions { audio_only, extra_args: self.extra_args }
    }

    /// The same options with `extra_args` as given.
    #[must_use]
    pub fn with_extra_args(self, args: Vec<String>) -> (r: Self)
        ensures
            r.audio_only == self.audio_only,
            r.extra_args == args,
    {
        PlaybackOptions { audio_only: self.audio_only, extra_args: args }
    }
}

// ---------------------------------------------------------------------------
// What can go wrong.
// ---------------------------------------------------------------------------

/// Why a video was not played to its end. The operating system's words come as text.
#[derive(Debug, PartialEq, Eq)]
#[non_exhaustive]
pub enum PlayerError {
    Spawn(String),
    Wait(String),
    NonZeroExit(i32),
    KilledBySignal(i32),
    NotPlayable { reason: String },
}

impl PlayerError {
    /// The error in words.
    pub open spec fn words(self) -> Seq<char> {
        match self {
            PlayerError::Spawn(t) => "failed to launch player: "@ + t@,
            PlayerError::Wait(t) => "failed waiting for player: "@ + t@,
            PlayerError::NonZeroExit(status) => "player exited with status "@
                + text::signed_decimal(status as int),
            PlayerError::KilledBySignal(signal) => "player was killed by signal "@
                + text::signed_decimal(signal as int),
            PlayerError::NotPlayable { reason } => "video is not playable: "@ + reason@,
        }
    }

    /// The error in words.
    pub fn to_string(&self) -> (r: String)
        ensures
            r@ == self.words(),
    {
        match self {
            PlayerError::Spawn(t) => text::concat("failed to launch player: ", t.as_str()),
            PlayerError::Wait(t) => text::concat("failed waiting for player: ", t.as_str()),
            PlayerError::NonZeroExit(status) => {
                let mut out = "player exited with status ".to_owned();
                text::push_signed(&mut out, *status);
                out
            },
            PlayerError::KilledBySignal(signal) => {
                let mut out = "player was killed by signal ".to_owned();
                text::push_signed(&mut out, *signal);
                out
            },
            PlayerError::NotPlayable { reason } => text::concat(
                "video is not playable: ",
                reason.as_str(),
            ),
        }
    }
}

/// What the end of a player means.
pub open spec fn verdict(report: ExitReport) -> Result<(), PlayerError> {
    if report.success {
        Ok(())
    } else {
        match report.signal {
            Some(signal) => Err(PlayerError::KilledBySignal(signal)),
            None => Err(PlayerError::NonZeroExit(report.code_or_minus_one())),
        }
    }
}

/// What the end of a player means: success, a signal that killed it, or an exit code.
pub fn classify_exit(report: ExitReport) -> (r: Result<(), PlayerError>)
    ensures
        r == verdict(report),
{
    if report.success {
        return Ok(());
    }
    if let Some(signal) = report.signal {
        return Err(PlayerError::KilledBySignal(signal));
    }
    Err(PlayerError::NonZeroExit(report.status()))
}

// ---------------------------------------------------------------------------
// What `mpv` is started with.
// ---------------------------------------------------------------------------

/// The address of a video.
pub open spec fn url_of(video_id: Seq<char>) -> Seq<char> {
    "https://www.youtube.com/watch?v="@ + video_id
}

/// The address of a video.
#[must_use]
pub fn youtube_url(video_id: &str) -> (r: String)
    ensures
        r@ == url_of(video_id@),
{
    text::concat("https://www.youtube.com/watch?v=", video_id)
}

/// The arguments that `mpv` is started with: this program's flags, then the user's, then the
/// address.
pub open spec fn arguments_of(video_id: Seq<char>, opts: PlaybackOptions) -> Seq<Seq<char>> {
    (if opts.audio_only {
        seq!["--no-video"@]
    } else {
        Seq::empty()
    }) + text::texts(opts.extra_args@) + seq![url_of(video_id)]
}

/// The arguments that `mpv` is started with: this program's flags, then the user's, then the
/// address.
#[must_use]
pub fn mpv_args(video_id: &str, opts: &PlaybackOptions) -> (r: Vec<String>)
    ensures
        text::texts(r@) == arguments_of(video_id@, *opts),
{
    let mut args: Vec<String> = Vec::new();
    if opts.audio_only {
        args.push("--no-video".to_owned());
    }
    let ghost flags = text::texts(args@);
    assert(flags =~= if opts.audio_only {
        seq!["--no-video"@]
    } else {
        Seq::empty()
    });
    let mut i: usize = 0;
    while i < opts.extra_args.len()
        invariant
            i <= opts.extra_args.len(),
            text::texts(args@) == flags + text::texts(opts.extra_args@).take(i as int),
        decreases opts.extra_args.len() - i,
    {
        proof {
            text::lemma_texts_push(args@, opts.extra_args[i as int]);
        }
        args.push(opts.extra_args[i].clone());
        i += 1;
        assert(text::texts(args@) =~= flags + text::texts(opts.extra_args@).take(i as int));
    }
    let url = youtube_url(video_id);
    proof {
        text::lemma_texts_push(args@, url);
    }
    args.push(url);
    assert(text::texts(args@) =~= arguments_of(video_id@, *opts));
    args
}

// ---------------------------------------------------------------------------
// Who plays.
// ---------------------------------------------------------------------------

/// A player that has been started and not yet been waited for.
pub trait RunningPlayer: Sized {
    /// The leader of the player's process group.
    fn pid(&self) -> u32;

    /// Blocks until the player ends.
    fn wait(self) -> Result<(), PlayerError>;
}

/// Something that can play videos.
pub trait Player {
    type Running: RunningPlayer;

    /// Whether the player may be started on a video; any may, unless a player says otherwise. Who
    /// starts a player has to know that it may, so a function for any player that asks for no such
    /// permission starts none.
    open spec fn may_spawn(&self, video_id: Seq<char>) -> bool {
        true
    }

    /// Starts the player and does not wait for it, so that the caller can register its process
    /// group first. The player shares the caller's terminal.
    fn spawn_player(&self, video_id: &str, opts: &PlaybackOptions) -> Result<
        Self::Running,
        PlayerError,
    >
        requires
            self.may_spawn(video_id@),
    ;
}

/// The `mpv` program.
#[derive(Debug)]
pub struct MpvPlayer {
    /// The bytes of its name or path.
    pub binary: Vec<u8>,
}

impl Default for MpvPlayer {
    /// `mpv`, wherever it is installed.
    fn default() -> (r: Self)
        ensures
            r.binary@ == vstd::utf8::encode_utf8("mpv"@),
    {
        MpvPlayer { binary: text::bytes_of("mpv") }
    }
}

impl Clone for MpvPlayer {
    fn clone(&self) -> (r: Self)
        ensures
            r.binary@ == self.binary@,
    {
        MpvPlayer { binary: self.binary.clone() }
    }
}

/// Whether `r` is what waiting for the started player, or failing to start it, comes to.
pub open spec fn waited<R: RunningPlayer>(
    spawned: Result<R, PlayerError>,
    r: Result<(), PlayerError>,
) -> bool {
    match spawned {
        Ok(running) => call_ensures(R::wait, (running,), r),
        Err(e) => r == Err::<(), PlayerError>(e),
    }
}

/// Plays a video. Blocks until the player ends.
///
/// The player shares the caller's terminal: who draws on it leaves the alternate screen first and
/// enters it again after.
pub fn play<P: Player>(player: &P, video_id: &str, opts: &PlaybackOptions) -> (r: Result<
    (),
    PlayerError,
>)
    requires
        player.may_spawn(video_id@),
    ensures
        exists|spawned: Result<P::Running, PlayerError>|
            call_ensures(P::spawn_player, (player, video_id, opts), spawned) && #[trigger] waited(
                spawned,
                r,
            ),
{
    let spawned = player.spawn_player(video_id, opts);
    let ghost outcome = spawned;
    let r = match spawned {
        Ok(running) => running.wait(),
        Err(e) => Err(e),
    };
    assert(waited(outcome, r));
    r
}

/// What a result that cannot be watched is answered.
pub open spec fn refusal(result: SearchResult, answer: PlayerError) -> bool {
    answer matches PlayerError::NotPlayable { reason } && reason@ == result.duration.words()
}

/// Whether `spawned` is what asking for a result comes to: a refusal of one that cannot be
/// watched, and else what the player answers about its id.
pub open spec fn asked<P: Player>(
    player: &P,
    result: SearchResult,
    opts: &PlaybackOptions,
    spawned: Result<P::Running, PlayerError>,
) -> bool {
    if result.duration.playable() {
        exists|id: &str| #[trigger]
            id@ == result.id@ && call_ensures(P::spawn_player, (player, id, opts), spawned)
    } else {
        spawned matches Err(e) && refusal(result, e)
    }
}

/// Starts the player for a result and does not wait for it, so that the caller can register its
/// process group first. Refuses a video that cannot be watched yet, without starting the player:
/// for such a video no permission to start it is asked for.
pub fn spawn_result<P: Player>(player: &P, result: &SearchResult, opts: &PlaybackOptions) -> (r:
    Result<P::Running, PlayerError>)
    requires
        result.duration.playable() ==> player.may_spawn(result.id@),
    ensures
        asked(player, *result, opts, r),
{
    if !result.duration.is_playable() {
        return Err(PlayerError::NotPlayable { reason: result.duration.to_string() });
    }
    player.spawn_player(result.id.as_str(), opts)
}

/// Plays a result. Refuses a video that cannot be watched yet, without starting the player: for
/// such a video no permission to start it is asked for.
pub fn play_result<P: Player>(player: &P, result: &SearchResult, opts: &PlaybackOptions) -> (r:
    Result<(), PlayerError>)
    requires
        result.duration.playable() ==> player.may_spawn(result.id@),
    ensures
        exists|spawned: Result<P::Running, PlayerError>| #[trigger]
            asked(player, *result, opts, spawned) && waited(spawned, r),
{
    let spawned = spawn_result(player, result, opts);
    let ghost outcome = spawned;
    let r = match spawned {
        Ok(running) => running.wait(),
        Err(e) => Err(e),
    };
    assert(asked(player, *result, opts, outcome) && waited(outcome, r));
    r
}

// ---------------------------------------------------------------------------
// What holds of every invocation.
// ---------------------------------------------------------------------------

/// The address is always the last argument.
pub proof fn law_the_address_comes_last(video_id: Seq<char>, opts: PlaybackOptions)
    ensures
        arguments_of(video_id, opts).len() > 0,
        arguments_of(video_id, opts).last() == url_of(video_id),
{
}

/// The user's arguments come after this program's own and before the address, all of them and in
/// their order.
pub proof fn law_user_arguments_come_between(video_id: Seq<char>, opts: PlaybackOptions, i: int)
    requires
        0 <= i < opts.extra_args@.len(),
    ensures
        arguments_of(video_id, opts)[i + (if opts.audio_only {
            1int
        } else {
            0int
        })] == opts.extra_args@[i]@,
        arguments_of(video_id, opts).len() == opts.extra_args@.len() + (if opts.audio_only {
            2int
        } else {
            1int
        }),
{
}

/// Without options, the address is the only argument.
pub proof fn law_plain_invocation(video_id: Seq<char>, opts: PlaybackOptions)
    requires
        !opts.audio_only,
        opts.extra_args@.len() == 0,
    ensures
        arguments_of(video_id, opts) == seq![url_of(video_id)],
{
    assert(arguments_of(video_id, opts) =~= seq![url_of(video_id)]);
}

/// Playing only the sound asks `mpv` for no video before it asks for anything else.
pub proof fn law_audio_only_comes_first(video_id: Seq<char>, opts: PlaybackOptions)
    requires
        opts.audio_only,
    ensures
        arguments_of(video_id, opts)[0] == "--no-video"@,
{
}

/// The address of a video ends with its id, whatever the id is, and starts the same for all videos.
pub proof fn law_the_address_ends_with_the_id(video_id: &str, url: String)
    requires
        call_ensures(youtube_url, (video_id,), url),
    ensures
        url@ == "https://www.youtube.com/watch?v="@ + video_id@,
        url@.skip(url@.len() - video_id@.len()) == video_id@,
{
    assert(url@.skip(url@.len() - video_id@.len()) =~= video_id@);
}

/// `mpv` gets the flag for no video exactly if only the sound is wanted, then every argument of the
/// user's own as it is and in order, then the address of the video, and nothing else.
pub proof fn law_what_mpv_is_started_with(
    video_id: &str,
    opts: &PlaybackOptions,
    args: Vec<String>,
)
    requires
        call_ensures(mpv_args, (video_id, opts), args),
    ensures
        ({
            let own = if opts.audio_only {
                1int
            } else {
                0int
            };
            &&& args@.len() == own + opts.extra_args@.len() + 1
            &&& opts.audio_only ==> args@[0]@ == "--no-video"@
            &&& forall|i: int|
                0 <= i < opts.extra_args@.len() ==> args@[own + i]@ == #[trigger] opts.extra_args@[i]@
            &&& args@[args@.len() - 1]@ == "https://www.youtube.com/watch?v="@ + video_id@
        }),
{
    let own = if opts.audio_only {
        1int
    } else {
        0int
    };
    let views = text::texts(args@);
    assert(views.len() == args@.len());
    assert forall|i: int| 0 <= i < opts.extra_args@.len() implies args@[own + i]@
        == #[trigger] opts.extra_args@[i]@ by {
        assert(views[own + i] == args@[own + i]@);
        law_user_arguments_come_between(video_id@, *opts, i);
    }
    assert(views[args@.len() - 1] == args@[args@.len() - 1]@);
    if opts.audio_only {
        assert(views[0] == args@[0]@);
    }
}

/// A player that ended well is no error. Any other end is one: the signal where one ended the
/// player, and else the exit code, or -1 where there is none.
pub proof fn law_what_the_end_of_a_player_means(report: ExitReport, r: Result<(), PlayerError>)
    requires
        call_ensures(classify_exit, (report,), r),
    ensures
        r is Ok <==> report.success,
        !report.success && report.signal is Some ==> r == Err::<(), PlayerError>(
            PlayerError::KilledBySignal(report.signal->0),
        ),
        !report.success && report.signal is None && report.code is Some ==> r
            == Err::<(), PlayerError>(PlayerError::NonZeroExit(report.code->0)),
        !report.success && report.signal is None && report.code is None ==> r
            == Err::<(), PlayerError>(PlayerError::NonZeroExit(-1i32)),
{
}

/// The player is asked about every video but those that have not begun, with the id of the video;
/// and about those the answer says what they are.
pub proof fn law_which_videos_the_player_is_asked_about<P: Player>(
    player: &P,
    result: SearchResult,
    opts: &PlaybackOptions,
    spawned: Result<P::Running, PlayerError>,
)
    requires
        asked(player, result, opts, spawned),
    ensures
        !(result.duration is Upcoming) ==> exists|id: &str| #[trigger]
            id@ == result.id@ && call_ensures(P::spawn_player, (player, id, opts), spawned),
        result.duration is Upcoming ==> (spawned matches Err(PlayerError::NotPlayable { reason })
            && reason@ == "upcoming livestream"@),
{
}

/// What is said of a player that failed says all that was said about it: words as they are, and
/// numbers in digits.
pub proof fn law_player_errors_say_all_that_was_said(error: PlayerError)
    ensures
        error matches PlayerError::Spawn(said) ==> error.words() == "failed to launch player: "@
            + said@,
        error matches PlayerError::Wait(said) ==> error.words() == "failed waiting for player: "@
            + said@,
        error matches PlayerError::NonZeroExit(status) ==> error.words()
            == "player exited with status "@ + text::signed_decimal(status as int),
        error matches PlayerError::KilledBySignal(signal) ==> error.words()
            == "player was killed by signal "@ + text::signed_decimal(signal as int),
        error matches PlayerError::NotPlayable { reason } ==> error.words()
            == "video is not playable: "@ + reason@,
{
}

} // verus!
