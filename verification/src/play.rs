use vstd::prelude::*;

use crate::text::{is_white_space, trim_start, opt_view, remove_all, remove_all_of, strip_prefix, strip_prefix_of, trim, trim_of};
use crate::youtube::{SearchHit, SearchResult};

verus! {

/// What `url::Url::parse` makes of a text: the text of the parsed
/// address, or `None` where the text is no absolute address.
pub uninterp spec fn parsed_url(s: Seq<char>) -> Option<Seq<char>>;

/// Calls `url::Url::parse` and gives back the parsed address as text,
/// the form in which it is later handed to the audio source.
#[verifier::external_body]
fn parse_url(s: &str) -> (r: Option<String>)
    ensures
        match r {
            Some(u) => parsed_url(s@) == Some(u@),
            None => parsed_url(s@) is None,
        },
{
    match url::Url::parse(s) {
        Ok(u) => Some(u.into()),
        Err(_) => None,
    }
}

/// The address a play request may name: the request without its leading
/// command word `play`, trimmed of white space at both ends.
pub open spec fn address_of(request: Seq<char>) -> Seq<char> {
    trim(strip_prefix(request, "play"@))
}

/// The address a play request may name.
pub fn play_address(request: &str) -> (r: String)
    ensures
        r@ == address_of(request@),
{
    let rest = strip_prefix_of(request, "play");
    trim_of(rest.as_str())
}

/// The search text of a play request that names no address: the request
/// with every `play` taken out and white space trimmed from both ends.
pub open spec fn query_of(request: Seq<char>) -> Seq<char> {
    trim(remove_all(request, "play"@))
}

/// The search text of a play request.
pub fn play_query(request: &str) -> (r: String)
    ensures
        r@ == query_of(request@),
{
    let removed = remove_all_of(request, "play");
    trim_of(removed.as_str())
}

/// The reply when no video could be found for a request.
pub open spec fn song_not_found() -> Seq<char> {
    "Song not found"@
}

/// The reply when the one who asked is in no voice channel.
pub open spec fn not_in_voice_channel() -> Seq<char> {
    "Not in a voice channel"@
}

/// The reply when the audio of a video cannot be fetched.
pub open spec fn source_error() -> Seq<char> {
    "Error creating source"@
}

/// What is said in the channel once a search has picked a video.
pub open spec fn announcement(title: Seq<char>, url: Seq<char>) -> Seq<char> {
    "Playing "@ + title + " url "@ + url
}

/// How far a play request has got.
#[derive(Debug, Clone, PartialEq, Eq)]
pub enum PlayState {
    /// Nothing has been done yet.
    Start,
    /// The videos matching the request are being searched for.
    Searching,
    /// The watch address of the first video found is being fetched.
    FetchingWatchUrl { title: String },
    /// The voice channel of the one who asked is being looked up.
    FindingVoiceChannel { url: String },
    /// The bot joins that channel and looks for its call.
    Joining { url: String },
    /// The audio of the video is being fetched.
    CreatingSource,
    /// The request has been dealt with.
    Done,
}

/// What the outside world reports back to a play request.
#[derive(Debug)]
pub enum PlayEvent {
    /// Someone asked for a song with this message text.
    Requested { query: String },
    /// The search ended: the videos found, or `None` where it failed.
    SearchFinished { hits: Option<Vec<SearchResult>> },
    /// The watch address, or `None` where it could not be fetched.
    WatchUrlFetched { url: Option<String> },
    /// The voice channel of the one who asked, if any.
    VoiceChannelFound { channel: Option<u64> },
    /// Whether a call was found after joining.
    CallFound { found: bool },
    /// Whether the audio could be fetched.
    SourceCreated { ok: bool },
}

/// What the bot is to do next for a play request.
#[derive(Debug, Clone, PartialEq, Eq)]
pub enum PlayAction {
    /// Search for videos matching the text.
    Search { query: String },
    /// Fetch the watch address of the video.
    FetchWatchUrl { video_id: String },
    /// Say the announcement, if any, then look up the voice channel.
    FindVoiceChannel { announce: Option<String> },
    /// Join the voice channel.
    Join { channel: u64 },
    /// Fetch the audio at the address.
    CreateSource { url: String },
    /// Play the audio fetched.
    PlaySource,
    /// Reply to the request with the text; nothing more is done.
    Reply { text: String },
    /// Say the announcement, then give up: the watch address that was
    /// announced is no address.
    Abort { announcement: String },
    /// Nothing more is done.
    Nothing,
}

/// The mathematical value of a [`PlayState`].
pub enum PlayStage {
    Start,
    Searching,
    FetchingWatchUrl { title: Seq<char> },
    FindingVoiceChannel { url: Seq<char> },
    Joining { url: Seq<char> },
    CreatingSource,
    Done,
}

/// The mathematical value of a [`PlayEvent`].
pub enum PlayNews {
    Requested { query: Seq<char> },
    SearchFinished { hits: Option<Seq<SearchHit>> },
    WatchUrlFetched { url: Option<Seq<char>> },
    VoiceChannelFound { channel: Option<u64> },
    CallFound { found: bool },
    SourceCreated { ok: bool },
}

/// The mathematical value of a [`PlayAction`].
pub enum PlayStep {
    Search { query: Seq<char> },
    FetchWatchUrl { video_id: Seq<char> },
    FindVoiceChannel { announce: Option<Seq<char>> },
    Join { channel: u64 },
    CreateSource { url: Seq<char> },
    PlaySource,
    Reply { text: Seq<char> },
    Abort { announcement: Seq<char> },
    Nothing,
}

impl View for PlayState {
    type V = PlayStage;

    open spec fn view(&self) -> PlayStage {
        match self {
            PlayState::Start => PlayStage::Start,
            PlayState::Searching => PlayStage::Searching,
            PlayState::FetchingWatchUrl { title } => PlayStage::FetchingWatchUrl { title: title@ },
            PlayState::FindingVoiceChannel { url } => PlayStage::FindingVoiceChannel { url: url@ },
            PlayState::Joining { url } => PlayStage::Joining { url: url@ },
            PlayState::CreatingSource => PlayStage::CreatingSource,
            PlayState::Done => PlayStage::Done,
        }
    }
}

impl View for PlayEvent {
    type V = PlayNews;

    open spec fn view(&self) -> PlayNews {
        match self {
            PlayEvent::Requested { query } => PlayNews::Requested { query: query@ },
            PlayEvent::SearchFinished { hits } => PlayNews::SearchFinished {
                hits: match hits {
                    Some(v) => Some(v@.map_values(|x: SearchResult| x@)),
                    None => None,
                },
            },
            PlayEvent::WatchUrlFetched { url } => PlayNews::WatchUrlFetched { url: opt_view(*url) },
            PlayEvent::VoiceChannelFound { channel } => PlayNews::VoiceChannelFound {
                channel: *channel,
            },
            PlayEvent::CallFound { found } => PlayNews::CallFound { found: *found },
            PlayEvent::SourceCreated { ok } => PlayNews::SourceCreated { ok: *ok },
        }
    }
}

impl View for PlayAction {
    type V = PlayStep;

    open spec fn view(&self) -> PlayStep {
        match self {
            PlayAction::Search { query } => PlayStep::Search { query: query@ },
            PlayAction::FetchWatchUrl { video_id } => PlayStep::FetchWatchUrl {
                video_id: video_id@,
            },
            PlayAction::FindVoiceChannel { announce } => PlayStep::FindVoiceChannel {
                announce: opt_view(*announce),
            },
            PlayAction::Join { channel } => PlayStep::Join { channel: *channel },
            PlayAction::CreateSource { url } => PlayStep::CreateSource { url: url@ },
            PlayAction::PlaySource => PlayStep::PlaySource,
            PlayAction::Reply { text } => PlayStep::Reply { text: text@ },
            PlayAction::Abort { announcement } => PlayStep::Abort { announcement: announcement@ },
            PlayAction::Nothing => PlayStep::Nothing,
        }
    }
}

/// How a play request goes on from `s` when `e` is reported. An event
/// that does not belong to the state ends the request with nothing done.
pub open spec fn play_transition(s: PlayStage, e: PlayNews) -> (PlayStage, PlayStep) {
    match (s, e) {
        (PlayStage::Start, PlayNews::Requested { query }) => {
            match parsed_url(address_of(query)) {
                Some(u) => (
                    PlayStage::FindingVoiceChannel { url: u },
                    PlayStep::FindVoiceChannel { announce: None },
                ),
                None => (PlayStage::Searching, PlayStep::Search { query: query_of(query) }),
            }
        },
        (PlayStage::Searching, PlayNews::SearchFinished { hits }) => match hits {
            Some(h) => if h.len() > 0 {
                (
                    PlayStage::FetchingWatchUrl { title: h[0].title },
                    PlayStep::FetchWatchUrl { video_id: h[0].id },
                )
            } else {
                (PlayStage::Done, PlayStep::Reply { text: song_not_found() })
            },
            None => (PlayStage::Done, PlayStep::Reply { text: song_not_found() }),
        },
        (PlayStage::FetchingWatchUrl { title }, PlayNews::WatchUrlFetched { url }) => match url {
            Some(w) => match parsed_url(w) {
                Some(u) => (
                    PlayStage::FindingVoiceChannel { url: u },
                    PlayStep::FindVoiceChannel { announce: Some(announcement(title, w)) },
                ),
                None => (PlayStage::Done, PlayStep::Abort { announcement: announcement(title, w) }),
            },
            None => (PlayStage::Done, PlayStep::Reply { text: song_not_found() }),
        },
        (PlayStage::FindingVoiceChannel { url }, PlayNews::VoiceChannelFound { channel }) => match channel {
            Some(c) => (PlayStage::Joining { url }, PlayStep::Join { channel: c }),
            None => (PlayStage::Done, PlayStep::Reply { text: not_in_voice_channel() }),
        },
        (PlayStage::Joining { url }, PlayNews::CallFound { found }) => if found {
            (PlayStage::CreatingSource, PlayStep::CreateSource { url })
        } else {
            (PlayStage::Done, PlayStep::Nothing)
        },
        (PlayStage::CreatingSource, PlayNews::SourceCreated { ok }) => if ok {
            (PlayStage::Done, PlayStep::PlaySource)
        } else {
            (PlayStage::Done, PlayStep::Reply { text: source_error() })
        },
        _ => (PlayStage::Done, PlayStep::Nothing),
    }
}

fn reply(text: &str) -> (r: (PlayState, PlayAction))
    ensures
        r.0@ == PlayStage::Done,
        r.1@ == (PlayStep::Reply { text: text@ }),
{
    (PlayState::Done, PlayAction::Reply { text: String::from_str(text) })
}

/// The announcement made once a search has picked a video.
fn announce(title: &str, url: &str) -> (r: String)
    ensures
        r@ == announcement(title@, url@),
{
    let mut a = String::from_str("Playing ");
    a.append(title);
    a.append(" url ");
    a.append(url);
    a
}

/// Moves a play request on by one step: from the state it is in and what
/// was reported, the next state and what to do.
pub fn play_step(state: PlayState, event: PlayEvent) -> (r: (PlayState, PlayAction))
    ensures
        (r.0@, r.1@) == play_transition(state@, event@),
{
    match (state, event) {
        (PlayState::Start, PlayEvent::Requested { query }) => {
            let address = play_address(query.as_str());
            match parse_url(address.as_str()) {
                Some(u) => (
                    PlayState::FindingVoiceChannel { url: u },
                    PlayAction::FindVoiceChannel { announce: None },
                ),
                None => (
                    PlayState::Searching,
                    PlayAction::Search { query: play_query(query.as_str()) },
                ),
            }
        },
        (PlayState::Searching, PlayEvent::SearchFinished { hits }) => match hits {
            Some(h) => {
                if h.len() > 0 {
                    let first = &h[0];
                    (
                        PlayState::FetchingWatchUrl { title: first.title.clone() },
                        PlayAction::FetchWatchUrl { video_id: first.id.clone() },
                    )
                } else {
                    reply("Song not found")
                }
            },
            None => reply("Song not found"),
        },
        (PlayState::FetchingWatchUrl { title }, PlayEvent::WatchUrlFetched { url }) => match url {
            Some(w) => {
                let text = announce(title.as_str(), w.as_str());
                match parse_url(w.as_str()) {
                    Some(u) => (
                        PlayState::FindingVoiceChannel { url: u },
                        PlayAction::FindVoiceChannel { announce: Some(text) },
                    ),
                    None => (PlayState::Done, PlayAction::Abort { announcement: text }),
                }
            },
            None => reply("Song not found"),
        },
        (PlayState::FindingVoiceChannel { url }, PlayEvent::VoiceChannelFound { channel }) => {
            match channel {
                Some(c) => (PlayState::Joining { url }, PlayAction::Join { channel: c }),
                None => reply("Not in a voice channel"),
            }
        },
        (PlayState::Joining { url }, PlayEvent::CallFound { found }) => {
            if found {
                (PlayState::CreatingSource, PlayAction::CreateSource { url })
            } else {
                (PlayState::Done, PlayAction::Nothing)
            }
        },
        (PlayState::CreatingSource, PlayEvent::SourceCreated { ok }) => {
            if ok {
                (PlayState::Done, PlayAction::PlaySource)
            } else {
                reply("Error creating source")
            }
        },
        _ => (PlayState::Done, PlayAction::Nothing),
    }
}

/// How far along a request a stage stands.
pub open spec fn stage_rank(s: PlayStage) -> nat {
    match s {
        PlayStage::Start => 0,
        PlayStage::Searching => 1,
        PlayStage::FetchingWatchUrl { .. } => 2,
        PlayStage::FindingVoiceChannel { .. } => 3,
        PlayStage::Joining { .. } => 4,
        PlayStage::CreatingSource => 5,
        PlayStage::Done => 6,
    }
}

/// Whether an action is the last one of a request.
pub open spec fn is_final(a: PlayStep) -> bool {
    a is Reply || a is PlaySource || a is Abort || a is Nothing
}

/// `play ` followed by an address hands that very address to the address
/// parser, "play" inside it included, and the parsed address is what
/// gets played.
pub proof fn law_address_request_plays_address(u: Seq<char>)
    requires
        trim(u) == u,
        parsed_url(u) is Some,
    ensures
        play_transition(PlayStage::Start, PlayNews::Requested { query: "play "@ + u }) == (
        PlayStage::FindingVoiceChannel { url: parsed_url(u).unwrap() },
        PlayStep::FindVoiceChannel { announce: None }),
{
    reveal_strlit("play ");
    reveal_strlit("play");
    let r = "play "@ + u;
    assert(r.take(4) =~= "play"@);
    let rest = r.skip(4);
    assert(rest =~= seq![' '] + u);
    assert(is_white_space(rest[0]));
    assert(rest.skip(1) =~= u);
    assert(trim_start(rest) == trim_start(u));
    assert(address_of(r) == u);
}

/// A request that has been dealt with stays so, whatever is reported.
pub proof fn law_play_done_stays_done(e: PlayNews)
    ensures
        play_transition(PlayStage::Done, e) == (PlayStage::Done, PlayStep::Nothing),
{
}

/// Every step of a request that is not yet dealt with moves it strictly
/// further along, so a request ends after at most six steps.
pub proof fn law_play_moves_forward(s: PlayStage, e: PlayNews)
    requires
        !(s is Done),
    ensures
        stage_rank(play_transition(s, e).0) > stage_rank(s),
{
}

/// A request ends exactly when its step gives a last action: a reply,
/// playing, giving up, or nothing.
pub proof fn law_play_ends_with_last_action(s: PlayStage, e: PlayNews)
    ensures
        (play_transition(s, e).0 is Done) <==> is_final(play_transition(s, e).1),
{
}

/// Audio is played only once it has been fetched, after joining a call.
pub proof fn law_play_only_fetched_audio(s: PlayStage, e: PlayNews)
    ensures
        (play_transition(s, e).1 is PlaySource) <==> (s is CreatingSource && e == (
        PlayNews::SourceCreated { ok: true })),
{
}

/// The search ended with no video: it failed or found none.
pub open spec fn found_nothing(e: PlayNews) -> bool {
    match e {
        PlayNews::SearchFinished { hits } => match hits {
            Some(h) => h.len() == 0,
            None => true,
        },
        _ => false,
    }
}

/// The reply "Song not found" is given exactly when the search failed or
/// found nothing, or the watch address of the video found could not be
/// fetched.
pub proof fn law_song_not_found(s: PlayStage, e: PlayNews)
    ensures
        (play_transition(s, e).1 == PlayStep::Reply { text: song_not_found() }) <==> (
        (s is Searching && found_nothing(e)) || (s is FetchingWatchUrl && e == (
        PlayNews::WatchUrlFetched { url: None }))),
{
    reveal_strlit("Song not found");
    reveal_strlit("Not in a voice channel");
    reveal_strlit("Error creating source");
    assert(song_not_found().len() == 14);
    assert(not_in_voice_channel().len() == 22);
    assert(source_error().len() == 21);
}

/// The first video a search finds is the one whose watch address is
/// fetched, and its title is kept to announce it: whatever the other
/// videos found.
pub proof fn law_first_hit_is_fetched(h: Seq<SearchHit>)
    requires
        h.len() > 0,
    ensures
        play_transition(PlayStage::Searching, PlayNews::SearchFinished { hits: Some(h) }) == (
        PlayStage::FetchingWatchUrl { title: h[0].title },
        PlayStep::FetchWatchUrl { video_id: h[0].id }),
{
}

/// Once the watch address `w` of the video titled `title` is fetched and
/// parses as `u`, "Playing <title> url <w>" is said and the caller's
/// voice channel is looked up, `u` to be played; where it does not parse,
/// the announcement is said and the request gives up.
pub proof fn law_watch_address_announced(title: Seq<char>, w: Seq<char>)
    ensures
        parsed_url(w) matches Some(u) ==> play_transition(
            PlayStage::FetchingWatchUrl { title },
            PlayNews::WatchUrlFetched { url: Some(w) },
        ) == (PlayStage::FindingVoiceChannel { url: u }, PlayStep::FindVoiceChannel {
            announce: Some("Playing "@ + title + " url "@ + w),
        }),
        parsed_url(w) is None ==> play_transition(
            PlayStage::FetchingWatchUrl { title },
            PlayNews::WatchUrlFetched { url: Some(w) },
        ) == (PlayStage::Done, PlayStep::Abort { announcement: "Playing "@ + title + " url "@ + w }),
{
}

/// The bot joins the caller's voice channel, and replies "Not in a voice
/// channel" where the caller is in none; it then fetches the audio of the
/// very address it was asked to play, and plays it once fetched, or
/// replies "Error creating source".
pub proof fn law_voice_channel_and_audio(url: Seq<char>, c: u64)
    ensures
        play_transition(
            PlayStage::FindingVoiceChannel { url },
            PlayNews::VoiceChannelFound { channel: Some(c) },
        ) == (PlayStage::Joining { url }, PlayStep::Join { channel: c }),
        play_transition(
            PlayStage::FindingVoiceChannel { url },
            PlayNews::VoiceChannelFound { channel: None },
        ) == (PlayStage::Done, PlayStep::Reply { text: "Not in a voice channel"@ }),
        play_transition(PlayStage::Joining { url }, PlayNews::CallFound { found: true }) == (
        PlayStage::CreatingSource, PlayStep::CreateSource { url }),
        play_transition(PlayStage::Joining { url }, PlayNews::CallFound { found: false }) == (
        PlayStage::Done, PlayStep::Nothing),
        play_transition(PlayStage::CreatingSource, PlayNews::SourceCreated { ok: true }) == (
        PlayStage::Done, PlayStep::PlaySource),
        play_transition(PlayStage::CreatingSource, PlayNews::SourceCreated { ok: false }) == (
        PlayStage::Done, PlayStep::Reply { text: "Error creating source"@ }),
{
}

/// A search that fails or finds nothing is answered "Song not found", and
/// so is a watch address that cannot be fetched.
pub proof fn law_nothing_found_replies(title: Seq<char>)
    ensures
        play_transition(PlayStage::Searching, PlayNews::SearchFinished { hits: None }) == (
        PlayStage::Done, PlayStep::Reply { text: "Song not found"@ }),
        play_transition(
            PlayStage::Searching,
            PlayNews::SearchFinished { hits: Some(Seq::<SearchHit>::empty()) },
        ) == (PlayStage::Done, PlayStep::Reply { text: "Song not found"@ }),
        play_transition(
            PlayStage::FetchingWatchUrl { title },
            PlayNews::WatchUrlFetched { url: None },
        ) == (PlayStage::Done, PlayStep::Reply { text: "Song not found"@ }),
{
}

/// A request whose text, without its command word and trimmed, is no
/// address is searched for, with every "play" taken out of it; one that
/// is an address goes straight to the voice channel.
pub proof fn law_request_routes(r: Seq<char>)
    ensures
        parsed_url(trim(strip_prefix(r, "play"@))) is None ==> play_transition(
            PlayStage::Start,
            PlayNews::Requested { query: r },
        ) == (PlayStage::Searching, PlayStep::Search { query: trim(remove_all(r, "play"@)) }),
        parsed_url(trim(strip_prefix(r, "play"@))) matches Some(u) ==> play_transition(
            PlayStage::Start,
            PlayNews::Requested { query: r },
        ) == (PlayStage::FindingVoiceChannel { url: u }, PlayStep::FindVoiceChannel {
            announce: None,
        }),
{
}

} // verus!
