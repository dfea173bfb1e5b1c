use cringe_radio::play::{play_address, play_query, play_step, PlayAction, PlayEvent, PlayState};
use cringe_radio::text::{remove_all_of, trim_of};
use cringe_radio::youtube::SearchResult;

fn hit(id: &str, title: &str) -> SearchResult {
    SearchResult { id: id.to_string(), title: title.to_string(), thumbnail_url: "t".to_string() }
}

#[test]
fn removes_every_play() {
    assert_eq!(remove_all_of("play play", "play"), " ");
    assert_eq!(remove_all_of("plplayay", "play"), "play");
    assert_eq!(remove_all_of("Coldplay - Yellow", "play"), "Cold - Yellow");
    assert_eq!(remove_all_of("abc", ""), "abc");
}

#[test]
fn trims_white_space() {
    assert_eq!(trim_of("  a b \t\n"), "a b");
    assert_eq!(trim_of(" \u{3000}x\u{a0}"), "x");
    assert_eq!(trim_of("   "), "");
    assert_eq!(trim_of(""), "");
}

#[test]
fn query_of_request() {
    assert_eq!(play_query("play   despacito  "), "despacito");
    assert_eq!(play_query("play https://youtu.be/x"), "https://youtu.be/x");
    assert_eq!(play_query("Coldplay"), "Cold");
}

#[test]
fn address_is_played_directly() {
    let (state, action) = play_step(
        PlayState::Start,
        PlayEvent::Requested { query: "play https://example.com".to_string() },
    );
    assert_eq!(state, PlayState::FindingVoiceChannel { url: "https://example.com/".to_string() });
    assert_eq!(action, PlayAction::FindVoiceChannel { announce: None });
}

#[test]
fn words_are_searched() {
    let (state, action) = play_step(
        PlayState::Start,
        PlayEvent::Requested { query: "play despacito".to_string() },
    );
    assert_eq!(state, PlayState::Searching);
    assert_eq!(action, PlayAction::Search { query: "despacito".to_string() });
}

#[test]
fn failed_or_empty_search_is_not_found() {
    let (state, action) =
        play_step(PlayState::Searching, PlayEvent::SearchFinished { hits: None });
    assert_eq!(state, PlayState::Done);
    assert_eq!(action, PlayAction::Reply { text: "Song not found".to_string() });
    let (state, action) =
        play_step(PlayState::Searching, PlayEvent::SearchFinished { hits: Some(vec![]) });
    assert_eq!(state, PlayState::Done);
    assert_eq!(action, PlayAction::Reply { text: "Song not found".to_string() });
}

#[test]
fn first_hit_is_fetched() {
    let (state, action) = play_step(
        PlayState::Searching,
        PlayEvent::SearchFinished { hits: Some(vec![hit("abc", "Despacito"), hit("def", "Other")]) },
    );
    assert_eq!(state, PlayState::FetchingWatchUrl { title: "Despacito".to_string() });
    assert_eq!(action, PlayAction::FetchWatchUrl { video_id: "abc".to_string() });
}

#[test]
fn watch_address_is_announced() {
    let (state, action) = play_step(
        PlayState::FetchingWatchUrl { title: "Despacito".to_string() },
        PlayEvent::WatchUrlFetched { url: Some("https://www.youtube.com/watch?v=abc".to_string()) },
    );
    assert_eq!(
        state,
        PlayState::FindingVoiceChannel { url: "https://www.youtube.com/watch?v=abc".to_string() }
    );
    assert_eq!(
        action,
        PlayAction::FindVoiceChannel {
            announce: Some("Playing Despacito url https://www.youtube.com/watch?v=abc".to_string())
        }
    );
}

#[test]
fn missing_watch_address_is_not_found() {
    let (state, action) = play_step(
        PlayState::FetchingWatchUrl { title: "Despacito".to_string() },
        PlayEvent::WatchUrlFetched { url: None },
    );
    assert_eq!(state, PlayState::Done);
    assert_eq!(action, PlayAction::Reply { text: "Song not found".to_string() });
}

#[test]
fn bad_watch_address_gives_up_after_announcing() {
    let (state, action) = play_step(
        PlayState::FetchingWatchUrl { title: "T".to_string() },
        PlayEvent::WatchUrlFetched { url: Some("no address".to_string()) },
    );
    assert_eq!(state, PlayState::Done);
    assert_eq!(action, PlayAction::Abort { announcement: "Playing T url no address".to_string() });
}

#[test]
fn voice_channel_is_needed() {
    let url = "https://example.com/".to_string();
    let (state, action) = play_step(
        PlayState::FindingVoiceChannel { url: url.clone() },
        PlayEvent::VoiceChannelFound { channel: None },
    );
    assert_eq!(state, PlayState::Done);
    assert_eq!(action, PlayAction::Reply { text: "Not in a voice channel".to_string() });
    let (state, action) = play_step(
        PlayState::FindingVoiceChannel { url: url.clone() },
        PlayEvent::VoiceChannelFound { channel: Some(42) },
    );
    assert_eq!(state, PlayState::Joining { url: url.clone() });
    assert_eq!(action, PlayAction::Join { channel: 42 });
}

#[test]
fn call_and_source() {
    let url = "https://example.com/".to_string();
    let (state, action) =
        play_step(PlayState::Joining { url: url.clone() }, PlayEvent::CallFound { found: false });
    assert_eq!(state, PlayState::Done);
    assert_eq!(action, PlayAction::Nothing);
    let (state, action) =
        play_step(PlayState::Joining { url: url.clone() }, PlayEvent::CallFound { found: true });
    assert_eq!(state, PlayState::CreatingSource);
    assert_eq!(action, PlayAction::CreateSource { url: url.clone() });
    let (state, action) =
        play_step(PlayState::CreatingSource, PlayEvent::SourceCreated { ok: false });
    assert_eq!(state, PlayState::Done);
    assert_eq!(action, PlayAction::Reply { text: "Error creating source".to_string() });
    let (state, action) =
        play_step(PlayState::CreatingSource, PlayEvent::SourceCreated { ok: true });
    assert_eq!(state, PlayState::Done);
    assert_eq!(action, PlayAction::PlaySource);
}

#[test]
fn finished_request_stays_finished() {
    let (state, action) = play_step(PlayState::Done, PlayEvent::SourceCreated { ok: true });
    assert_eq!(state, PlayState::Done);
    assert_eq!(action, PlayAction::Nothing);
    let (state, action) =
        play_step(PlayState::Searching, PlayEvent::CallFound { found: true });
    assert_eq!(state, PlayState::Done);
    assert_eq!(action, PlayAction::Nothing);
}

#[test]
fn whole_request_ends_within_six_steps() {
    let mut state = PlayState::Start;
    let mut event = PlayEvent::Requested { query: "play despacito".to_string() };
    let mut steps = 0;
    loop {
        let (next, action) = play_step(state, event);
        steps += 1;
        state = next;
        event = match action {
            PlayAction::Search { .. } => PlayEvent::SearchFinished { hits: Some(vec![hit("abc", "D")]) },
            PlayAction::FetchWatchUrl { video_id } => PlayEvent::WatchUrlFetched {
                url: Some(format!("https://www.youtube.com/watch?v={}", video_id)),
            },
            PlayAction::FindVoiceChannel { .. } => PlayEvent::VoiceChannelFound { channel: Some(1) },
            PlayAction::Join { .. } => PlayEvent::CallFound { found: true },
            PlayAction::CreateSource { url } => {
                assert_eq!(url, "https://www.youtube.com/watch?v=abc");
                PlayEvent::SourceCreated { ok: true }
            }
            PlayAction::PlaySource => break,
            other => panic!("unexpected {:?}", other),
        };
    }
    assert_eq!(state, PlayState::Done);
    assert_eq!(steps, 6);
}

#[test]
fn address_of_request() {
    assert_eq!(play_address("play  https://youtu.be/playAbCdEfG "), "https://youtu.be/playAbCdEfG");
    assert_eq!(play_address("Coldplay - Yellow"), "Coldplay - Yellow");
    assert_eq!(play_address("playplay"), "play");
}

#[test]
fn address_holding_play_is_played_unchanged() {
    let (state, action) = play_step(
        PlayState::Start,
        PlayEvent::Requested { query: "play https://www.youtube.com/watch?v=playAbCdEfG".to_string() },
    );
    assert_eq!(
        state,
        PlayState::FindingVoiceChannel { url: "https://www.youtube.com/watch?v=playAbCdEfG".to_string() }
    );
    assert_eq!(action, PlayAction::FindVoiceChannel { announce: None });
}

#[test]
fn words_holding_play_are_searched_without_it() {
    let (state, action) = play_step(
        PlayState::Start,
        PlayEvent::Requested { query: "play Coldplay Yellow".to_string() },
    );
    assert_eq!(state, PlayState::Searching);
    assert_eq!(action, PlayAction::Search { query: "Cold Yellow".to_string() });
}
