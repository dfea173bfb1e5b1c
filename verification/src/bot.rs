use vstd::prelude::*;

use crate::openai::ChatMessage;
use crate::parser::{close_tag, free_of, law_tagged_song_found, open_tag, lemma_song_at, parse_songs_from_string, song_at, songs, string_views, untagged};
use crate::text::{begins_with, chars_of, tag_at};

verus! {

/// What a message asks of the bot.
#[derive(Debug, Clone, Copy, PartialEq, Eq, Structural)]
pub enum Command {
    /// The bot was mentioned: the model answers and its first suggested
    /// song, if any, is played.
    Chat,
    /// `play ...`: play a song.
    Play,
    /// `stop ...`: stop the music.
    Stop,
    /// `skip ...`: skip the current song.
    Skip,
    /// Nothing for the bot.
    Ignore,
}

/// The command a message asks for: a mention makes it a chat, whatever
/// it says; otherwise the word it starts with decides.
pub open spec fn command_of(content: Seq<char>, mentioned: bool) -> Command {
    if mentioned {
        Command::Chat
    } else if begins_with(content, "play"@) {
        Command::Play
    } else if begins_with(content, "stop"@) {
        Command::Stop
    } else if begins_with(content, "skip"@) {
        Command::Skip
    } else {
        Command::Ignore
    }
}

fn starts_with_word(cs: &Vec<char>, word: &str) -> (r: bool)
    ensures
        r == begins_with(cs@, word@),
{
    let w = chars_of(word);
    assert(cs@.skip(0) =~= cs@);
    tag_at(cs, 0, &w)
}

/// The command a message with text `content` asks for; `mentioned` tells
/// whether it mentions the bot.
pub fn command_for(content: &str, mentioned: bool) -> (r: Command)
    ensures
        r == command_of(content@, mentioned),
{
    if mentioned {
        return Command::Chat;
    }
    let cs = chars_of(content);
    if starts_with_word(&cs, "play") {
        Command::Play
    } else if starts_with_word(&cs, "stop") {
        Command::Stop
    } else if starts_with_word(&cs, "skip") {
        Command::Skip
    } else {
        Command::Ignore
    }
}

/// The conversation the model is asked to answer: the message, from the
/// user.
pub fn user_chat(content: &str) -> (r: Vec<ChatMessage>)
    ensures
        r@.len() == 1,
        r@[0].role@ == "user"@,
        r@[0].content@ == content@,
{
    let mut v: Vec<ChatMessage> = Vec::new();
    v.push(ChatMessage { role: String::from_str("user"), content: String::from_str(content) });
    v
}

/// What the bot does with the model's answer.
#[derive(Debug)]
pub struct ChatReply {
    /// The answer said in the channel, its song tags taken out.
    pub text: String,
    /// The first song it suggests, to be played.
    pub song: Option<String>,
}

/// The first song an answer suggests, if any.
pub open spec fn first_song(answer: Seq<char>) -> Option<Seq<char>> {
    if songs(answer).len() > 0 {
        Some(songs(answer)[0])
    } else {
        None
    }
}

/// The text to say for the model's `answer` and the song to play.
pub fn chat_reply(answer: &str) -> (r: ChatReply)
    ensures
        r.text@ == untagged(answer@),
        match r.song {
            Some(s) => first_song(answer@) == Some(s@),
            None => first_song(answer@) is None,
        },
{
    let (found, text) = parse_songs_from_string(answer);
    let song = if found.len() > 0 {
        assert(string_views(found@)[0] == found@[0]@);
        Some(found[0].clone())
    } else {
        None
    };
    ChatReply { text, song }
}

/// `t` stands somewhere in `u`.
pub open spec fn appears_in(t: Seq<char>, u: Seq<char>) -> bool {
    exists|k: int| 0 <= k && k + t.len() <= u.len() && #[trigger] u.subrange(k, k + t.len()) == t
}

proof fn lemma_first_song_kept(a: Seq<char>)
    ensures
        first_song(a) is Some ==> appears_in(first_song(a).unwrap(), untagged(a)),
    decreases a.len(),
{
    if a.len() > 0 {
        lemma_song_at(a);
        match song_at(a) {
            Some(n) => {
                let t = a.subrange(6, 6 + n as int);
                assert(songs(a)[0] == t);
                let k0: int = 0;
                assert(untagged(a) == t + untagged(a.skip(13 + n as int)));
                assert(untagged(a).subrange(k0, k0 + t.len()) =~= t);
                assert(appears_in(t, untagged(a)));
            },
            None => {
                let r = a.skip(1);
                lemma_first_song_kept(r);
                assert(songs(a) == songs(r));
                if let Some(t) = first_song(a) {
                    let k = choose|k: int|
                        0 <= k && k + t.len() <= untagged(r).len() && #[trigger] untagged(
                            r,
                        ).subrange(k, k + t.len()) == t;
                    let k1 = k + 1;
                    assert(untagged(a) == seq![a[0]] + untagged(r));
                    assert(untagged(a).subrange(k1, k1 + t.len()) =~= untagged(r).subrange(
                        k,
                        k + t.len(),
                    ));
                    assert(appears_in(t, untagged(a)));
                }
            },
        }
    } else {
        assert(songs(a) == Seq::<Seq<char>>::empty());
    }
}

/// When the bot is mentioned, the song it plays is the first one the
/// model suggests, and its title is still there in the answer the bot
/// says.
pub proof fn law_played_song_is_in_reply(answer: Seq<char>)
    ensures
        first_song(answer) matches Some(t) ==> t == songs(answer)[0] && appears_in(
            t,
            untagged(answer),
        ),
{
    lemma_first_song_kept(answer);
}

/// A message that mentions the bot is a chat, whatever it says. Otherwise
/// a message that starts with "play", "stop" or "skip" is that command,
/// even when the word is all there is, and any other message is ignored.
pub proof fn law_command_by_first_word(c: Seq<char>)
    ensures
        command_of(c, true) == Command::Chat,
        begins_with(c, "play"@) ==> command_of(c, false) == Command::Play,
        begins_with(c, "stop"@) ==> command_of(c, false) == Command::Stop,
        begins_with(c, "skip"@) ==> command_of(c, false) == Command::Skip,
        !begins_with(c, "play"@) && !begins_with(c, "stop"@) && !begins_with(c, "skip"@)
            ==> command_of(c, false) == Command::Ignore,
        command_of("play"@, false) == Command::Play,
        command_of("stop"@, false) == Command::Stop,
        command_of("skip"@, false) == Command::Skip,
{
    reveal_strlit("play");
    reveal_strlit("stop");
    reveal_strlit("skip");
    if begins_with(c, "stop"@) {
        assert(c.take(4)[0] == 's');
        assert(!begins_with(c, "play"@));
    }
    if begins_with(c, "skip"@) {
        assert(c.take(4)[0] == 's');
        assert(c.take(4)[1] == 'k');
        assert(!begins_with(c, "play"@));
        assert(!begins_with(c, "stop"@));
    }
    assert("play"@.take(4) =~= "play"@);
    assert("stop"@.take(4) =~= "stop"@);
    assert("skip"@.take(4) =~= "skip"@);
    assert(!begins_with("stop"@, "play"@)) by {
        assert("stop"@.take(4)[0] != "play"@[0]);
    }
    assert(!begins_with("skip"@, "play"@)) by {
        assert("skip"@.take(4)[0] != "play"@[0]);
    }
    assert(!begins_with("skip"@, "stop"@)) by {
        assert("skip"@.take(4)[1] != "stop"@[1]);
    }
}

/// The song played after a mention is the first song the answer
/// suggests, whenever it suggests one; where it suggests none, nothing is
/// played.
pub proof fn law_first_suggestion_played(a: Seq<char>)
    ensures
        songs(a).len() > 0 ==> first_song(a) == Some(songs(a)[0]),
        songs(a).len() == 0 ==> first_song(a) is None,
{
}

/// An answer that suggests a song as `<SONG>title</SONG>`, after text in
/// which no song starts, has that song played: a one-line title with no
/// closing tag in it.
pub proof fn law_suggested_song_played(pre: Seq<char>, title: Seq<char>, post: Seq<char>)
    requires
        free_of(pre, open_tag()),
        !title.contains('\n'),
        free_of(title, close_tag()),
    ensures
        first_song(pre + open_tag() + title + close_tag() + post) == Some(title),
{
    law_tagged_song_found(pre, title, post);
}

/// Whether the bot leaves a call when someone's voice state changes: it
/// does when it is alone in the channel, the one member left.
pub fn should_leave_call(members: usize) -> (r: bool)
    ensures
        r == (members == 1),
{
    members == 1
}

/// Whether a skip request skips a song: only when something is queued.
pub fn should_skip(queue_len: usize) -> (r: bool)
    ensures
        r == (queue_len > 0),
{
    queue_len > 0
}

/// How long to wait before building the client again after a failure.
pub const RETRY_DELAY_SECS: u64 = 5;

/// What happened to the Discord client.
#[derive(Debug, Clone, Copy, PartialEq, Eq, Structural)]
pub enum ClientEvent {
    /// The client could not be built.
    BuildFailed,
    /// The client was built.
    Built,
    /// The client stopped with an error.
    RunFailed,
    /// The client stopped without error.
    Finished,
}

/// What to do next with the Discord client.
#[derive(Debug, Clone, Copy, PartialEq, Eq, Structural)]
pub enum ClientAction {
    /// Start the client just built.
    Start,
    /// Wait that many seconds, then build a client again.
    RetryAfter { seconds: u64 },
    /// Stop: the bot is done.
    Exit,
}

pub open spec fn client_next(e: ClientEvent) -> ClientAction {
    match e {
        ClientEvent::BuildFailed => ClientAction::RetryAfter { seconds: RETRY_DELAY_SECS },
        ClientEvent::Built => ClientAction::Start,
        ClientEvent::RunFailed => ClientAction::RetryAfter { seconds: RETRY_DELAY_SECS },
        ClientEvent::Finished => ClientAction::Exit,
    }
}

/// Only a client that stops without error ends the bot; every failure,
/// to build or to run it, is followed by a new attempt five seconds
/// later.
pub proof fn law_client_retries_until_finished(e: ClientEvent)
    ensures
        (client_next(e) == ClientAction::Exit) <==> (e == ClientEvent::Finished),
        (e == ClientEvent::BuildFailed || e == ClientEvent::RunFailed) ==> client_next(e)
            == (ClientAction::RetryAfter { seconds: 5 }),
        (e == ClientEvent::Built) ==> client_next(e) == ClientAction::Start,
{
}

/// The bot keeps its client running: a failure to build or run it is
/// followed by a new attempt five seconds later, and only a client that
/// stops without error ends the bot.
pub fn next_client_action(e: ClientEvent) -> (r: ClientAction)
    ensures
        r == client_next(e),
{
    match e {
        ClientEvent::BuildFailed => ClientAction::RetryAfter { seconds: RETRY_DELAY_SECS },
        ClientEvent::Built => ClientAction::Start,
        ClientEvent::RunFailed => ClientAction::RetryAfter { seconds: RETRY_DELAY_SECS },
        ClientEvent::Finished => ClientAction::Exit,
    }
}

} // verus!
