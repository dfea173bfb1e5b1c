use cringe_radio::args::{resolve_settings, Args};
use cringe_radio::bot::{
    chat_reply, command_for, next_client_action, should_leave_call, should_skip, user_chat,
    ClientAction, ClientEvent, Command, RETRY_DELAY_SECS,
};
use cringe_radio::openai::{completion_text, ChatMessage, CompletionChoice, CompletionResponse, CompletionUsage, Openai, OpenaiError, SYSTEM_MESSGE};

#[test]
fn commands() {
    assert_eq!(command_for("play despacito", false), Command::Play);
    assert_eq!(command_for("stop", false), Command::Stop);
    assert_eq!(command_for("skip it", false), Command::Skip);
    assert_eq!(command_for("hello", false), Command::Ignore);
    assert_eq!(command_for("Play x", false), Command::Ignore);
    assert_eq!(command_for(" play x", false), Command::Ignore);
    assert_eq!(command_for("", false), Command::Ignore);
    assert_eq!(command_for("play despacito", true), Command::Chat);
    assert_eq!(command_for("anything", true), Command::Chat);
}

#[test]
fn chat_conversation() {
    let chat = user_chat("feeling cute today");
    assert_eq!(chat.len(), 1);
    assert_eq!(chat[0].role, "user");
    assert_eq!(chat[0].content, "feeling cute today");
}

#[test]
fn chat_reply_plays_first_song() {
    let r = chat_reply("Try <SONG>despacito</SONG> or <SONG>rap god</SONG>!");
    assert_eq!(r.text, "Try despacito or rap god!");
    assert_eq!(r.song, Some("despacito".to_string()));
    let r = chat_reply("No songs today.");
    assert_eq!(r.text, "No songs today.");
    assert_eq!(r.song, None);
}

#[test]
fn leaving_and_skipping() {
    assert!(should_leave_call(1));
    assert!(!should_leave_call(0));
    assert!(!should_leave_call(2));
    assert!(should_skip(3));
    assert!(!should_skip(0));
}

#[test]
fn client_retry_policy() {
    assert_eq!(RETRY_DELAY_SECS, 5);
    assert_eq!(next_client_action(ClientEvent::BuildFailed), ClientAction::RetryAfter { seconds: 5 });
    assert_eq!(next_client_action(ClientEvent::RunFailed), ClientAction::RetryAfter { seconds: 5 });
    assert_eq!(next_client_action(ClientEvent::Built), ClientAction::Start);
    assert_eq!(next_client_action(ClientEvent::Finished), ClientAction::Exit);
}

fn args(d: Option<&str>, y: Option<&str>, o: Option<&str>) -> Args {
    Args {
        discord_apikey: d.map(|s| s.to_string()),
        youtube_apikey: y.map(|s| s.to_string()),
        openai_apikey: o.map(|s| s.to_string()),
    }
}

#[test]
fn settings_prefer_the_environment() {
    let s = resolve_settings(
        args(Some("arg-token"), Some("arg-yt"), Some("arg-ai")),
        Some("env-token".to_string()),
        None,
        Some("env-yt".to_string()),
    )
    .unwrap();
    assert_eq!(s.token, "env-token");
    assert_eq!(s.youtube_apikey, "env-yt");
    assert_eq!(s.openai_apikey, "arg-ai");
}

#[test]
fn settings_defaults() {
    let s = resolve_settings(args(Some("t"), None, None), None, None, None).unwrap();
    assert_eq!(s.token, "t");
    assert_eq!(s.openai_apikey, "");
    assert_eq!(s.youtube_apikey, "");
    assert!(resolve_settings(args(None, Some("y"), Some("o")), None, Some("x".to_string()), None).is_none());
}

fn message(role: &str, content: &str) -> ChatMessage {
    ChatMessage { role: role.to_string(), content: content.to_string() }
}

#[test]
fn chat_request_is_prepared() {
    let ai = Openai::new("sk-123");
    assert_eq!(ai.apikey, "sk-123");
    let req = ai.prepare_chat_completion(&vec![message("user", "hi"), message("assistant", "yo")]).unwrap();
    assert_eq!(req.endpoint, "https://api.openai.com/v1/chat/completions");
    assert_eq!(req.authorization, "Bearer sk-123");
    assert_eq!(req.content_type, "application/json");
    assert_eq!(req.body.model, "gpt-3.5-turbo");
    assert_eq!(req.body.messages.len(), 3);
    assert_eq!(req.body.messages[0].role, "system");
    assert_eq!(req.body.messages[0].content, SYSTEM_MESSGE);
    assert_eq!(req.body.messages[1].content, "hi");
    assert_eq!(req.body.messages[2].role, "assistant");
}

#[test]
fn chat_request_errors() {
    let err = Openai::new("").prepare_chat_completion(&vec![]).err().unwrap();
    assert_eq!(err, OpenaiError::NoApiKey);
    assert_eq!(err.describe(), "No API key");
    let err = Openai::new("bad\nkey").prepare_chat_completion(&vec![]).err().unwrap();
    assert_eq!(err, OpenaiError::InvalidHeader);
    assert!(Openai::new("ключ").prepare_chat_completion(&vec![]).is_ok());
    assert!(Openai::new("a\tb").prepare_chat_completion(&vec![]).is_ok());
    assert!(Openai::new("a\u{7f}b").prepare_chat_completion(&vec![]).is_err());
}

fn response(contents: &[&str]) -> CompletionResponse {
    CompletionResponse {
        id: "chatcmpl-123".to_string(),
        object: "chat.completion".to_string(),
        created: 1677652288,
        choices: contents
            .iter()
            .enumerate()
            .map(|(i, c)| CompletionChoice {
                index: i as i64,
                message: message("assistant", c),
                finish_reason: "stop".to_string(),
            })
            .collect(),
        usage: CompletionUsage { prompt_tokens: 9, completion_tokens: 12, total_tokens: 21 },
    }
}

#[test]
fn completion_text_is_first_choice() {
    assert_eq!(completion_text(&response(&["\n\nHello there", "other"])).unwrap(), "\n\nHello there");
    let err = completion_text(&response(&[])).err().unwrap();
    assert_eq!(err, OpenaiError::NoChoices);
    assert_eq!(err.describe(), "No choices in response");
}
