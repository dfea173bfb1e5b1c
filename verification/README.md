# cringe_radio

A Discord bot that plays music in a voice channel: `play <address or words>`
plays a YouTube video's sound, `skip` and `stop` manage the queue, and a
message that mentions the bot is answered by a chat model whose song
suggestions, written `<SONG>title</SONG>`, are played.

- `src/` is the verified library (Verus): the song tag grammar
  (`parser`), command dispatch and chat replies (`bot`), the course of a
  play request as a state machine (`play`), the chat completion request
  and answer (`openai`), the YouTube request addresses and the reading of
  its answers (`youtube`), the settings (`args`) and text helpers (`text`).
- `app/` is the program around it: Discord, songbird, HTTP and the
  command line.
- `tests/` runs the library on concrete values.

Running the bot needs `youtube-dl` (or `yt-dlp` under that name) and
`ffmpeg`, and a Discord token with the message content intent.
