//! A Discord music bot's decision logic: song tags in chat replies,
//! command dispatch, request preparation for the chat completion and
//! video search services, the course of a play request, and the
//! connection retry policy.

pub mod args;
pub mod bot;
pub mod openai;
pub mod parser;
pub mod play;
pub mod text;
pub mod youtube;
