use vstd::prelude::*;

use crate::text::opt_view;

verus! {

/// The keys given on the command line, each optional.
#[derive(Debug, Clone)]
pub struct Args {
    pub discord_apikey: Option<String>,
    pub youtube_apikey: Option<String>,
    pub openai_apikey: Option<String>,
}

/// The keys the bot runs with.
#[derive(Debug, Clone)]
pub struct Settings {
    pub token: String,
    pub openai_apikey: String,
    pub youtube_apikey: String,
}

/// A setting from the environment wins over one from the command line.
pub open spec fn pick(env: Option<Seq<char>>, arg: Option<Seq<char>>) -> Option<Seq<char>> {
    match env {
        Some(e) => Some(e),
        None => arg,
    }
}

/// A key that may be missing stands for the empty key.
pub open spec fn or_empty(o: Option<Seq<char>>) -> Seq<char> {
    match o {
        Some(s) => s,
        None => Seq::empty(),
    }
}

fn prefer_env(env: Option<String>, arg: Option<String>) -> (r: Option<String>)
    ensures
        opt_view(r) == pick(opt_view(env), opt_view(arg)),
{
    match env {
        Some(e) => Some(e),
        None => arg,
    }
}

fn prefer_env_or_empty(env: Option<String>, arg: Option<String>) -> (r: String)
    ensures
        r@ == or_empty(pick(opt_view(env), opt_view(arg))),
{
    match prefer_env(env, arg) {
        Some(s) => s,
        None => String::new(),
    }
}

/// The keys to run with, from the environment (`env_token`,
/// `env_openai`, `env_youtube`, where set) or else the command line.
/// The Discord token is needed: without one there are no settings. The
/// other two keys default to the empty key.
pub fn resolve_settings(
    args: Args,
    env_token: Option<String>,
    env_openai: Option<String>,
    env_youtube: Option<String>,
) -> (r: Option<Settings>)
    ensures
        match r {
            Some(s) => {
                &&& pick(opt_view(env_token), opt_view(args.discord_apikey)) == Some(s.token@)
                &&& s.openai_apikey@ == or_empty(
                    pick(opt_view(env_openai), opt_view(args.openai_apikey)),
                )
                &&& s.youtube_apikey@ == or_empty(
                    pick(opt_view(env_youtube), opt_view(args.youtube_apikey)),
                )
            },
            None => pick(opt_view(env_token), opt_view(args.discord_apikey)) is None,
        },
{
    let token = match prefer_env(env_token, args.discord_apikey) {
        Some(t) => t,
        None => {
            return None;
        },
    };
    let openai_apikey = prefer_env_or_empty(env_openai, args.openai_apikey);
    let youtube_apikey = prefer_env_or_empty(env_youtube, args.youtube_apikey);
    Some(Settings { token, openai_apikey, youtube_apikey })
}

/// A setting given in the environment is used whatever the command line
/// says; one missing from the environment is taken from the command line;
/// a key given nowhere is empty.
pub proof fn law_environment_wins(e: Seq<char>, arg: Option<Seq<char>>)
    ensures
        pick(Some(e), arg) == Some(e),
        pick(None, arg) == arg,
        or_empty(Some(e)) == e,
        or_empty(None) == Seq::<char>::empty(),
{
}

} // verus!
