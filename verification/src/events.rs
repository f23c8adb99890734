//! What the bot does on the events of its connection, apart from commands.

use vstd::prelude::*;
use vstd::string::*;

use crate::commands::version::{shrug, unresolved};
use crate::text::{decimal, decimal_string, same_text};

verus! {

/// A message to send to a channel.
pub struct Announcement {
    pub channel: u64,
    pub text: String,
}

/// The channel that hears of a new deployment.
pub open spec fn general_channel() -> u64 {
    602839072985055237
}

/// The greeting sent after a deployment. It names the version unless the
/// version is missing or was never filled in.
pub open spec fn greeting(version: Option<Seq<char>>) -> Seq<char> {
    match version {
        Some(v) => if v != unresolved() {
            "Dzień doberek. Właśnie została zdeployowana moja nowa wersja: "@ + v
        } else {
            "Dzień doberek"@
        },
        None => "Dzień doberek"@,
    }
}

/// The environment the bot runs in where none is configured.
pub open spec fn environment_or_default(environment: Option<Seq<char>>) -> Seq<char> {
    match environment {
        Some(e) => e,
        None => "development"@,
    }
}

/// The question that the bot answers outside of any command.
pub open spec fn price_question(bot: u64) -> Seq<char> {
    "<@!"@ + decimal(bot as nat) + "> po ile schab?"@
}

/// The answer to the price question, which depends on who asks.
pub open spec fn price_answer(author: Seq<char>) -> Seq<char> {
    if author == "bartsmykla"@ {
        "dla Ciebie dycha"@
    } else {
        "nie stać cię"@
    }
}

/// The view of an optional text.
pub open spec fn text_of(s: Option<&str>) -> Option<Seq<char>> {
    match s {
        Some(s) => Some(s@),
        None => None,
    }
}

/// Once the cache is ready: in production the bot greets the general
/// channel, anywhere else it stays silent.
pub fn cache_ready(environment: Option<&str>, version: Option<&str>) -> (r: Option<Announcement>)
    ensures
        r is Some <==> environment_or_default(text_of(environment)) == "production"@,
        r matches Some(a) ==> a.channel == general_channel() && a.text@ == greeting(
            text_of(version),
        ),
{
    let environment = match environment {
        Some(e) => e,
        None => "development",
    };
    if !same_text(environment, "production") {
        return None;
    }
    let text = match version {
        Some(v) => if !same_text(v, "{{version}}") {
            let mut text = String::from_str(
                "Dzień doberek. Właśnie została zdeployowana moja nowa wersja: ",
            );
            text.append(v);
            text
        } else {
            String::from_str("Dzień doberek")
        },
        None => String::from_str("Dzień doberek"),
    };
    Some(Announcement { channel: 602839072985055237, text })
}

/// On any message: the price question, asked with a mention of the bot, is
/// answered; nothing else is.
pub fn message(content: &str, bot: u64, author: &str) -> (reply: Option<String>)
    ensures
        reply is Some <==> content@ == price_question(bot),
        reply matches Some(text) ==> text@ == price_answer(author@),
{
    let mut question = String::from_str("<@!");
    question.append(decimal_string(bot).as_str());
    question.append("> po ile schab?");
    if !same_text(content, question.as_str()) {
        return None;
    }
    if same_text(author, "bartsmykla") {
        Some(String::from_str("dla Ciebie dycha"))
    } else {
        Some(String::from_str("nie stać cię"))
    }
}

/// Once connected: the bot shows the version it runs as its activity, or
/// the shrug where no version is configured.
pub fn ready(version: Option<&str>) -> (activity: String)
    ensures
        activity@ == match version {
            Some(v) => v@,
            None => shrug(),
        },
{
    match version {
        Some(v) => String::from_str(v),
        None => String::from_str("¯\\_(ツ)_/¯"),
    }
}

} // verus!
