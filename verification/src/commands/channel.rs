//! The `slow_mode` command: sets the slow-mode rate of a channel, or
//! reports the rate it has.

use vstd::prelude::*;
use vstd::string::*;

use crate::arguments::Arguments;
use crate::text::{decimal, decimal_string, parse_u64, unsigned};

verus! {

/// What `slow_mode` was asked to do.
#[derive(Clone, Copy, Debug, PartialEq, Eq)]
pub enum SlowMode {
    /// Set the rate to this many seconds.
    Change(u64),
    /// Change nothing and report the rate that the channel has.
    Report,
}

/// What `slow_mode` is asked by these arguments: to set the rate where the
/// first argument is a number, to report otherwise.
pub open spec fn slow_mode_request(tokens: Seq<Seq<char>>) -> SlowMode {
    if tokens.len() > 0 && unsigned(tokens[0]) is Some {
        SlowMode::Change(unsigned(tokens[0]).unwrap())
    } else {
        SlowMode::Report
    }
}

/// The answer once the channel was asked to take the new rate.
pub open spec fn slow_mode_set_reply(seconds: u64, done: bool) -> Seq<char> {
    if done {
        "Successfully set slow mode rate to `"@ + decimal(seconds as nat) + "` seconds."@
    } else {
        "Failed to set slow mode to `"@ + decimal(seconds as nat) + "` seconds."@
    }
}

/// The answer that reports the rate. `channel` is `None` where the channel
/// is not known, and holds the rate of a known channel, `None` for one
/// that has none set.
pub open spec fn slow_mode_report_reply(channel: Option<Option<u64>>) -> Seq<char> {
    match channel {
        Some(rate) => "Current slow mode rate is `"@ + decimal(
            (match rate {
                Some(seconds) => seconds,
                None => 0,
            }) as nat,
        ) + "` seconds."@,
        None => "Failed to find channel in cache."@,
    }
}

/// Reads what `slow_mode` is asked to do.
pub fn slow_mode(arguments: &Arguments) -> (request: SlowMode)
    ensures
        request == slow_mode_request(arguments.tokens.deep_view()),
{
    if arguments.tokens.len() > 0 {
        assert(arguments.tokens.deep_view()[0] == arguments.tokens[0]@);
        match parse_u64(arguments.tokens[0].as_str()) {
            Some(seconds) => SlowMode::Change(seconds),
            None => SlowMode::Report,
        }
    } else {
        SlowMode::Report
    }
}

/// Says whether the rate was set.
pub fn slow_mode_set(seconds: u64, done: bool) -> (reply: String)
    ensures
        reply@ == slow_mode_set_reply(seconds, done),
{
    let mut reply = if done {
        String::from_str("Successfully set slow mode rate to `")
    } else {
        String::from_str("Failed to set slow mode to `")
    };
    reply.append(decimal_string(seconds).as_str());
    reply.append("` seconds.");
    reply
}

/// Reports the rate of the channel, or that the channel is not known.
pub fn slow_mode_report(channel: Option<Option<u64>>) -> (reply: String)
    ensures
        reply@ == slow_mode_report_reply(channel),
{
    match channel {
        Some(rate) => {
            let seconds: u64 = match rate {
                Some(seconds) => seconds,
                None => 0,
            };
            let mut reply = String::from_str("Current slow mode rate is `");
            reply.append(decimal_string(seconds).as_str());
            reply.append("` seconds.");
            reply
        },
        None => String::from_str("Failed to find channel in cache."),
    }
}

} // verus!
