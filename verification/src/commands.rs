//! What each command answers. Every function here takes plain values and
//! gives plain values back: fetching and sending is left to the caller.

use vstd::prelude::*;

use crate::registry::Handler;

pub mod activity;
pub mod channel;
pub mod do_you_know;
pub mod emoji;
pub mod general;
pub mod help;
pub mod mute;
pub mod systems;
pub mod version;

verus! {

/// Where the answer of a command goes.
#[derive(Clone, Copy, Debug, PartialEq, Eq)]
pub enum Delivery {
    /// To the author, as a reply to the message.
    Reply,
    /// To the channel that the message came from.
    Say,
    /// Nowhere: the answer becomes the activity that the bot shows.
    Presence,
}

/// Where the answer of `handler` goes.
pub open spec fn delivery_of(handler: Handler) -> Delivery {
    match handler {
        Handler::DoYouKnow | Handler::Version | Handler::Mac | Handler::Linux | Handler::Windows
        | Handler::Mute | Handler::Unmute | Handler::Muted => Delivery::Reply,
        Handler::Ping | Handler::Cat | Handler::Dog | Handler::Eggplant | Handler::Bird
        | Handler::SlowMode | Handler::Help => Delivery::Say,
        Handler::Play => Delivery::Presence,
    }
}

/// Says where the answer of `handler` goes.
pub fn delivery(handler: Handler) -> (r: Delivery)
    ensures
        r == delivery_of(handler),
{
    match handler {
        Handler::DoYouKnow => Delivery::Reply,
        Handler::Version => Delivery::Reply,
        Handler::Mac => Delivery::Reply,
        Handler::Linux => Delivery::Reply,
        Handler::Windows => Delivery::Reply,
        Handler::Mute => Delivery::Reply,
        Handler::Unmute => Delivery::Reply,
        Handler::Muted => Delivery::Reply,
        Handler::Ping => Delivery::Say,
        Handler::Cat => Delivery::Say,
        Handler::Dog => Delivery::Say,
        Handler::Eggplant => Delivery::Say,
        Handler::Bird => Delivery::Say,
        Handler::SlowMode => Delivery::Say,
        Handler::Help => Delivery::Say,
        Handler::Play => Delivery::Presence,
    }
}

} // verus!
