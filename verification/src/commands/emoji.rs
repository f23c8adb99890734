//! Commands that answer with an emoji.

use vstd::prelude::*;
use vstd::string::*;

use crate::arguments::Arguments;
use crate::platform::{emoji_text, render_emoji, rendered_emoji};

verus! {

/// Why an emoji command has no answer.
#[derive(Clone, Copy, Debug, PartialEq, Eq)]
pub enum EmojiError {
    /// The emoji could not be built from its description.
    Malformed,
}

/// The answer of `bird`: an offer without arguments, a regret that quotes
/// them otherwise.
pub open spec fn bird_reply(tokens: Seq<Seq<char>>, rest: Seq<char>) -> Seq<char> {
    if tokens.len() == 0 {
        ":bird: can find animals for you."@
    } else {
        ":bird: could not find animal named: `"@ + rest + "`."@
    }
}

/// The answer of `cat`.
pub fn cat() -> (reply: String)
    ensures
        reply@ == ":cat:"@,
{
    String::from_str(":cat:")
}

/// The answer of `dog`.
pub fn dog() -> (reply: String)
    ensures
        reply@ == ":dog:"@,
{
    String::from_str(":dog:")
}

/// Turns the rendered emoji into the answer of `eggplant`: the text where
/// there is one, and `Malformed` where the emoji could not be built.
pub fn eggplant_answer(rendered: Result<String, serde_json::Error>) -> (reply: Result<
    String,
    EmojiError,
>)
    ensures
        reply == match rendered {
            Ok(text) => Ok::<String, EmojiError>(text),
            Err(_) => Err(EmojiError::Malformed),
        },
{
    match rendered {
        Ok(text) => Ok(text),
        Err(_) => Err(EmojiError::Malformed),
    }
}

/// What `eggplant` answers for what came of rendering its emoji: the text
/// where there is one, and `Malformed` where the emoji could not be built.
pub open spec fn eggplant_reply(rendered: Option<Seq<char>>) -> Result<Seq<char>, EmojiError> {
    match rendered {
        Some(text) => Ok(text),
        None => Err(EmojiError::Malformed),
    }
}

/// The answer of `eggplant`: one custom emoji, not animated, that is called
/// `baklazan`. The command succeeds exactly when that emoji can be built,
/// which is decided outside, and its answer is then the text of the emoji.
pub fn eggplant() -> (reply: Result<String, EmojiError>)
    ensures
        eggplant_reply(rendered_emoji("baklazan"@, 815856883771506768, false, false, false))
            == match reply {
            Ok(text) => Ok::<Seq<char>, EmojiError>(text@),
            Err(e) => Err(e),
        },
        reply matches Ok(text) ==> text@ == emoji_text("baklazan"@, 815856883771506768, false),
{
    eggplant_answer(render_emoji("baklazan", 815856883771506768, false, false, false))
}

/// The answer of `bird`.
pub fn bird(arguments: &Arguments) -> (reply: String)
    ensures
        reply@ == bird_reply(arguments.tokens.deep_view(), arguments.rest@),
{
    if arguments.tokens.len() == 0 {
        String::from_str(":bird: can find animals for you.")
    } else {
        let mut reply = String::from_str(":bird: could not find animal named: `");
        reply.append(arguments.rest.as_str());
        reply.append("`.");
        reply
    }
}

} // verus!
