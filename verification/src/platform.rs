//! What the bot takes from the `serenity` and `serde_json` crates, and one
//! function of `String` that it needs beside them.
//!
//! Nothing in this file is proved: each function here calls into an outside
//! crate, and its contract is taken on trust from the source of what it
//! calls.

use serde_json::Value;
use serenity::framework::standard::{Args, Delimiter};
use serenity::model::guild::Emoji;
use serenity::model::id::UserId;
use serenity::model::misc::Mentionable;
use serenity::utils::MessageBuilder;
use vstd::prelude::*;

use crate::text::{decimal, has_prefix, unsigned};

verus! {

#[verifier::external_type_specification]
#[verifier::external_body]
pub struct ExJsonError(serde_json::Error);

/// The arguments that serenity's `Args::new` finds in `message` when it
/// splits at `delimiters`, in order, and beside them the text that its
/// `Args::rest` gives before any argument is taken.
pub uninterp spec fn split_arguments(message: Seq<char>, delimiters: Seq<Seq<char>>) -> (
    Seq<Seq<char>>,
    Seq<char>,
);

/// What comes of building the emoji with these fields by
/// `serde_json::from_value` and writing it with serenity's
/// `MessageBuilder::emoji`: its text, or nothing where it cannot be built.
pub uninterp spec fn rendered_emoji(
    name: Seq<char>,
    id: u64,
    animated: bool,
    managed: bool,
    colons: bool,
) -> Option<Seq<char>>;

/// How a user with this id is mentioned in a message.
pub open spec fn user_mention(id: u64) -> Seq<char> {
    "<@"@ + decimal(id as nat) + ">"@
}

/// How a custom emoji is written in a message.
pub open spec fn emoji_text(name: Seq<char>, id: u64, animated: bool) -> Seq<char> {
    (if animated {
        "<a:"@
    } else {
        "<:"@
    }) + name + ":"@ + decimal(id as nat) + ">"@
}

/// The id inside a user mention: what stands between `<@` or `<@!` and the
/// last character, read as a number. The last character itself is not
/// looked at.
pub open spec fn mention_id(s: Seq<char>) -> Option<u64> {
    if s.len() < 4 {
        None
    } else if has_prefix(s, "<@!"@) {
        unsigned(s.subrange(3, s.len() - 1))
    } else if has_prefix(s, "<@"@) {
        unsigned(s.subrange(2, s.len() - 1))
    } else {
        None
    }
}

/// The user id that `s` names: the id of a mention, or else `s` itself read
/// as a number.
pub open spec fn user_id_of(s: Seq<char>) -> Option<u64> {
    match mention_id(s) {
        Some(id) => Some(id),
        None => unsigned(s),
    }
}

/// Calls `Args::new` of serenity and reads the arguments and the rest out
/// of what it made. The contract gives that result its name and says no
/// more of it. With an empty delimiter `Args::new` does not return, so none
/// may be empty.
#[verifier::external_body]
pub(crate) fn split(message: &str, delimiters: &Vec<String>) -> (r: (Vec<String>, String))
    requires
        forall|i: int| 0 <= i < delimiters.len() ==> (#[trigger] delimiters[i])@.len() > 0,
    ensures
        r.0.deep_view() == split_arguments(message@, delimiters.deep_view()).0,
        r.1@ == split_arguments(message@, delimiters.deep_view()).1,
{
    let delimiters: Vec<Delimiter> = delimiters.iter().map(Delimiter::from).collect();
    let args = Args::new(message, &delimiters);
    (args.raw().map(String::from).collect(), args.rest().to_string())
}

/// Formats the mention of a user as serenity's `Mention` does: `<@`, the id
/// in decimal, `>`.
#[verifier::external_body]
pub(crate) fn mention(id: u64) -> (r: String)
    ensures
        r@ == user_mention(id),
{
    UserId(id).mention().to_string()
}

/// Builds an emoji from its JSON form with `serde_json::from_value` and lets
/// serenity's `MessageBuilder::emoji` write it. Whether the emoji can be
/// built depends on the fields alone, so the outcome has a name: the text
/// where it was built, and nothing where `from_value` gave an error. Where it
/// was built, the text is `<:`, or `<a:` for an animated one, then the name,
/// `:`, the id in decimal and `>`. Nothing is claimed about when it can be
/// built.
#[verifier::external_body]
pub(crate) fn render_emoji(name: &str, id: u64, animated: bool, managed: bool, colons: bool) -> (r:
    Result<String, serde_json::Error>)
    ensures
        match r {
            Ok(s) => rendered_emoji(name@, id, animated, managed, colons) == Some(s@),
            Err(_) => rendered_emoji(name@, id, animated, managed, colons) is None,
        },
        r matches Ok(s) ==> s@ == emoji_text(name@, id, animated),
{
    let mut fields = serde_json::Map::new();
    fields.insert("animated".to_string(), Value::from(animated));
    fields.insert("id".to_string(), Value::from(id));
    fields.insert("managed".to_string(), Value::from(managed));
    fields.insert("name".to_string(), Value::from(name));
    fields.insert("require_colons".to_string(), Value::from(colons));
    fields.insert("roles".to_string(), Value::Array(Vec::new()));
    let emoji = serde_json::from_value::<Emoji>(Value::Object(fields))?;
    Ok(MessageBuilder::new().emoji(&emoji).build())
}

/// Reads a user id as serenity's `UserId::from_str` does: a mention gives
/// the id inside it, anything else is read as a number. On text that is not
/// ASCII the outside function may panic, so such text is left out.
#[verifier::external_body]
pub(crate) fn parse_user_id(s: &str) -> (r: Option<u64>)
    requires
        vstd::utf8::is_ascii_chars(s@),
    ensures
        r == user_id_of(s@),
{
    s.parse::<UserId>().ok().map(|id| id.0)
}

/// `String::push`: appends one character.
#[verifier::external_body]
pub(crate) fn push_char(s: &mut String, c: char)
    ensures
        final(s)@ == old(s)@.push(c),
{
    s.push(c)
}

} // verus!
