//! The `play` command, which sets what the bot is shown to be playing.

use vstd::prelude::*;
use vstd::string::*;

use crate::platform::{mention, user_mention};
use crate::text::{from_chars, replace_all, replaced, to_chars};

verus! {

/// A user mentioned in a message.
pub struct User {
    pub id: u64,
    pub name: String,
}

/// The activity that `play` sets: the text after the command, with the
/// mention of each mentioned user replaced by that user's name, one user
/// after another.
pub open spec fn activity_name(text: Seq<char>, mentions: Seq<User>) -> Seq<char>
    decreases mentions.len(),
{
    if mentions.len() == 0 {
        text
    } else {
        replaced(
            activity_name(text, mentions.drop_last()),
            user_mention(mentions.last().id),
            mentions.last().name@,
        )
    }
}

/// The name of the activity to set. Mentions are written out as names, so
/// that the presence reads as the message did.
pub fn play(text: &str, mentions: &Vec<User>) -> (name: String)
    ensures
        name@ == activity_name(text@, mentions@),
{
    let mut name = to_chars(text);
    let mut i: usize = 0;
    while i < mentions.len()
        invariant
            i <= mentions.len(),
            name@ == activity_name(text@, mentions@.take(i as int)),
        decreases mentions.len() - i,
    {
        let from = to_chars(mention(mentions[i].id).as_str());
        let to = to_chars(mentions[i].name.as_str());
        name = replace_all(&name, &from, &to);
        assert(mentions@.take(i + 1).drop_last() == mentions@.take(i as int));
        assert(mentions@.take(i + 1).last() == mentions@[i as int]);
        i += 1;
    }
    assert(mentions@.take(i as int) == mentions@);
    from_chars(&name)
}

} // verus!
