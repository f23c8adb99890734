//! What the dispatcher computes, stated over sequences of characters: where
//! a command begins, what it resolves to, who may run it, and what comes of
//! it.

use vstd::prelude::*;

use crate::buckets::{after_restore, after_take, slot_of, take_answer, Bucket, Take};
use crate::dispatch::{Denial, Dispatch, Incoming, Settings, Ticket};
use crate::distance::suggested;
use crate::platform::user_mention;
use crate::registry::{is_called, passes, reason_text, Check, Command, Group, Handler, Registry};
use crate::text::{decimal, has_prefix, skip_spaces, word_end};

verus! {

/// `Dispatch` with its texts as sequences of characters.
pub ghost enum Outcome {
    Ignored,
    PrefixOnly,
    Unknown { name: Seq<char>, suggestion: Option<Seq<char>> },
    Denied { command: usize, denial: Denial },
    Limited { command: usize, remaining: u64, first_try: bool },
    Invoke {
        command: usize,
        handler: Handler,
        name: Seq<char>,
        arguments: Seq<char>,
        ticket: Option<Ticket>,
    },
}

impl View for Dispatch {
    type V = Outcome;

    open spec fn view(&self) -> Outcome {
        match *self {
            Dispatch::Ignored => Outcome::Ignored,
            Dispatch::PrefixOnly => Outcome::PrefixOnly,
            Dispatch::Unknown { name, suggestion } => Outcome::Unknown {
                name: name@,
                suggestion: match suggestion {
                    Some(s) => Some(s@),
                    None => None,
                },
            },
            Dispatch::Denied { command, denial } => Outcome::Denied { command, denial },
            Dispatch::Limited { command, remaining, first_try } => Outcome::Limited {
                command,
                remaining,
                first_try,
            },
            Dispatch::Invoke { command, handler, name, arguments, ticket } => Outcome::Invoke {
                command,
                handler,
                name: name@,
                arguments: arguments@,
                ticket,
            },
        }
    }
}

/// Where a message was resolved to.
pub ghost enum Resolved {
    /// To the command at `command`, found in the group at `group`; its
    /// arguments begin at `arguments`.
    Found { group: int, command: int, arguments: int },
    /// To nothing: the word from `from` to `to` names no command.
    Unknown { from: int, to: int },
}

/// How a user is mentioned by nickname.
pub open spec fn nick_mention(id: u64) -> Seq<char> {
    "<@!"@ + decimal(id as nat) + ">"@
}

/// The place of the first of `prefixes`, from `k` on, that `content` begins
/// with.
pub open spec fn literal_prefix(prefixes: Seq<Seq<char>>, content: Seq<char>, k: int) -> Option<int>
    decreases prefixes.len() - k,
{
    if k < 0 || k >= prefixes.len() {
        None
    } else if has_prefix(content, prefixes[k]) {
        Some(k)
    } else {
        literal_prefix(prefixes, content, k + 1)
    }
}

/// The length of the prefix that opens `content`: a mention of the bot, or
/// else the first configured prefix that `content` begins with. `None` where
/// it begins with none of them.
pub open spec fn prefix_len(settings: Settings, content: Seq<char>) -> Option<int> {
    if settings.mention is Some && has_prefix(content, user_mention(settings.mention.unwrap())) {
        Some(user_mention(settings.mention.unwrap()).len() as int)
    } else if settings.mention is Some && has_prefix(
        content,
        nick_mention(settings.mention.unwrap()),
    ) {
        Some(nick_mention(settings.mention.unwrap()).len() as int)
    } else {
        match literal_prefix(settings.prefixes.deep_view(), content, 0) {
            Some(k) => Some(settings.prefixes.deep_view()[k].len() as int),
            None => None,
        }
    }
}

/// Where reading goes on after something that ended at `from`.
pub open spec fn past_spaces(whitespace: bool, content: Seq<char>, from: int) -> int {
    if whitespace {
        skip_spaces(content, from)
    } else {
        from
    }
}

/// The word of `content` that begins at `from`.
pub open spec fn word_at(content: Seq<char>, from: int) -> Seq<char> {
    content.subrange(from, word_end(content, from))
}

/// The first command listed in `listed`, from `k` on, that is called `word`.
pub open spec fn find_command(
    commands: Seq<Command>,
    listed: Seq<usize>,
    word: Seq<char>,
    k: int,
) -> Option<int>
    decreases listed.len() - k,
{
    if k < 0 || k >= listed.len() {
        None
    } else if is_called(commands[listed[k] as int], word) {
        Some(listed[k] as int)
    } else {
        find_command(commands, listed, word, k + 1)
    }
}

/// Resolves what begins at `start` against the groups from `g` on. A group
/// with prefixes is entered where the first word is one of them: the next
/// word then names one of its commands, or else its default command runs,
/// or else nothing is found. A group without prefixes is searched for the
/// first word itself.
pub open spec fn resolve(
    registry: Registry,
    whitespace: bool,
    content: Seq<char>,
    start: int,
    g: int,
) -> Resolved
    decreases registry.groups.len() - g,
{
    if g < 0 || g >= registry.groups.len() {
        Resolved::Unknown { from: start, to: word_end(content, start) }
    } else {
        let group = registry.groups[g];
        let after = past_spaces(whitespace, content, word_end(content, start));
        if group.prefixes.len() > 0 {
            if group.prefixes.deep_view().contains(word_at(content, start)) {
                match find_command(registry.commands@, group.commands@, word_at(content, after), 0) {
                    Some(c) => Resolved::Found {
                        group: g,
                        command: c,
                        arguments: past_spaces(whitespace, content, word_end(content, after)),
                    },
                    None => match group.default_command {
                        Some(c) => Resolved::Found { group: g, command: c as int, arguments: after },
                        None => Resolved::Unknown { from: after, to: word_end(content, after) },
                    },
                }
            } else {
                resolve(registry, whitespace, content, start, g + 1)
            }
        } else {
            match find_command(registry.commands@, group.commands@, word_at(content, start), 0) {
                Some(c) => Resolved::Found { group: g, command: c, arguments: after },
                None => resolve(registry, whitespace, content, start, g + 1),
            }
        }
    }
}

/// The first of `checks`, from `k` on, that `author` does not pass.
pub open spec fn first_failed(checks: Seq<Check>, author: u64, k: int) -> Option<Check>
    decreases checks.len() - k,
{
    if k < 0 || k >= checks.len() {
        None
    } else if !passes(checks[k], author) {
        Some(checks[k])
    } else {
        first_failed(checks, author, k + 1)
    }
}

/// Why `author` may not run `command` of `group` here, if there is a
/// reason: the guild is asked for first, then the owners list, then the
/// checks of the group and of the command, in order.
pub open spec fn denial(
    group: Group,
    command: Command,
    owners: Set<u64>,
    author: u64,
    in_guild: bool,
) -> Option<Denial> {
    if (group.guild_only || command.guild_only) && !in_guild {
        Some(Denial::OnlyForGuilds)
    } else if (group.owners_only || command.owners_only) && !owners.contains(author) {
        Some(Denial::OnlyForOwners)
    } else {
        match first_failed(group.checks@, author, 0) {
            Some(check) => Some(Denial::CheckFailed(check)),
            None => match first_failed(command.checks@, author, 0) {
                Some(check) => Some(Denial::CheckFailed(check)),
                None => None,
            },
        }
    }
}

/// The place of the first bucket, from `k` on, with this name.
pub open spec fn bucket_named(buckets: Seq<Bucket>, name: Seq<char>, k: int) -> Option<int>
    decreases buckets.len() - k,
{
    if k < 0 || k >= buckets.len() {
        None
    } else if buckets[k].name() == name {
        Some(k)
    } else {
        bucket_named(buckets, name, k + 1)
    }
}

/// The place of the bucket that `command` draws on. A command without a
/// bucket, or with one that is not configured, is not limited.
pub open spec fn bucket_of(buckets: Seq<Bucket>, command: Command) -> Option<int> {
    match command.bucket {
        Some(name) => bucket_named(buckets, name@, 0),
        None => None,
    }
}

/// The names of the first `k` commands that `listed` lists.
pub open spec fn listed_names(commands: Seq<Command>, listed: Seq<usize>, k: int) -> Seq<Seq<char>>
    decreases k,
{
    if k <= 0 {
        Seq::empty()
    } else {
        listed_names(commands, listed, k - 1) + commands[listed[k - 1] as int].names.deep_view()
    }
}

/// The names of the commands of the first `g` groups: what can be
/// suggested.
pub open spec fn known_names(registry: Registry, g: int) -> Seq<Seq<char>>
    decreases g,
{
    if g <= 0 {
        Seq::empty()
    } else {
        known_names(registry, g - 1) + listed_names(
            registry.commands@,
            registry.groups[g - 1].commands@,
            registry.groups[g - 1].commands.len() as int,
        )
    }
}

/// The known name to suggest for `name`, if one is near enough.
pub open spec fn suggestion_for(
    registry: Registry,
    limit: usize,
    name: Seq<char>,
) -> Option<Seq<char>> {
    let known = known_names(registry, registry.groups.len() as int);
    match suggested(name, known, limit as nat) {
        Some(i) => Some(known[i]),
        None => None,
    }
}

/// What becomes of a command that was found, once checks and rate limit
/// have had their say.
pub open spec fn gated(
    registry: Registry,
    settings: Settings,
    buckets: Seq<Bucket>,
    message: Incoming,
    now: u64,
    group: int,
    command: int,
    arguments: int,
) -> Outcome {
    let the_command = registry.commands[command];
    match denial(registry.groups[group], the_command, settings.owners@, message.author, message.in_guild) {
        Some(d) => Outcome::Denied { command: command as usize, denial: d },
        None => match bucket_of(buckets, the_command) {
            Some(b) => match take_answer(
                slot_of(buckets[b].slots(), message.author),
                buckets[b].delay(),
                now,
            ) {
                Take::Granted { prior } => Outcome::Invoke {
                    command: command as usize,
                    handler: the_command.handler,
                    name: the_command.names[0]@,
                    arguments: message.content@.subrange(arguments, message.content@.len() as int),
                    ticket: Some(Ticket { bucket: b as usize, caller: message.author, prior }),
                },
                Take::Limited { remaining, first_try } => Outcome::Limited {
                    command: command as usize,
                    remaining,
                    first_try,
                },
            },
            None => Outcome::Invoke {
                command: command as usize,
                handler: the_command.handler,
                name: the_command.names[0]@,
                arguments: message.content@.subrange(arguments, message.content@.len() as int),
                ticket: None,
            },
        },
    }
}

/// The length of the prefix that opens `message`, if it is to be read at
/// all: where bots are ignored, what a bot wrote is not.
pub open spec fn opening_of(settings: Settings, message: Incoming) -> Option<int> {
    if settings.ignore_bots && message.from_bot {
        None
    } else {
        prefix_len(settings, message.content@)
    }
}

/// What the dispatcher makes of `message` at `now`.
pub open spec fn outcome(
    registry: Registry,
    settings: Settings,
    buckets: Seq<Bucket>,
    message: Incoming,
    now: u64,
) -> Outcome {
    let content = message.content@;
    match opening_of(settings, message) {
        None => Outcome::Ignored,
        Some(p) => {
            let start = past_spaces(settings.whitespace, content, p);
            if start >= content.len() {
                Outcome::PrefixOnly
            } else {
                match resolve(registry, settings.whitespace, content, start, 0) {
                    Resolved::Unknown { from, to } => Outcome::Unknown {
                        name: content.subrange(from, to),
                        suggestion: suggestion_for(
                            registry,
                            settings.suggestions,
                            content.subrange(from, to),
                        ),
                    },
                    Resolved::Found { group, command, arguments } => gated(
                        registry,
                        settings,
                        buckets,
                        message,
                        now,
                        group,
                        command,
                        arguments,
                    ),
                }
            }
        },
    }
}

/// The bucket that a dispatch asks for a token, and for whom: the bucket of
/// the command found, unless the author was denied before.
pub open spec fn asked(
    registry: Registry,
    settings: Settings,
    buckets: Seq<Bucket>,
    message: Incoming,
) -> Option<int> {
    let content = message.content@;
    match opening_of(settings, message) {
        None => None,
        Some(p) => {
            let start = past_spaces(settings.whitespace, content, p);
            if start >= content.len() {
                None
            } else {
                match resolve(registry, settings.whitespace, content, start, 0) {
                    Resolved::Unknown { from, to } => None,
                    Resolved::Found { group, command, arguments } => if denial(
                        registry.groups[group],
                        registry.commands[command],
                        settings.owners@,
                        message.author,
                        message.in_guild,
                    ) is Some {
                        None
                    } else {
                        bucket_of(buckets, registry.commands[command])
                    },
                }
            }
        },
    }
}

/// How the buckets stand after a dispatch that asked the bucket at `asked`,
/// if any, for a token of `caller`: that bucket has seen the request, and
/// nothing else has changed.
pub open spec fn took(
    before: Seq<Bucket>,
    after: Seq<Bucket>,
    asked: Option<int>,
    caller: u64,
    now: u64,
) -> bool {
    &&& after.len() == before.len()
    &&& forall|i: int|
        0 <= i < before.len() ==> {
            &&& (#[trigger] after[i]).name() == before[i].name()
            &&& after[i].delay() == before[i].delay()
            &&& after[i].slots() == if asked == Some(i) {
                after_take(before[i].slots(), before[i].delay(), caller, now)
            } else {
                before[i].slots()
            }
        }
}

/// How the buckets stand once the token of `ticket`, if there is one and it
/// is to be given back, is back: its bucket remembers of the caller what it
/// did before, and nothing else has changed.
pub open spec fn gave_back(
    before: Seq<Bucket>,
    after: Seq<Bucket>,
    ticket: Option<Ticket>,
) -> bool {
    &&& after.len() == before.len()
    &&& forall|i: int|
        0 <= i < before.len() ==> {
            &&& (#[trigger] after[i]).name() == before[i].name()
            &&& after[i].delay() == before[i].delay()
            &&& after[i].slots() == match ticket {
                Some(t) => if t.bucket == i {
                    after_restore(before[i].slots(), t.caller, t.prior)
                } else {
                    before[i].slots()
                },
                None => before[i].slots(),
            }
        }
}

/// Whether a handler gives its token back when it has done its work.
pub open spec fn refunds(handler: Handler) -> bool {
    handler == Handler::Cat || handler == Handler::Eggplant
}

/// Whether `content` begins with something that opens a command: a mention
/// of the bot, plain or by nickname, or one of the configured prefixes.
pub open spec fn recognized(settings: Settings, content: Seq<char>) -> bool {
    ||| settings.mention matches Some(bot) && has_prefix(content, user_mention(bot))
    ||| settings.mention matches Some(bot) && has_prefix(content, nick_mention(bot))
    ||| exists|k: int|
        0 <= k < settings.prefixes.len() && has_prefix(
            content,
            #[trigger] settings.prefixes.deep_view()[k],
        )
}

/// What a user is told of a name that no command bears.
pub open spec fn not_found_text(name: Seq<char>, suggestion: Option<Seq<char>>) -> Seq<char> {
    match suggestion {
        Some(known) => "Could not find: `"@ + name + "`. Did you mean `"@ + known + "`?"@,
        None => "Could not find: `"@ + name + "`."@,
    }
}

/// What a user is told who is turned away by a rate limit.
pub open spec fn limited_text(remaining: u64) -> Seq<char> {
    "Try this again in "@ + decimal(remaining as nat) + " seconds."@
}

/// What the user is told of an outcome, if anything. An unknown name is
/// reported, with the suggestion where there is one. A failed check is
/// reported in its own words. A rate limit is reported the first time that
/// it turns the caller away and then no more. Everything else is silent.
pub open spec fn notice_of(outcome: Outcome) -> Option<Seq<char>> {
    match outcome {
        Outcome::Unknown { name, suggestion } => Some(not_found_text(name, suggestion)),
        Outcome::Denied { command, denial } => match denial {
            Denial::CheckFailed(check) => Some(reason_text(check)),
            _ => None,
        },
        Outcome::Limited { command, remaining, first_try } => if first_try {
            Some(limited_text(remaining))
        } else {
            None
        },
        _ => None,
    }
}

/// The characters of a text that may be missing.
pub open spec fn text_view(text: Option<String>) -> Option<Seq<char>> {
    match text {
        Some(t) => Some(t@),
        None => None,
    }
}

} // verus!
