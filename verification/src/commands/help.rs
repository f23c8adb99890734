//! The `help` command: the list of groups and commands as the caller may
//! use them, or what is known of one command.

use std::collections::HashSet;
use vstd::prelude::*;
use vstd::string::*;

use crate::arguments::Arguments;
use crate::commands::mute::joined;
use crate::dispatch::{lookup, notice, unknown, Settings};
use crate::routing::{find_command, not_found_text, suggestion_for};
use crate::registry::{group_in_range, Command, Group, Registry};

verus! {

broadcast use vstd::std_specs::hash::group_hash_axioms;

/// How a command appears in the list.
#[derive(Clone, Copy, Debug, PartialEq, Eq)]
pub enum Visibility {
    /// As it is.
    Shown,
    /// Struck through: the command cannot be used where the caller asks.
    Struck,
    /// Not at all: the caller may not use the command.
    Hidden,
}

/// How `command` of `group` appears to `author`: hidden where it is for
/// owners and the author is none, struck where it is for guilds and the
/// author asks elsewhere, and shown otherwise.
pub open spec fn visibility(
    group: Group,
    command: Command,
    owners: Set<u64>,
    author: u64,
    in_guild: bool,
) -> Visibility {
    if (group.owners_only || command.owners_only) && !owners.contains(author) {
        Visibility::Hidden
    } else if (group.guild_only || command.guild_only) && !in_guild {
        Visibility::Struck
    } else {
        Visibility::Shown
    }
}

/// What the list begins with.
pub open spec fn greeting() -> Seq<char> {
    "Hello! \n\nIf you want more information about a specific command, just pass the command as argument.\n"@
}

/// The line of one command: its name, struck through where it cannot be
/// used here, and its description if it has one. A hidden command has no
/// line.
pub open spec fn command_line(command: Command, how: Visibility) -> Seq<char> {
    let described = if command.description@.len() > 0 {
        " "@ + command.description@
    } else {
        Seq::<char>::empty()
    };
    match how {
        Visibility::Shown => "+ `"@ + command.names[0]@ + "`"@ + described + "\n"@,
        Visibility::Struck => "+ ~~`"@ + command.names[0]@ + "`~~"@ + described + "\n"@,
        Visibility::Hidden => Seq::<char>::empty(),
    }
}

/// The heading of a group: its name, its prefixes if it has any, and its
/// summary if it has one.
pub open spec fn heading(group: Group) -> Seq<char> {
    "\n**"@ + group.name@ + "**"@ + (if group.prefixes.len() > 0 {
        " ("@ + joined(group.prefixes.deep_view(), ", "@) + ")"@
    } else {
        Seq::<char>::empty()
    }) + (if group.summary@.len() > 0 {
        ": "@ + group.summary@
    } else {
        Seq::<char>::empty()
    }) + "\n"@
}

/// The lines of the first `k` commands of `group`.
pub open spec fn command_lines(
    registry: Registry,
    group: Group,
    owners: Set<u64>,
    author: u64,
    in_guild: bool,
    k: int,
) -> Seq<char>
    decreases k,
{
    if k <= 0 {
        Seq::empty()
    } else {
        let command = registry.commands[group.commands[k - 1] as int];
        command_lines(registry, group, owners, author, in_guild, k - 1) + command_line(
            command,
            visibility(group, command, owners, author, in_guild),
        )
    }
}

/// The headings and lines of the first `g` groups.
pub open spec fn group_sections(
    registry: Registry,
    owners: Set<u64>,
    author: u64,
    in_guild: bool,
    g: int,
) -> Seq<char>
    decreases g,
{
    if g <= 0 {
        Seq::empty()
    } else {
        let group = registry.groups[g - 1];
        group_sections(registry, owners, author, in_guild, g - 1) + heading(group) + command_lines(
            registry,
            group,
            owners,
            author,
            in_guild,
            group.commands.len() as int,
        )
    }
}

/// The whole list: the greeting, then group after group.
pub open spec fn listing(registry: Registry, owners: Set<u64>, author: u64, in_guild: bool) -> Seq<
    char,
> {
    greeting() + group_sections(registry, owners, author, in_guild, registry.groups.len() as int)
}

/// The first command called `word` in the groups from `g` on.
pub open spec fn find_anywhere(registry: Registry, word: Seq<char>, g: int) -> Option<int>
    decreases registry.groups.len() - g,
{
    if g < 0 || g >= registry.groups.len() {
        None
    } else {
        match find_command(registry.commands@, registry.groups[g].commands@, word, 0) {
            Some(c) => Some(c),
            None => find_anywhere(registry, word, g + 1),
        }
    }
}

/// What is known of one command: its name, its description if it has one,
/// and its aliases if it has any.
pub open spec fn about(command: Command) -> Seq<char> {
    "**`"@ + command.names[0]@ + "`**"@ + (if command.description@.len() > 0 {
        ": "@ + command.description@
    } else {
        Seq::<char>::empty()
    }) + (if command.names.len() > 1 {
        "\nAliases: "@ + joined(command.names.deep_view().subrange(1, command.names.len() as int), ", "@)
    } else {
        Seq::<char>::empty()
    })
}

/// The answer of `help`. Without a word the whole list; with a word what
/// is known of the command of that name, or that there is none, with a
/// suggestion where a known name is near.
pub open spec fn help_reply(
    registry: Registry,
    settings: Settings,
    author: u64,
    in_guild: bool,
    word: Seq<char>,
) -> Seq<char> {
    if word.len() == 0 {
        listing(registry, settings.owners@, author, in_guild)
    } else {
        match find_anywhere(registry, word, 0) {
            Some(c) => about(registry.commands[c]),
            None => not_found_text(word, suggestion_for(registry, settings.suggestions, word)),
        }
    }
}

/// Joins `parts` with `separator` between them.
fn join(parts: &Vec<String>, from: usize, separator: &str) -> (r: String)
    requires
        from <= parts.len(),
    ensures
        r@ == joined(parts.deep_view().subrange(from as int, parts.len() as int), separator@),
{
    let ghost all = parts.deep_view().subrange(from as int, parts.len() as int);
    let mut r = String::new();
    let mut i: usize = from;
    while i < parts.len()
        invariant
            from <= i <= parts.len(),
            all == parts.deep_view().subrange(from as int, parts.len() as int),
            r@ == joined(all.take(i - from), separator@),
        decreases parts.len() - i,
    {
        let ghost k = i - from;
        assert(all.take(k + 1).drop_last() == all.take(k));
        assert(all.take(k + 1).last() == parts[i as int]@) by {
            assert(parts.deep_view()[i as int] == parts[i as int]@);
        }
        if i > from {
            r.append(separator);
        }
        r.append(parts[i].as_str());
        assert(r@ =~= joined(all.take(k + 1), separator@));
        i += 1;
    }
    assert(all.take(i - from) == all);
    r
}

/// Decides how a command appears in the list.
pub fn visible(group: &Group, command: &Command, owners: &HashSet<u64>, author: u64, in_guild: bool) -> (r:
    Visibility)
    ensures
        r == visibility(*group, *command, owners@, author, in_guild),
{
    if (group.owners_only || command.owners_only) && !owners.contains(&author) {
        Visibility::Hidden
    } else if (group.guild_only || command.guild_only) && !in_guild {
        Visibility::Struck
    } else {
        Visibility::Shown
    }
}

/// Writes the line of one command.
fn write_line(text: &mut String, command: &Command, how: Visibility)
    requires
        command.names.len() > 0,
    ensures
        final(text)@ == old(text)@ + command_line(*command, how),
{
    match how {
        Visibility::Hidden => {
            assert(text@ + Seq::<char>::empty() =~= text@);
        },
        Visibility::Shown => {
            text.append("+ `");
            text.append(command.names[0].as_str());
            text.append("`");
            if !command.description.as_str().is_empty() {
                text.append(" ");
                text.append(command.description.as_str());
            }
            text.append("\n");
            assert(text@ =~= old(text)@ + command_line(*command, how));
        },
        Visibility::Struck => {
            text.append("+ ~~`");
            text.append(command.names[0].as_str());
            text.append("`~~");
            if !command.description.as_str().is_empty() {
                text.append(" ");
                text.append(command.description.as_str());
            }
            text.append("\n");
            assert(text@ =~= old(text)@ + command_line(*command, how));
        },
    }
}

/// Writes the heading of a group.
fn write_heading(text: &mut String, group: &Group)
    ensures
        final(text)@ == old(text)@ + heading(*group),
{
    text.append("\n**");
    text.append(group.name.as_str());
    text.append("**");
    if group.prefixes.len() > 0 {
        text.append(" (");
        assert(group.prefixes.deep_view().subrange(0, group.prefixes.len() as int)
            == group.prefixes.deep_view());
        text.append(join(&group.prefixes, 0, ", ").as_str());
        text.append(")");
    }
    if !group.summary.as_str().is_empty() {
        text.append(": ");
        text.append(group.summary.as_str());
    }
    text.append("\n");
    assert(text@ =~= old(text)@ + heading(*group));
}

/// Writes the whole list.
pub fn list(
    registry: &Registry,
    owners: &HashSet<u64>,
    author: u64,
    in_guild: bool,
) -> (text: String)
    requires
        registry.wf(),
    ensures
        text@ == listing(*registry, owners@, author, in_guild),
{
    let mut text = String::from_str(
        "Hello! \n\nIf you want more information about a specific command, just pass the command as argument.\n",
    );
    assert(text@ + Seq::<char>::empty() =~= text@);
    let mut g: usize = 0;
    while g < registry.groups.len()
        invariant
            g <= registry.groups.len(),
            registry.wf(),
            text@ == greeting() + group_sections(*registry, owners@, author, in_guild, g as int),
        decreases registry.groups.len() - g,
    {
        let group = &registry.groups[g];
        assert(group_in_range(*group, registry.commands.len() as int));
        let ghost before = text@;
        write_heading(&mut text, group);
        let ghost headed = text@;
        assert(headed + Seq::<char>::empty() =~= headed);
        let mut k: usize = 0;
        while k < group.commands.len()
            invariant
                k <= group.commands.len(),
                g < registry.groups.len(),
                registry.wf(),
                *group == registry.groups[g as int],
                group_in_range(*group, registry.commands.len() as int),
                text@ == headed + command_lines(
                    *registry,
                    *group,
                    owners@,
                    author,
                    in_guild,
                    k as int,
                ),
            decreases group.commands.len() - k,
        {
            let command = &registry.commands[group.commands[k]];
            let how = visible(group, command, owners, author, in_guild);
            let ghost held = text@;
            write_line(&mut text, command, how);
            assert(text@ =~= headed + command_lines(
                *registry,
                *group,
                owners@,
                author,
                in_guild,
                k + 1,
            ));
            k += 1;
        }
        assert(text@ =~= greeting() + group_sections(*registry, owners@, author, in_guild, g + 1));
        g += 1;
    }
    text
}

/// Finds the first command called `word` in any group.
fn find(registry: &Registry, word: &str) -> (r: Option<usize>)
    requires
        registry.wf(),
    ensures
        match r {
            Some(c) => find_anywhere(*registry, word@, 0) == Some(c as int) && c
                < registry.commands.len(),
            None => find_anywhere(*registry, word@, 0) is None,
        },
{
    let mut g: usize = 0;
    while g < registry.groups.len()
        invariant
            g <= registry.groups.len(),
            registry.wf(),
            find_anywhere(*registry, word@, 0) == find_anywhere(*registry, word@, g as int),
        decreases registry.groups.len() - g,
    {
        let group = &registry.groups[g];
        assert(group_in_range(*group, registry.commands.len() as int));
        match lookup(&registry.commands, &group.commands, word) {
            Some(c) => {
                return Some(c);
            },
            None => {},
        }
        g += 1;
    }
    None
}

/// Writes what is known of one command.
fn describe(command: &Command) -> (text: String)
    requires
        command.names.len() > 0,
    ensures
        text@ == about(*command),
{
    let mut text = String::from_str("**`");
    text.append(command.names[0].as_str());
    text.append("`**");
    if !command.description.as_str().is_empty() {
        text.append(": ");
        text.append(command.description.as_str());
    }
    if command.names.len() > 1 {
        text.append("\nAliases: ");
        text.append(join(&command.names, 1, ", ").as_str());
    }
    assert(text@ =~= about(*command));
    text
}

/// The word that `help` is asked about: the first argument, or nothing.
pub open spec fn asked_word(tokens: Seq<Seq<char>>) -> Seq<char> {
    if tokens.len() > 0 {
        tokens[0]
    } else {
        Seq::empty()
    }
}

/// The answer of `help` to `author`: the whole list where there is no
/// argument, and otherwise what is known of the command that the first
/// argument names.
pub fn help(
    registry: &Registry,
    settings: &Settings,
    author: u64,
    in_guild: bool,
    arguments: &Arguments,
) -> (reply: String)
    requires
        registry.wf(),
    ensures
        reply@ == help_reply(
            *registry,
            *settings,
            author,
            in_guild,
            asked_word(arguments.tokens.deep_view()),
        ),
{
    if arguments.tokens.len() == 0 {
        return list(registry, &settings.owners, author, in_guild);
    }
    assert(arguments.tokens.deep_view()[0] == arguments.tokens[0]@);
    let word = arguments.tokens[0].as_str();
    if word.is_empty() {
        return list(registry, &settings.owners, author, in_guild);
    }
    match find(registry, word) {
        Some(c) => describe(&registry.commands[c]),
        None => {
            let unknown = unknown(registry, settings.suggestions, word);
            match notice(&unknown) {
                Some(text) => text,
                None => String::new(),
            }
        },
    }
}

} // verus!
