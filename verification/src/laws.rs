//! What holds of the dispatcher for every registry, every message and
//! every state of the rate limits.

use vstd::prelude::*;

use crate::buckets::{after_take, law_refund_restores, limited, slot_of, take_answer, Bucket};
use crate::dispatch::{Incoming, Settings};
use crate::distance::{distance, lemma_suggested};
use crate::registry::{group_in_range, is_called, Command, Registry};
use crate::routing::{
    asked, bucket_named, bucket_of, denial, find_command, gave_back, known_names, literal_prefix,
    opening_of, outcome, past_spaces, prefix_len, recognized, resolve, suggestion_for, took, word_at, Outcome,
    Resolved,
};
use crate::text::{has_prefix, lemma_skip_spaces_bounds, lemma_word_end_bounds, word_end};

verus! {

/// The search for a configured prefix finds one exactly when `content`
/// begins with one of them.
pub proof fn lemma_literal_prefix(prefixes: Seq<Seq<char>>, content: Seq<char>, k: int)
    requires
        0 <= k,
    ensures
        literal_prefix(prefixes, content, k) is Some <==> exists|j: int|
            k <= j < prefixes.len() && has_prefix(content, #[trigger] prefixes[j]),
        literal_prefix(prefixes, content, k) matches Some(j) ==> k <= j < prefixes.len()
            && has_prefix(content, prefixes[j]),
    decreases prefixes.len() - k,
{
    if k < prefixes.len() {
        lemma_literal_prefix(prefixes, content, k + 1);
        if has_prefix(content, prefixes[k]) {
        } else {
            if exists|j: int| k <= j < prefixes.len() && has_prefix(content, #[trigger] prefixes[j]) {
                let j = choose|j: int|
                    k <= j < prefixes.len() && has_prefix(content, #[trigger] prefixes[j]);
                assert(k + 1 <= j);
            }
        }
    }
}

/// A message that begins with no recognized prefix is ignored: the
/// dispatcher invokes nothing, has nothing to answer and asks no bucket.
/// Nothing else is ignored but what a bot wrote where bots are ignored.
pub proof fn law_unrecognized_is_ignored(
    registry: Registry,
    settings: Settings,
    buckets: Seq<Bucket>,
    message: Incoming,
    now: u64,
)
    ensures
        !recognized(settings, message.content@) ==> outcome(
            registry,
            settings,
            buckets,
            message,
            now,
        ) == Outcome::Ignored && asked(registry, settings, buckets, message) is None,
        outcome(registry, settings, buckets, message, now) == Outcome::Ignored <==> !recognized(
            settings,
            message.content@,
        ) || (settings.ignore_bots && message.from_bot),
{
    lemma_literal_prefix(settings.prefixes.deep_view(), message.content@, 0);
    let content = message.content@;
    if opening_of(settings, message) is Some {
        let p = opening_of(settings, message).unwrap();
        let start = past_spaces(settings.whitespace, content, p);
        if start < content.len() {
            match resolve(registry, settings.whitespace, content, start, 0) {
                Resolved::Unknown { from, to } => {},
                Resolved::Found { group, command, arguments } => {},
            }
        }
    }
}

/// A command is only ever found inside the registry, and its arguments
/// inside the message.
pub proof fn lemma_resolve_in_range(
    registry: Registry,
    whitespace: bool,
    content: Seq<char>,
    start: int,
    g: int,
)
    requires
        registry.wf(),
        0 <= g,
        0 <= start <= content.len(),
    ensures
        resolve(registry, whitespace, content, start, g) matches Resolved::Found {
            group,
            command,
            arguments,
        } ==> g <= group < registry.groups.len() && 0 <= command < registry.commands.len() && start
            <= arguments <= content.len(),
        resolve(registry, whitespace, content, start, g) matches Resolved::Unknown { from, to }
            ==> start <= from <= to <= content.len(),
    decreases registry.groups.len() - g,
{
    lemma_word_end_bounds(content, start);
    let end = word_end(content, start);
    lemma_skip_spaces_bounds(content, end);
    let after = past_spaces(whitespace, content, end);
    lemma_word_end_bounds(content, after);
    lemma_skip_spaces_bounds(content, word_end(content, after));
    if g < registry.groups.len() {
        let group = registry.groups[g];
        assert(group_in_range(group, registry.commands.len() as int));
        lemma_find_command_in_range(registry.commands@, group.commands@, word_at(content, after), 0);
        lemma_find_command_in_range(registry.commands@, group.commands@, word_at(content, start), 0);
        lemma_resolve_in_range(registry, whitespace, content, start, g + 1);
    }
}

/// A command that is found by name is one of those listed.
pub proof fn lemma_find_command_in_range(
    commands: Seq<Command>,
    listed: Seq<usize>,
    word: Seq<char>,
    k: int,
)
    requires
        0 <= k,
        forall|j: int| 0 <= j < listed.len() ==> (#[trigger] listed[j]) < commands.len(),
    ensures
        find_command(commands, listed, word, k) matches Some(c) ==> 0 <= c < commands.len()
            && is_called(commands[c], word) && listed.contains(c as usize),
    decreases listed.len() - k,
{
    if k < listed.len() {
        lemma_find_command_in_range(commands, listed, word, k + 1);
    }
}

/// A command that was found runs, once, when nothing stands against it: the
/// author is not denied, and the command's bucket, if it has one, grants its
/// token. What runs is the handler of that command, on what follows the
/// command in the message.
pub proof fn law_valid_invocation_runs(
    registry: Registry,
    settings: Settings,
    buckets: Vec<Bucket>,
    message: Incoming,
    now: u64,
    group: int,
    command: int,
    arguments: int,
)
    requires
        registry.wf(),
        opening_of(settings, message) matches Some(p) && past_spaces(
            settings.whitespace,
            message.content@,
            p,
        ) < message.content@.len() && resolve(
            registry,
            settings.whitespace,
            message.content@,
            past_spaces(settings.whitespace, message.content@, p),
            0,
        ) == (Resolved::Found { group, command, arguments }),
        denial(
            registry.groups[group],
            registry.commands[command],
            settings.owners@,
            message.author,
            message.in_guild,
        ) is None,
        bucket_of(buckets@, registry.commands[command]) matches Some(b) ==> !limited(
            slot_of(buckets[b].slots(), message.author),
            buckets[b].delay(),
            now,
        ),
    ensures
        outcome(registry, settings, buckets@, message, now) matches Outcome::Invoke {
            command: c,
            handler,
            name,
            arguments: rest,
            ticket,
        } && c == command && handler == registry.commands[command].handler && rest
            == message.content@.subrange(arguments, message.content@.len() as int) && (ticket
            is Some <==> bucket_of(buckets@, registry.commands[command]) is Some),
{
    lemma_opening_in_range(settings, message.content@);
    let p = opening_of(settings, message).unwrap();
    lemma_skip_spaces_bounds(message.content@, p);
    lemma_resolve_in_range(
        registry,
        settings.whitespace,
        message.content@,
        past_spaces(settings.whitespace, message.content@, p),
        0,
    );
}

/// A prefix that opens a message lies inside it.
pub proof fn lemma_opening_in_range(settings: Settings, content: Seq<char>)
    ensures
        prefix_len(settings, content) matches Some(p) ==> 0 <= p <= content.len(),
{
    lemma_literal_prefix(settings.prefixes.deep_view(), content, 0);
}

/// The name of a bucket decides where it is found, whatever it remembers.
pub proof fn lemma_bucket_named_by_names(
    before: Seq<Bucket>,
    after: Seq<Bucket>,
    name: Seq<char>,
    k: int,
)
    requires
        0 <= k,
        after.len() == before.len(),
        forall|i: int| 0 <= i < before.len() ==> (#[trigger] after[i]).name() == before[i].name(),
    ensures
        bucket_named(after, name, k) == bucket_named(before, name, k),
        bucket_named(before, name, k) matches Some(b) ==> k <= b < before.len(),
    decreases before.len() - k,
{
    if k < before.len() {
        lemma_bucket_named_by_names(before, after, name, k + 1);
    }
}

/// A bucket that a command draws on is one of the buckets.
pub proof fn lemma_bucket_of_in_range(buckets: Seq<Bucket>, command: Command)
    ensures
        bucket_of(buckets, command) matches Some(b) ==> 0 <= b < buckets.len(),
{
    match command.bucket {
        Some(name) => {
            lemma_bucket_named_by_names(buckets, buckets, name@, 0);
        },
        None => {},
    }
}

/// When a bucketed command was invoked, the same caller sending the same
/// message again less than the bucket's delay later is turned away.
pub proof fn law_second_invocation_is_limited(
    registry: Registry,
    settings: Settings,
    before: Vec<Bucket>,
    after: Vec<Bucket>,
    message: Incoming,
    first: u64,
    second: u64,
)
    requires
        registry.wf(),
        outcome(registry, settings, before@, message, first) matches Outcome::Invoke {
            ticket: Some(t),
            ..
        } && first <= second < first + before[t.bucket as int].delay(),
        took(before@, after@, asked(registry, settings, before@, message), message.author, first),
    ensures
        outcome(registry, settings, after@, message, second) is Limited,
{
    let content = message.content@;
    lemma_opening_in_range(settings, content);
    let p = opening_of(settings, message).unwrap();
    lemma_skip_spaces_bounds(content, p);
    let start = past_spaces(settings.whitespace, content, p);
    lemma_resolve_in_range(registry, settings.whitespace, content, start, 0);
    match resolve(registry, settings.whitespace, content, start, 0) {
        Resolved::Unknown { from, to } => {},
        Resolved::Found { group, command, arguments } => {
            lemma_bucket_of_in_range(before@, registry.commands[command]);
            match registry.commands[command].bucket {
                Some(name) => {
                    lemma_bucket_named_by_names(before@, after@, name@, 0);
                },
                None => {},
            }
            let b = bucket_of(before@, registry.commands[command]).unwrap();
            assert(0 <= b < before.len());
            assert(asked(registry, settings, before@, message) == Some(b));
            assert(after@[b].delay() == before@[b].delay());
            assert(after@[b].slots() == after_take(
                before@[b].slots(),
                before@[b].delay(),
                message.author,
                first,
            ));
            assert(take_answer(
                slot_of(after@[b].slots(), message.author),
                after@[b].delay(),
                second,
            ) is Limited);
        },
    }
}

/// A caller that is turned away by a rate limit twice in a row is told so
/// at most once: the second refusal is not a first try.
pub proof fn law_one_notice_per_window(
    registry: Registry,
    settings: Settings,
    before: Vec<Bucket>,
    after: Vec<Bucket>,
    message: Incoming,
    earlier: u64,
    later: u64,
)
    requires
        registry.wf(),
        outcome(registry, settings, before@, message, earlier) is Limited,
        took(before@, after@, asked(registry, settings, before@, message), message.author, earlier),
        outcome(registry, settings, after@, message, later) is Limited,
    ensures
        outcome(registry, settings, after@, message, later)->Limited_first_try == false,
{
    let content = message.content@;
    lemma_opening_in_range(settings, content);
    let p = opening_of(settings, message).unwrap();
    lemma_skip_spaces_bounds(content, p);
    let start = past_spaces(settings.whitespace, content, p);
    lemma_resolve_in_range(registry, settings.whitespace, content, start, 0);
    match resolve(registry, settings.whitespace, content, start, 0) {
        Resolved::Unknown { from, to } => {},
        Resolved::Found { group, command, arguments } => {
            lemma_bucket_of_in_range(before@, registry.commands[command]);
            match registry.commands[command].bucket {
                Some(name) => {
                    lemma_bucket_named_by_names(before@, after@, name@, 0);
                },
                None => {},
            }
        },
    }
}

/// A refund undoes what the dispatch did to the buckets: once the token of
/// an invocation is given back, every bucket remembers what it did before
/// the message came.
pub proof fn law_refund_undoes_dispatch(
    registry: Registry,
    settings: Settings,
    before: Vec<Bucket>,
    between: Vec<Bucket>,
    after: Vec<Bucket>,
    message: Incoming,
    now: u64,
)
    requires
        registry.wf(),
        outcome(registry, settings, before@, message, now) is Invoke,
        took(before@, between@, asked(registry, settings, before@, message), message.author, now),
        gave_back(
            between@,
            after@,
            outcome(registry, settings, before@, message, now)->Invoke_ticket,
        ),
    ensures
        after.len() == before.len(),
        forall|i: int|
            0 <= i < before.len() ==> (#[trigger] after[i]).slots() == before[i].slots()
                && after[i].name() == before[i].name() && after[i].delay() == before[i].delay(),
{
    let content = message.content@;
    lemma_opening_in_range(settings, content);
    let p = opening_of(settings, message).unwrap();
    lemma_skip_spaces_bounds(content, p);
    let start = past_spaces(settings.whitespace, content, p);
    lemma_resolve_in_range(registry, settings.whitespace, content, start, 0);
    match resolve(registry, settings.whitespace, content, start, 0) {
        Resolved::Unknown { from, to } => {},
        Resolved::Found { group, command, arguments } => {
            lemma_bucket_of_in_range(before@, registry.commands[command]);
            match bucket_of(before@, registry.commands[command]) {
                Some(b) => {
                    law_refund_restores(
                        before[b].slots(),
                        before[b].delay(),
                        message.author,
                        now,
                    );
                    assert forall|i: int| 0 <= i < before.len() implies (#[trigger] after[i]).slots()
                        == before[i].slots() && after[i].name() == before[i].name()
                        && after[i].delay() == before[i].delay() by {
                        assert(between[i].name() == before[i].name());
                    }
                },
                None => {
                    assert forall|i: int| 0 <= i < before.len() implies (#[trigger] after[i]).slots()
                        == before[i].slots() && after[i].name() == before[i].name()
                        && after[i].delay() == before[i].delay() by {
                        assert(between[i].name() == before[i].name());
                    }
                },
            }
        },
    }
}

/// For a name that no command bears, a known name is suggested exactly when
/// one lies within the limit of edit distance, and the name suggested is
/// then a known name that is nearest. Where every known name lies beyond
/// the limit, nothing is suggested.
pub proof fn law_suggestion_is_nearest(registry: Registry, limit: usize, name: Seq<char>)
    ensures
        suggestion_for(registry, limit, name) is Some <==> exists|j: int|
            0 <= j < known_names(registry, registry.groups.len() as int).len()
                && distance(
                name,
                #[trigger] known_names(registry, registry.groups.len() as int)[j],
            ) <= limit,
        suggestion_for(registry, limit, name) matches Some(s) ==> {
            &&& known_names(registry, registry.groups.len() as int).contains(s)
            &&& distance(name, s) <= limit
            &&& forall|j: int|
                0 <= j < known_names(registry, registry.groups.len() as int).len()
                    ==> distance(name, s) <= distance(
                    name,
                    #[trigger] known_names(registry, registry.groups.len() as int)[j],
                )
        },
{
    lemma_suggested(
        name,
        known_names(registry, registry.groups.len() as int),
        limit as nat,
    );
}

/// Only what a group lists can run: the command of an invocation is among
/// the commands of some group, or is the default command of one.
pub proof fn law_only_listed_commands_run(
    registry: Registry,
    settings: Settings,
    buckets: Vec<Bucket>,
    message: Incoming,
    now: u64,
)
    requires
        registry.wf(),
    ensures
        outcome(registry, settings, buckets@, message, now) matches Outcome::Invoke {
            command,
            ..
        } ==> exists|g: int|
            0 <= g < registry.groups.len() && ((#[trigger] registry.groups[g]).commands@.contains(
                command,
            ) || registry.groups[g].default_command == Some(command)),
{
    let content = message.content@;
    if outcome(registry, settings, buckets@, message, now) is Invoke {
        lemma_opening_in_range(settings, content);
        let p = opening_of(settings, message).unwrap();
        lemma_skip_spaces_bounds(content, p);
        let start = past_spaces(settings.whitespace, content, p);
        lemma_resolve_in_range(registry, settings.whitespace, content, start, 0);
        lemma_resolve_is_listed(registry, settings.whitespace, content, start, 0);
    }
}

/// A command that is found is listed by the group it was found in, or is
/// that group's default command.
pub proof fn lemma_resolve_is_listed(
    registry: Registry,
    whitespace: bool,
    content: Seq<char>,
    start: int,
    g: int,
)
    requires
        registry.wf(),
        0 <= g,
        0 <= start <= content.len(),
    ensures
        resolve(registry, whitespace, content, start, g) matches Resolved::Found {
            group,
            command,
            arguments,
        } ==> 0 <= group < registry.groups.len() && 0 <= command < registry.commands.len() && (
        registry.groups[group].commands@.contains(command as usize)
            || registry.groups[group].default_command == Some(command as usize)),
    decreases registry.groups.len() - g,
{
    lemma_resolve_in_range(registry, whitespace, content, start, g);
    if g < registry.groups.len() {
        let group = registry.groups[g];
        assert(group_in_range(group, registry.commands.len() as int));
        let after = past_spaces(whitespace, content, word_end(content, start));
        lemma_find_command_in_range(registry.commands@, group.commands@, word_at(content, after), 0);
        lemma_find_command_in_range(registry.commands@, group.commands@, word_at(content, start), 0);
        lemma_resolve_is_listed(registry, whitespace, content, start, g + 1);
    }
}

/// The search from `k` on finds the command at place `i` of the list under
/// any of its names, when no name of the list occurs twice.
proof fn lemma_alias_found(registry: Registry, g: int, i: int, m: int, k: int)
    requires
        registry.wf(),
        0 <= g < registry.groups.len(),
        registry.unambiguous(g),
        0 <= k <= i < registry.groups[g].commands.len(),
        0 <= m < registry.names_at(g, i),
    ensures
        find_command(
            registry.commands@,
            registry.groups[g].commands@,
            registry.name_at(g, i, m),
            k,
        ) == Some(registry.groups[g].commands[i] as int),
    decreases i - k,
{
    let listed = registry.groups[g].commands;
    let word = registry.name_at(g, i, m);
    let here = registry.commands[listed[k] as int];
    if k < i {
        if is_called(here, word) {
            let n = choose|n: int|
                0 <= n < here.names.deep_view().len() && here.names.deep_view()[n] == word;
            assert(here.names.deep_view()[n] == here.names[n]@);
            assert(registry.name_at(g, k, n) == registry.name_at(g, i, m));
        }
        lemma_alias_found(registry, g, i, m, k + 1);
    } else {
        assert(here.names.deep_view()[m] == here.names[m]@);
    }
}

/// In a group where no name occurs twice, every name and alias resolves to
/// exactly one command: the one that bears it.
pub proof fn law_alias_resolves_to_its_command(registry: Registry, g: int, i: int, m: int)
    requires
        registry.wf(),
        0 <= g < registry.groups.len(),
        registry.unambiguous(g),
        0 <= i < registry.groups[g].commands.len(),
        0 <= m < registry.names_at(g, i),
    ensures
        find_command(
            registry.commands@,
            registry.groups[g].commands@,
            registry.name_at(g, i, m),
            0,
        ) == Some(registry.groups[g].commands[i] as int),
{
    lemma_alias_found(registry, g, i, m, 0);
}

} // verus!
