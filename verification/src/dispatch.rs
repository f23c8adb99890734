//! The dispatcher: from a message to the command that it invokes, through
//! prefix, group, name, checks and rate limit.

use std::collections::HashSet;
use vstd::prelude::*;
use vstd::string::*;

use crate::arguments::Delimiters;
use crate::buckets::{slot_of, Bucket, Slot, Take};
use crate::distance::{lemma_suggested, suggest};
use crate::platform::{push_char, user_mention};
use crate::registry::{
    check_passes, group_in_range, reason, shown, Check, Command, Group, Handler, Registry,
};
use crate::routing::{
    asked, bucket_named, bucket_of, denial, find_command, first_failed, gave_back, known_names,
    listed_names, literal_prefix, nick_mention, notice_of, outcome, past_spaces, prefix_len,
    refunds, resolve, suggestion_for, text_view, took, word_at, Outcome, Resolved,
};
use crate::text::{
    chars_have_prefix, decimal_string, has_prefix, is_whitespace, same_text, skip_spaces, to_chars,
    word_end,
};

verus! {

broadcast use vstd::std_specs::hash::group_hash_axioms;

/// How messages are read.
pub struct Settings {
    /// The texts that open a command.
    pub prefixes: Vec<String>,
    /// The bot's own id: a mention of it opens a command too.
    pub mention: Option<u64>,
    /// Whether white space may follow a prefix, a group and a name.
    pub whitespace: bool,
    /// Where arguments are split.
    pub delimiters: Delimiters,
    /// Who may use what is for owners only.
    pub owners: HashSet<u64>,
    /// The largest edit distance at which a name is still suggested.
    pub suggestions: usize,
    /// Whether what bots write is left unread.
    pub ignore_bots: bool,
}

/// A message as the dispatcher sees it.
pub struct Incoming {
    pub author: u64,
    /// Whether the author is a bot.
    pub from_bot: bool,
    pub content: String,
    pub in_guild: bool,
}

/// Why a command that was found does not run.
#[derive(Clone, Copy, Debug, PartialEq, Eq)]
pub enum Denial {
    /// The command is for guilds and the message came from elsewhere.
    OnlyForGuilds,
    /// The command is for owners and the author is none.
    OnlyForOwners,
    /// The author did not pass this check.
    CheckFailed(Check),
}

/// The token that an invocation took, kept so that it can be given back.
#[derive(Clone, Copy, Debug, PartialEq, Eq)]
pub struct Ticket {
    pub bucket: usize,
    pub caller: u64,
    pub prior: Option<Slot>,
}

/// What the dispatcher made of a message.
#[derive(Debug, PartialEq, Eq)]
pub enum Dispatch {
    /// No prefix: the message is none of the dispatcher's business.
    Ignored,
    /// A prefix and nothing after it.
    PrefixOnly,
    /// No command of that name, and perhaps a known name that is near.
    Unknown { name: String, suggestion: Option<String> },
    /// The command was found but the author may not run it here.
    Denied { command: usize, denial: Denial },
    /// The command was found but its rate limit turns the author away.
    Limited { command: usize, remaining: u64, first_try: bool },
    /// The command runs, once, with these arguments.
    Invoke { command: usize, handler: Handler, name: String, arguments: String, ticket: Option<Ticket> },
}

/// Goes past the white space that begins at `from`.
fn skip_whitespace(chars: &Vec<char>, from: usize) -> (r: usize)
    requires
        from <= chars.len(),
    ensures
        r == skip_spaces(chars@, from as int),
        from <= r <= chars.len(),
{
    let mut i: usize = from;
    while i < chars.len() && is_whitespace(chars[i])
        invariant
            from <= i <= chars.len(),
            skip_spaces(chars@, from as int) == skip_spaces(chars@, i as int),
        decreases chars.len() - i,
    {
        i += 1;
    }
    i
}

/// Goes to the end of the word that begins at `from`.
fn end_of_word(chars: &Vec<char>, from: usize) -> (r: usize)
    requires
        from <= chars.len(),
    ensures
        r == word_end(chars@, from as int),
        from <= r <= chars.len(),
{
    let mut i: usize = from;
    while i < chars.len() && !is_whitespace(chars[i])
        invariant
            from <= i <= chars.len(),
            word_end(chars@, from as int) == word_end(chars@, i as int),
        decreases chars.len() - i,
    {
        i += 1;
    }
    i
}

/// Goes past white space where the settings allow it.
fn go_on(whitespace: bool, chars: &Vec<char>, from: usize) -> (r: usize)
    requires
        from <= chars.len(),
    ensures
        r == past_spaces(whitespace, chars@, from as int),
        from <= r <= chars.len(),
{
    if whitespace {
        skip_whitespace(chars, from)
    } else {
        from
    }
}

/// The text made of the characters from `from` to `to`.
fn slice(chars: &Vec<char>, from: usize, to: usize) -> (s: String)
    requires
        from <= to <= chars.len(),
    ensures
        s@ == chars@.subrange(from as int, to as int),
{
    let mut s = String::new();
    let mut i: usize = from;
    while i < to
        invariant
            from <= i <= to <= chars.len(),
            s@ == chars@.subrange(from as int, i as int),
        decreases to - i,
    {
        push_char(&mut s, chars[i]);
        assert(chars@.subrange(from as int, i + 1) == chars@.subrange(from as int, i as int).push(
            chars@[i as int],
        ));
        i += 1;
    }
    s
}

/// Whether `content` begins with `prefix`.
fn begins_with(content: &Vec<char>, prefix: &str) -> (r: bool)
    ensures
        r == has_prefix(content@, prefix@),
{
    assert(content@.subrange(0, content.len() as int) == content@);
    chars_have_prefix(content, 0, &to_chars(prefix))
}

/// Finds the prefix that opens `content` and gives its length.
fn opening(settings: &Settings, content: &Vec<char>) -> (r: Option<usize>)
    ensures
        match r {
            Some(p) => prefix_len(*settings, content@) == Some(p as int) && p <= content.len(),
            None => prefix_len(*settings, content@) is None,
        },
{
    match settings.mention {
        Some(bot) => {
            let id = decimal_string(bot);
            let mut plain = String::from_str("<@");
            plain.append(id.as_str());
            plain.append(">");
            assert(plain@ == user_mention(bot));
            if begins_with(content, plain.as_str()) {
                return Some(plain.as_str().unicode_len());
            }
            let mut nick = String::from_str("<@!");
            nick.append(id.as_str());
            nick.append(">");
            assert(nick@ == nick_mention(bot));
            if begins_with(content, nick.as_str()) {
                return Some(nick.as_str().unicode_len());
            }
        },
        None => {},
    }
    let ghost prefixes = settings.prefixes.deep_view();
    let mut k: usize = 0;
    while k < settings.prefixes.len()
        invariant
            k <= settings.prefixes.len(),
            prefixes == settings.prefixes.deep_view(),
            settings.mention matches Some(bot) ==> !has_prefix(content@, user_mention(bot))
                && !has_prefix(content@, nick_mention(bot)),
            literal_prefix(prefixes, content@, 0) == literal_prefix(prefixes, content@, k as int),
        decreases settings.prefixes.len() - k,
    {
        assert(prefixes[k as int] == settings.prefixes[k as int]@);
        if begins_with(content, settings.prefixes[k].as_str()) {
            return Some(settings.prefixes[k].as_str().unicode_len());
        }
        k += 1;
    }
    None
}

/// Whether `word` is among `names`.
fn has_name(names: &Vec<String>, word: &str) -> (r: bool)
    ensures
        r == names.deep_view().contains(word@),
{
    let ghost all = names.deep_view();
    let mut i: usize = 0;
    while i < names.len()
        invariant
            i <= names.len(),
            all == names.deep_view(),
            forall|j: int| 0 <= j < i ==> all[j] != word@,
        decreases names.len() - i,
    {
        assert(all[i as int] == names[i as int]@);
        if same_text(names[i].as_str(), word) {
            return true;
        }
        i += 1;
    }
    false
}

/// Finds the first command among those listed that is called `word`.
pub(crate) fn lookup(commands: &Vec<Command>, listed: &Vec<usize>, word: &str) -> (r: Option<usize>)
    requires
        forall|k: int| 0 <= k < listed.len() ==> (#[trigger] listed[k]) < commands.len(),
    ensures
        match r {
            Some(c) => find_command(commands@, listed@, word@, 0) == Some(c as int) && c
                < commands.len(),
            None => find_command(commands@, listed@, word@, 0) is None,
        },
{
    let mut k: usize = 0;
    while k < listed.len()
        invariant
            k <= listed.len(),
            forall|j: int| 0 <= j < listed.len() ==> (#[trigger] listed[j]) < commands.len(),
            find_command(commands@, listed@, word@, 0) == find_command(
                commands@,
                listed@,
                word@,
                k as int,
            ),
        decreases listed.len() - k,
    {
        let c = listed[k];
        if has_name(&commands[c].names, word) {
            return Some(c);
        }
        k += 1;
    }
    None
}

/// Where a message was resolved to, with places that fit the machine.
enum Place {
    Found { group: usize, command: usize, arguments: usize },
    Unknown { from: usize, to: usize },
}

impl Place {
    spec fn resolved(self) -> Resolved {
        match self {
            Place::Found { group, command, arguments } => Resolved::Found {
                group: group as int,
                command: command as int,
                arguments: arguments as int,
            },
            Place::Unknown { from, to } => Resolved::Unknown { from: from as int, to: to as int },
        }
    }

    spec fn in_range(self, registry: Registry, content: Seq<char>) -> bool {
        match self {
            Place::Found { group, command, arguments } => group < registry.groups.len() && command
                < registry.commands.len() && arguments <= content.len(),
            Place::Unknown { from, to } => from <= to <= content.len(),
        }
    }
}

/// Resolves what begins at `start`.
fn resolve_word(registry: &Registry, whitespace: bool, content: &Vec<char>, start: usize) -> (r:
    Place)
    requires
        registry.wf(),
        start <= content.len(),
    ensures
        r.resolved() == resolve(*registry, whitespace, content@, start as int, 0),
        r.in_range(*registry, content@),
{
    let end = end_of_word(content, start);
    let after = go_on(whitespace, content, end);
    let first = slice(content, start, end);
    let mut g: usize = 0;
    while g < registry.groups.len()
        invariant
            g <= registry.groups.len(),
            registry.wf(),
            start <= end <= after <= content.len(),
            end == word_end(content@, start as int),
            after == past_spaces(whitespace, content@, end as int),
            first@ == word_at(content@, start as int),
            resolve(*registry, whitespace, content@, start as int, 0) == resolve(
                *registry,
                whitespace,
                content@,
                start as int,
                g as int,
            ),
        decreases registry.groups.len() - g,
    {
        let group = &registry.groups[g];
        assert(group_in_range(*group, registry.commands.len() as int));
        if group.prefixes.len() > 0 {
            if has_name(&group.prefixes, first.as_str()) {
                let inner_end = end_of_word(content, after);
                let second = slice(content, after, inner_end);
                match lookup(&registry.commands, &group.commands, second.as_str()) {
                    Some(c) => {
                        let arguments = go_on(whitespace, content, inner_end);
                        return Place::Found { group: g, command: c, arguments };
                    },
                    None => {
                        match group.default_command {
                            Some(c) => {
                                return Place::Found { group: g, command: c, arguments: after };
                            },
                            None => {
                                return Place::Unknown { from: after, to: inner_end };
                            },
                        }
                    },
                }
            }
        } else {
            match lookup(&registry.commands, &group.commands, first.as_str()) {
                Some(c) => {
                    return Place::Found { group: g, command: c, arguments: after };
                },
                None => {},
            }
        }
        g += 1;
    }
    Place::Unknown { from: start, to: end }
}

/// Finds the first check that `author` does not pass.
fn failed_check(checks: &Vec<Check>, author: u64) -> (r: Option<Check>)
    ensures
        r == first_failed(checks@, author, 0),
{
    let mut k: usize = 0;
    while k < checks.len()
        invariant
            k <= checks.len(),
            first_failed(checks@, author, 0) == first_failed(checks@, author, k as int),
        decreases checks.len() - k,
    {
        if !check_passes(checks[k], author) {
            return Some(checks[k]);
        }
        k += 1;
    }
    None
}

/// Decides whether `author` may run `command` of `group` here.
fn gate(group: &Group, command: &Command, owners: &HashSet<u64>, author: u64, in_guild: bool) -> (r:
    Option<Denial>)
    ensures
        r == denial(*group, *command, owners@, author, in_guild),
{
    if (group.guild_only || command.guild_only) && !in_guild {
        return Some(Denial::OnlyForGuilds);
    }
    if (group.owners_only || command.owners_only) && !owners.contains(&author) {
        return Some(Denial::OnlyForOwners);
    }
    match failed_check(&group.checks, author) {
        Some(check) => Some(Denial::CheckFailed(check)),
        None => match failed_check(&command.checks, author) {
            Some(check) => Some(Denial::CheckFailed(check)),
            None => None,
        },
    }
}

/// Finds the bucket that `command` draws on.
fn find_bucket(buckets: &Vec<Bucket>, command: &Command) -> (r: Option<usize>)
    ensures
        match r {
            Some(b) => bucket_of(buckets@, *command) == Some(b as int) && b < buckets.len(),
            None => bucket_of(buckets@, *command) is None,
        },
{
    match &command.bucket {
        Some(name) => {
            let mut k: usize = 0;
            while k < buckets.len()
                invariant
                    k <= buckets.len(),
                    command.bucket == Some(*name),
                    bucket_named(buckets@, name@, 0) == bucket_named(buckets@, name@, k as int),
                decreases buckets.len() - k,
            {
                if same_text(buckets[k].label(), name.as_str()) {
                    return Some(k);
                }
                k += 1;
            }
            None
        },
        None => None,
    }
}

/// Collects the names that can be suggested.
fn known(registry: &Registry) -> (names: Vec<String>)
    requires
        registry.wf(),
    ensures
        names.deep_view() == known_names(*registry, registry.groups.len() as int),
{
    let mut names: Vec<String> = Vec::new();
    assert(names.deep_view() =~= Seq::<Seq<char>>::empty());
    let mut g: usize = 0;
    while g < registry.groups.len()
        invariant
            g <= registry.groups.len(),
            registry.wf(),
            names.deep_view() == known_names(*registry, g as int),
        decreases registry.groups.len() - g,
    {
        let group = &registry.groups[g];
        assert(group_in_range(*group, registry.commands.len() as int));
        let ghost before = names.deep_view();
        assert(before + Seq::<Seq<char>>::empty() =~= before);
        let mut k: usize = 0;
        while k < group.commands.len()
            invariant
                k <= group.commands.len(),
                g < registry.groups.len(),
                *group == registry.groups[g as int],
                group_in_range(*group, registry.commands.len() as int),
                names.deep_view() == before + listed_names(
                    registry.commands@,
                    group.commands@,
                    k as int,
                ),
            decreases group.commands.len() - k,
        {
            let command = &registry.commands[group.commands[k]];
            let ghost so_far = names.deep_view();
            let ghost all = command.names.deep_view();
            assert(so_far + all.take(0) =~= so_far);
            let mut n: usize = 0;
            while n < command.names.len()
                invariant
                    n <= command.names.len(),
                    all == command.names.deep_view(),
                    names.deep_view() == so_far + all.take(n as int),
                decreases command.names.len() - n,
            {
                let ghost held = names.deep_view();
                names.push(command.names[n].clone());
                assert(all[n as int] == command.names[n as int]@);
                assert(names.deep_view() =~= held.push(all[n as int]));
                assert(so_far + all.take(n + 1) =~= (so_far + all.take(n as int)).push(
                    all[n as int],
                ));
                n += 1;
            }
            assert(all.take(n as int) == all);
            assert(before + listed_names(registry.commands@, group.commands@, k + 1) =~= so_far
                + all);
            k += 1;
        }
        g += 1;
    }
    names
}

/// How a handler ended.
#[derive(Debug, PartialEq, Eq)]
pub enum Finished {
    /// It did what it was asked.
    Done,
    /// It did what it was asked and wants its token back.
    Refund,
    /// It failed, for this reason.
    Failed(String),
}

/// What is written to the log once a handler has ended.
#[derive(Debug, PartialEq, Eq)]
pub struct Record {
    /// The name of the command.
    pub command: String,
    /// Why it failed, if it did.
    pub failure: Option<String>,
}

/// How a handler ends that tried to send its answer: a failure to send is
/// its failure; `cat` and `eggplant` give their token back once the answer
/// is out, so that only their failures count against the bucket.
pub fn conclude(handler: Handler, sent: Result<(), String>) -> (r: Finished)
    ensures
        r == match sent {
            Ok(_) => if refunds(handler) {
                Finished::Refund
            } else {
                Finished::Done
            },
            Err(why) => Finished::Failed(why),
        },
{
    match sent {
        Ok(_) => match handler {
            Handler::Cat => Finished::Refund,
            Handler::Eggplant => Finished::Refund,
            _ => Finished::Done,
        },
        Err(why) => Finished::Failed(why),
    }
}

/// The dispatcher: the table of commands, how messages are read, and the
/// rate limits with what they remember.
pub struct Dispatcher {
    registry: Registry,
    settings: Settings,
    buckets: Vec<Bucket>,
}

impl Dispatcher {
    #[verifier::type_invariant]
    spec fn valid(&self) -> bool {
        self.registry.wf()
    }

    /// The table of commands.
    pub closed spec fn registry(&self) -> Registry {
        self.registry
    }

    /// How messages are read.
    pub closed spec fn settings(&self) -> Settings {
        self.settings
    }

    /// The rate limits.
    pub closed spec fn buckets(&self) -> Seq<Bucket> {
        self.buckets@
    }

    /// Makes a dispatcher, unless the registry is not well formed.
    pub fn new(registry: Registry, settings: Settings, buckets: Vec<Bucket>) -> (r: Option<
        Dispatcher,
    >)
        ensures
            r is Some <==> registry.wf(),
            r matches Some(d) ==> d.registry() == registry && d.settings() == settings
                && d.buckets() == buckets@,
    {
        if registry.is_valid() {
            Some(Dispatcher { registry, settings, buckets })
        } else {
            None
        }
    }

    /// Makes the bot's own dispatcher: its commands, its rate limit and its
    /// way of reading messages.
    pub fn standard(bot: u64, application_owner: u64) -> (d: Dispatcher)
        ensures
            d.registry().wf(),
            crate::standard::is_standard(d.registry()),
            crate::standard::is_standard_reading(d.settings(), bot, application_owner),
            d.buckets().len() == 1,
            d.buckets()[0].name() == "emoji"@,
            d.buckets()[0].delay() == 5,
            d.buckets()[0].slots() == Map::<u64, Slot>::empty(),
    {
        Dispatcher {
            registry: crate::standard::registry(),
            settings: crate::standard::settings(bot, application_owner),
            buckets: crate::standard::buckets(),
        }
    }

    /// The table of commands.
    pub fn commands(&self) -> (r: &Registry)
        ensures
            *r == self.registry(),
            r.wf(),
    {
        proof {
            use_type_invariant(self);
        }
        &self.registry
    }

    /// How messages are read.
    pub fn reading(&self) -> (r: &Settings)
        ensures
            *r == self.settings(),
    {
        &self.settings
    }

    /// What the bucket at `bucket` remembers of `caller`.
    pub fn remembered(&self, bucket: usize, caller: u64) -> (r: Option<Slot>)
        ensures
            r == if bucket < self.buckets().len() {
                slot_of(self.buckets()[bucket as int].slots(), caller)
            } else {
                None
            },
    {
        if bucket < self.buckets.len() {
            self.buckets[bucket].slot(caller)
        } else {
            None
        }
    }

    /// Routes one message. A message without a recognized prefix is ignored,
    /// and so is what a bot wrote where bots are ignored.
    /// Otherwise the words after the prefix are resolved to a command, the
    /// author is checked, and the command's bucket is asked for a token: the
    /// command is invoked, once, exactly when all of this goes well. Only the
    /// bucket that was asked changes.
    pub fn dispatch(&mut self, message: &Incoming, now: u64) -> (d: Dispatch)
        ensures
            d@ == outcome(
                old(self).registry(),
                old(self).settings(),
                old(self).buckets(),
                *message,
                now,
            ),
            final(self).registry() == old(self).registry(),
            final(self).settings() == old(self).settings(),
            took(
                old(self).buckets(),
                final(self).buckets(),
                asked(old(self).registry(), old(self).settings(), old(self).buckets(), *message),
                message.author,
                now,
            ),
    {
        proof {
            use_type_invariant(&*self);
        }
        if self.settings.ignore_bots && message.from_bot {
            return Dispatch::Ignored;
        }
        let content = to_chars(message.content.as_str());
        let p = match opening(&self.settings, &content) {
            Some(p) => p,
            None => {
                return Dispatch::Ignored;
            },
        };
        let start = go_on(self.settings.whitespace, &content, p);
        if start >= content.len() {
            return Dispatch::PrefixOnly;
        }
        match resolve_word(&self.registry, self.settings.whitespace, &content, start) {
            Place::Unknown { from, to } => {
                let name = slice(&content, from, to);
                unknown(&self.registry, self.settings.suggestions, name.as_str())
            },
            Place::Found { group, command, arguments } => {
                let the_command = &self.registry.commands[command];
                match gate(
                    &self.registry.groups[group],
                    the_command,
                    &self.settings.owners,
                    message.author,
                    message.in_guild,
                ) {
                    Some(denial) => {
                        return Dispatch::Denied { command, denial };
                    },
                    None => {},
                }
                let handler = the_command.handler;
                let name = the_command.names[0].clone();
                let rest = slice(&content, arguments, content.len());
                match find_bucket(&self.buckets, the_command) {
                    Some(b) => {
                        match self.buckets[b].take(message.author, now) {
                            Take::Granted { prior } => Dispatch::Invoke {
                                command,
                                handler,
                                name,
                                arguments: rest,
                                ticket: Some(Ticket { bucket: b, caller: message.author, prior }),
                            },
                            Take::Limited { remaining, first_try } => Dispatch::Limited {
                                command,
                                remaining,
                                first_try,
                            },
                        }
                    },
                    None => Dispatch::Invoke { command, handler, name, arguments: rest, ticket: None },
                }
            },
        }
    }

    /// Closes an invocation of the command called `name`: where the handler
    /// asks for a refund, the token of `ticket` goes back to its bucket; and
    /// whatever came of the handler is put on record under the command's
    /// name.
    pub fn complete(&mut self, name: &str, ticket: Option<Ticket>, finished: Finished) -> (record:
        Record)
        ensures
            record.command@ == name@,
            record.failure == match finished {
                Finished::Failed(why) => Some(why),
                _ => None::<String>,
            },
            final(self).registry() == old(self).registry(),
            final(self).settings() == old(self).settings(),
            gave_back(
                old(self).buckets(),
                final(self).buckets(),
                if finished == Finished::Refund {
                    ticket
                } else {
                    None
                },
            ),
    {
        proof {
            use_type_invariant(&*self);
        }
        let command = String::from_str(name);
        match finished {
            Finished::Done => Record { command, failure: None },
            Finished::Refund => {
                match ticket {
                    Some(t) => {
                        if t.bucket < self.buckets.len() {
                            self.buckets[t.bucket].restore(t.caller, t.prior);
                        }
                    },
                    None => {},
                }
                Record { command, failure: None }
            },
            Finished::Failed(why) => Record { command, failure: Some(why) },
        }
    }
}

/// What to tell the user of what the dispatcher made of a message.
pub fn notice(dispatch: &Dispatch) -> (r: Option<String>)
    ensures
        text_view(r) == notice_of(dispatch@),
{
    match dispatch {
        Dispatch::Unknown { name, suggestion } => {
            let mut text = String::from_str("Could not find: `");
            text.append(name.as_str());
            match suggestion {
                Some(known) => {
                    text.append("`. Did you mean `");
                    text.append(known.as_str());
                    text.append("`?");
                },
                None => {
                    text.append("`.");
                },
            }
            Some(text)
        },
        Dispatch::Denied { command: _, denial } => match denial {
            Denial::CheckFailed(check) => shown(&reason(*check)),
            _ => None,
        },
        Dispatch::Limited { command: _, remaining, first_try } => if *first_try {
            let mut text = String::from_str("Try this again in ");
            text.append(decimal_string(*remaining).as_str());
            text.append(" seconds.");
            Some(text)
        } else {
            None
        },
        _ => None,
    }
}

/// What is made of a name that no command bears: the name, and the known
/// name to suggest for it, if one is near enough.
pub fn unknown(registry: &Registry, limit: usize, name: &str) -> (d: Dispatch)
    requires
        registry.wf(),
    ensures
        d@ == (Outcome::Unknown { name: name@, suggestion: suggestion_for(*registry, limit, name@) }),
{
    let names = known(registry);
    let suggestion = match suggest(name, &names, limit) {
        Some(i) => {
            proof {
                lemma_suggested(name@, names.deep_view(), limit as nat);
            }
            assert(names.deep_view()[i as int] == names[i as int]@);
            Some(names[i].clone())
        },
        None => None,
    };
    Dispatch::Unknown { name: String::from_str(name), suggestion }
}

} // verus!
