//! The bot as it is set up: its commands and groups, its one rate limit,
//! and how it reads messages.

use std::collections::HashSet;
use vstd::prelude::*;
use vstd::string::*;

use crate::arguments::Delimiters;
use crate::buckets::{Bucket, Slot};
use crate::dispatch::Settings;
use crate::registry::{Check, Command, Group, Handler, Registry};

verus! {

broadcast use vstd::std_specs::hash::group_hash_axioms;

/// The characters of each text of a list.
pub open spec fn texts(list: Seq<&'static str>) -> Seq<Seq<char>> {
    list.map_values(|s: &'static str| s@)
}

/// The characters of a text that may be missing.
pub open spec fn text_or_none(text: Option<&'static str>) -> Option<Seq<char>> {
    match text {
        Some(t) => Some(t@),
        None => None,
    }
}

/// Whether `command` is the command described.
pub open spec fn command_is(
    command: Command,
    names: Seq<&'static str>,
    description: &'static str,
    bucket: Option<&'static str>,
    checks: Seq<Check>,
    guild_only: bool,
    owners_only: bool,
    handler: Handler,
) -> bool {
    &&& command.names.deep_view() =~= texts(names)
    &&& command.description@ == description@
    &&& crate::routing::text_view(command.bucket) == text_or_none(bucket)
    &&& command.checks@ =~= checks
    &&& command.guild_only == guild_only
    &&& command.owners_only == owners_only
    &&& command.handler == handler
}

/// Whether `group` is the group described.
pub open spec fn group_is(
    group: Group,
    name: &'static str,
    prefixes: Seq<&'static str>,
    description: &'static str,
    summary: &'static str,
    commands: Seq<usize>,
    default_command: Option<usize>,
    guild_only: bool,
    owners_only: bool,
) -> bool {
    &&& group.name@ == name@
    &&& group.prefixes.deep_view() =~= texts(prefixes)
    &&& group.description@ == description@
    &&& group.summary@ == summary@
    &&& group.commands@ =~= commands
    &&& group.default_command == default_command
    &&& group.checks@ =~= Seq::<Check>::empty()
    &&& group.guild_only == guild_only
    &&& group.owners_only == owners_only
}

/// Owned copies of the texts of a list.
fn owned(list: Vec<&'static str>) -> (r: Vec<String>)
    ensures
        r.deep_view() == texts(list@),
{
    let mut r: Vec<String> = Vec::new();
    let mut i: usize = 0;
    while i < list.len()
        invariant
            i <= list.len(),
            r.len() == i,
            forall|j: int| 0 <= j < i ==> r[j]@ == list[j]@,
        decreases list.len() - i,
    {
        r.push(String::from_str(list[i]));
        i += 1;
    }
    assert(r.deep_view() =~= texts(list@));
    r
}

/// Makes a command.
fn command(
    names: Vec<&'static str>,
    description: &'static str,
    bucket: Option<&'static str>,
    checks: Vec<Check>,
    guild_only: bool,
    owners_only: bool,
    handler: Handler,
) -> (c: Command)
    ensures
        command_is(c, names@, description, bucket, checks@, guild_only, owners_only, handler),
{
    Command {
        names: owned(names),
        description: String::from_str(description),
        bucket: match bucket {
            Some(name) => Some(String::from_str(name)),
            None => None,
        },
        checks,
        guild_only,
        owners_only,
        handler,
    }
}

/// Makes a group without checks of its own.
fn group(
    name: &'static str,
    prefixes: Vec<&'static str>,
    description: &'static str,
    summary: &'static str,
    commands: Vec<usize>,
    default_command: Option<usize>,
    guild_only: bool,
    owners_only: bool,
) -> (g: Group)
    ensures
        group_is(
            g,
            name,
            prefixes@,
            description,
            summary,
            commands@,
            default_command,
            guild_only,
            owners_only,
        ),
{
    Group {
        name: String::from_str(name),
        prefixes: owned(prefixes),
        description: String::from_str(description),
        summary: String::from_str(summary),
        commands,
        default_command,
        checks: Vec::new(),
        guild_only,
        owners_only,
    }
}

/// Whether `r` is the bot's table of commands and groups. The mute
/// commands are in the table but in no group, so nothing invokes them.
pub open spec fn is_standard(r: Registry) -> bool {
    &&& r.commands.len() == 16
    &&& r.groups.len() == 5
    &&& command_is(r.commands[0], seq!["ping"], "", None, seq![Check::Owner], true, false, Handler::Ping)
    &&& command_is(
        r.commands[1],
        seq!["do_you_know", "znasz", "know"],
        "",
        None,
        seq![],
        false,
        false,
        Handler::DoYouKnow,
    )
    &&& command_is(r.commands[2], seq!["version"], "", None, seq![], false, false, Handler::Version)
    &&& command_is(
        r.commands[3],
        seq!["mac", "apple", "macos"],
        "Sends opinion about macos.",
        Some("systems"),
        seq![],
        false,
        false,
        Handler::Mac,
    )
    &&& command_is(
        r.commands[4],
        seq!["linux", "pingwinie", "ubuntu", "i3"],
        "Sends opinion about linux os.",
        Some("systems"),
        seq![],
        false,
        false,
        Handler::Linux,
    )
    &&& command_is(
        r.commands[5],
        seq!["windows", "winda", "windows 10", "windows vista", "windows xp"],
        "Sends opinion about windows.",
        Some("systems"),
        seq![],
        false,
        false,
        Handler::Windows,
    )
    &&& command_is(r.commands[6], seq!["cat"], "", Some("emoji"), seq![], false, false, Handler::Cat)
    &&& command_is(
        r.commands[7],
        seq!["dog"],
        "Sends an emoji with a dog.",
        Some("emoji"),
        seq![],
        false,
        false,
        Handler::Dog,
    )
    &&& command_is(
        r.commands[8],
        seq!["eggplant", "af", "afek", "afrael", "bartsmykla", "bakłażan", "baklazan"],
        "Sends an emoji with an eggplant.",
        Some("emoji"),
        seq![],
        false,
        false,
        Handler::Eggplant,
    )
    &&& command_is(r.commands[9], seq!["bird"], "", None, seq![], false, false, Handler::Bird)
    &&& command_is(
        r.commands[10],
        seq!["slow_mode"],
        "",
        None,
        seq![],
        false,
        false,
        Handler::SlowMode,
    )
    &&& command_is(
        r.commands[11],
        seq!["play", "set"],
        "",
        Some("activity"),
        seq![Check::Owner],
        false,
        false,
        Handler::Play,
    )
    &&& command_is(r.commands[12], seq!["mute"], "", None, seq![], false, false, Handler::Mute)
    &&& command_is(r.commands[13], seq!["unmute"], "", None, seq![], false, false, Handler::Unmute)
    &&& command_is(r.commands[14], seq!["muted"], "", None, seq![], false, false, Handler::Muted)
    &&& command_is(
        r.commands[15],
        seq!["help"],
        "Lists the commands, or tells what is known of one.",
        None,
        seq![],
        false,
        false,
        Handler::Help,
    )
    &&& group_is(r.groups[0], "General", seq![], "", "", seq![0, 1, 2, 15], None, false, false)
    &&& group_is(
        r.groups[1],
        "Systems",
        seq!["os"],
        "",
        "Do operating system opinion fun!",
        seq![3, 4, 5],
        Some(4),
        false,
        false,
    )
    &&& group_is(
        r.groups[2],
        "Emoji",
        seq!["emoji", "em"],
        "A group with commands providing an emoji as response.",
        "Do emoji fun!",
        seq![6, 7, 8],
        Some(9),
        false,
        false,
    )
    &&& group_is(
        r.groups[3],
        "Owner",
        seq![],
        "",
        "Commands for server owners",
        seq![10],
        None,
        true,
        true,
    )
    &&& group_is(
        r.groups[4],
        "Activity",
        seq!["act"],
        "A group of commands that lets you change the bot's activity presence.",
        "Change bot's activity presence",
        seq![11],
        Some(11),
        false,
        true,
    )
}

/// The bot's commands and groups.
pub fn registry() -> (r: Registry)
    ensures
        r.wf(),
        is_standard(r),
{
    let mut commands: Vec<Command> = Vec::new();
    commands.push(command(vec!["ping"], "", None, vec![Check::Owner], true, false, Handler::Ping));
    commands.push(
        command(
            vec!["do_you_know", "znasz", "know"],
            "",
            None,
            Vec::new(),
            false,
            false,
            Handler::DoYouKnow,
        ),
    );
    commands.push(command(vec!["version"], "", None, Vec::new(), false, false, Handler::Version));
    commands.push(
        command(
            vec!["mac", "apple", "macos"],
            "Sends opinion about macos.",
            Some("systems"),
            Vec::new(),
            false,
            false,
            Handler::Mac,
        ),
    );
    commands.push(
        command(
            vec!["linux", "pingwinie", "ubuntu", "i3"],
            "Sends opinion about linux os.",
            Some("systems"),
            Vec::new(),
            false,
            false,
            Handler::Linux,
        ),
    );
    commands.push(
        command(
            vec!["windows", "winda", "windows 10", "windows vista", "windows xp"],
            "Sends opinion about windows.",
            Some("systems"),
            Vec::new(),
            false,
            false,
            Handler::Windows,
        ),
    );
    commands.push(command(vec!["cat"], "", Some("emoji"), Vec::new(), false, false, Handler::Cat));
    commands.push(
        command(
            vec!["dog"],
            "Sends an emoji with a dog.",
            Some("emoji"),
            Vec::new(),
            false,
            false,
            Handler::Dog,
        ),
    );
    commands.push(
        command(
            vec!["eggplant", "af", "afek", "afrael", "bartsmykla", "bakłażan", "baklazan"],
            "Sends an emoji with an eggplant.",
            Some("emoji"),
            Vec::new(),
            false,
            false,
            Handler::Eggplant,
        ),
    );
    commands.push(command(vec!["bird"], "", None, Vec::new(), false, false, Handler::Bird));
    commands.push(
        command(vec!["slow_mode"], "", None, Vec::new(), false, false, Handler::SlowMode),
    );
    commands.push(
        command(
            vec!["play", "set"],
            "",
            Some("activity"),
            vec![Check::Owner],
            false,
            false,
            Handler::Play,
        ),
    );
    commands.push(command(vec!["mute"], "", None, Vec::new(), false, false, Handler::Mute));
    commands.push(command(vec!["unmute"], "", None, Vec::new(), false, false, Handler::Unmute));
    commands.push(command(vec!["muted"], "", None, Vec::new(), false, false, Handler::Muted));
    commands.push(
        command(
            vec!["help"],
            "Lists the commands, or tells what is known of one.",
            None,
            Vec::new(),
            false,
            false,
            Handler::Help,
        ),
    );
    let mut groups: Vec<Group> = Vec::new();
    groups.push(group("General", Vec::new(), "", "", vec![0, 1, 2, 15], None, false, false));
    groups.push(
        group(
            "Systems",
            vec!["os"],
            "",
            "Do operating system opinion fun!",
            vec![3, 4, 5],
            Some(4),
            false,
            false,
        ),
    );
    groups.push(
        group(
            "Emoji",
            vec!["emoji", "em"],
            "A group with commands providing an emoji as response.",
            "Do emoji fun!",
            vec![6, 7, 8],
            Some(9),
            false,
            false,
        ),
    );
    groups.push(
        group("Owner", Vec::new(), "", "Commands for server owners", vec![10], None, true, true),
    );
    groups.push(
        group(
            "Activity",
            vec!["act"],
            "A group of commands that lets you change the bot's activity presence.",
            "Change bot's activity presence",
            vec![11],
            Some(11),
            false,
            true,
        ),
    );
    let r = Registry { commands, groups };
    assert forall|c: int| 0 <= c < r.commands.len() implies (#[trigger] r.commands[c]).names.len()
        > 0 by {
        assert(r.commands[c].names.deep_view().len() == r.commands[c].names.len());
    }
    r
}

/// The bot's rate limits: the emoji commands may be used once in five
/// seconds by each caller.
pub fn buckets() -> (r: Vec<Bucket>)
    ensures
        r.len() == 1,
        r[0].name() == "emoji"@,
        r[0].delay() == 5,
        r[0].slots() == Map::<u64, Slot>::empty(),
{
    let mut r: Vec<Bucket> = Vec::new();
    r.push(Bucket::new(String::from_str("emoji"), 5));
    r
}

/// The owners of the bot: three users that are always owners, and the
/// owner of the application.
pub fn owners(application_owner: u64) -> (r: HashSet<u64>)
    ensures
        r@ == set![
            355607930168541185u64,
            534066481369972757u64,
            143681393426169856u64,
            application_owner,
        ],
{
    let mut r: HashSet<u64> = HashSet::new();
    r.insert(355607930168541185);
    r.insert(534066481369972757);
    r.insert(143681393426169856);
    r.insert(application_owner);
    assert(r@ =~= set![
        355607930168541185u64,
        534066481369972757u64,
        143681393426169856u64,
        application_owner,
    ]);
    r
}

/// Whether `s` is how the bot reads messages: `!` or a mention of the bot
/// opens a command, white space is allowed after it, arguments are split at
/// `, ` and at `,`, the owners are the bot's, and names up to three edits
/// away are suggested, and bots are not listened to.
pub open spec fn is_standard_reading(s: Settings, bot: u64, application_owner: u64) -> bool {
    &&& s.prefixes.deep_view() == seq!["!"@]
    &&& s.mention == Some(bot)
    &&& s.whitespace
    &&& s.delimiters@ == seq![", "@, ","@]
    &&& s.owners@ == set![
        355607930168541185u64,
        534066481369972757u64,
        143681393426169856u64,
        application_owner,
    ]
    &&& s.suggestions == 3
    &&& s.ignore_bots
}

/// How the bot reads messages.
pub fn settings(bot: u64, application_owner: u64) -> (r: Settings)
    ensures
        is_standard_reading(r, bot, application_owner),
{
    let prefixes = owned(vec!["!"]);
    assert(prefixes.deep_view() =~= seq!["!"@]);
    let items = owned(vec![", ", ","]);
    assert(items.deep_view() =~= seq![", "@, ","@]);
    proof {
        reveal_strlit(", ");
        reveal_strlit(",");
    }
    let delimiters = match Delimiters::new(items) {
        Some(d) => d,
        None => Delimiters::none(),
    };
    Settings {
        prefixes,
        mention: Some(bot),
        whitespace: true,
        delimiters,
        owners: owners(application_owner),
        suggestions: 3,
        ignore_bots: true,
    }
}

} // verus!
