use smyklot::arguments::Arguments;
use smyklot::commands::help::{help, list, visible, Visibility};
use smyklot::dispatch::Dispatcher;
use smyklot::standard;

const KEEPER: u64 = 355607930168541185;
const STRANGER: u64 = 5;

fn about(word: &str) -> Arguments {
    if word.is_empty() {
        Arguments { tokens: Vec::new(), rest: String::new() }
    } else {
        Arguments { tokens: vec![word.to_string()], rest: word.to_string() }
    }
}

const GREETING: &str = "Hello! \n\nIf you want more information about a specific command, just pass the command as argument.\n";

#[test]
fn help_lists_what_a_stranger_may_use_outside_a_guild() {
    let d = Dispatcher::standard(99, 1000);
    let expected = [
        GREETING,
        "\n**General**\n",
        "+ ~~`ping`~~\n",
        "+ `do_you_know`\n",
        "+ `version`\n",
        "+ `help` Lists the commands, or tells what is known of one.\n",
        "\n**Systems** (os): Do operating system opinion fun!\n",
        "+ `mac` Sends opinion about macos.\n",
        "+ `linux` Sends opinion about linux os.\n",
        "+ `windows` Sends opinion about windows.\n",
        "\n**Emoji** (emoji, em): Do emoji fun!\n",
        "+ `cat`\n",
        "+ `dog` Sends an emoji with a dog.\n",
        "+ `eggplant` Sends an emoji with an eggplant.\n",
        "\n**Owner**: Commands for server owners\n",
        "\n**Activity** (act): Change bot's activity presence\n",
    ]
    .concat();
    assert_eq!(help(d.commands(), d.reading(), STRANGER, false, &about("")), expected);
    assert_eq!(list(d.commands(), &d.reading().owners, STRANGER, false), expected);
}

#[test]
fn help_lists_everything_to_an_owner_in_a_guild() {
    let d = Dispatcher::standard(99, 1000);
    let text = help(d.commands(), d.reading(), KEEPER, true, &about(""));
    assert!(text.starts_with(GREETING));
    assert!(text.contains("+ `ping`\n"));
    assert!(text.contains("\n**Owner**: Commands for server owners\n+ `slow_mode`\n"));
    assert!(text.ends_with("\n**Activity** (act): Change bot's activity presence\n+ `play`\n"));
    assert!(!text.contains("~~"));
    assert!(!text.contains("mute"));
}

#[test]
fn help_strikes_guild_commands_for_an_owner_elsewhere() {
    let d = Dispatcher::standard(99, 1000);
    let text = help(d.commands(), d.reading(), KEEPER, false, &about(""));
    assert!(text.contains("+ ~~`ping`~~\n"));
    assert!(text.contains("+ ~~`slow_mode`~~\n"));
    assert!(text.contains("+ `play`\n"));
}

#[test]
fn help_tells_what_is_known_of_one_command() {
    let d = Dispatcher::standard(99, 1000);
    assert_eq!(
        help(d.commands(), d.reading(), STRANGER, false, &about("mac")),
        "**`mac`**: Sends opinion about macos.\nAliases: apple, macos"
    );
    assert_eq!(
        help(d.commands(), d.reading(), STRANGER, false, &about("ubuntu")),
        "**`linux`**: Sends opinion about linux os.\nAliases: pingwinie, ubuntu, i3"
    );
    assert_eq!(help(d.commands(), d.reading(), STRANGER, false, &about("version")), "**`version`**");
    assert_eq!(
        help(d.commands(), d.reading(), STRANGER, false, &about("znasz")),
        "**`do_you_know`**\nAliases: znasz, know"
    );
}

#[test]
fn help_suggests_a_near_name() {
    let d = Dispatcher::standard(99, 1000);
    assert_eq!(
        help(d.commands(), d.reading(), STRANGER, false, &about("widnows")),
        "Could not find: `widnows`. Did you mean `windows`?"
    );
    assert_eq!(
        help(d.commands(), d.reading(), STRANGER, false, &about("pingwin")),
        "Could not find: `pingwin`. Did you mean `pingwinie`?"
    );
    assert_eq!(
        help(d.commands(), d.reading(), STRANGER, false, &about("xylophonist")),
        "Could not find: `xylophonist`."
    );
    assert_eq!(
        help(d.commands(), d.reading(), STRANGER, false, &about("bird")),
        "Could not find: `bird`. Did you mean `ping`?"
    );
}

#[test]
fn visibility_hides_before_it_strikes() {
    let registry = standard::registry();
    let owners = standard::owners(1000);
    let owner_group = &registry.groups[3];
    let slow_mode = &registry.commands[10];
    assert_eq!(visible(owner_group, slow_mode, &owners, STRANGER, false), Visibility::Hidden);
    assert_eq!(visible(owner_group, slow_mode, &owners, STRANGER, true), Visibility::Hidden);
    assert_eq!(visible(owner_group, slow_mode, &owners, KEEPER, false), Visibility::Struck);
    assert_eq!(visible(owner_group, slow_mode, &owners, KEEPER, true), Visibility::Shown);
    let general = &registry.groups[0];
    let ping = &registry.commands[0];
    assert_eq!(visible(general, ping, &owners, STRANGER, true), Visibility::Shown);
    assert_eq!(visible(general, ping, &owners, STRANGER, false), Visibility::Struck);
}
