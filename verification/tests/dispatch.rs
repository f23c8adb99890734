use smyklot::buckets::Slot;
use smyklot::dispatch::{
    conclude, notice, Denial, Dispatch, Dispatcher, Finished, Incoming, Record, Ticket,
};
use smyklot::registry::{evaluate, logged, owner_check, shown, Check, Handler, Reason, Registry};
use smyklot::standard;

const KEEPER: u64 = 355607930168541185;
const OWNER: u64 = 534066481369972757;
const BOT: u64 = 99;
const STRANGER: u64 = 5;

fn bot() -> Dispatcher {
    Dispatcher::standard(BOT, 1000)
}

fn incoming(author: u64, content: &str, in_guild: bool) -> Incoming {
    Incoming { author, from_bot: false, content: content.to_string(), in_guild }
}

fn invoke(command: usize, handler: Handler, name: &str, arguments: &str, ticket: Option<Ticket>) -> Dispatch {
    Dispatch::Invoke {
        command,
        handler,
        name: name.to_string(),
        arguments: arguments.to_string(),
        ticket,
    }
}

#[test]
fn messages_without_prefix_are_ignored() {
    let mut d = bot();
    for content in ["", "hello", "ping", " !ping", "?ping", "<@98> ping", "<@99 ping", "<@!991> ping", "<#99> ping"] {
        assert_eq!(d.dispatch(&incoming(KEEPER, content, true), 0), Dispatch::Ignored, "{:?}", content);
    }
    assert_eq!(d.remembered(0, KEEPER), None);
}

#[test]
fn a_prefix_alone_invokes_nothing() {
    let mut d = bot();
    for content in ["!", "!   ", "<@99>", "<@!99> \t"] {
        assert_eq!(d.dispatch(&incoming(KEEPER, content, true), 0), Dispatch::PrefixOnly, "{:?}", content);
    }
}

#[test]
fn a_valid_invocation_runs_its_handler() {
    let mut d = bot();
    assert_eq!(
        d.dispatch(&incoming(STRANGER, "!version", false), 0),
        invoke(2, Handler::Version, "version", "", None)
    );
    assert_eq!(
        d.dispatch(&incoming(STRANGER, "! znasz kogoś?", false), 0),
        invoke(1, Handler::DoYouKnow, "do_you_know", "kogoś?", None)
    );
    assert_eq!(
        d.dispatch(&incoming(KEEPER, "!ping", true), 0),
        invoke(0, Handler::Ping, "ping", "", None)
    );
}

#[test]
fn a_mention_of_the_bot_opens_a_command() {
    let mut d = bot();
    assert_eq!(
        d.dispatch(&incoming(STRANGER, "<@99> version", false), 0),
        invoke(2, Handler::Version, "version", "", None)
    );
    assert_eq!(
        d.dispatch(&incoming(STRANGER, "<@!99>version now", false), 0),
        invoke(2, Handler::Version, "version", "now", None)
    );
}

#[test]
fn groups_are_entered_by_their_prefix() {
    let mut d = bot();
    assert_eq!(
        d.dispatch(&incoming(STRANGER, "!os mac", false), 0),
        invoke(3, Handler::Mac, "mac", "", None)
    );
    assert_eq!(
        d.dispatch(&incoming(STRANGER, "!os ubuntu lts", false), 0),
        invoke(4, Handler::Linux, "linux", "lts", None)
    );
    assert_eq!(
        d.dispatch(&incoming(STRANGER, "!os   winda", false), 0),
        invoke(5, Handler::Windows, "windows", "", None)
    );
}

#[test]
fn a_group_falls_back_to_its_default_command() {
    let mut d = bot();
    assert_eq!(
        d.dispatch(&incoming(STRANGER, "!os", false), 0),
        invoke(4, Handler::Linux, "linux", "", None)
    );
    assert_eq!(
        d.dispatch(&incoming(STRANGER, "!os beos rocks", false), 0),
        invoke(4, Handler::Linux, "linux", "beos rocks", None)
    );
    assert_eq!(
        d.dispatch(&incoming(STRANGER, "!em hawk, owl", false), 0),
        invoke(9, Handler::Bird, "bird", "hawk, owl", None)
    );
    assert_eq!(
        d.dispatch(&incoming(STRANGER, "!emoji", false), 0),
        invoke(9, Handler::Bird, "bird", "", None)
    );
}

#[test]
fn commands_of_a_group_are_not_at_the_top_level() {
    let mut d = bot();
    assert_eq!(
        d.dispatch(&incoming(STRANGER, "!mac", false), 0),
        Dispatch::Unknown { name: "mac".to_string(), suggestion: Some("mac".to_string()) }
    );
}

#[test]
fn commands_in_no_group_are_unknown() {
    let mut d = bot();
    assert_eq!(
        d.dispatch(&incoming(KEEPER, "!muted", true), 0),
        Dispatch::Unknown { name: "muted".to_string(), suggestion: None }
    );
    assert_eq!(
        d.dispatch(&incoming(KEEPER, "!unmute bob", true), 0),
        Dispatch::Unknown { name: "unmute".to_string(), suggestion: None }
    );
}

#[test]
fn a_near_name_is_suggested() {
    let mut d = bot();
    let pong = d.dispatch(&incoming(KEEPER, "!pong", true), 0);
    assert_eq!(
        pong,
        Dispatch::Unknown { name: "pong".to_string(), suggestion: Some("ping".to_string()) }
    );
    assert_eq!(notice(&pong), Some("Could not find: `pong`. Did you mean `ping`?".to_string()));
    assert_eq!(
        d.dispatch(&incoming(KEEPER, "!versoin 2", true), 0),
        Dispatch::Unknown { name: "versoin".to_string(), suggestion: Some("version".to_string()) }
    );
    assert_eq!(
        d.dispatch(&incoming(KEEPER, "!vers", true), 0),
        Dispatch::Unknown { name: "vers".to_string(), suggestion: Some("version".to_string()) }
    );
}

#[test]
fn a_far_name_is_not_suggested() {
    let mut d = bot();
    let far = d.dispatch(&incoming(KEEPER, "!xylophonist", true), 0);
    assert_eq!(far, Dispatch::Unknown { name: "xylophonist".to_string(), suggestion: None });
    assert_eq!(notice(&far), Some("Could not find: `xylophonist`.".to_string()));
    assert_eq!(
        d.dispatch(&incoming(KEEPER, "!vers1234", true), 0),
        Dispatch::Unknown { name: "vers1234".to_string(), suggestion: None }
    );
}

#[test]
fn guild_commands_are_denied_elsewhere() {
    let mut d = bot();
    let denied = d.dispatch(&incoming(KEEPER, "!ping", false), 0);
    assert_eq!(denied, Dispatch::Denied { command: 0, denial: Denial::OnlyForGuilds });
    assert_eq!(notice(&denied), None);
    assert_eq!(
        d.dispatch(&incoming(OWNER, "!slow_mode 30", false), 0),
        Dispatch::Denied { command: 10, denial: Denial::OnlyForGuilds }
    );
}

#[test]
fn owner_commands_are_denied_to_others() {
    let mut d = bot();
    assert_eq!(
        d.dispatch(&incoming(STRANGER, "!slow_mode 30", true), 0),
        Dispatch::Denied { command: 10, denial: Denial::OnlyForOwners }
    );
    assert_eq!(
        d.dispatch(&incoming(STRANGER, "!act play chess", true), 0),
        Dispatch::Denied { command: 11, denial: Denial::OnlyForOwners }
    );
    assert_eq!(
        d.dispatch(&incoming(OWNER, "!slow_mode 30", true), 0),
        invoke(10, Handler::SlowMode, "slow_mode", "30", None)
    );
    assert_eq!(
        d.dispatch(&incoming(1000, "!slow_mode", true), 0),
        invoke(10, Handler::SlowMode, "slow_mode", "", None)
    );
}

#[test]
fn checks_are_asked_after_the_owners_list() {
    let mut d = bot();
    let failed = d.dispatch(&incoming(STRANGER, "!ping", true), 0);
    assert_eq!(failed, Dispatch::Denied { command: 0, denial: Denial::CheckFailed(Check::Owner) });
    assert_eq!(notice(&failed), Some("Lacked owner permission".to_string()));
    assert_eq!(
        d.dispatch(&incoming(OWNER, "!act chess", true), 0),
        Dispatch::Denied { command: 11, denial: Denial::CheckFailed(Check::Owner) }
    );
    assert_eq!(
        d.dispatch(&incoming(KEEPER, "!act set chess, go", true), 0),
        invoke(11, Handler::Play, "play", "chess, go", None)
    );
}

#[test]
fn a_bucketed_command_is_limited_within_its_delay() {
    let mut d = bot();
    let ticket = Some(Ticket { bucket: 0, caller: STRANGER, prior: None });
    assert_eq!(
        d.dispatch(&incoming(STRANGER, "!emoji dog", false), 100),
        invoke(7, Handler::Dog, "dog", "", ticket)
    );
    let first = d.dispatch(&incoming(STRANGER, "!emoji dog", false), 102);
    assert_eq!(first, Dispatch::Limited { command: 7, remaining: 3, first_try: true });
    assert_eq!(notice(&first), Some("Try this again in 3 seconds.".to_string()));
    let second = d.dispatch(&incoming(STRANGER, "!emoji dog", false), 104);
    assert_eq!(second, Dispatch::Limited { command: 7, remaining: 1, first_try: false });
    assert_eq!(notice(&second), None);
    let prior = Some(Slot { last: 100, first_try: false });
    assert_eq!(
        d.dispatch(&incoming(STRANGER, "!emoji dog", false), 105),
        invoke(7, Handler::Dog, "dog", "", Some(Ticket { bucket: 0, caller: STRANGER, prior }))
    );
}

#[test]
fn a_bucket_is_shared_by_its_commands_and_not_by_callers() {
    let mut d = bot();
    assert!(matches!(d.dispatch(&incoming(STRANGER, "!em cat", false), 100), Dispatch::Invoke { .. }));
    assert_eq!(
        d.dispatch(&incoming(STRANGER, "!em bakłażan", false), 101),
        Dispatch::Limited { command: 8, remaining: 4, first_try: true }
    );
    assert!(matches!(d.dispatch(&incoming(KEEPER, "!em dog", false), 101), Dispatch::Invoke { .. }));
    assert!(matches!(d.dispatch(&incoming(STRANGER, "!em", false), 101), Dispatch::Invoke { .. }));
}

#[test]
fn a_bucket_that_is_not_set_up_limits_nothing() {
    let mut d = bot();
    for now in [0, 0, 1] {
        assert_eq!(
            d.dispatch(&incoming(STRANGER, "!os mac", false), now),
            invoke(3, Handler::Mac, "mac", "", None)
        );
    }
}

#[test]
fn a_denied_caller_takes_no_token() {
    let mut d = Dispatcher::new(
        {
            let mut r = standard::registry();
            r.commands[7].owners_only = true;
            r
        },
        standard::settings(BOT, 1000),
        standard::buckets(),
    )
    .unwrap();
    assert_eq!(
        d.dispatch(&incoming(STRANGER, "!em dog", true), 0),
        Dispatch::Denied { command: 7, denial: Denial::OnlyForOwners }
    );
    assert_eq!(d.remembered(0, STRANGER), None);
}

#[test]
fn a_refund_gives_the_token_back() {
    let mut d = bot();
    let message = incoming(STRANGER, "!emoji cat", false);
    let ticket = Some(Ticket { bucket: 0, caller: STRANGER, prior: None });
    assert_eq!(d.dispatch(&message, 100), invoke(6, Handler::Cat, "cat", "", ticket));
    let finished = conclude(Handler::Cat, Ok(()));
    assert_eq!(finished, Finished::Refund);
    assert_eq!(
        d.complete("cat", ticket, finished),
        Record { command: "cat".to_string(), failure: None }
    );
    assert_eq!(d.remembered(0, STRANGER), None);
    assert_eq!(d.dispatch(&message, 100), invoke(6, Handler::Cat, "cat", "", ticket));
}

#[test]
fn a_failure_keeps_the_token() {
    let mut d = bot();
    let message = incoming(STRANGER, "!emoji cat", false);
    let ticket = Some(Ticket { bucket: 0, caller: STRANGER, prior: None });
    assert_eq!(d.dispatch(&message, 100), invoke(6, Handler::Cat, "cat", "", ticket));
    let finished = conclude(Handler::Cat, Err("no route".to_string()));
    assert_eq!(finished, Finished::Failed("no route".to_string()));
    assert_eq!(
        d.complete("cat", ticket, finished),
        Record { command: "cat".to_string(), failure: Some("no route".to_string()) }
    );
    assert_eq!(d.remembered(0, STRANGER), Some(Slot { last: 100, first_try: true }));
    assert_eq!(
        d.dispatch(&message, 101),
        Dispatch::Limited { command: 6, remaining: 4, first_try: true }
    );
}

#[test]
fn only_cat_and_eggplant_refund() {
    assert_eq!(conclude(Handler::Cat, Ok(())), Finished::Refund);
    assert_eq!(conclude(Handler::Eggplant, Ok(())), Finished::Refund);
    for handler in [Handler::Dog, Handler::Bird, Handler::Ping, Handler::Mac, Handler::Play] {
        assert_eq!(conclude(handler, Ok(())), Finished::Done);
        assert_eq!(conclude(handler, Err("x".to_string())), Finished::Failed("x".to_string()));
    }
    let mut d = bot();
    let ticket = Some(Ticket { bucket: 0, caller: STRANGER, prior: None });
    assert!(matches!(d.dispatch(&incoming(STRANGER, "!em dog", false), 100), Dispatch::Invoke { .. }));
    d.complete("dog", ticket, conclude(Handler::Dog, Ok(())));
    assert_eq!(d.remembered(0, STRANGER), Some(Slot { last: 100, first_try: true }));
}

#[test]
fn a_ticket_for_no_bucket_changes_nothing() {
    let mut d = bot();
    let ticket = Some(Ticket { bucket: 3, caller: STRANGER, prior: None });
    d.complete("cat", ticket, Finished::Refund);
    d.complete("cat", None, Finished::Refund);
    assert_eq!(d.remembered(0, STRANGER), None);
    assert_eq!(d.remembered(3, STRANGER), None);
}

#[test]
fn without_whitespace_mode_nothing_is_skipped() {
    let mut settings = standard::settings(BOT, 1000);
    settings.whitespace = false;
    let mut d = Dispatcher::new(standard::registry(), settings, standard::buckets()).unwrap();
    assert_eq!(
        d.dispatch(&incoming(STRANGER, "!version now", false), 0),
        invoke(2, Handler::Version, "version", " now", None)
    );
    assert_eq!(
        d.dispatch(&incoming(STRANGER, "! version", false), 0),
        Dispatch::Unknown { name: "".to_string(), suggestion: Some("i3".to_string()) }
    );
}

#[test]
fn a_registry_must_be_well_formed() {
    let mut r = standard::registry();
    assert!(r.is_valid());
    r.groups[0].commands.push(16);
    assert!(!r.is_valid());
    assert!(Dispatcher::new(r, standard::settings(BOT, 1000), standard::buckets()).is_none());
    let mut nameless = standard::registry();
    nameless.commands[0].names.clear();
    assert!(!nameless.is_valid());
    let mut no_default = standard::registry();
    no_default.groups[1].default_command = Some(99);
    assert!(!no_default.is_valid());
    assert!(Registry::new().is_valid());
}

#[test]
fn an_empty_registry_knows_nothing() {
    let mut d = Dispatcher::new(Registry::new(), standard::settings(BOT, 1000), Vec::new()).unwrap();
    assert_eq!(
        d.dispatch(&incoming(KEEPER, "!ping", true), 0),
        Dispatch::Unknown { name: "ping".to_string(), suggestion: None }
    );
}

#[test]
fn the_owner_check_lets_the_keeper_pass() {
    assert_eq!(owner_check(KEEPER), Ok(()));
    assert_eq!(owner_check(OWNER), Err(Reason::User("Lacked owner permission".to_string())));
    assert_eq!(owner_check(0), Err(Reason::User("Lacked owner permission".to_string())));
    assert_eq!(evaluate(Check::Owner, KEEPER), Ok(()));
    assert_eq!(evaluate(Check::Owner, 1), owner_check(1));
}

#[test]
fn reasons_go_to_the_user_or_the_log() {
    let both = Reason::UserAndLog { user: "no".to_string(), log: "denied 5".to_string() };
    assert_eq!(shown(&Reason::User("no".to_string())), Some("no".to_string()));
    assert_eq!(logged(&Reason::User("no".to_string())), None);
    assert_eq!(shown(&Reason::Log("denied".to_string())), None);
    assert_eq!(logged(&Reason::Log("denied".to_string())), Some("denied".to_string()));
    assert_eq!(shown(&Reason::Unknown), None);
    assert_eq!(logged(&Reason::Unknown), None);
    assert_eq!(shown(&both), Some("no".to_string()));
    assert_eq!(logged(&both), Some("denied 5".to_string()));
}

#[test]
fn the_standard_setup() {
    let owners = standard::owners(1000);
    assert_eq!(owners.len(), 4);
    assert!(owners.contains(&KEEPER) && owners.contains(&OWNER) && owners.contains(&1000));
    assert_eq!(standard::owners(KEEPER).len(), 3);
    let settings = standard::settings(BOT, 1000);
    assert_eq!(settings.prefixes, vec!["!"]);
    assert_eq!(settings.mention, Some(BOT));
    assert_eq!(settings.suggestions, 3);
    let registry = standard::registry();
    assert_eq!(registry.commands.len(), 16);
    assert_eq!(registry.groups.len(), 5);
    assert_eq!(registry.commands[8].names[5], "bakłażan");
    assert_eq!(registry.groups[2].prefixes, vec!["emoji", "em"]);
}

#[test]
fn help_is_a_command() {
    let mut d = bot();
    assert_eq!(
        d.dispatch(&incoming(STRANGER, "!help mac", false), 0),
        invoke(15, Handler::Help, "help", "mac", None)
    );
}

#[test]
fn the_standard_names_are_unambiguous() {
    let registry = standard::registry();
    for g in 0..registry.groups.len() {
        assert!(registry.is_unambiguous(g), "group {}", g);
    }
}

#[test]
fn a_name_that_occurs_twice_is_ambiguous() {
    let mut twice = standard::registry();
    twice.commands[3].names.push("mac".to_string());
    assert!(!twice.is_unambiguous(1));
    assert!(twice.is_unambiguous(0));
    let mut shared = standard::registry();
    shared.commands[5].names.push("ubuntu".to_string());
    assert!(!shared.is_unambiguous(1));
    assert!(shared.is_unambiguous(2));
    let mut listed_twice = standard::registry();
    listed_twice.groups[3].commands.push(10);
    assert!(!listed_twice.is_unambiguous(3));
}

#[test]
fn bots_are_not_listened_to() {
    let mut d = bot();
    let from_bot = Incoming { author: KEEPER, from_bot: true, content: "!ping".to_string(), in_guild: true };
    assert_eq!(d.dispatch(&from_bot, 0), Dispatch::Ignored);
    let mut settings = standard::settings(BOT, 1000);
    settings.ignore_bots = false;
    let mut open = Dispatcher::new(standard::registry(), settings, standard::buckets()).unwrap();
    assert_eq!(open.dispatch(&from_bot, 0), invoke(0, Handler::Ping, "ping", "", None));
}
