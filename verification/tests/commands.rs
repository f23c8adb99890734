use smyklot::arguments::{Arguments, Delimiters};
use smyklot::commands::activity::{play, User};
use smyklot::commands::channel::{slow_mode, slow_mode_report, slow_mode_set, SlowMode};
use smyklot::commands::do_you_know::do_you_know;
use smyklot::commands::emoji::{bird, cat, dog, eggplant, eggplant_answer, EmojiError};
use smyklot::commands::general::ping;
use smyklot::commands::mute::{
    changed, fetched, found, get_member, lookup_failed, mute, muted, unmute, Change, Member, Step,
    Target,
};
use smyklot::commands::systems::{linux, mac, windows};
use smyklot::commands::version::version;
use smyklot::commands::{delivery, Delivery};
use smyklot::registry::Handler;

fn delimiters(items: &[&str]) -> Delimiters {
    Delimiters::new(items.iter().map(|s| s.to_string()).collect()).unwrap()
}

fn standard_delimiters() -> Delimiters {
    delimiters(&[", ", ","])
}

fn member(id: u64, name: &str, roles: &[u64]) -> Member {
    Member { id, name: name.to_string(), roles: roles.to_vec() }
}

fn one(argument: &str) -> Arguments {
    Arguments { tokens: vec![argument.to_string()], rest: argument.to_string() }
}

fn guild() -> Vec<Member> {
    vec![
        member(11, "ann", &[7]),
        member(12, "bob", &[]),
        member(13, "cid", &[5, 7]),
        member(14, "bob", &[7]),
        member(15, "12", &[]),
        member(16, "zoë", &[]),
    ]
}

#[test]
fn version_reports_the_configured_version() {
    assert_eq!(version("1.2.3"), "1.2.3");
    assert_eq!(version("v0.0.1-rc1"), "v0.0.1-rc1");
}

#[test]
fn version_shrugs_at_a_missing_version() {
    assert_eq!(version(""), "¯\\_(ツ)_/¯");
    assert_eq!(version("{{version}}"), "¯\\_(ツ)_/¯");
}

#[test]
fn version_keeps_what_only_looks_like_the_placeholder() {
    assert_eq!(version("{{version}} "), "{{version}} ");
    assert_eq!(version("{version}"), "{version}");
}

#[test]
fn do_you_know_depends_on_the_name() {
    assert_eq!(do_you_know("zawiszaty"), "tobie nie powiem");
    assert_eq!(do_you_know("Zawiszaty"), "pierwsze słyszę");
    assert_eq!(do_you_know("ann"), "pierwsze słyszę");
    assert_eq!(do_you_know(""), "pierwsze słyszę");
}

#[test]
fn fixed_answers() {
    assert_eq!(ping(), "Pong! : )");
    assert_eq!(mac(), "Jak cię stać na ten szmelc");
    assert_eq!(linux(), "Jedyne słuszne rozwiązanie! :sunglasses:");
    assert_eq!(windows(), "Jak zrestartujesz kompa to pogadamy");
    assert_eq!(cat(), ":cat:");
    assert_eq!(dog(), ":dog:");
}

#[test]
fn eggplant_is_the_custom_emoji() {
    assert_eq!(eggplant(), Ok("<:baklazan:815856883771506768>".to_string()));
}

#[test]
fn arguments_are_split_at_the_delimiters() {
    let args = Arguments::parse("a, b,c", &standard_delimiters());
    assert_eq!(args.tokens, vec!["a", "b", "c"]);
    assert_eq!(args.rest, "a, b,c");
}

#[test]
fn arguments_without_delimiters_are_one() {
    let args = Arguments::parse("one two", &Delimiters::none());
    assert_eq!(args.tokens, vec!["one two"]);
    assert_eq!(args.rest, "one two");
}

#[test]
fn arguments_of_an_empty_message_are_none() {
    for d in [Delimiters::none(), standard_delimiters(), delimiters(&[" "])] {
        let args = Arguments::parse("", &d);
        assert!(args.tokens.is_empty());
        assert_eq!(args.rest, "");
    }
}

#[test]
fn arguments_skip_empty_pieces() {
    let args = Arguments::parse(",, x,,y", &standard_delimiters());
    assert_eq!(args.tokens, vec!["x", "y"]);
    assert_eq!(args.rest, "x,,y");
    let spaced = Arguments::parse(",  x", &standard_delimiters());
    assert_eq!(spaced.tokens, vec![" x"]);
    assert_eq!(spaced.rest, " x");
    let only = Arguments::parse(",,", &standard_delimiters());
    assert!(only.tokens.is_empty());
    assert_eq!(only.rest, "");
}

#[test]
fn arguments_keep_quoted_text_together() {
    let args = Arguments::parse("\"a b\" c", &Delimiters::space());
    assert_eq!(args.tokens, vec!["\"a b\"", "c"]);
}

#[test]
fn delimiters_may_not_be_empty() {
    assert!(Delimiters::new(vec![",".to_string(), String::new()]).is_none());
    assert!(Delimiters::new(vec![String::new()]).is_none());
    assert!(Delimiters::new(Vec::new()).is_some());
    assert!(Delimiters::new(vec![" ".to_string()]).is_some());
}

#[test]
fn bird_offers_or_regrets() {
    let none = Arguments::parse("", &standard_delimiters());
    assert_eq!(bird(&none), ":bird: can find animals for you.");
    let some = Arguments::parse("hawk, owl", &standard_delimiters());
    assert_eq!(bird(&some), ":bird: could not find animal named: `hawk, owl`.");
    let written = Arguments { tokens: vec!["x".to_string()], rest: "x y".to_string() };
    assert_eq!(bird(&written), ":bird: could not find animal named: `x y`.");
}

#[test]
fn slow_mode_sets_the_rate_given() {
    let args = Arguments::parse("30", &standard_delimiters());
    assert_eq!(slow_mode(&args), SlowMode::Change(30));
    assert_eq!(slow_mode_set(30, true), "Successfully set slow mode rate to `30` seconds.");
    assert_eq!(slow_mode_set(30, false), "Failed to set slow mode to `30` seconds.");
    let zero = Arguments::parse("0, 5", &standard_delimiters());
    assert_eq!(slow_mode(&zero), SlowMode::Change(0));
}

#[test]
fn slow_mode_reports_without_a_number() {
    let none = Arguments::parse("", &standard_delimiters());
    assert_eq!(slow_mode(&none), SlowMode::Report);
    let word = Arguments::parse("fast", &standard_delimiters());
    assert_eq!(slow_mode(&word), SlowMode::Report);
    let negative = Arguments::parse("-3", &standard_delimiters());
    assert_eq!(slow_mode(&negative), SlowMode::Report);
    let huge = Arguments::parse("18446744073709551616", &standard_delimiters());
    assert_eq!(slow_mode(&huge), SlowMode::Report);
    assert_eq!(slow_mode_report(Some(Some(15))), "Current slow mode rate is `15` seconds.");
    assert_eq!(slow_mode_report(Some(None)), "Current slow mode rate is `0` seconds.");
    assert_eq!(slow_mode_report(None), "Failed to find channel in cache.");
}

#[test]
fn play_writes_mentions_out() {
    let users = vec![
        User { id: 1, name: "ann".to_string() },
        User { id: 12, name: "bob".to_string() },
    ];
    assert_eq!(play("chess", &users), "chess");
    assert_eq!(play("chess with <@1>", &users), "chess with ann");
    assert_eq!(play("<@12> vs <@1> vs <@12>", &users), "bob vs ann vs bob");
    assert_eq!(play("<@!1> stays", &users), "<@!1> stays");
    assert_eq!(play("<@1> <@2>", &Vec::new()), "<@1> <@2>");
    assert_eq!(play("", &users), "");
}

#[test]
fn play_replaces_user_after_user() {
    let users = vec![
        User { id: 1, name: "<@2>".to_string() },
        User { id: 2, name: "two".to_string() },
    ];
    assert_eq!(play("<@1>", &users), "two");
}

#[test]
fn get_member_reads_ids_and_mentions() {
    let members = guild();
    assert_eq!(get_member("42", &members), Target::Id(42));
    assert_eq!(get_member("<@42>", &members), Target::Id(42));
    assert_eq!(get_member("<@!42>", &members), Target::Id(42));
    assert_eq!(get_member("+42", &members), Target::Id(42));
    assert_eq!(get_member("12", &members), Target::Id(12));
    assert_eq!(get_member("<@42x", &members), Target::Id(42));
}

#[test]
fn get_member_finds_the_first_of_that_name() {
    let members = guild();
    assert_eq!(get_member("ann", &members), Target::Member(0));
    assert_eq!(get_member("bob", &members), Target::Member(1));
    assert_eq!(get_member("zoë", &members), Target::Member(5));
    assert_eq!(get_member("Ann", &members), Target::Unknown);
    assert_eq!(get_member("dan", &members), Target::Unknown);
    assert_eq!(get_member("<@>", &members), Target::Unknown);
    assert_eq!(get_member("<@é", &members), Target::Unknown);
    assert_eq!(get_member("", &members), Target::Unknown);
    assert_eq!(get_member("ann", &Vec::new()), Target::Unknown);
}

#[test]
fn mute_grants_the_role_to_a_member_found_by_name() {
    let members = guild();
    assert_eq!(mute(&one("bob"), &members, 7), Step::Grant { member: 12, role: 7 });
    assert_eq!(changed(Change::Mute, 12, true), "<@12> was muted");
    assert_eq!(changed(Change::Mute, 12, false), "Couldn't mute <@12>");
}

#[test]
fn mute_changes_nothing_for_an_unknown_name() {
    let members = guild();
    assert_eq!(mute(&one("dan"), &members, 7), Step::LookupFailed);
    assert_eq!(unmute(&one("dan"), &members, 7), Step::LookupFailed);
    assert_eq!(lookup_failed(&one("dan")), "couldn't find member: dan");
    let nobody = Arguments { tokens: Vec::new(), rest: String::new() };
    assert_eq!(lookup_failed(&nobody), "couldn't find member: ");
}

#[test]
fn mute_fetches_a_member_named_by_id() {
    let members = guild();
    assert_eq!(mute(&one("<@13>"), &members, 7), Step::Fetch(13));
    assert_eq!(unmute(&one("99"), &members, 7), Step::Fetch(99));
    assert_eq!(found(Change::Mute, 13, 7), Step::Grant { member: 13, role: 7 });
    assert_eq!(fetched(Change::Mute, Some(13), 7), Step::Grant { member: 13, role: 7 });
    assert_eq!(fetched(Change::Unmute, Some(13), 7), Step::Revoke { member: 13, role: 7 });
    assert_eq!(fetched(Change::Mute, None, 7), Step::LookupFailed);
    assert_eq!(found(Change::Unmute, 99, 7), Step::Revoke { member: 99, role: 7 });
}

#[test]
fn unmute_revokes_the_role() {
    let members = guild();
    assert_eq!(unmute(&one("cid"), &members, 7), Step::Revoke { member: 13, role: 7 });
    assert_eq!(changed(Change::Unmute, 13, true), "<@13> was unmuted");
    assert_eq!(changed(Change::Unmute, 13, false), "Couldn't unmute <@13>");
}

#[test]
fn muted_lists_who_holds_the_role() {
    let members = guild();
    assert_eq!(muted(&members, 7), "Currently muted members: <@11>, <@13>, <@14>");
    assert_eq!(muted(&members, 5), "Currently muted members: <@13>");
    assert_eq!(muted(&members, 9), "No members are currently muted");
    assert_eq!(muted(&Vec::new(), 7), "No members are currently muted");
}

#[test]
fn eggplant_without_its_emoji_has_no_answer() {
    let broken = serde_json::from_str::<u64>("not json").unwrap_err();
    assert_eq!(eggplant_answer(Err(broken)), Err(EmojiError::Malformed));
    assert_eq!(eggplant_answer(Ok("<:x:1>".to_string())), Ok("<:x:1>".to_string()));
}

#[test]
fn mute_takes_exactly_one_argument() {
    let members = guild();
    let none = Arguments::parse("", &Delimiters::space());
    assert_eq!(mute(&none, &members, 7), Step::WrongArguments { given: 0 });
    let two = Arguments::parse("ann bob", &Delimiters::space());
    assert_eq!(mute(&two, &members, 7), Step::WrongArguments { given: 2 });
    assert_eq!(unmute(&two, &members, 7), Step::WrongArguments { given: 2 });
    let ann = Arguments::parse("ann", &Delimiters::space());
    assert_eq!(mute(&ann, &members, 7), Step::Grant { member: 11, role: 7 });
}

#[test]
fn answers_go_where_they_belong() {
    for handler in [Handler::DoYouKnow, Handler::Version, Handler::Mac, Handler::Linux, Handler::Windows, Handler::Mute, Handler::Unmute, Handler::Muted] {
        assert_eq!(delivery(handler), Delivery::Reply);
    }
    for handler in [Handler::Ping, Handler::Cat, Handler::Dog, Handler::Eggplant, Handler::Bird, Handler::SlowMode, Handler::Help] {
        assert_eq!(delivery(handler), Delivery::Say);
    }
    assert_eq!(delivery(Handler::Play), Delivery::Presence);
}
