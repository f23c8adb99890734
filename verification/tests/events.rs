use smyklot::config::{Config, ConfigError};
use smyklot::events::{cache_ready, message, ready};

#[test]
fn cache_ready_greets_in_production_only() {
    assert!(cache_ready(None, Some("1.2.3")).is_none());
    assert!(cache_ready(Some("development"), Some("1.2.3")).is_none());
    assert!(cache_ready(Some("Production"), Some("1.2.3")).is_none());
    assert!(cache_ready(Some(""), None).is_none());
    let a = cache_ready(Some("production"), Some("1.2.3")).unwrap();
    assert_eq!(a.channel, 602839072985055237);
    assert_eq!(a.text, "Dzień doberek. Właśnie została zdeployowana moja nowa wersja: 1.2.3");
}

#[test]
fn cache_ready_names_no_version_that_is_missing() {
    let missing = cache_ready(Some("production"), None).unwrap();
    assert_eq!(missing.text, "Dzień doberek");
    let unresolved = cache_ready(Some("production"), Some("{{version}}")).unwrap();
    assert_eq!(unresolved.text, "Dzień doberek");
    let empty = cache_ready(Some("production"), Some("")).unwrap();
    assert_eq!(empty.text, "Dzień doberek. Właśnie została zdeployowana moja nowa wersja: ");
}

#[test]
fn message_answers_the_price_question() {
    assert_eq!(message("<@!99> po ile schab?", 99, "bartsmykla"), Some("dla Ciebie dycha".to_string()));
    assert_eq!(message("<@!99> po ile schab?", 99, "ann"), Some("nie stać cię".to_string()));
}

#[test]
fn message_answers_nothing_else() {
    assert_eq!(message("<@99> po ile schab?", 99, "ann"), None);
    assert_eq!(message("<@!98> po ile schab?", 99, "ann"), None);
    assert_eq!(message("<@!99> po ile schab", 99, "ann"), None);
    assert_eq!(message(" <@!99> po ile schab?", 99, "bartsmykla"), None);
    assert_eq!(message("", 99, "ann"), None);
}

#[test]
fn ready_shows_the_version() {
    assert_eq!(ready(Some("1.2.3")), "1.2.3");
    assert_eq!(ready(Some("")), "");
    assert_eq!(ready(None), "¯\\_(ツ)_/¯");
}

#[test]
fn config_starts_with_the_version_only() {
    let c = Config::new(Some("1.2.3"));
    assert_eq!(c.version, "1.2.3");
    assert_eq!(c.mute_role_id, None);
    assert_eq!(c.general_channel_id, None);
    assert_eq!(Config::new(None).version, "");
}

#[test]
fn config_needs_a_mute_role_for_muting() {
    let mut c = Config::new(Some("1"));
    assert_eq!(c.mute_role(), Err(ConfigError::MissingMuteRole));
    c.set_mute_role(Some(7));
    assert_eq!(c.mute_role(), Ok(7));
    c.set_general_channel(Some(3));
    let copy = c.snapshot();
    assert_eq!(copy.version, "1");
    assert_eq!(copy.mute_role_id, Some(7));
    assert_eq!(copy.general_channel_id, Some(3));
}
