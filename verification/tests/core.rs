use prbot::config::{load_config, save_config, Config, ConfigError, ConfigStore};
use prbot::detect::detect;
use prbot::router::{
    delete_after_send, handle_command, pr_action, route, Event, FetchResult, PrAction,
};
use prbot::text::{parse_u64_str, str_eq, str_has_prefix, u64_to_string};

fn event(channel_id: u64, content: &str) -> Event {
    Event {
        channel_id,
        author_id: 777,
        message_id: 9001,
        content: content.to_string(),
    }
}

#[test]
fn detects_plain_pr_url() {
    assert_eq!(detect("https://example.test/NixOS/nixpkgs/pull/12345"), Some(12345));
}

#[test]
fn detects_github_pr_url() {
    assert_eq!(detect("https://github.com/NixOS/nixpkgs/pull/1"), Some(1));
}

#[test]
fn rejects_trailing_characters() {
    assert_eq!(detect("https://example.test/NixOS/nixpkgs/pull/12345x"), None);
    assert_eq!(detect("https://example.test/NixOS/nixpkgs/pull/12345/"), None);
    assert_eq!(detect("https://example.test/NixOS/nixpkgs/pull/12345/files"), None);
}

#[test]
fn rejects_missing_scheme() {
    assert_eq!(detect("NixOS/nixpkgs/pull/12345"), None);
}

#[test]
fn rejects_other_paths() {
    assert_eq!(detect("https://example.test/NixOS/nixpkgs/issues/12345"), None);
    assert_eq!(detect("https://example.test/Other/nixpkgs/pull/12345"), None);
    assert_eq!(detect("https://example.test/NixOS/nixpkgs/pull/"), None);
    assert_eq!(detect("https://example.test/"), None);
}

#[test]
fn rejects_prose_around_link() {
    assert_eq!(detect("look at https://example.test/NixOS/nixpkgs/pull/12345 please"), None);
}

#[test]
fn accepts_number_forms_that_std_accepts() {
    assert_eq!(detect("https://example.test/NixOS/nixpkgs/pull/0012345"), Some(12345));
    assert_eq!(detect("https://example.test/NixOS/nixpkgs/pull/+7"), Some(7));
    assert_eq!(
        detect("https://example.test/NixOS/nixpkgs/pull/18446744073709551615"),
        Some(u64::MAX)
    );
    assert_eq!(detect("https://example.test/NixOS/nixpkgs/pull/18446744073709551616"), None);
}

#[test]
fn parse_matches_std_parse() {
    for s in ["", "+", "007", "+42", "97", "18446744073709551615", "18446744073709551616", "1x"] {
        assert_eq!(parse_u64_str(s), s.parse::<u64>().ok());
    }
}

#[test]
fn renders_decimals_exactly() {
    assert_eq!(u64_to_string(0), "0");
    assert_eq!(u64_to_string(10), "10");
    assert_eq!(u64_to_string(18446744073709551615), "18446744073709551615");
}

#[test]
fn str_helpers_agree_with_std() {
    assert!(str_has_prefix("$set prchannel", "$set "));
    assert!(!str_has_prefix("$se", "$set "));
    assert!(str_eq("prchannel", "prchannel"));
    assert!(!str_eq("prchannel", "prchannels"));
}

#[test]
fn routes_pr_link_in_monitored_channel() {
    let store = ConfigStore::from_config(Config { pr_channel: Some(1) });
    let r = route(&store, &event(1, "https://github.com/NixOS/nixpkgs/pull/42"));
    assert_eq!(r.pr_number, Some(42));
    assert_eq!(r.subcommand, None);
}

#[test]
fn gates_pr_link_outside_monitored_channel() {
    let store = ConfigStore::from_config(Config { pr_channel: Some(1) });
    let r = route(&store, &event(2, "https://github.com/NixOS/nixpkgs/pull/42"));
    assert_eq!(r.pr_number, None);
}

#[test]
fn gates_pr_link_when_monitoring_disabled() {
    let store = ConfigStore::new();
    let r = route(&store, &event(1, "https://github.com/NixOS/nixpkgs/pull/42"));
    assert_eq!(r.pr_number, None);
}

#[test]
fn routes_command_prefix() {
    let store = ConfigStore::new();
    let r = route(&store, &event(1, "$set prchannel"));
    assert_eq!(r.subcommand.as_deref(), Some("prchannel"));
    let r = route(&store, &event(1, "$set foo bar"));
    assert_eq!(r.subcommand.as_deref(), Some("foo bar"));
    let r = route(&store, &event(1, "set prchannel"));
    assert_eq!(r.subcommand, None);
}

#[test]
fn evaluates_both_branches_independently() {
    let store = ConfigStore::from_config(Config { pr_channel: Some(1) });
    let r = route(&store, &event(1, "$set prchannel"));
    assert_eq!(r.pr_number, None);
    assert_eq!(r.subcommand.as_deref(), Some("prchannel"));
}

#[test]
fn publishes_enriched_message_on_found_pr() {
    let e = event(5, "https://github.com/NixOS/nixpkgs/pull/42");
    let fetch = FetchResult::Found { title: "init: add frobnicator".to_string() };
    match pr_action(&e, &fetch) {
        PrAction::Publish { channel_id, content, delete_message_id } => {
            assert_eq!(channel_id, 5);
            assert_eq!(delete_message_id, 9001);
            assert_eq!(
                content,
                "<@777>: init: add frobnicator | <https://github.com/NixOS/nixpkgs/pull/42>"
            );
        }
        PrAction::ReplyFailure { .. } => panic!("expected a publish"),
    }
}

#[test]
fn deletes_original_only_after_successful_send() {
    let e = event(5, "https://github.com/NixOS/nixpkgs/pull/42");
    let fetch = FetchResult::Found { title: "title".to_string() };
    let a = pr_action(&e, &fetch);
    assert_eq!(delete_after_send(&a, true), Some(9001));
    assert_eq!(delete_after_send(&a, false), None);
}

#[test]
fn replies_and_keeps_original_on_lookup_failure() {
    let e = event(5, "https://github.com/NixOS/nixpkgs/pull/424242");
    let fetch = FetchResult::Failed { error: "Not Found".to_string() };
    match pr_action(&e, &fetch) {
        PrAction::ReplyFailure { reply_to, content } => {
            assert_eq!(reply_to, 9001);
            assert_eq!(content, "No such PR? (Not Found)");
        }
        PrAction::Publish { .. } => panic!("expected a failure reply"),
    }
    let a = pr_action(&e, &fetch);
    assert_eq!(delete_after_send(&a, true), None);
    assert_eq!(delete_after_send(&a, false), None);
}

#[test]
fn command_with_capability_sets_channel() {
    let mut store = ConfigStore::new();
    let reply = handle_command(&mut store, 31337, "prchannel", Some(true));
    assert_eq!(store.get().pr_channel, Some(31337));
    assert_eq!(reply.as_deref(), Some("Listening for `nixpkgs` PR URLs in this channel!"));
}

#[test]
fn command_without_capability_is_denied() {
    let mut store = ConfigStore::from_config(Config { pr_channel: Some(1) });
    let reply = handle_command(&mut store, 31337, "prchannel", Some(false));
    assert_eq!(store.get().pr_channel, Some(1));
    assert_eq!(reply.as_deref(), Some("You don't have enough permissions to manage the bot."));
}

#[test]
fn command_outside_server_context_is_ignored() {
    let mut store = ConfigStore::from_config(Config { pr_channel: Some(1) });
    let reply = handle_command(&mut store, 31337, "prchannel", None);
    assert_eq!(store.get().pr_channel, Some(1));
    assert_eq!(reply, None);
}

#[test]
fn unknown_command_is_rejected_without_state_change() {
    let mut store = ConfigStore::from_config(Config { pr_channel: Some(1) });
    let reply = handle_command(&mut store, 31337, "foo", Some(true));
    assert_eq!(store.get().pr_channel, Some(1));
    assert_eq!(reply.as_deref(), Some("No such command."));

    let reply = handle_command(&mut store, 31337, "foo", Some(false));
    assert_eq!(store.get().pr_channel, Some(1));
    assert_eq!(reply.as_deref(), Some("You don't have enough permissions to manage the bot."));
}

#[test]
fn saves_canonical_record() {
    assert_eq!(save_config(&Config { pr_channel: None }), "");
    assert_eq!(save_config(&Config { pr_channel: Some(123) }), "pr_channel = 123\n");
}

#[test]
fn loads_missing_record_as_default() {
    let c = load_config("").expect("empty record must load");
    assert_eq!(c.pr_channel, None);
}

#[test]
fn loads_record_with_and_without_newline() {
    let c = load_config("pr_channel = 123\n").expect("record must load");
    assert_eq!(c.pr_channel, Some(123));
    let c = load_config("pr_channel = 123").expect("record must load");
    assert_eq!(c.pr_channel, Some(123));
}

#[test]
fn corrupt_records_are_errors() {
    for bad in [
        "garbage",
        "pr_channel = ",
        "pr_channel = 12x",
        "pr_channel = -3",
        "pr_channel = 18446744073709551616",
        "pr_channel: 123\n",
    ] {
        assert!(matches!(load_config(bad), Err(ConfigError::Corrupt)));
    }
    assert_eq!(ConfigError::Corrupt.message(), "corrupt configuration record");
}

#[test]
fn persistence_round_trip_reproduces_configuration() {
    for c in [Config { pr_channel: None }, Config { pr_channel: Some(0) }, Config {
        pr_channel: Some(u64::MAX),
    }] {
        let first = save_config(&c);
        let loaded = load_config(&first).expect("own record must load");
        assert_eq!(loaded.pr_channel, c.pr_channel);
        let again = save_config(&loaded);
        assert_eq!(again, first);
        let reloaded = load_config(&again).expect("own record must load");
        assert_eq!(reloaded.pr_channel, c.pr_channel);
    }
}

#[test]
fn concurrent_style_interleavings_agree_on_final_configuration() {
    // A PR-link event only reads the store; an admin command read-modify-writes
    // it. Either order of the two, with each access atomic, ends in the same
    // configuration, and the PR event's decision is a function of its snapshot.
    let pr_event = event(1, "https://github.com/NixOS/nixpkgs/pull/42");

    let mut store = ConfigStore::from_config(Config { pr_channel: Some(1) });
    let first = route(&store, &pr_event);
    handle_command(&mut store, 2, "prchannel", Some(true));
    let after_pr_first = store.get().pr_channel;

    let mut store = ConfigStore::from_config(Config { pr_channel: Some(1) });
    handle_command(&mut store, 2, "prchannel", Some(true));
    let second = route(&store, &pr_event);
    let after_cmd_first = store.get().pr_channel;

    assert_eq!(after_pr_first, Some(2));
    assert_eq!(after_cmd_first, Some(2));
    assert_eq!(first.pr_number, Some(42));
    assert_eq!(second.pr_number, None);
}
