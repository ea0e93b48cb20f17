use namebot::commands::Command;
use namebot::commands::format_nickname;
use namebot::commands::numbered_nickname;
use namebot::commands::parse_command;
use namebot::commands::ping_reply;
use namebot::counter::Counter;
use namebot::numtext::format_u32;
use namebot::numtext::initial_count;
use namebot::numtext::parse_u32;
use namebot::reactions::RoleAction;
use namebot::reactions::emoji_index;
use namebot::reactions::reaction_action;
use namebot::roles::EMOJI_COUNT;
use namebot::roles::MenuError;
use namebot::roles::RoleInfo;
use namebot::roles::askme_roles;
use namebot::roles::build_role_menu;
use namebot::roles::capacity_notice;
use namebot::roles::emoji_at;
use namebot::roles::role_qualifies;
use namebot::strutil::str_eq;
use namebot::strutil::str_starts_with;

const SELF_ID: u64 = 1152776929024409621;

fn role(id: u64, name: &str) -> RoleInfo {
    RoleInfo { id, name: name.to_string() }
}

#[test]
fn counter_starts_at_zero() {
    let c = Counter::new();
    assert_eq!(c.snapshot(), 0);
}

#[test]
fn next_returns_pre_increment_value() {
    let mut c = Counter::new();
    c.set(7);
    assert_eq!(c.next(), 7);
    assert_eq!(c.snapshot(), 8);
}

#[test]
fn next_sequence_has_no_gaps_or_duplicates() {
    let mut c = Counter { num: 5 };
    let drawn = vec![c.next(), c.next(), c.next(), c.next()];
    assert_eq!(drawn, vec![5, 6, 7, 8]);
    assert_eq!(c.snapshot(), 9);
}

#[test]
fn format_gives_plain_decimal_digits() {
    assert_eq!(format_u32(0).as_str(), "0");
    assert_eq!(format_u32(7).as_str(), "7");
    assert_eq!(format_u32(10).as_str(), "10");
    assert_eq!(format_u32(90210).as_str(), "90210");
    assert_eq!(format_u32(u32::MAX).as_str(), "4294967295");
}

#[test]
fn parse_reads_decimal_digits() {
    assert_eq!(parse_u32("0"), Some(0));
    assert_eq!(parse_u32("007"), Some(7));
    assert_eq!(parse_u32("90210"), Some(90210));
    assert_eq!(parse_u32("4294967295"), Some(u32::MAX));
}

#[test]
fn parse_rejects_non_digit_text() {
    assert_eq!(parse_u32(""), None);
    assert_eq!(parse_u32("12a"), None);
    assert_eq!(parse_u32("-3"), None);
    assert_eq!(parse_u32(" 3"), None);
}

#[test]
fn parse_rejects_values_beyond_the_counter_range() {
    assert_eq!(parse_u32("4294967296"), None);
    assert_eq!(parse_u32("99999999999999999999"), None);
}

#[test]
fn persisted_round_trip_restores_the_value() {
    for v in [0u32, 1, 9, 10, 99, 100, 7777, u32::MAX - 1, u32::MAX] {
        let text = format_u32(v);
        assert_eq!(parse_u32(text.as_str()), Some(v));
    }
}

#[test]
fn missing_file_starts_the_counter_at_zero() {
    assert_eq!(initial_count(None), Some(0));
}

#[test]
fn persisted_file_sets_the_starting_counter() {
    assert_eq!(initial_count(Some("42")), Some(42));
    assert_eq!(initial_count(Some("0")), Some(0));
}

#[test]
fn unreadable_persisted_file_is_fatal() {
    assert_eq!(initial_count(Some("not a number")), None);
    assert_eq!(initial_count(Some("")), None);
    assert_eq!(initial_count(Some("4294967296")), None);
}

#[test]
fn dispatch_matches_the_whole_body_exactly() {
    assert_eq!(parse_command("!ping"), Command::Ping);
    assert_eq!(parse_command("!name"), Command::Name);
    assert_eq!(parse_command("!roles"), Command::Roles);
    assert_eq!(parse_command("!ping "), Command::Other);
    assert_eq!(parse_command("say !ping"), Command::Other);
    assert_eq!(parse_command(""), Command::Other);
    assert_eq!(parse_command("!PING"), Command::Other);
}

#[test]
fn ping_always_answers_pong() {
    assert_eq!(ping_reply().as_str(), "Pong!");
    let mut c = Counter { num: 99 };
    let _ = c.next();
    assert_eq!(ping_reply().as_str(), "Pong!");
}

#[test]
fn name_at_seven_renames_and_advances() {
    let mut c = Counter { num: 7 };
    let nick = numbered_nickname(&mut c, "Alice");
    assert_eq!(nick.as_str(), "Alice [7]");
    assert_eq!(c.snapshot(), 8);
}

#[test]
fn nickname_format_is_name_space_bracketed_number() {
    assert_eq!(format_nickname("Bob", 0).as_str(), "Bob [0]");
    assert_eq!(format_nickname("Zoë", 41).as_str(), "Zoë [41]");
}

#[test]
fn role_filter_keeps_only_the_prefixed_names() {
    assert!(role_qualifies(&role(1, "AskMeAbout_Rust")));
    assert!(!role_qualifies(&role(2, "askmeabout_rust")));
    assert!(!role_qualifies(&role(3, "AskMeAbout")));
    assert!(role_qualifies(&role(4, "AskMeAbout_")));
    assert!(!role_qualifies(&role(5, "Moderator")));
}

#[test]
fn qualifying_roles_are_filtered_and_sorted_by_id() {
    let all = vec![
        role(30, "AskMeAbout_Music"),
        role(7, "Moderator"),
        role(10, "AskMeAbout_Rust"),
        role(20, "AskMeAbout_Go"),
        role(2, "everyone"),
    ];
    let qualifying = askme_roles(all);
    let names: Vec<&str> = qualifying.iter().map(|r| r.name.as_str()).collect();
    assert_eq!(names, vec!["AskMeAbout_Rust", "AskMeAbout_Go", "AskMeAbout_Music"]);
    let ids: Vec<u64> = qualifying.iter().map(|r| r.id).collect();
    assert_eq!(ids, vec![10, 20, 30]);
}

#[test]
fn menu_lists_three_roles_against_the_first_three_emoji() {
    let qualifying = askme_roles(vec![
        role(10, "AskMeAbout_Rust"),
        role(20, "AskMeAbout_Go"),
        role(30, "AskMeAbout_Music"),
    ]);
    let menu = build_role_menu(&qualifying).unwrap();
    assert_eq!(
        menu.text.as_str(),
        "React to get role\n😁 = AskMeAbout_Rust\n👍 = AskMeAbout_Go\n🔥 = AskMeAbout_Music"
    );
    assert_eq!(menu.emoji, vec!["😁", "👍", "🔥"]);
}

#[test]
fn menu_with_no_qualifying_roles_is_just_the_header() {
    let menu = build_role_menu(&Vec::new()).unwrap();
    assert_eq!(menu.text.as_str(), "React to get role");
    assert!(menu.emoji.is_empty());
}

#[test]
fn menu_refuses_more_roles_than_emoji() {
    let mut many = Vec::new();
    for id in 0..(EMOJI_COUNT as u64 + 1) {
        many.push(role(id, "AskMeAbout_Anything"));
    }
    assert!(matches!(build_role_menu(&many), Err(MenuError::TooManyRoles)));
    assert_eq!(capacity_notice().as_str(), "Too many roles to list");
}

#[test]
fn emoji_table_lookup() {
    assert_eq!(emoji_index("😁"), Some(0));
    assert_eq!(emoji_index("👍"), Some(1));
    assert_eq!(emoji_index("❤️"), Some(8));
    assert_eq!(emoji_index("🎉"), None);
    assert_eq!(emoji_index(""), None);
    for i in 0..EMOJI_COUNT {
        assert_eq!(emoji_index(emoji_at(i)), Some(i));
    }
}

#[test]
fn second_emoji_grants_the_second_listed_role() {
    let roles = vec![
        role(10, "AskMeAbout_Rust"),
        role(20, "AskMeAbout_Go"),
        role(30, "AskMeAbout_Music"),
    ];
    let granted = reaction_action(SELF_ID, SELF_ID, false, "👍", &roles, true);
    assert_eq!(granted, Some(RoleAction { role_id: 20, grant: true }));
    let revoked = reaction_action(SELF_ID, SELF_ID, false, "👍", &roles, false);
    assert_eq!(revoked, Some(RoleAction { role_id: 20, grant: false }));
}

#[test]
fn reactions_by_bots_or_on_other_messages_do_nothing() {
    let roles = vec![role(10, "AskMeAbout_Rust"), role(20, "AskMeAbout_Go")];
    assert_eq!(reaction_action(SELF_ID, SELF_ID, true, "👍", &roles, true), None);
    assert_eq!(reaction_action(SELF_ID, 4242, false, "👍", &roles, true), None);
}

#[test]
fn unlisted_emoji_and_stale_menu_positions_do_nothing() {
    let roles = vec![role(10, "AskMeAbout_Rust"), role(20, "AskMeAbout_Go")];
    assert_eq!(reaction_action(SELF_ID, SELF_ID, false, "🎉", &roles, true), None);
    // Third emoji, but only two qualifying roles remain: the event is dropped.
    assert_eq!(reaction_action(SELF_ID, SELF_ID, false, "🔥", &roles, true), None);
}

#[test]
fn string_helpers_compare_characters() {
    assert!(str_eq("!ping", "!ping"));
    assert!(!str_eq("!ping", "!pin"));
    assert!(!str_eq("", "a"));
    assert!(str_eq("", ""));
    assert!(str_starts_with("AskMeAbout_Rust", "AskMeAbout_"));
    assert!(!str_starts_with("AskMe", "AskMeAbout_"));
    assert!(str_starts_with("anything", ""));
}
