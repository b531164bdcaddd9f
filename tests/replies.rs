use deadline_bot::command::Command;
use deadline_bot::help::CommandInfo;
use deadline_bot::reply::{command_reply, fallback_reply, respond};
use deadline_bot::text::{chars_eq_ignore_ascii_case, str_eq_ignore_ascii_case};

const BOT: &str = "deadline_bot";

const HELP_TEXT: &str = "The following commands are supported:\n\n\
/help \u{2014} Display this help message.\n\
/start \u{2014} For first time users to create a new account.";

const WELCOME_ALICE: &str = "Welcome alice! If there is any project or submission deadlines \
that you would like me to keep track of, feel free to tell me!";

fn start_username(c: Option<Command>) -> Option<String> {
    match c {
        Some(Command::Start(u)) => Some(u),
        _ => None,
    }
}

#[test]
fn start_alice_is_welcomed() {
    assert_eq!(respond(Some("/start alice"), BOT), WELCOME_ALICE);
}

#[test]
fn start_without_argument_asks_for_username() {
    assert_eq!(respond(Some("/start"), BOT), "Please provide a username!");
}

#[test]
fn start_with_trailing_space_asks_for_username() {
    assert_eq!(respond(Some("/start "), BOT), "Please provide a username!");
}

#[test]
fn start_with_only_spaces_keeps_them_as_username() {
    let r = respond(Some("/start   "), BOT);
    assert_eq!(
        r,
        "Welcome   ! If there is any project or submission deadlines that you would like me \
         to keep track of, feel free to tell me!"
    );
}

#[test]
fn help_lists_both_commands() {
    assert_eq!(respond(Some("/help"), BOT), HELP_TEXT);
    assert_eq!(Command::descriptions(), HELP_TEXT);
}

#[test]
fn help_in_other_letter_cases() {
    assert_eq!(respond(Some("/HELP"), BOT), HELP_TEXT);
    assert_eq!(respond(Some("/HeLp"), BOT), HELP_TEXT);
}

#[test]
fn help_ignores_arguments() {
    assert_eq!(respond(Some("/help me please"), BOT), HELP_TEXT);
}

#[test]
fn random_text_is_greeted() {
    assert_eq!(respond(Some("random text"), BOT), "Hello, World!");
}

#[test]
fn unknown_commands_and_prose_are_greeted() {
    assert_eq!(respond(Some("hi"), BOT), "Hello, World!");
    assert_eq!(respond(Some("/unknown"), BOT), "Hello, World!");
    assert_eq!(respond(Some("/helpme"), BOT), "Hello, World!");
    assert_eq!(respond(Some(""), BOT), "Hello, World!");
    assert_eq!(respond(Some(" /help"), BOT), "Hello, World!");
}

#[test]
fn message_without_text_is_greeted() {
    assert_eq!(respond(None, BOT), "Hello, World!");
}

#[test]
fn welcome_keeps_username_verbatim() {
    let u = "Ünïcode <b>&amp; name";
    let r = respond(Some(&format!("/start {u}")), BOT);
    assert!(r.starts_with(&format!("Welcome {u}!")));
    assert!(r.ends_with("feel free to tell me!"));
}

#[test]
fn username_keeps_inner_and_leading_spaces() {
    assert_eq!(
        start_username(Command::parse("/start  two words", BOT)).as_deref(),
        Some(" two words")
    );
}

#[test]
fn same_message_gets_same_reply() {
    for t in ["/start bob", "/help", "/start", "anything"] {
        assert_eq!(respond(Some(t), BOT), respond(Some(t), BOT));
    }
}

#[test]
fn mention_of_this_bot_is_accepted() {
    assert!(matches!(Command::parse("/help@deadline_bot", BOT), Some(Command::Help)));
    assert!(matches!(Command::parse("/help@Deadline_Bot", BOT), Some(Command::Help)));
    assert_eq!(
        start_username(Command::parse("/start@DEADLINE_BOT carol", BOT)).as_deref(),
        Some("carol")
    );
}

#[test]
fn mention_of_another_bot_is_not_a_command() {
    assert!(Command::parse("/help@other_bot", BOT).is_none());
    assert_eq!(respond(Some("/start@other_bot dave"), BOT), "Hello, World!");
}

#[test]
fn mention_ends_at_second_at_sign() {
    assert!(matches!(Command::parse("/help@deadline_bot@x", BOT), Some(Command::Help)));
}

#[test]
fn only_a_space_separates_the_command() {
    assert!(Command::parse("/start\talice", BOT).is_none());
}

#[test]
fn command_reply_for_each_variant() {
    assert_eq!(command_reply(&Command::Help), HELP_TEXT);
    assert_eq!(command_reply(&Command::Start(String::new())), "Please provide a username!");
    assert_eq!(command_reply(&Command::Start("alice".to_string())), WELCOME_ALICE);
}

#[test]
fn fallback_is_fixed_greeting() {
    assert_eq!(fallback_reply(), "Hello, World!");
}

#[test]
fn bot_commands_table() {
    let cs: Vec<CommandInfo> = Command::bot_commands();
    assert_eq!(cs.len(), 2);
    assert_eq!(cs[0].name, "help");
    assert_eq!(cs[0].description, "Display this help message.");
    assert_eq!(cs[0].prefixed_name(), "/help");
    assert_eq!(cs[1].name, "start");
    assert_eq!(cs[1].description, "For first time users to create a new account.");
    assert_eq!(cs[1].prefixed_name(), "/start");
}

#[test]
fn ascii_case_comparison() {
    assert!(str_eq_ignore_ascii_case("/HeLp", "/help"));
    assert!(!str_eq_ignore_ascii_case("/hel", "/help"));
    assert!(!str_eq_ignore_ascii_case("/hexp", "/help"));
    assert!(chars_eq_ignore_ascii_case('Z', 'z'));
    assert!(!chars_eq_ignore_ascii_case('@', '`'));
    assert!(!chars_eq_ignore_ascii_case('[', '{'));
}
