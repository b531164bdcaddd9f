//! What the bot answers: the reply to a parsed command, the greeting sent for
//! any other message, and the routing between the two.

use vstd::prelude::*;
use crate::command::{parse_spec, Command, CommandModel};
use crate::help::help_text;

verus! {

/// The reply to `/start` without a username.
pub const MISSING_USERNAME: &'static str = "Please provide a username!";

/// What the welcome message opens with, before the username.
pub const WELCOME_OPENING: &'static str = "Welcome ";

/// What the welcome message ends with, after the username.
pub const WELCOME_CLOSING: &'static str = "! If there is any project or submission deadlines that you would like me to keep track of, feel free to tell me!";

/// The reply to a message that holds no command.
pub const GREETING: &'static str = "Hello, World!";

/// The reply to `/start` with username `u`.
pub open spec fn start_reply(u: Seq<char>) -> Seq<char> {
    if u.len() == 0 {
        MISSING_USERNAME@
    } else {
        WELCOME_OPENING@ + u + WELCOME_CLOSING@
    }
}

/// The reply to a command.
pub open spec fn command_reply_spec(c: CommandModel) -> Seq<char> {
    match c {
        CommandModel::Help => help_text(),
        CommandModel::Start(u) => start_reply(u),
    }
}

/// The reply to a message whose text (or caption) is `text`, for the bot
/// named `bot`: the command's reply where the text holds a command meant for
/// it, the greeting otherwise.
pub open spec fn response(text: Option<Seq<char>>, bot: Seq<char>) -> Seq<char> {
    match text {
        Some(t) => match parse_spec(t, bot) {
            Some(c) => command_reply_spec(c),
            None => GREETING@,
        },
        None => GREETING@,
    }
}

/// The view of optional message text.
pub open spec fn text_model(text: Option<&str>) -> Option<Seq<char>> {
    match text {
        Some(t) => Some(t@),
        None => None,
    }
}

/// The reply to a parsed command: the help text for `Help`; for `Start`, a
/// prompt for a username where it is empty, else a welcome that holds it.
pub fn command_reply(cmd: &Command) -> (r: String)
    ensures
        r@ == command_reply_spec(cmd@),
{
    match cmd {
        Command::Help => Command::descriptions(),
        Command::Start(username) => {
            if username.as_str().unicode_len() == 0 {
                String::from_str(MISSING_USERNAME)
            } else {
                let mut r = String::from_str(WELCOME_OPENING);
                r.append(username.as_str());
                r.append(WELCOME_CLOSING);
                r
            }
        },
    }
}

/// The reply to a message that holds no command.
pub fn fallback_reply() -> (r: String)
    ensures
        r@ == GREETING@,
{
    String::from_str(GREETING)
}

/// The reply to a message with text (or caption) `text`, received by the bot
/// whose username is `bot_name`.
pub fn respond(text: Option<&str>, bot_name: &str) -> (r: String)
    ensures
        r@ == response(text_model(text), bot_name@),
{
    match text {
        Some(t) => match Command::parse(t, bot_name) {
            Some(cmd) => command_reply(&cmd),
            None => fallback_reply(),
        },
        None => fallback_reply(),
    }
}

} // verus!
