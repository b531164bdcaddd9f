//! The list of supported commands, as registered with the chat platform and
//! as shown in reply to `/help`.

use vstd::prelude::*;
use crate::command::Command;
use teloxide::utils::command::{CommandDescription, CommandDescriptions};

verus! {

/// The sentence that heads the help text.
pub const GLOBAL_DESCRIPTION: &'static str = "The following commands are supported:";

/// The prefix that starts every command.
pub const COMMAND_PREFIX: &'static str = "/";

/// One supported command: its name without prefix, and what it does.
pub struct CommandInfo {
    pub name: String,
    pub description: String,
}

impl View for CommandInfo {
    type V = (Seq<char>, Seq<char>);

    open spec fn view(&self) -> (Seq<char>, Seq<char>) {
        (self.name@, self.description@)
    }
}

/// The views of a list of commands.
pub open spec fn infos_model(v: Seq<CommandInfo>) -> Seq<(Seq<char>, Seq<char>)> {
    v.map_values(|e: CommandInfo| e@)
}

/// The supported commands, in order: name and description of each.
pub open spec fn command_table() -> Seq<(Seq<char>, Seq<char>)> {
    seq![
        ("help"@, "Display this help message."@),
        ("start"@, "For first time users to create a new account."@),
    ]
}

/// One line of the help text: the prefixed name, then ` — ` and the
/// description where that is not empty.
pub open spec fn command_line(prefix: Seq<char>, e: (Seq<char>, Seq<char>)) -> Seq<char> {
    if e.1.len() == 0 {
        prefix + e.0
    } else {
        prefix + e.0 + " \u{2014} "@ + e.1
    }
}

/// The lines of `es`, joined by newlines.
pub open spec fn command_lines(prefix: Seq<char>, es: Seq<(Seq<char>, Seq<char>)>) -> Seq<char>
    decreases es.len(),
{
    if es.len() == 0 {
        Seq::empty()
    } else if es.len() == 1 {
        command_line(prefix, es[0])
    } else {
        command_lines(prefix, es.drop_last()) + "\n"@ + command_line(prefix, es.last())
    }
}

/// A help text: the heading, a blank line, then one line per command.
pub open spec fn descriptions_text(
    global: Seq<char>,
    prefix: Seq<char>,
    es: Seq<(Seq<char>, Seq<char>)>,
) -> Seq<char> {
    global + "\n\n"@ + command_lines(prefix, es)
}

/// The reply to `/help`.
pub open spec fn help_text() -> Seq<char> {
    descriptions_text(GLOBAL_DESCRIPTION@, COMMAND_PREFIX@, command_table())
}

/// Relies on teloxide's `Display` for `utils::command::CommandDescriptions`
/// (with a global description, no aliases and no bot username): it writes the
/// global description and a blank line, then for each command its prefix and
/// name, followed by ` — ` and its description where that is not empty, the
/// commands separated by newlines.
#[verifier::external_body]
fn render_descriptions(global: &str, prefix: &str, commands: &Vec<CommandInfo>) -> (r: String)
    ensures
        r@ == descriptions_text(global@, prefix@, infos_model(commands@)),
{
    let entries: Vec<CommandDescription> = commands
        .iter()
        .map(|c| CommandDescription {
            prefix,
            command: c.name.as_str(),
            aliases: &[],
            description: c.description.as_str(),
        })
        .collect();
    CommandDescriptions::new(&entries).global_description(global).to_string()
}

impl CommandInfo {
    /// The name with the command prefix in front, as the platform lists it.
    pub fn prefixed_name(&self) -> (r: String)
        ensures
            r@ == COMMAND_PREFIX@ + self.name@,
    {
        let mut r = String::from_str(COMMAND_PREFIX);
        r.append(self.name.as_str());
        r
    }
}

impl Command {
    /// The supported commands with their descriptions.
    pub fn bot_commands() -> (r: Vec<CommandInfo>)
        ensures
            infos_model(r@) == command_table(),
    {
        let r = vec![
            CommandInfo {
                name: String::from_str("help"),
                description: String::from_str("Display this help message."),
            },
            CommandInfo {
                name: String::from_str("start"),
                description: String::from_str("For first time users to create a new account."),
            },
        ];
        assert(infos_model(r@) =~= command_table());
        r
    }

    /// The help text: a heading, then one line per supported command.
    pub fn descriptions() -> (r: String)
        ensures
            r@ == help_text(),
    {
        let commands = Command::bot_commands();
        render_descriptions(GLOBAL_DESCRIPTION, COMMAND_PREFIX, &commands)
    }
}

} // verus!
