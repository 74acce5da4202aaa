//! Module with all supported commands and the parser of command text.

use crate::text::{
    after_first, before_first, eq_ignore_ascii_case, find_char, slice, str_eq,
    str_eq_ignore_ascii_case,
};
use vstd::prelude::*;

verus! {

/// Help command.
#[derive(Debug, Copy, Clone, PartialEq, Eq, Structural)]
pub struct Help;

/// Start bot command.
#[derive(Debug, Copy, Clone, PartialEq, Eq, Structural)]
pub struct Start;

/// Cancel current operation command.
#[derive(Debug, Copy, Clone, PartialEq, Eq, Structural)]
pub struct Cancel;

/// Commands supported by the bot.
#[derive(Debug, Copy, Clone, PartialEq, Eq, Structural)]
pub enum Command {
    /// Display the list of commands.
    Help(Help),
    /// Start the bot.
    Start(Start),
    /// Cancel the current operation.
    Cancel(Cancel),
}

/// Why a text is not a command of this bot.
#[derive(Debug, Clone, PartialEq, Eq)]
pub enum CommandParseError {
    /// The command word names no supported command; holds the command word.
    UnknownCommand(String),
    /// The command is addressed to another bot; holds that bot's name.
    WrongBotName(String),
}

/// The first word of a text: everything before the first space.
pub open spec fn command_word(text: Seq<char>) -> Seq<char> {
    before_first(text, ' ')
}

/// The command of a text: its first word without an `@bot_name` suffix.
pub open spec fn command_name(text: Seq<char>) -> Seq<char> {
    before_first(command_word(text), '@')
}

/// The bot a command is addressed to (`/command@bot_name`), if any.
pub open spec fn addressed_bot(text: Seq<char>) -> Option<Seq<char>> {
    match after_first(command_word(text), '@') {
        Some(rest) => Some(before_first(rest, '@')),
        None => None,
    }
}

/// The text is addressed to a bot other than `bot_name`.
pub open spec fn addressed_elsewhere(text: Seq<char>, bot_name: Seq<char>) -> bool {
    match addressed_bot(text) {
        Some(name) => !eq_ignore_ascii_case(name, bot_name),
        None => false,
    }
}

impl Command {
    /// The help command.
    pub fn help() -> (command: Self)
        ensures
            command == Command::Help(Help),
    {
        Command::Help(Help)
    }

    /// The start command.
    pub fn start() -> (command: Self)
        ensures
            command == Command::Start(Start),
    {
        Command::Start(Start)
    }

    /// The cancel command.
    pub fn cancel() -> (command: Self)
        ensures
            command == Command::Cancel(Cancel),
    {
        Command::Cancel(Cancel)
    }

    /// Parse `text` as a command for the bot named `bot_name`.
    ///
    /// The first word of the text (up to the first space) is the command, optionally
    /// followed by `@` and a bot name, which must equal `bot_name` up to ASCII case.
    /// Anything after the first word is ignored.
    pub fn parse(text: &str, bot_name: &str) -> (parsed: Result<Command, CommandParseError>)
        ensures
            addressed_elsewhere(text@, bot_name@) ==> (parsed matches Err(
                CommandParseError::WrongBotName(name),
            ) && Some(name@) == addressed_bot(text@)),
            !addressed_elsewhere(text@, bot_name@) ==> {
                if command_name(text@) == "/help"@ {
                    parsed == Ok::<Command, CommandParseError>(Command::Help(Help))
                } else if command_name(text@) == "/start"@ {
                    parsed == Ok::<Command, CommandParseError>(Command::Start(Start))
                } else if command_name(text@) == "/cancel"@ {
                    parsed == Ok::<Command, CommandParseError>(Command::Cancel(Cancel))
                } else {
                    (parsed matches Err(CommandParseError::UnknownCommand(word)) && word@
                        == command_name(text@))
                }
            },
    {
        let space = find_char(text, ' ', 0);
        let word = slice(text, 0, space);
        proof {
            assert(text@.skip(0) =~= text@);
            assert(word@ == command_word(text@));
        }
        let word_len = word.as_str().unicode_len();
        let at = find_char(word.as_str(), '@', 0);
        let command = slice(word.as_str(), 0, at);
        proof {
            assert(word@.skip(0) =~= word@);
            assert(command@ == command_name(text@));
        }
        if at < word_len {
            let end = find_char(word.as_str(), '@', at + 1);
            let name = slice(word.as_str(), at + 1, end);
            proof {
                let rest = word@.skip(at + 1);
                assert(after_first(word@, '@') == Some(rest));
                assert(name@ =~= before_first(rest, '@'));
            }
            if !str_eq_ignore_ascii_case(name.as_str(), bot_name) {
                return Err(CommandParseError::WrongBotName(name));
            }
        }
        if str_eq(command.as_str(), "/help") {
            Ok(Command::Help(Help))
        } else if str_eq(command.as_str(), "/start") {
            Ok(Command::Start(Start))
        } else if str_eq(command.as_str(), "/cancel") {
            Ok(Command::Cancel(Cancel))
        } else {
            Err(CommandParseError::UnknownCommand(command))
        }
    }

    /// Text with all supported commands and their descriptions.
    pub fn descriptions() -> (text: String)
        ensures
            text@ == "These commands are supported:\n\n/help — display this text\n/start — command to start the bot\n/cancel — cancel current operation"@,
    {
        crate::text::owned("These commands are supported:\n\n/help — display this text\n/start — command to start the bot\n/cancel — cancel current operation")
    }
}

} // verus!
