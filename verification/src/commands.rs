//! Which command an agent was given.

use vstd::prelude::*;

verus! {

/// What an agent can be asked to do.
#[derive(Clone, Copy, Debug, PartialEq, Eq, Structural)]
pub enum Command {
    /// Forget the live history.
    Clear,
    /// Answer a prompt.
    Chat,
    /// Anything else.
    Unknown,
}

/// The lower-case equivalent of a text.
pub uninterp spec fn lowercased(s: Seq<char>) -> Seq<char>;

/// `str::to_lowercase`, which gives the lower-case equivalent of a text
/// as a new string. What it gives depends on the text alone.
#[verifier::external_body]
fn to_lowercase(s: &str) -> (lower: String)
    ensures
        lower@ == lowercased(s@),
{
    s.to_lowercase()
}

/// The command of this name, for an agent whose chat command is
/// `chat_name`: `clear` clears, the chat command chats, and no other
/// name is known. An agent that is itself called `clear` cannot be
/// chatted with.
pub open spec fn command_named(name: Seq<char>, chat_name: Seq<char>) -> Command {
    if name == "clear"@ {
        Command::Clear
    } else if name == chat_name {
        Command::Chat
    } else {
        Command::Unknown
    }
}

/// The command of this name, for an agent whose chat command is
/// `chat_name`.
pub fn command_for(name: &str, chat_name: &str) -> (command: Command)
    ensures
        command == command_named(name@, chat_name@),
{
    let name = name.to_owned();
    if name == "clear".to_owned() {
        Command::Clear
    } else if name == chat_name.to_owned() {
        Command::Chat
    } else {
        Command::Unknown
    }
}

/// The name of the chat command of an agent: its name in lower case.
pub fn chat_command_name(botname: &str) -> (name: String)
    ensures
        name@ == lowercased(botname@),
{
    to_lowercase(botname)
}

/// The command of this name, for the agent called `botname`.
pub fn dispatch(name: &str, botname: &str) -> (command: Command)
    ensures
        command == command_named(name@, lowercased(botname@)),
{
    let chat_name = chat_command_name(botname);
    command_for(name, chat_name.as_str())
}

} // verus!
