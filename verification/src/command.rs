//! The command table: the names that a frame may begin with, what follows a
//! name, and the texts that the commands answer with.

use vstd::prelude::*;
use vstd::string::*;
use crate::notice::{Notice, NoticeView};
use crate::text::{
    chars_of, same_text, skip_spaces, skip_spaces_back, starts_with, trim, trim_start, truncate,
};

verus! {

/// A command of the relay.
#[derive(Clone, Copy, Debug, PartialEq, Eq, Structural)]
pub enum Command {
    /// `/auth <token>`: authenticate.
    Auth,
    /// `/quit`: end the server.
    Quit,
    /// `/help`: list the commands.
    Help,
    /// `/nick <name>`: change the nickname.
    Nick,
}

/// The status that a program ends with on `/quit`.
pub const QUIT_STATUS: i32 = 1;

/// The longest nickname, in characters. A longer argument is cut to this
/// length before it is trimmed.
pub const NICKNAME_CAP: usize = 16;

impl Command {
    /// The token that a frame begins with to name this command.
    pub open spec fn spec_name(self) -> Seq<char> {
        match self {
            Command::Auth => "/auth"@,
            Command::Quit => "/quit"@,
            Command::Help => "/help"@,
            Command::Nick => "/nick"@,
        }
    }

    /// One line on what this command does.
    pub open spec fn spec_desc(self) -> Seq<char> {
        match self {
            Command::Auth => "Authenticate using a token"@,
            Command::Quit => "Quit"@,
            Command::Help => "Print this help"@,
            Command::Nick => "Change your nickname"@,
        }
    }

    /// The commands in the order in which a frame is held against them.
    pub open spec fn spec_table() -> Seq<Command> {
        seq![Command::Auth, Command::Quit, Command::Help, Command::Nick]
    }

    /// The token that a frame begins with to name this command.
    pub fn name(&self) -> (name: &'static str)
        ensures
            name@ == self.spec_name(),
    {
        match self {
            Command::Auth => "/auth",
            Command::Quit => "/quit",
            Command::Help => "/help",
            Command::Nick => "/nick",
        }
    }

    /// One line on what this command does.
    pub fn desc(&self) -> (desc: &'static str)
        ensures
            desc@ == self.spec_desc(),
    {
        match self {
            Command::Auth => "Authenticate using a token",
            Command::Quit => "Quit",
            Command::Help => "Print this help",
            Command::Nick => "Change your nickname",
        }
    }

    /// The commands in the order in which a frame is held against them.
    pub fn table() -> (table: [Command; 4])
        ensures
            table@ == Command::spec_table(),
    {
        let table = [Command::Auth, Command::Quit, Command::Help, Command::Nick];
        table
    }
}

/// The first command at or behind position `from` of the table whose name
/// `text` begins with.
pub open spec fn first_match(text: Seq<char>, from: int) -> Option<Command>
    decreases Command::spec_table().len() - from,
{
    if from < 0 || from >= Command::spec_table().len() {
        None
    } else if Command::spec_table()[from].spec_name().is_prefix_of(text) {
        Some(Command::spec_table()[from])
    } else {
        first_match(text, from + 1)
    }
}

/// The command that `text` names: the first of the table whose name `text`
/// begins with, case and all.
pub open spec fn lookup(text: Seq<char>) -> Option<Command> {
    first_match(text, 0)
}

/// What follows the name of `command` in `text`, without leading
/// whitespace.
pub open spec fn argument(text: Seq<char>, command: Command) -> Seq<char> {
    trim_start(text.skip(command.spec_name().len() as int))
}

/// The nickname that the argument `prompt` asks for: its first
/// `NICKNAME_CAP` characters, trimmed.
pub open spec fn nickname_of(prompt: Seq<char>) -> Seq<char> {
    trim(truncate(prompt, NICKNAME_CAP as nat))
}

/// What `/nick` with the argument `prompt` does to the nickname
/// `current`: the nickname afterwards and the answer. An empty name and
/// the name that the session has are rejected.
pub open spec fn nick_change(current: Seq<char>, prompt: Seq<char>) -> (Seq<char>, NoticeView) {
    let name = nickname_of(prompt);
    if name.len() == 0 || name == current {
        (current, NoticeView::NickRejected)
    } else {
        (name, NoticeView::NickChanged { from: current, to: name })
    }
}

/// The line of the usage listing for `command`.
pub open spec fn help_line(command: Command) -> Seq<char> {
    command.spec_name() + " - "@ + command.spec_desc() + "\r\n"@
}

/// The lines of the usage listing for the first `n` commands of the table.
pub open spec fn help_lines(n: nat) -> Seq<char>
    decreases n,
{
    if n == 0 || n > Command::spec_table().len() {
        Seq::empty()
    } else {
        help_lines((n - 1) as nat) + help_line(Command::spec_table()[n - 1])
    }
}

/// The usage listing: one line for each command, in table order.
pub open spec fn help_text() -> Seq<char> {
    help_lines(Command::spec_table().len())
}

/// The command that `text` names and its argument, or `None` if `text`
/// begins with no command's name.
pub fn parse<'a>(text: &'a str) -> (parsed: Option<(Command, &'a str)>)
    ensures
        parsed is Some <==> lookup(text@) is Some,
        parsed matches Some((command, arg)) ==> lookup(text@) == Some(command) && arg@ == argument(
            text@,
            command,
        ),
{
    let chars = chars_of(text);
    let table = Command::table();
    let mut i: usize = 0;
    while i < 4
        invariant
            i <= 4,
            chars@ == text@,
            table@ == Command::spec_table(),
            lookup(text@) == first_match(text@, i as int),
        decreases 4 - i,
    {
        let command = table[i];
        let name = command.name();
        if starts_with(&chars, name) {
            let n = name.unicode_len();
            let start = skip_spaces(&chars, n, chars.len());
            let arg = text.substring_char(start, chars.len());
            return Some((command, arg));
        }
        i += 1;
    }
    None
}

/// The nickname that the argument `prompt` asks for.
pub fn nickname<'a>(prompt: &'a str) -> (name: &'a str)
    ensures
        name@ == nickname_of(prompt@),
{
    let chars = chars_of(prompt);
    let end = if chars.len() > NICKNAME_CAP {
        NICKNAME_CAP
    } else {
        chars.len()
    };
    let from = skip_spaces(&chars, 0, end);
    let to = skip_spaces_back(&chars, from, end);
    proof {
        assert(chars@.subrange(0, end as int) =~= truncate(prompt@, NICKNAME_CAP as nat));
    }
    prompt.substring_char(from, to)
}

/// `/nick`: sets `nick` to the name that `prompt` asks for, or rejects
/// it, and returns the answer for the session that asked. A change is told
/// to nobody else.
pub fn set_nick_command(prompt: &str, nick: &mut String) -> (notice: Notice)
    ensures
        final(nick)@ == nick_change(old(nick)@, prompt@).0,
        notice@ == nick_change(old(nick)@, prompt@).1,
{
    let name = nickname(prompt);
    if name.is_empty() || same_text(name, nick.as_str()) {
        Notice::NickRejected
    } else {
        let from = nick.clone();
        *nick = name.to_owned();
        Notice::NickChanged { from, to: name.to_owned() }
    }
}

/// `/help`: the usage listing, for the session that asked and no other.
pub fn help_command() -> (listing: String)
    ensures
        listing@ == help_text(),
{
    let table = Command::table();
    let mut listing = String::new();
    let mut i: usize = 0;
    while i < 4
        invariant
            i <= 4,
            table@ == Command::spec_table(),
            listing@ == help_lines(i as nat),
        decreases 4 - i,
    {
        let command = table[i];
        listing.append(command.name());
        listing.append(" - ");
        listing.append(command.desc());
        listing.append("\r\n");
        i += 1;
    }
    listing
}

} // verus!
