//! The decisions of the terminal client: what a key, a paste or a read from
//! the server does to the prompt, the chat and the nickname, and what is
//! sent to the server.
//!
//! The client draws nothing and reads nothing here. The caller hands it
//! each key and each read, sends what an [`Action`] names, and draws the
//! state.

use vstd::prelude::*;
use vstd::slice::slice_subrange;
use vstd::string::*;
use vstd::utf8::{decode_utf8, encode_utf8, valid_utf8};
use crate::command::{argument, help_line, lookup, parse, Command};
use crate::text::{chars_of, decode, skip_spaces, skip_spaces_back, trim};
use crate::window::{chat_window, first_shown, placed, Placed, Rect};

verus! {

/// What the terminal reports.
#[derive(Clone, Debug, PartialEq, Eq)]
pub enum Key {
    /// The terminal has a new size.
    Resize { width: u16, height: u16 },
    /// Text was pasted.
    Paste { data: String },
    /// A character key, with or without the control key.
    Char { c: char, control: bool },
    /// The enter key.
    Enter,
    /// The escape key.
    Esc,
    /// Anything else.
    Other,
}

/// What the caller is to do after a key.
#[derive(Clone, Debug, PartialEq, Eq)]
pub enum Action {
    /// Nothing is sent.
    Nothing,
    /// `text` is written to the server.
    Send { text: String },
    /// The client ends at once, with the status `QUIT_STATUS`.
    Exit,
}

/// The state of the terminal client.
#[derive(Clone, Debug, PartialEq, Eq)]
pub struct Client {
    /// What the user has typed and not yet sent.
    pub prompt: String,
    /// The lines of the chat, oldest first.
    pub chat: Vec<String>,
    /// The nickname that the user's lines are sent under.
    pub nick: String,
    /// Whether the client is to stop.
    pub quit: bool,
    /// The width of the terminal, in cells.
    pub width: u16,
    /// The height of the terminal, in cells.
    pub height: u16,
}

/// A key as a mathematical value.
pub enum KeyView {
    Resize { width: u16, height: u16 },
    Paste { data: Seq<char> },
    Char { c: char, control: bool },
    Enter,
    Esc,
    Other,
}

/// An action as a mathematical value.
pub enum ActionView {
    Nothing,
    Send { text: Seq<char> },
    Exit,
}

/// A client as a mathematical value.
pub struct ClientView {
    pub prompt: Seq<char>,
    pub chat: Seq<Seq<char>>,
    pub nick: Seq<char>,
    pub quit: bool,
    pub width: u16,
    pub height: u16,
}

impl View for Key {
    type V = KeyView;

    open spec fn view(&self) -> KeyView {
        match self {
            Key::Resize { width, height } => KeyView::Resize { width: *width, height: *height },
            Key::Paste { data } => KeyView::Paste { data: data@ },
            Key::Char { c, control } => KeyView::Char { c: *c, control: *control },
            Key::Enter => KeyView::Enter,
            Key::Esc => KeyView::Esc,
            Key::Other => KeyView::Other,
        }
    }
}

impl View for Action {
    type V = ActionView;

    open spec fn view(&self) -> ActionView {
        match self {
            Action::Nothing => ActionView::Nothing,
            Action::Send { text } => ActionView::Send { text: text@ },
            Action::Exit => ActionView::Exit,
        }
    }
}

/// The characters of each line of `chat`.
pub open spec fn lines(chat: Seq<String>) -> Seq<Seq<char>> {
    chat.map_values(|line: String| line@)
}

impl View for Client {
    type V = ClientView;

    open spec fn view(&self) -> ClientView {
        ClientView {
            prompt: self.prompt@,
            chat: lines(self.chat@),
            nick: self.nick@,
            quit: self.quit,
            width: self.width,
            height: self.height,
        }
    }
}

/// The lines that the chat begins with.
pub open spec fn greeting() -> Seq<Seq<char>> {
    seq![
        "Commands:\r\n"@,
        "/auth <token>\r\n"@,
        "/quit\r\n"@,
        "/help\r\n"@,
        "/nick <name>\r\n"@,
        "\r\n"@,
        "You are offline. Use /auth <token> to authenticate."@,
    ]
}

/// The argument that a command of the client is run with: what follows
/// its name in `prompt`, or `dummy` where nothing follows.
pub open spec fn given(prompt: Seq<char>, command: Command) -> Seq<char> {
    if argument(prompt, command).len() == 0 {
        "dummy"@
    } else {
        argument(prompt, command)
    }
}

/// The chat after `/help`: one entry for each of the first `n` commands of
/// the table is added, its line of the usage listing and an empty line.
pub open spec fn with_help(chat: Seq<Seq<char>>, n: nat) -> Seq<Seq<char>>
    decreases n,
{
    if n == 0 || n > Command::spec_table().len() {
        chat
    } else {
        with_help(chat, (n - 1) as nat).push(help_line(Command::spec_table()[n - 1]) + "\r\n"@)
    }
}

impl ClientView {
    /// The client at its start, on a terminal of the given size.
    pub open spec fn initial(width: u16, height: u16) -> ClientView {
        ClientView {
            prompt: Seq::empty(),
            chat: greeting(),
            nick: "anon"@,
            quit: false,
            width,
            height,
        }
    }

    /// `/nick` with the argument `prompt`: the trimmed argument becomes the
    /// nickname unless it is empty, and the chat says which.
    pub open spec fn set_nick(self, prompt: Seq<char>) -> ClientView {
        let name = trim(prompt);
        if name.len() == 0 {
            ClientView { chat: self.chat.push("Nickname cannot be empty.\r\n"@), ..self }
        } else {
            ClientView {
                chat: self.chat.push(
                    "Nickname changed from "@ + self.nick + " to "@ + name + "\r\n"@,
                ),
                nick: name,
                ..self
            }
        }
    }

    /// The enter key: a prompt that names a command runs it, any other
    /// prompt is sent under the nickname and added to the chat. The prompt
    /// is then empty.
    pub open spec fn enter(self) -> (ClientView, ActionView) {
        let cleared = ClientView { prompt: Seq::empty(), ..self };
        match lookup(self.prompt) {
            Some(Command::Auth) => (
                cleared,
                ActionView::Send { text: given(self.prompt, Command::Auth) },
            ),
            Some(Command::Quit) => (self, ActionView::Exit),
            Some(Command::Help) => (
                ClientView {
                    chat: with_help(self.chat, Command::spec_table().len()),
                    ..cleared
                },
                ActionView::Nothing,
            ),
            Some(Command::Nick) => (
                cleared.set_nick(given(self.prompt, Command::Nick)),
                ActionView::Nothing,
            ),
            None => {
                let line = self.nick + ": "@ + self.prompt;
                (
                    ClientView { chat: self.chat.push(line), ..cleared },
                    ActionView::Send { text: line },
                )
            },
        }
    }

    /// What `key` does to the client, and what the caller is to do.
    pub open spec fn press(self, key: KeyView) -> (ClientView, ActionView) {
        match key {
            KeyView::Resize { width, height } => (
                ClientView { width, height, ..self },
                ActionView::Nothing,
            ),
            KeyView::Paste { data } => (
                ClientView { prompt: self.prompt + data, ..self },
                ActionView::Nothing,
            ),
            KeyView::Char { c, control } => {
                if c == 'c' && control {
                    (
                        ClientView { quit: true, ..self },
                        ActionView::Send { text: self.nick + " left."@ },
                    )
                } else {
                    (ClientView { prompt: self.prompt.push(c), ..self }, ActionView::Nothing)
                }
            },
            KeyView::Enter => self.enter(),
            KeyView::Esc => (ClientView { prompt: Seq::empty(), ..self }, ActionView::Nothing),
            KeyView::Other => (self, ActionView::Nothing),
        }
    }

    /// What one read of `bytes` from the server does: the text is added to
    /// the chat. An empty read is the end of the stream and stops the
    /// client.
    pub open spec fn receive(self, bytes: Seq<u8>) -> ClientView {
        if bytes.len() > 0 {
            ClientView { chat: self.chat.push(decode_utf8(bytes)), ..self }
        } else {
            ClientView { quit: true, ..self }
        }
    }

    /// The bytes of the prompt that are drawn: all of them where the prompt
    /// has fewer bytes than the terminal has columns, else as many as it
    /// has columns.
    pub open spec fn visible_prompt(self) -> Seq<u8> {
        let bytes = encode_utf8(self.prompt);
        if self.width <= bytes.len() {
            bytes.take(self.width as int)
        } else {
            bytes
        }
    }

    /// The number of rows that show the chat: all but the last two, and
    /// none on a terminal of fewer than two rows.
    pub open spec fn rows(self) -> nat {
        if self.height >= 2 {
            (self.height - 2) as nat
        } else {
            0
        }
    }

    /// The part of the screen that shows the chat: its first `rows()` rows.
    pub open spec fn boundary(self) -> Rect {
        Rect { x: 0, y: 0, w: self.width as usize, h: self.rows() as usize }
    }
}

/// Appends `c` to `text` by `String::push`. Trusted: the text afterwards
/// is the text before with `c` at its end.
#[verifier::external_body]
fn push_char(text: &mut String, c: char)
    ensures
        final(text)@ == old(text)@.push(c),
{
    text.push(c)
}

/// `/auth` at the client: the argument is what is sent to the server.
pub fn auth_command(token: &str) -> (action: Action)
    ensures
        action@ == (ActionView::Send { text: token@ }),
{
    Action::Send { text: token.to_owned() }
}

/// `/quit` at the client: the client ends at once.
pub fn quit_command() -> (action: Action)
    ensures
        action@ == ActionView::Exit,
{
    Action::Exit
}

/// `/help` at the client: the usage listing is added to `chat`, one entry
/// for each command.
pub fn help_command(chat: &mut Vec<String>)
    ensures
        lines(final(chat)@) == with_help(lines(old(chat)@), Command::spec_table().len()),
{
    let table = Command::table();
    let mut i: usize = 0;
    while i < 4
        invariant
            i <= 4,
            table@ == Command::spec_table(),
            lines(chat@) == with_help(lines(old(chat)@), i as nat),
        decreases 4 - i,
    {
        let command = table[i];
        let mut total = String::from_str(command.name());
        total.append(" - ");
        total.append(command.desc());
        total.append("\r\n");
        total.append("\r\n");
        chat.push(total);
        i += 1;
    }
}

/// `/nick` at the client: the trimmed `prompt` becomes the nickname unless
/// it is empty, and `chat` says which.
pub fn set_nick_command(prompt: &str, chat: &mut Vec<String>, nick: &mut String)
    ensures
        trim(prompt@).len() == 0 ==> final(nick)@ == old(nick)@ && lines(final(chat)@) == lines(
            old(chat)@,
        ).push("Nickname cannot be empty.\r\n"@),
        trim(prompt@).len() > 0 ==> final(nick)@ == trim(prompt@) && lines(final(chat)@) == lines(
            old(chat)@,
        ).push("Nickname changed from "@ + old(nick)@ + " to "@ + trim(prompt@) + "\r\n"@),
{
    let chars = chars_of(prompt);
    let from = skip_spaces(&chars, 0, chars.len());
    let to = skip_spaces_back(&chars, from, chars.len());
    let trimmed = prompt.substring_char(from, to);
    proof {
        assert(chars@.subrange(0, chars@.len() as int) =~= prompt@);
    }
    if trimmed.is_empty() {
        let line = String::from_str("Nickname cannot be empty.\r\n");
        chat.push(line);
    } else {
        let mut line = String::from_str("Nickname changed from ");
        line.append(nick.as_str());
        line.append(" to ");
        line.append(trimmed);
        line.append("\r\n");
        chat.push(line);
        *nick = trimmed.to_owned();
    }
}

impl Client {
    /// The client at its start, on a terminal of the given size: an empty
    /// prompt, the greeting as chat, the nickname `anon`.
    pub fn new(width: u16, height: u16) -> (client: Client)
        ensures
            client@ == ClientView::initial(width, height),
    {
        let mut chat: Vec<String> = Vec::new();
        chat.push(String::from_str("Commands:\r\n"));
        chat.push(String::from_str("/auth <token>\r\n"));
        chat.push(String::from_str("/quit\r\n"));
        chat.push(String::from_str("/help\r\n"));
        chat.push(String::from_str("/nick <name>\r\n"));
        chat.push(String::from_str("\r\n"));
        chat.push(String::from_str("You are offline. Use /auth <token> to authenticate."));
        proof {
            assert(lines(chat@) =~= greeting());
        }
        Client {
            prompt: String::new(),
            chat,
            nick: String::from_str("anon"),
            quit: false,
            width,
            height,
        }
    }

    /// Handles the enter key.
    fn enter(&mut self) -> (action: Action)
        ensures
            final(self)@ == old(self)@.enter().0,
            action@ == old(self)@.enter().1,
    {
        let ghost before = self.chat@;
        let prompt = self.prompt.clone();
        match parse(prompt.as_str()) {
            Some((command, token)) => {
                let arg = if token.is_empty() {
                    "dummy"
                } else {
                    token
                };
                match command {
                    Command::Auth => {
                        self.prompt = String::new();
                        auth_command(arg)
                    },
                    Command::Quit => quit_command(),
                    Command::Help => {
                        help_command(&mut self.chat);
                        self.prompt = String::new();
                        Action::Nothing
                    },
                    Command::Nick => {
                        set_nick_command(arg, &mut self.chat, &mut self.nick);
                        self.prompt = String::new();
                        Action::Nothing
                    },
                }
            },
            None => {
                let mut full_msg = self.nick.clone();
                full_msg.append(": ");
                full_msg.append(prompt.as_str());
                self.chat.push(full_msg.clone());
                self.prompt = String::new();
                proof {
                    assert(lines(self.chat@) =~= lines(before).push(full_msg@));
                }
                Action::Send { text: full_msg }
            },
        }
    }

    /// Handles `key`: changes the prompt, the chat and the nickname as the
    /// key asks, and returns what the caller is to send.
    pub fn press(&mut self, key: Key) -> (action: Action)
        ensures
            final(self)@ == old(self)@.press(key@).0,
            action@ == old(self)@.press(key@).1,
    {
        match key {
            Key::Resize { width, height } => {
                self.width = width;
                self.height = height;
                Action::Nothing
            },
            Key::Paste { data } => {
                self.prompt.append(data.as_str());
                Action::Nothing
            },
            Key::Char { c, control } => {
                if c == 'c' && control {
                    let mut text = self.nick.clone();
                    text.append(" left.");
                    self.quit = true;
                    Action::Send { text }
                } else {
                    push_char(&mut self.prompt, c);
                    Action::Nothing
                }
            },
            Key::Enter => self.enter(),
            Key::Esc => {
                self.prompt = String::new();
                Action::Nothing
            },
            Key::Other => Action::Nothing,
        }
    }

    /// Handles one read of `bytes` from the server. An empty read is the
    /// end of the stream.
    pub fn receive(&mut self, bytes: &[u8])
        requires
            valid_utf8(bytes@),
        ensures
            final(self)@ == old(self)@.receive(bytes@),
    {
        let ghost before = self.chat@;
        if bytes.len() > 0 {
            let text = decode(bytes).unwrap();
            self.chat.push(text.to_owned());
            proof {
                assert(lines(self.chat@) =~= lines(before).push(text@));
            }
        } else {
            self.quit = true;
        }
    }

    /// Handles one read of `bytes` from the server if they are well-formed
    /// UTF-8, and says whether it did. Bytes that are no text are not
    /// taken: nothing changes.
    pub fn try_receive(&mut self, bytes: &[u8]) -> (taken: bool)
        ensures
            taken == valid_utf8(bytes@),
            taken ==> final(self)@ == old(self)@.receive(bytes@),
            !taken ==> final(self)@ == old(self)@,
    {
        if bytes.len() == 0 {
            self.quit = true;
            return true;
        }
        match decode(bytes) {
            Some(text) => {
                let ghost before = self.chat@;
                self.chat.push(text.to_owned());
                proof {
                    assert(lines(self.chat@) =~= lines(before).push(text@));
                }
                true
            },
            None => false,
        }
    }

    /// The rule between the chat and the prompt: one `-` for each column.
    pub fn bar(&self) -> (bar: String)
        ensures
            bar@ == Seq::new(self.width as nat, |i: int| '-'),
    {
        let mut bar = String::new();
        let mut i: u16 = 0;
        proof {
            reveal_strlit("-");
        }
        while i < self.width
            invariant
                i <= self.width,
                "-"@ == seq!['-'],
                bar@ == Seq::new(i as nat, |i: int| '-'),
            decreases self.width - i,
        {
            bar.append("-");
            i += 1;
        }
        bar
    }

    /// The bytes of the prompt that are drawn.
    pub fn visible_prompt(&self) -> (shown: &[u8])
        ensures
            shown@ == self@.visible_prompt(),
    {
        let bytes = self.prompt.as_str().as_bytes();
        if self.width as usize <= bytes.len() {
            slice_subrange(bytes, 0, self.width as usize)
        } else {
            bytes
        }
    }

    /// The lines of the chat that are drawn, each placed on its row, in a
    /// window that leaves the last two rows of the terminal free. A
    /// terminal of fewer than two rows shows no line.
    pub fn window<'a>(&'a self) -> (window: Vec<Placed<'a>>)
        ensures
            window@.len() == self.chat@.len() - first_shown(self.chat@.len() as nat, self@.rows()),
            forall|dy: int|
                0 <= dy < window@.len() ==> (#[trigger] window@[dy])@ == placed(
                    self@.chat[first_shown(self.chat@.len() as nat, self@.rows()) + dy],
                    self@.boundary(),
                    dy,
                ),
    {
        let h = if self.height >= 2 {
            self.height as usize - 2
        } else {
            0
        };
        let boundary = Rect { x: 0, y: 0, w: self.width as usize, h };
        chat_window(&self.chat, boundary)
    }
}

} // verus!
