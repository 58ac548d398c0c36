use chat_relay::client::{
    auth_command, help_command, quit_command, set_nick_command, Action, Client, Key,
};
use chat_relay::window::Placed;

fn typed(client: &mut Client, text: &str) {
    for c in text.chars() {
        assert_eq!(client.press(Key::Char { c, control: false }), Action::Nothing);
    }
}

fn greeting() -> Vec<String> {
    vec![
        String::from("Commands:\r\n"),
        String::from("/auth <token>\r\n"),
        String::from("/quit\r\n"),
        String::from("/help\r\n"),
        String::from("/nick <name>\r\n"),
        String::from("\r\n"),
        String::from("You are offline. Use /auth <token> to authenticate."),
    ]
}

#[test]
fn client_starts_with_the_greeting() {
    let client = Client::new(80, 24);
    assert_eq!(
        client,
        Client {
            prompt: String::new(),
            chat: greeting(),
            nick: String::from("anon"),
            quit: false,
            width: 80,
            height: 24,
        }
    );
}

#[test]
fn keys_fill_the_prompt() {
    let mut client = Client::new(80, 24);
    typed(&mut client, "hi \u{e9}c");
    assert_eq!(client.prompt, "hi \u{e9}c");
    assert_eq!(client.press(Key::Paste { data: String::from(" and more") }), Action::Nothing);
    assert_eq!(client.prompt, "hi \u{e9}c and more");
    assert_eq!(client.press(Key::Other), Action::Nothing);
    assert_eq!(client.prompt, "hi \u{e9}c and more");
    assert_eq!(client.press(Key::Esc), Action::Nothing);
    assert_eq!(client.prompt, "");
    assert_eq!(client.chat, greeting());
    assert!(!client.quit);
}

#[test]
fn control_c_says_goodbye_and_stops() {
    let mut client = Client::new(80, 24);
    typed(&mut client, "half a line");
    assert_eq!(
        client.press(Key::Char { c: 'c', control: true }),
        Action::Send { text: String::from("anon left.") }
    );
    assert!(client.quit);
    assert_eq!(client.prompt, "half a line");

    let mut other = Client::new(80, 24);
    assert_eq!(other.press(Key::Char { c: 'x', control: true }), Action::Nothing);
    assert_eq!(other.prompt, "x");
    assert!(!other.quit);
}

#[test]
fn enter_sends_the_line_under_the_nickname() {
    let mut client = Client::new(80, 24);
    typed(&mut client, "hello there");
    assert_eq!(client.press(Key::Enter), Action::Send { text: String::from("anon: hello there") });
    assert_eq!(client.prompt, "");
    let mut chat = greeting();
    chat.push(String::from("anon: hello there"));
    assert_eq!(client.chat, chat);

    assert_eq!(client.press(Key::Enter), Action::Send { text: String::from("anon: ") });
    chat.push(String::from("anon: "));
    assert_eq!(client.chat, chat);
}

#[test]
fn enter_runs_auth() {
    let mut client = Client::new(80, 24);
    typed(&mut client, "/auth  ABCD ");
    assert_eq!(client.press(Key::Enter), Action::Send { text: String::from("ABCD ") });
    assert_eq!(client.prompt, "");
    assert_eq!(client.chat, greeting());

    typed(&mut client, "/auth");
    assert_eq!(client.press(Key::Enter), Action::Send { text: String::from("dummy") });
    assert_eq!(client.prompt, "");
}

#[test]
fn enter_runs_quit() {
    let mut client = Client::new(80, 24);
    typed(&mut client, "/quit now");
    assert_eq!(client.press(Key::Enter), Action::Exit);
}

#[test]
fn enter_runs_help() {
    let mut client = Client::new(80, 24);
    typed(&mut client, "/help");
    assert_eq!(client.press(Key::Enter), Action::Nothing);
    assert_eq!(client.prompt, "");
    let mut chat = greeting();
    chat.push(String::from("/auth - Authenticate using a token\r\n\r\n"));
    chat.push(String::from("/quit - Quit\r\n\r\n"));
    chat.push(String::from("/help - Print this help\r\n\r\n"));
    chat.push(String::from("/nick - Change your nickname\r\n\r\n"));
    assert_eq!(client.chat, chat);
}

#[test]
fn enter_runs_nick() {
    let mut client = Client::new(80, 24);
    typed(&mut client, "/nick Ferris ");
    assert_eq!(client.press(Key::Enter), Action::Nothing);
    assert_eq!(client.nick, "Ferris");
    assert_eq!(client.prompt, "");
    let mut chat = greeting();
    chat.push(String::from("Nickname changed from anon to Ferris\r\n"));
    assert_eq!(client.chat, chat);

    typed(&mut client, "hi");
    assert_eq!(client.press(Key::Enter), Action::Send { text: String::from("Ferris: hi") });

    // Without a name the command is run with the word that stands for none.
    typed(&mut client, "/nick");
    assert_eq!(client.press(Key::Enter), Action::Nothing);
    assert_eq!(client.nick, "dummy");
}

#[test]
fn client_commands_by_themselves() {
    assert_eq!(auth_command("ABCD"), Action::Send { text: String::from("ABCD") });
    assert_eq!(quit_command(), Action::Exit);

    let mut chat = vec![String::from("first")];
    help_command(&mut chat);
    assert_eq!(
        chat,
        vec![
            String::from("first"),
            String::from("/auth - Authenticate using a token\r\n\r\n"),
            String::from("/quit - Quit\r\n\r\n"),
            String::from("/help - Print this help\r\n\r\n"),
            String::from("/nick - Change your nickname\r\n\r\n"),
        ]
    );

    let mut chat = Vec::new();
    let mut nick = String::from("anon");
    set_nick_command("   ", &mut chat, &mut nick);
    assert_eq!(nick, "anon");
    assert_eq!(chat, vec![String::from("Nickname cannot be empty.\r\n")]);
    set_nick_command(" anon ", &mut chat, &mut nick);
    assert_eq!(nick, "anon");
    assert_eq!(
        chat,
        vec![
            String::from("Nickname cannot be empty.\r\n"),
            String::from("Nickname changed from anon to anon\r\n"),
        ]
    );
    set_nick_command("a name longer than sixteen characters", &mut chat, &mut nick);
    assert_eq!(nick, "a name longer than sixteen characters");
}

#[test]
fn read_from_the_server_joins_the_chat() {
    let mut client = Client::new(80, 24);
    client.receive(b"Welcome!\n");
    client.receive("anon: caf\u{e9}".as_bytes());
    let mut chat = greeting();
    chat.push(String::from("Welcome!\n"));
    chat.push(String::from("anon: caf\u{e9}"));
    assert_eq!(client.chat, chat);
    assert!(!client.quit);
    client.receive(b"");
    assert!(client.quit);
    assert_eq!(client.chat, chat);
}

#[test]
fn read_that_is_no_text_is_not_taken() {
    let mut client = Client::new(80, 24);
    assert!(client.try_receive(b"Welcome!\n"));
    let mut chat = greeting();
    chat.push(String::from("Welcome!\n"));
    assert_eq!(client.chat, chat);

    // A read that ends inside a character.
    let before = client.clone();
    assert!(!client.try_receive(b"caf\xC3"));
    assert_eq!(client, before);
    assert!(!client.try_receive(&[0xFF]));
    assert_eq!(client, before);

    assert!(client.try_receive("caf\u{e9}".as_bytes()));
    chat.push(String::from("caf\u{e9}"));
    assert_eq!(client.chat, chat);
    assert!(!client.quit);
    assert!(client.try_receive(b""));
    assert!(client.quit);
    assert_eq!(client.chat, chat);
}

#[test]
fn terminal_of_fewer_than_two_rows_shows_no_line() {
    for height in [0u16, 1, 2] {
        let client = Client::new(80, height);
        assert_eq!(client.window(), vec![]);
    }
    let client = Client::new(80, 3);
    assert_eq!(
        client.window(),
        vec![Placed {
            column: 0,
            row: 0,
            name: None,
            rest: "You are offline. Use /auth <token> to authenticate.",
        }]
    );
}

#[test]
fn resize_sets_the_size() {
    let mut client = Client::new(80, 24);
    assert_eq!(client.press(Key::Resize { width: 5, height: 4 }), Action::Nothing);
    assert_eq!((client.width, client.height), (5, 4));
    assert_eq!(client.bar(), "-----");
    assert_eq!(client.press(Key::Resize { width: 0, height: 2 }), Action::Nothing);
    assert_eq!(client.bar(), "");
    assert_eq!(client.window(), vec![]);
}

#[test]
fn prompt_is_cut_to_the_width_in_bytes() {
    let mut client = Client::new(4, 24);
    typed(&mut client, "abc");
    assert_eq!(client.visible_prompt(), b"abc");
    typed(&mut client, "d");
    assert_eq!(client.visible_prompt(), b"abcd");
    typed(&mut client, "e");
    assert_eq!(client.visible_prompt(), b"abcd");
    client.press(Key::Esc);
    typed(&mut client, "abc\u{e9}");
    assert_eq!(client.visible_prompt(), b"abc\xC3");
    client.press(Key::Resize { width: 0, height: 24 });
    assert_eq!(client.visible_prompt(), b"");
}

#[test]
fn window_leaves_two_rows_free() {
    let mut client = Client::new(80, 5);
    client.receive(b"Ferris: hi");
    assert_eq!(
        client.window(),
        vec![
            Placed { column: 0, row: 0, name: None, rest: "\r\n" },
            Placed {
                column: 0,
                row: 1,
                name: None,
                rest: "You are offline. Use /auth <token> to authenticate.",
            },
            Placed { column: 0, row: 2, name: Some("Ferris"), rest: "hi" },
        ]
    );
}
