use chat_relay::command::{
    help_command, nickname, parse, set_nick_command, Command, NICKNAME_CAP, QUIT_STATUS,
};
use chat_relay::notice::{still_banned, Notice};

#[test]
fn quit_ends_with_a_failure_status() {
    assert_eq!(QUIT_STATUS, 1);
}

#[test]
fn table_is_in_order() {
    assert_eq!(Command::table(), [Command::Auth, Command::Quit, Command::Help, Command::Nick]);
    let names: Vec<&str> = Command::table().iter().map(|c| c.name()).collect();
    assert_eq!(names, vec!["/auth", "/quit", "/help", "/nick"]);
    let descs: Vec<&str> = Command::table().iter().map(|c| c.desc()).collect();
    assert_eq!(
        descs,
        vec!["Authenticate using a token", "Quit", "Print this help", "Change your nickname"]
    );
}

#[test]
fn parse_finds_the_command_and_its_argument() {
    assert_eq!(parse("/auth ABCD"), Some((Command::Auth, "ABCD")));
    assert_eq!(parse("/auth"), Some((Command::Auth, "")));
    assert_eq!(parse("/auth \u{a0}\u{3000} ABCD "), Some((Command::Auth, "ABCD ")));
    assert_eq!(parse("/quit"), Some((Command::Quit, "")));
    assert_eq!(parse("/help me"), Some((Command::Help, "me")));
    assert_eq!(parse("/nick  Ferris the crab"), Some((Command::Nick, "Ferris the crab")));
    assert_eq!(parse("/nickname x"), Some((Command::Nick, "name x")));
    assert_eq!(parse("/nick\u{e9}"), Some((Command::Nick, "\u{e9}")));
}

#[test]
fn parse_rejects_what_begins_with_no_name() {
    for text in ["", "/", "/aut", "/Auth x", "/AUTH", " /auth", "hello", "auth", "//auth", "/nic k"] {
        assert_eq!(parse(text), None);
    }
}

#[test]
fn nickname_is_capped_then_trimmed() {
    assert_eq!(NICKNAME_CAP, 16);
    assert_eq!(nickname("Ferris"), "Ferris");
    assert_eq!(nickname("  Ferris  "), "Ferris");
    assert_eq!(nickname(""), "");
    assert_eq!(nickname(" \t\u{2003} "), "");
    assert_eq!(nickname("abcdefghijklmnop"), "abcdefghijklmnop");
    assert_eq!(nickname("abcdefghijklmnopq"), "abcdefghijklmnop");
    assert_eq!(nickname("abcdefghijklmno  q"), "abcdefghijklmno");
    assert_eq!(nickname("                 x"), "");
    assert_eq!(nickname("  abcdefghijklmnopq"), "abcdefghijklmn");
    assert_eq!(nickname("\u{e9}\u{e9}\u{e9}\u{e9}\u{e9}\u{e9}\u{e9}\u{e9}\u{e9}\u{e9}\u{e9}\u{e9}\u{e9}\u{e9}\u{e9}\u{e9}\u{e9}"),
        "\u{e9}\u{e9}\u{e9}\u{e9}\u{e9}\u{e9}\u{e9}\u{e9}\u{e9}\u{e9}\u{e9}\u{e9}\u{e9}\u{e9}\u{e9}\u{e9}");
    assert_eq!(nickname("a b"), "a b");
}

#[test]
fn nick_with_empty_argument_is_rejected() {
    let mut nick = String::from("anon");
    assert_eq!(set_nick_command("", &mut nick), Notice::NickRejected);
    assert_eq!(nick, "anon");
    assert_eq!(set_nick_command("   ", &mut nick), Notice::NickRejected);
    assert_eq!(nick, "anon");
}

#[test]
fn nick_with_same_name_is_rejected() {
    let mut nick = String::from("Ferris");
    assert_eq!(set_nick_command("Ferris", &mut nick), Notice::NickRejected);
    assert_eq!(nick, "Ferris");
    assert_eq!(set_nick_command(" Ferris ", &mut nick), Notice::NickRejected);
    assert_eq!(nick, "Ferris");
}

#[test]
fn nick_with_new_name_succeeds() {
    let mut nick = String::from("anon");
    assert_eq!(
        set_nick_command("Ferris", &mut nick),
        Notice::NickChanged { from: String::from("anon"), to: String::from("Ferris") }
    );
    assert_eq!(nick, "Ferris");
    assert_eq!(
        set_nick_command("ferris", &mut nick),
        Notice::NickChanged { from: String::from("Ferris"), to: String::from("ferris") }
    );
    assert_eq!(nick, "ferris");
}

#[test]
fn nick_longer_than_the_cap_is_cut() {
    let mut nick = String::from("anon");
    assert_eq!(
        set_nick_command("0123456789abcdefXYZ", &mut nick),
        Notice::NickChanged { from: String::from("anon"), to: String::from("0123456789abcdef") }
    );
    assert_eq!(nick, "0123456789abcdef");
    // Cut to the name that the session has already.
    assert_eq!(set_nick_command("0123456789abcdefQ", &mut nick), Notice::NickRejected);
    assert_eq!(nick, "0123456789abcdef");
    // Cut to nothing but whitespace.
    assert_eq!(set_nick_command("                  late", &mut nick), Notice::NickRejected);
    assert_eq!(nick, "0123456789abcdef");
}

#[test]
fn help_lists_every_command() {
    assert_eq!(
        help_command(),
        "/auth - Authenticate using a token\r\n/quit - Quit\r\n/help - Print this help\r\n/nick - Change your nickname\r\n"
    );
}

#[test]
fn notices_read_as_lines() {
    assert_eq!(Notice::Welcome.text(), "Welcome!\n");
    assert_eq!(Notice::InvalidToken.text(), "Invalid token!\n");
    assert_eq!(Notice::Banned.text(), "You are banned!\n");
    assert_eq!(Notice::AlreadyAuthorized.text(), "Already authorized.");
    assert_eq!(Notice::Unauthorized.text(), "Not authorized.");
    assert_eq!(Notice::Help.text(), help_command());
    assert_eq!(Notice::NickRejected.text(), "Nickname cannot by empty or same.\r\n");
    assert_eq!(
        Notice::NickChanged { from: String::from("anon"), to: String::from("Ferris") }.text(),
        "Nickname changed from anon to Ferris\r\n"
    );
}

#[test]
fn still_banned_line_holds_the_seconds() {
    assert_eq!(still_banned("599.5"), "You are banned buddy, 599.5 secs left\n");
    assert_eq!(still_banned(""), "You are banned buddy,  secs left\n");
}
