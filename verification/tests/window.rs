use chat_relay::window::{chat_window, split, Placed, Rect};

fn chat(lines: &[&str]) -> Vec<String> {
    lines.iter().map(|line| line.to_string()).collect()
}

#[test]
fn line_is_split_at_the_first_colon_and_space() {
    assert_eq!(split("anon: hello"), Some(("anon", "hello")));
    assert_eq!(split("anon: a: b"), Some(("anon", "a: b")));
    assert_eq!(split(": x"), Some(("", "x")));
    assert_eq!(split("x: "), Some(("x", "")));
    assert_eq!(split(": "), Some(("", "")));
    assert_eq!(split("a:b: c"), Some(("a:b", "c")));
    assert_eq!(split("caf\u{e9}: \u{1f980}"), Some(("caf\u{e9}", "\u{1f980}")));
}

#[test]
fn line_without_separator_is_not_split() {
    for line in ["", ":", " ", "hello", "a:b", "a :b", "Welcome!\n", "x:"] {
        assert_eq!(split(line), None);
    }
}

#[test]
fn window_shows_the_last_lines() {
    let chat = chat(&["one", "anon: two", "three", "Ferris: four: 4"]);
    let window = chat_window(&chat, Rect { x: 3, y: 5, w: 80, h: 2 });
    assert_eq!(
        window,
        vec![
            Placed { column: 3, row: 5, name: None, rest: "three" },
            Placed { column: 3, row: 6, name: Some("Ferris"), rest: "four: 4" },
        ]
    );
}

#[test]
fn window_taller_than_the_chat_shows_it_all() {
    let chat = chat(&["one", "anon: two"]);
    let window = chat_window(&chat, Rect { x: 0, y: 0, w: 80, h: 22 });
    assert_eq!(
        window,
        vec![
            Placed { column: 0, row: 0, name: None, rest: "one" },
            Placed { column: 0, row: 1, name: Some("anon"), rest: "two" },
        ]
    );
    let exact = chat_window(&chat, Rect { x: 0, y: 0, w: 80, h: 2 });
    assert_eq!(exact, window);
}

#[test]
fn window_without_rows_or_lines_is_empty() {
    let lines = chat(&["one", "two"]);
    assert_eq!(chat_window(&lines, Rect { x: 0, y: 0, w: 80, h: 0 }), vec![]);
    assert_eq!(chat_window(&chat(&[]), Rect { x: 0, y: 0, w: 80, h: 10 }), vec![]);
}

#[test]
fn window_positions_wrap_at_the_width_of_a_cell_index() {
    let lines = chat(&["one", "two"]);
    let window = chat_window(&lines, Rect { x: 65536 + 7, y: 65535, w: 80, h: 2 });
    assert_eq!(
        window,
        vec![
            Placed { column: 7, row: 65535, name: None, rest: "one" },
            Placed { column: 7, row: 0, name: None, rest: "two" },
        ]
    );
}
