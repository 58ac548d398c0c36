//! The chat window of a client: which lines of the chat are shown, where,
//! and which part of a line is the name of its author.

use vstd::prelude::*;
use vstd::string::*;
use crate::text::chars_of;

verus! {

/// A rectangle of the screen, in cells.
#[derive(Clone, Copy, Debug, PartialEq, Eq, Structural)]
pub struct Rect {
    pub x: usize,
    pub y: usize,
    pub w: usize,
    pub h: usize,
}

/// One line of the chat, placed on the screen. A line with a `name` is
/// drawn as the name in the client's colour, then `": "`, then `rest`.
#[derive(Clone, Copy, Debug, PartialEq, Eq)]
pub struct Placed<'a> {
    pub column: u16,
    pub row: u16,
    pub name: Option<&'a str>,
    pub rest: &'a str,
}

/// A placed line as a mathematical value.
pub struct PlacedView {
    pub column: u16,
    pub row: u16,
    pub name: Option<Seq<char>>,
    pub rest: Seq<char>,
}

impl<'a> View for Placed<'a> {
    type V = PlacedView;

    open spec fn view(&self) -> PlacedView {
        PlacedView {
            column: self.column,
            row: self.row,
            name: match self.name {
                Some(name) => Some(name@),
                None => None,
            },
            rest: self.rest@,
        }
    }
}

/// The first position at or behind `from` at which `line` holds a colon
/// and then a space.
pub open spec fn separator_from(line: Seq<char>, from: int) -> Option<int>
    decreases line.len() - from,
{
    if from < 0 || from + 1 >= line.len() {
        None
    } else if line[from] == ':' && line[from + 1] == ' ' {
        Some(from)
    } else {
        separator_from(line, from + 1)
    }
}

/// The name in front of the first `": "` of `line` and what follows it, or
/// `None` if `line` holds no `": "`.
pub open spec fn split_name(line: Seq<char>) -> Option<(Seq<char>, Seq<char>)> {
    match separator_from(line, 0) {
        Some(at) => Some((line.take(at), line.skip(at + 2))),
        None => None,
    }
}

/// The index of the first line that a window of `height` rows shows of
/// `lines` lines: the window shows the last lines.
pub open spec fn first_shown(lines: nat, height: nat) -> nat {
    if lines >= height {
        (lines - height) as nat
    } else {
        0
    }
}

/// The line `line` as row `dy` of the window `boundary`.
pub open spec fn placed(line: Seq<char>, boundary: Rect, dy: int) -> PlacedView {
    match split_name(line) {
        Some((name, rest)) => PlacedView {
            column: boundary.x as u16,
            row: (boundary.y + dy) as u16,
            name: Some(name),
            rest,
        },
        None => PlacedView {
            column: boundary.x as u16,
            row: (boundary.y + dy) as u16,
            name: None,
            rest: line,
        },
    }
}

/// The name in front of the first `": "` of `line` and what follows it.
pub fn split<'a>(line: &'a str) -> (parts: Option<(&'a str, &'a str)>)
    ensures
        parts is Some <==> split_name(line@) is Some,
        parts matches Some((name, rest)) ==> split_name(line@) == Some((name@, rest@)),
{
    let chars = chars_of(line);
    if chars.len() < 2 {
        return None;
    }
    let last = chars.len() - 1;
    let mut i: usize = 0;
    while i < last
        invariant
            chars@ == line@,
            last == chars@.len() - 1,
            separator_from(line@, 0) == separator_from(line@, i as int),
        decreases last - i,
    {
        if chars[i] == ':' && chars[i + 1] == ' ' {
            let name = line.substring_char(0, i);
            let rest = line.substring_char(i + 2, chars.len());
            return Some((name, rest));
        }
        i += 1;
    }
    None
}

/// The lines of `chat` that the window `boundary` shows, each placed on
/// its row: the last `boundary.h` lines, from the top of the window down.
pub fn chat_window<'a>(chat: &'a Vec<String>, boundary: Rect) -> (window: Vec<Placed<'a>>)
    requires
        boundary.y + boundary.h <= usize::MAX,
    ensures
        window@.len() == chat@.len() - first_shown(chat@.len() as nat, boundary.h as nat),
        forall|dy: int|
            0 <= dy < window@.len() ==> (#[trigger] window@[dy])@ == placed(
                chat@[first_shown(chat@.len() as nat, boundary.h as nat) + dy]@,
                boundary,
                dy,
            ),
{
    let n = chat.len();
    let m = if n >= boundary.h {
        n - boundary.h
    } else {
        0
    };
    let mut window: Vec<Placed<'a>> = Vec::new();
    let mut i: usize = m;
    while i < n
        invariant
            n == chat@.len(),
            m == first_shown(n as nat, boundary.h as nat),
            m <= i <= n,
            boundary.y + boundary.h <= usize::MAX,
            window@.len() == i - m,
            forall|dy: int|
                0 <= dy < window@.len() ==> (#[trigger] window@[dy])@ == placed(
                    chat@[m + dy]@,
                    boundary,
                    dy,
                ),
        decreases n - i,
    {
        let dy = i - m;
        let column = #[verifier::truncate] (boundary.x as u16);
        let row = #[verifier::truncate] ((boundary.y + dy) as u16);
        let line = chat[i].as_str();
        let one = match split(line) {
            Some((name, rest)) => Placed { column, row, name: Some(name), rest },
            None => Placed { column, row, name: None, rest: line },
        };
        window.push(one);
        i += 1;
    }
    window
}

} // verus!
