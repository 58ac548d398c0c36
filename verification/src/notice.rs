//! The lines that the authority sends to a client.

use vstd::prelude::*;
use vstd::string::*;
use crate::command::{help_command, help_text};

verus! {

/// A line for one client.
#[derive(Clone, Debug, PartialEq, Eq)]
pub enum Notice {
    /// The token was right: the session is authenticated.
    Welcome,
    /// The token was wrong.
    InvalidToken,
    /// The session reached the strike limit and its host is banned.
    Banned,
    /// `/auth` from a session that is authenticated already.
    AlreadyAuthorized,
    /// A command other than `/auth` from a session that is not
    /// authenticated.
    Unauthorized,
    /// The usage listing.
    Help,
    /// The nickname asked for is empty or the one the session has.
    NickRejected,
    /// The nickname changed.
    NickChanged { from: String, to: String },
}

/// A notice as a mathematical value.
pub enum NoticeView {
    Welcome,
    InvalidToken,
    Banned,
    AlreadyAuthorized,
    Unauthorized,
    Help,
    NickRejected,
    NickChanged { from: Seq<char>, to: Seq<char> },
}

impl View for Notice {
    type V = NoticeView;

    open spec fn view(&self) -> NoticeView {
        match self {
            Notice::Welcome => NoticeView::Welcome,
            Notice::InvalidToken => NoticeView::InvalidToken,
            Notice::Banned => NoticeView::Banned,
            Notice::AlreadyAuthorized => NoticeView::AlreadyAuthorized,
            Notice::Unauthorized => NoticeView::Unauthorized,
            Notice::Help => NoticeView::Help,
            Notice::NickRejected => NoticeView::NickRejected,
            Notice::NickChanged { from, to } => NoticeView::NickChanged { from: from@, to: to@ },
        }
    }
}

impl NoticeView {
    /// The characters that are written to the client.
    pub open spec fn text(self) -> Seq<char> {
        match self {
            NoticeView::Welcome => "Welcome!\n"@,
            NoticeView::InvalidToken => "Invalid token!\n"@,
            NoticeView::Banned => "You are banned!\n"@,
            NoticeView::AlreadyAuthorized => "Already authorized."@,
            NoticeView::Unauthorized => "Not authorized."@,
            NoticeView::Help => help_text(),
            NoticeView::NickRejected => "Nickname cannot by empty or same.\r\n"@,
            NoticeView::NickChanged { from, to } => "Nickname changed from "@ + from + " to "@ + to
                + "\r\n"@,
        }
    }
}

/// The line for a host that connects while its ban runs, around the
/// remaining seconds as the caller has rendered them.
pub open spec fn still_banned_text(seconds: Seq<char>) -> Seq<char> {
    "You are banned buddy, "@ + seconds + " secs left\n"@
}

impl Notice {
    /// The characters that are written to the client.
    pub fn text(&self) -> (line: String)
        ensures
            line@ == self@.text(),
    {
        match self {
            Notice::Welcome => String::from_str("Welcome!\n"),
            Notice::InvalidToken => String::from_str("Invalid token!\n"),
            Notice::Banned => String::from_str("You are banned!\n"),
            Notice::AlreadyAuthorized => String::from_str("Already authorized."),
            Notice::Unauthorized => String::from_str("Not authorized."),
            Notice::Help => help_command(),
            Notice::NickRejected => String::from_str("Nickname cannot by empty or same.\r\n"),
            Notice::NickChanged { from, to } => {
                let mut line = String::from_str("Nickname changed from ");
                line.append(from.as_str());
                line.append(" to ");
                line.append(to.as_str());
                line.append("\r\n");
                line
            },
        }
    }
}

/// The line for a host that connects while its ban runs. `seconds` is the
/// remaining time as the caller has rendered it.
pub fn still_banned(seconds: &str) -> (line: String)
    ensures
        line@ == still_banned_text(seconds@),
{
    let mut line = String::from_str("You are banned buddy, ");
    line.append(seconds);
    line.append(" secs left\n");
    line
}

} // verus!
