//! What the bot sees of a command message: who sent it, what it answers,
//! its text, and the command.

use vstd::prelude::*;
use crate::text::{after_first_word, decimal, decimal_u64, escape, escape_html, words_after_first};

verus! {

/// The bot's commands.
#[derive(Clone, Copy, PartialEq, Eq, Structural, Debug)]
pub enum Command {
    Help,
    GiveAdmin,
    RemoveAdmin,
    Ban,
    /// Lift the ban of the user with this id.
    Unban(i64),
}

/// A Telegram user as the bot sees one.
#[derive(Debug)]
pub struct UserInfo {
    pub id: u64,
    pub is_bot: bool,
    pub first_name: String,
    pub last_name: Option<String>,
}

pub struct UserView {
    pub id: u64,
    pub is_bot: bool,
    pub first_name: Seq<char>,
    pub last_name: Option<Seq<char>>,
}

/// The message that a command answers.
#[derive(Debug)]
pub struct ReplyInfo {
    pub message_id: i32,
    pub from: Option<UserInfo>,
}

pub struct ReplyView {
    pub message_id: i32,
    pub from: Option<UserView>,
}

/// A command message.
#[derive(Debug)]
pub struct Request {
    pub chat_id: i64,
    pub from: Option<UserInfo>,
    pub reply_to: Option<ReplyInfo>,
    pub text: Option<String>,
    pub command: Command,
}

pub struct RequestView {
    pub chat_id: i64,
    pub from: Option<UserView>,
    pub reply_to: Option<ReplyView>,
    pub text: Option<Seq<char>>,
    pub command: Command,
}

pub open spec fn opt_text(o: Option<String>) -> Option<Seq<char>> {
    match o {
        Some(s) => Some(s@),
        None => None,
    }
}

pub open spec fn opt_user(o: Option<UserInfo>) -> Option<UserView> {
    match o {
        Some(u) => Some(u@),
        None => None,
    }
}

impl View for UserInfo {
    type V = UserView;

    open spec fn view(&self) -> UserView {
        UserView {
            id: self.id,
            is_bot: self.is_bot,
            first_name: self.first_name@,
            last_name: opt_text(self.last_name),
        }
    }
}

impl View for ReplyInfo {
    type V = ReplyView;

    open spec fn view(&self) -> ReplyView {
        ReplyView { message_id: self.message_id, from: opt_user(self.from) }
    }
}

impl View for Request {
    type V = RequestView;

    open spec fn view(&self) -> RequestView {
        RequestView {
            chat_id: self.chat_id,
            from: opt_user(self.from),
            reply_to: match self.reply_to {
                Some(r) => Some(r@),
                None => None,
            },
            text: opt_text(self.text),
            command: self.command,
        }
    }
}

/// The author of the message that a command answers, if it has one.
pub open spec fn target_of(r: RequestView) -> Option<UserView> {
    match r.reply_to {
        Some(reply) => reply.from,
        None => None,
    }
}

/// A user's full name: the first name, then a space and the last name where
/// there is one.
pub open spec fn full_name_of(u: UserView) -> Seq<char> {
    match u.last_name {
        Some(last) => u.first_name + " "@ + last,
        None => u.first_name,
    }
}

/// A link to the user in Telegram's HTML message style, labelled with the
/// escaped full name.
pub open spec fn mention_of(u: UserView) -> Seq<char> {
    "<a href=\"tg://user?id="@ + decimal(u.id as nat) + "\">"@ + escape_html(full_name_of(u))
        + "</a>"@
}

/// The reason a ban command gives: the command's text after its first word.
pub open spec fn reason_in(text: Option<Seq<char>>) -> Option<Seq<char>> {
    match text {
        Some(t) => words_after_first(t),
        None => None,
    }
}

impl UserInfo {
    /// The user's full name.
    pub fn full_name(&self) -> (r: String)
        ensures
            r@ == full_name_of(self@),
    {
        let mut name = self.first_name.clone();
        match &self.last_name {
            Some(last) => {
                name.append(" ");
                name.append(last.as_str());
            },
            None => {},
        }
        name
    }

    /// A link to the user, labelled with the escaped full name.
    pub fn mention(&self) -> (r: String)
        ensures
            r@ == mention_of(self@),
    {
        let mut r = "<a href=\"tg://user?id=".to_owned();
        r.append(decimal_u64(self.id).as_str());
        r.append("\">");
        r.append(escape(self.full_name().as_str()).as_str());
        r.append("</a>");
        r
    }
}

impl Request {
    /// The reason given with a ban command: its text after the first word,
    /// trimmed, unless that is empty.
    pub fn reason(&self) -> (r: Option<String>)
        ensures
            opt_text(r) == reason_in(self@.text),
    {
        match &self.text {
            Some(t) => after_first_word(t.as_str()),
            None => None,
        }
    }
}

} // verus!
