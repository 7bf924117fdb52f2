//! From an incoming message to what has to be done about it, and from the
//! store's answer to what is sent back.

use crate::grammar::{parse_add_quote, parse_spec, AddQuoteError};
use crate::help::{help_reply, help_text, help_topic, topic_of};
use crate::text::{argument, chars_of, first_space, starts_with, trim_bounds, trimmed};
use vstd::prelude::*;
use vstd::string::*;

verus! {

/// What a message asks for.
#[derive(Debug, Clone, PartialEq, Eq)]
pub enum Request {
    /// Nothing is done and nothing is sent.
    Ignore,
    /// Fetch the rows whose author holds `name` (all rows where there is no
    /// name), then reply with one of them.
    Fetch { name: Option<String> },
    /// Insert one row.
    Insert { text: String, author: String },
    /// Send `text` to the channel; the store is not touched.
    Say { text: String },
}

/// A request as plain values.
pub enum RequestView {
    Ignore,
    Fetch { name: Option<Seq<char>> },
    Insert { text: Seq<char>, author: Seq<char> },
    Say { text: Seq<char> },
}

impl View for Request {
    type V = RequestView;

    open spec fn view(&self) -> RequestView {
        match self {
            Request::Ignore => RequestView::Ignore,
            Request::Fetch { name } => RequestView::Fetch {
                name: match name {
                    Some(n) => Some(n@),
                    None => None,
                },
            },
            Request::Insert { text, author } => RequestView::Insert {
                text: text@,
                author: author@,
            },
            Request::Say { text } => RequestView::Say { text: text@ },
        }
    }
}

/// What is sent back for a message.
#[derive(Debug, Clone, PartialEq, Eq)]
pub enum Response {
    /// A text message to the channel.
    Say { text: String },
    /// A reaction on the message itself.
    React { emoji: String },
}

/// A response as plain values.
pub enum ResponseView {
    Say { text: Seq<char> },
    React { emoji: Seq<char> },
}

impl View for Response {
    type V = ResponseView;

    open spec fn view(&self) -> ResponseView {
        match self {
            Response::Say { text } => ResponseView::Say { text: text@ },
            Response::React { emoji } => ResponseView::React { emoji: emoji@ },
        }
    }
}

/// The reply to an insertion command that does not follow the grammar.
pub open spec fn usage_text() -> Seq<char> {
    "Invalid format. Use: `!addquote \"quote text here\" - Name`"@
}

/// The reply when the store refused an insertion.
pub open spec fn failed_text() -> Seq<char> {
    "Failed to add quote."@
}

/// The reaction that confirms an insertion: the thumbs-up sign.
pub open spec fn thumbs_up() -> Seq<char> {
    "\u{1F44D}"@
}

/// The name that a lookup command asks for: what follows the first space,
/// trimmed; none where the message holds no space.
pub open spec fn lookup_name(content: Seq<char>) -> Option<Seq<char>> {
    match argument(content) {
        Some(a) => Some(trimmed(a)),
        None => None,
    }
}

/// What a message asks for. Messages of the bot itself ask for nothing; the
/// three command words are tried in a fixed order, and any other message is
/// ignored.
pub open spec fn dispatch_spec(author_is_bot: bool, content: Seq<char>) -> RequestView {
    if author_is_bot {
        RequestView::Ignore
    } else if "!quote"@.is_prefix_of(content) {
        RequestView::Fetch { name: lookup_name(content) }
    } else if "!addquote"@.is_prefix_of(content) {
        match parse_spec(content) {
            Ok(f) => RequestView::Insert { text: f.0, author: f.1 },
            Err(AddQuoteError::Malformed) => RequestView::Say { text: usage_text() },
            Err(AddQuoteError::Engine) => RequestView::Ignore,
        }
    } else if "!help"@.is_prefix_of(content) {
        RequestView::Say { text: help_text(topic_of(argument(content))) }
    } else {
        RequestView::Ignore
    }
}

/// What the message `content` asks for, given whether the bot wrote it.
pub fn dispatch(author_is_bot: bool, content: &str) -> (r: Request)
    ensures
        r@ == dispatch_spec(author_is_bot, content@),
{
    if author_is_bot {
        return Request::Ignore;
    }
    let chars = chars_of(content);
    if starts_with(&chars, &chars_of("!quote")) {
        match first_space(&chars) {
            Some(i) => {
                let (a, b) = trim_bounds(&chars, i + 1);
                let name = String::from_str(content.substring_char(a, b));
                Request::Fetch { name: Some(name) }
            },
            None => Request::Fetch { name: None },
        }
    } else if starts_with(&chars, &chars_of("!addquote")) {
        match parse_add_quote(content) {
            Ok((text, author)) => Request::Insert { text, author },
            Err(AddQuoteError::Malformed) => Request::Say {
                text: String::from_str("Invalid format. Use: `!addquote \"quote text here\" - Name`"),
            },
            Err(AddQuoteError::Engine) => Request::Ignore,
        }
    } else if starts_with(&chars, &chars_of("!help")) {
        let topic = match first_space(&chars) {
            Some(i) => {
                let arg = chars_of(content.substring_char(i + 1, chars.len()));
                help_topic(Some(&arg))
            },
            None => help_topic(None),
        };
        Request::Say { text: help_reply(topic) }
    } else {
        Request::Ignore
    }
}

/// What the store's answer to an insertion is turned into: a thumbs-up
/// reaction where the row was stored, else the fixed failure text.
pub fn insert_response(stored: bool) -> (r: Response)
    ensures
        r@ == if stored {
            ResponseView::React { emoji: thumbs_up() }
        } else {
            ResponseView::Say { text: failed_text() }
        },
{
    if stored {
        Response::React { emoji: String::from_str("\u{1F44D}") }
    } else {
        Response::Say { text: String::from_str("Failed to add quote.") }
    }
}

/// A message that the bot wrote itself asks for nothing, whatever it holds.
pub proof fn lemma_own_messages_ignored(content: Seq<char>)
    ensures
        dispatch_spec(true, content) == RequestView::Ignore,
{
}

} // verus!
