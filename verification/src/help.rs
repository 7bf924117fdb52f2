//! The fixed help texts.

use crate::text::{chars_of, same_text};
use vstd::prelude::*;
use vstd::string::*;

verus! {

/// What a help request asks about.
#[derive(Debug, Clone, Copy, PartialEq, Eq, Structural)]
pub enum HelpTopic {
    /// No argument: the overview of both commands.
    Overview,
    /// The lookup command.
    Quote,
    /// The insertion command.
    AddQuote,
    /// Any other argument, the empty one included.
    Unknown,
}

/// The topic that the argument of a help request names.
pub open spec fn topic_of(arg: Option<Seq<char>>) -> HelpTopic {
    match arg {
        None => HelpTopic::Overview,
        Some(a) => if a == "!quote"@ {
            HelpTopic::Quote
        } else if a == "!addquote"@ {
            HelpTopic::AddQuote
        } else {
            HelpTopic::Unknown
        },
    }
}

/// The text sent for each topic.
pub open spec fn help_text(topic: HelpTopic) -> Seq<char> {
    match topic {
        HelpTopic::Overview =>
            "I can retrieve or add quotes. Here are my available commands:\n`!quote` - Retrieves a quote from the database.\n`!addquote` - Adds a new quote to the database.\nFor more details on a command, use `!help <command>` (e.g., `!help !quote`)."@,
        HelpTopic::Quote =>
            "**!quote**: Retrieves a quote from the database.\n`!quote` - Gets a random quote.\n`!quote <Name>` - Gets a quote by a specific person."@,
        HelpTopic::AddQuote =>
            "**!addquote**: Adds a new quote to the database.\n`!addquote \"quote text here\" - <Name>`"@,
        HelpTopic::Unknown =>
            "Command not recognized. Try `!help` or `!help !quote` or `!help !addquote`."@,
    }
}

/// The topic that the argument of a help request names.
pub fn help_topic(arg: Option<&Vec<char>>) -> (t: HelpTopic)
    ensures
        t == topic_of(
            match arg {
                Some(a) => Some(a@),
                None => None,
            },
        ),
{
    match arg {
        None => HelpTopic::Overview,
        Some(a) => {
            if same_text(a, &chars_of("!quote")) {
                HelpTopic::Quote
            } else if same_text(a, &chars_of("!addquote")) {
                HelpTopic::AddQuote
            } else {
                HelpTopic::Unknown
            }
        },
    }
}

/// The text sent for `topic`.
pub fn help_reply(topic: HelpTopic) -> (r: String)
    ensures
        r@ == help_text(topic),
{
    match topic {
        HelpTopic::Overview => String::from_str(
            "I can retrieve or add quotes. Here are my available commands:\n`!quote` - Retrieves a quote from the database.\n`!addquote` - Adds a new quote to the database.\nFor more details on a command, use `!help <command>` (e.g., `!help !quote`).",
        ),
        HelpTopic::Quote => String::from_str(
            "**!quote**: Retrieves a quote from the database.\n`!quote` - Gets a random quote.\n`!quote <Name>` - Gets a quote by a specific person.",
        ),
        HelpTopic::AddQuote => String::from_str(
            "**!addquote**: Adds a new quote to the database.\n`!addquote \"quote text here\" - <Name>`",
        ),
        HelpTopic::Unknown => String::from_str(
            "Command not recognized. Try `!help` or `!help !quote` or `!help !addquote`.",
        ),
    }
}

/// Different topics have different texts: there are exactly four help texts.
pub proof fn lemma_help_texts_distinct(a: HelpTopic, b: HelpTopic)
    requires
        a != b,
    ensures
        help_text(a) != help_text(b),
{
    reveal_strlit(
        "I can retrieve or add quotes. Here are my available commands:\n`!quote` - Retrieves a quote from the database.\n`!addquote` - Adds a new quote to the database.\nFor more details on a command, use `!help <command>` (e.g., `!help !quote`).",
    );
    reveal_strlit(
        "**!quote**: Retrieves a quote from the database.\n`!quote` - Gets a random quote.\n`!quote <Name>` - Gets a quote by a specific person.",
    );
    reveal_strlit(
        "**!addquote**: Adds a new quote to the database.\n`!addquote \"quote text here\" - <Name>`",
    );
    reveal_strlit("Command not recognized. Try `!help` or `!help !quote` or `!help !addquote`.");
    assert(help_text(HelpTopic::Overview).len() != help_text(HelpTopic::Quote).len());
    assert(help_text(HelpTopic::Overview).len() != help_text(HelpTopic::AddQuote).len());
    assert(help_text(HelpTopic::Overview).len() != help_text(HelpTopic::Unknown).len());
    assert(help_text(HelpTopic::Quote).len() != help_text(HelpTopic::AddQuote).len());
    assert(help_text(HelpTopic::Quote).len() != help_text(HelpTopic::Unknown).len());
    assert(help_text(HelpTopic::AddQuote).len() != help_text(HelpTopic::Unknown).len());
}

} // verus!
