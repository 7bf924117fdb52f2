use quotebot::grammar::{fields_from_groups, parse_add_quote, parse_with, AddQuoteError};
use quotebot::handler::{dispatch, insert_response, Request, Response};
use quotebot::help::{help_reply, help_topic, HelpTopic};

const OVERVIEW: &str = "I can retrieve or add quotes. Here are my available commands:\n`!quote` - Retrieves a quote from the database.\n`!addquote` - Adds a new quote to the database.\nFor more details on a command, use `!help <command>` (e.g., `!help !quote`).";
const HELP_QUOTE: &str = "**!quote**: Retrieves a quote from the database.\n`!quote` - Gets a random quote.\n`!quote <Name>` - Gets a quote by a specific person.";
const HELP_ADD: &str = "**!addquote**: Adds a new quote to the database.\n`!addquote \"quote text here\" - <Name>`";
const UNKNOWN: &str = "Command not recognized. Try `!help` or `!help !quote` or `!help !addquote`.";
const USAGE: &str = "Invalid format. Use: `!addquote \"quote text here\" - Name`";

fn say(text: &str) -> Request {
    Request::Say { text: text.to_string() }
}

fn insert(text: &str, author: &str) -> Request {
    Request::Insert { text: text.to_string(), author: author.to_string() }
}

fn fetch(name: Option<&str>) -> Request {
    Request::Fetch { name: name.map(|n| n.to_string()) }
}

#[test]
fn help_has_four_fixed_texts() {
    assert_eq!(dispatch(false, "!help"), say(OVERVIEW));
    assert_eq!(dispatch(false, "!help !quote"), say(HELP_QUOTE));
    assert_eq!(dispatch(false, "!help !addquote"), say(HELP_ADD));
    assert_eq!(dispatch(false, "!help !bogus"), say(UNKNOWN));
}

#[test]
fn help_texts_differ_from_each_other() {
    let all = [
        help_reply(HelpTopic::Overview),
        help_reply(HelpTopic::Quote),
        help_reply(HelpTopic::AddQuote),
        help_reply(HelpTopic::Unknown),
    ];
    for i in 0..all.len() {
        for j in 0..all.len() {
            if i != j {
                assert_ne!(all[i], all[j]);
            }
        }
    }
}

#[test]
fn help_argument_is_compared_exactly() {
    assert_eq!(dispatch(false, "!help "), say(UNKNOWN));
    assert_eq!(dispatch(false, "!help  !quote"), say(UNKNOWN));
    assert_eq!(dispatch(false, "!help !quote "), say(UNKNOWN));
    assert_eq!(dispatch(false, "!help !Quote"), say(UNKNOWN));
    assert_eq!(dispatch(false, "!helpme"), say(OVERVIEW));
    assert_eq!(dispatch(false, "!helpme !quote"), say(HELP_QUOTE));
}

#[test]
fn help_topic_of_each_argument() {
    let quote: Vec<char> = "!quote".chars().collect();
    let add: Vec<char> = "!addquote".chars().collect();
    let empty: Vec<char> = Vec::new();
    assert_eq!(help_topic(None), HelpTopic::Overview);
    assert_eq!(help_topic(Some(&quote)), HelpTopic::Quote);
    assert_eq!(help_topic(Some(&add)), HelpTopic::AddQuote);
    assert_eq!(help_topic(Some(&empty)), HelpTopic::Unknown);
}

#[test]
fn lookup_takes_the_trimmed_rest_as_name() {
    assert_eq!(dispatch(false, "!quote"), fetch(None));
    assert_eq!(dispatch(false, "!quote Bob"), fetch(Some("Bob")));
    assert_eq!(dispatch(false, "!quote   Bob Ross  "), fetch(Some("Bob Ross")));
    assert_eq!(dispatch(false, "!quote "), fetch(Some("")));
    assert_eq!(dispatch(false, "!quote \t\n"), fetch(Some("")));
    assert_eq!(dispatch(false, "!quotes Bob"), fetch(Some("Bob")));
    assert_eq!(dispatch(false, "!quoteBob"), fetch(None));
    assert_eq!(dispatch(false, "!quote \u{a0}Zo\u{eb}\u{2003}"), fetch(Some("Zo\u{eb}")));
}

#[test]
fn well_formed_insertion_is_parsed() {
    assert_eq!(dispatch(false, "!addquote \"Hello world\" - Alice"), insert("Hello world", "Alice"));
    assert_eq!(dispatch(false, "!addquote \"Hi\"-Bob"), insert("Hi", "Bob"));
    assert_eq!(dispatch(false, "!addquote   \"Hi\"   -   Bob Ross "), insert("Hi", "Bob Ross "));
    assert_eq!(dispatch(false, "!addquote \"Hi\" -"), insert("Hi", ""));
    assert_eq!(dispatch(false, "!addquote \"a - b\" - C - D"), insert("a - b", "C - D"));
    assert_eq!(dispatch(false, "!addquote \"two\nlines\" - Eve\nrest"), insert("two\nlines", "Eve"));
}

#[test]
fn insertion_pattern_is_searched_in_the_whole_message() {
    assert_eq!(dispatch(false, "!addquote oops !addquote \"x\" - y"), insert("x", "y"));
    assert_eq!(dispatch(false, "!addquotes \"x\" - y"), say(USAGE));
}

#[test]
fn malformed_insertion_gets_the_usage_text() {
    assert_eq!(dispatch(false, "!addquote hello - Alice"), say(USAGE));
    assert_eq!(dispatch(false, "!addquote"), say(USAGE));
    assert_eq!(dispatch(false, "!addquote \"\" - Alice"), say(USAGE));
    assert_eq!(dispatch(false, "!addquote \"Hi\" Alice"), say(USAGE));
    assert_eq!(dispatch(false, "!addquote\"Hi\" - Alice"), say(USAGE));
}

#[test]
fn parse_add_quote_gives_fields_or_malformed() {
    assert_eq!(
        parse_add_quote("!addquote \"Hello world\" - Alice"),
        Ok(("Hello world".to_string(), "Alice".to_string()))
    );
    assert_eq!(parse_add_quote("!addquote hello - Alice"), Err(AddQuoteError::Malformed));
    assert_eq!(parse_add_quote(""), Err(AddQuoteError::Malformed));
}

#[test]
fn fields_need_both_groups() {
    let s = |x: &str| Some(x.to_string());
    assert_eq!(
        fields_from_groups(&Some(vec![s("whole"), s("t"), s("a")])),
        Ok(("t".to_string(), "a".to_string()))
    );
    assert_eq!(
        fields_from_groups(&Some(vec![s("whole"), s("t"), s("a"), s("more")])),
        Ok(("t".to_string(), "a".to_string()))
    );
    assert_eq!(fields_from_groups(&Some(vec![s("whole"), s("t")])), Err(AddQuoteError::Malformed));
    assert_eq!(
        fields_from_groups(&Some(vec![s("whole"), None, s("a")])),
        Err(AddQuoteError::Malformed)
    );
    assert_eq!(
        fields_from_groups(&Some(vec![s("whole"), s("t"), None])),
        Err(AddQuoteError::Malformed)
    );
    assert_eq!(fields_from_groups(&Some(vec![])), Err(AddQuoteError::Malformed));
    assert_eq!(fields_from_groups(&None), Err(AddQuoteError::Malformed));
}

#[test]
fn other_messages_are_ignored() {
    assert_eq!(dispatch(false, ""), Request::Ignore);
    assert_eq!(dispatch(false, "hello"), Request::Ignore);
    assert_eq!(dispatch(false, "!quots"), Request::Ignore);
    assert_eq!(dispatch(false, " !quote"), Request::Ignore);
    assert_eq!(dispatch(false, "!Quote"), Request::Ignore);
    assert_eq!(dispatch(false, "say !help"), Request::Ignore);
}

#[test]
fn own_messages_are_ignored() {
    for content in ["!quote", "!quote Bob", "!addquote \"Hello world\" - Alice", "!help", "hi", ""] {
        assert_eq!(dispatch(true, content), Request::Ignore);
    }
}

#[test]
fn insert_response_is_reaction_or_failure_text() {
    assert_eq!(insert_response(true), Response::React { emoji: "\u{1F44D}".to_string() });
    assert_eq!(insert_response(false), Response::Say { text: "Failed to add quote.".to_string() });
}

#[test]
fn parse_with_reports_a_pattern_that_does_not_compile() {
    assert_eq!(parse_with("(", "anything"), Err(AddQuoteError::Engine));
    assert_eq!(parse_with("a(b", "ab"), Err(AddQuoteError::Engine));
}

#[test]
fn parse_with_takes_first_and_second_group() {
    assert_eq!(
        parse_with("(\\d+)-(\\w+)", "order 42-blue, 7-red"),
        Ok(("42".to_string(), "blue".to_string()))
    );
    assert_eq!(parse_with("(a)|(b)", "b"), Err(AddQuoteError::Malformed));
    assert_eq!(parse_with("(a)", "a"), Err(AddQuoteError::Malformed));
    assert_eq!(parse_with("(x)(y)", "ab"), Err(AddQuoteError::Malformed));
}
