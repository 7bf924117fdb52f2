//! Stored quotes and the reply to a lookup.

use crate::text::{chars_of, contains, contains_text};
use vstd::prelude::*;
use vstd::string::*;

verus! {

/// One stored row: a text attributed to an author.
#[derive(Debug, Clone, PartialEq, Eq)]
pub struct Quote {
    pub id: u64,
    pub text: String,
    pub author: String,
}

/// A row as plain values.
pub struct QuoteView {
    pub id: u64,
    pub text: Seq<char>,
    pub author: Seq<char>,
}

impl View for Quote {
    type V = QuoteView;

    open spec fn view(&self) -> QuoteView {
        QuoteView { id: self.id, text: self.text@, author: self.author@ }
    }
}

/// The rows of a fetched set as plain values.
pub open spec fn views(rows: Seq<Quote>) -> Seq<QuoteView> {
    rows.map_values(|q: Quote| q@)
}

/// The characters of an optional name.
pub open spec fn opt_text(name: Option<&str>) -> Option<Seq<char>> {
    match name {
        Some(n) => Some(n@),
        None => None,
    }
}

/// How a quote is shown: the text in double quotes, a dash, the author.
pub open spec fn rendered(q: QuoteView) -> Seq<char> {
    "\""@ + q.text + "\" - "@ + q.author
}

/// The reply to a lookup by author that found nothing.
pub open spec fn none_for(name: Seq<char>) -> Seq<char> {
    "No quotes found for \""@ + name + "\"."@
}

/// The reply to a lookup without a name on an empty table.
pub open spec fn none_stored() -> Seq<char> {
    "No quotes found in the database."@
}

/// Whether a row answers a lookup: any row where no name is given, else the
/// rows whose author holds the name as a contiguous part, case-sensitively.
pub open spec fn row_matches(q: QuoteView, name: Option<Seq<char>>) -> bool {
    match name {
        Some(n) => contains_text(q.author, n),
        None => true,
    }
}

/// The reply once a row has been drawn (`choice`) or none could be.
pub open spec fn reply_text(name: Option<Seq<char>>, rows: Seq<QuoteView>, choice: Option<int>) -> Seq<
    char,
> {
    match choice {
        Some(i) => rendered(rows[i]),
        None => match name {
            Some(n) => none_for(n),
            None => none_stored(),
        },
    }
}

/// Whether `text` is a fitting reply to a lookup for `name` over `rows`: one
/// of the rows that answer the lookup, rendered, or, where no row answers it,
/// the fixed text that says so.
pub open spec fn answers_lookup(rows: Seq<QuoteView>, name: Option<Seq<char>>, text: Seq<char>) -> bool {
    if exists|i: int| 0 <= i < rows.len() && row_matches(#[trigger] rows[i], name) {
        exists|i: int|
            0 <= i < rows.len() && row_matches(#[trigger] rows[i], name) && text == rendered(
                rows[i],
            )
    } else {
        text == reply_text(name, rows, None)
    }
}

impl Quote {
    /// The quote as it is shown in a reply.
    pub fn render(&self) -> (r: String)
        ensures
            r@ == rendered(self@),
    {
        let mut r = String::from_str("\"");
        r.append(self.text.as_str());
        r.append("\" - ");
        r.append(self.author.as_str());
        r
    }

    /// Whether this row answers a lookup for `name`.
    pub fn answers(&self, name: Option<&str>) -> (b: bool)
        ensures
            b == row_matches(self@, opt_text(name)),
    {
        match name {
            Some(n) => {
                let hay = chars_of(self.author.as_str());
                let needle = chars_of(n);
                contains(&hay, &needle)
            },
            None => true,
        }
    }
}

/// The pattern handed to the store for a lookup by author: `name` between
/// two percent signs, which stand for any run of characters.
pub fn author_pattern(name: &str) -> (r: String)
    ensures
        r@ == "%"@ + name@ + "%"@,
{
    let mut r = String::from_str("%");
    r.append(name);
    r.append("%");
    r
}

/// The positions of the rows that answer a lookup for `name`, each once, in
/// ascending order.
pub fn matching_rows(rows: &Vec<Quote>, name: Option<&str>) -> (found: Vec<usize>)
    ensures
        forall|k: int|
            0 <= k < found@.len() ==> #[trigger] found@[k] < rows@.len() && row_matches(
                rows@[found@[k] as int]@,
                opt_text(name),
            ),
        forall|k: int, l: int| 0 <= k < l < found@.len() ==> found@[k] < found@[l],
        forall|i: int|
            0 <= i < rows@.len() && row_matches(#[trigger] rows@[i]@, opt_text(name))
                ==> found@.contains(i as usize),
{
    let mut found: Vec<usize> = Vec::new();
    let mut i: usize = 0;
    while i < rows.len()
        invariant
            i <= rows.len(),
            forall|k: int|
                0 <= k < found@.len() ==> #[trigger] found@[k] < i && row_matches(
                    rows@[found@[k] as int]@,
                    opt_text(name),
                ),
            forall|k: int, l: int| 0 <= k < l < found@.len() ==> found@[k] < found@[l],
            forall|j: int|
                0 <= j < i && row_matches(#[trigger] rows@[j]@, opt_text(name))
                    ==> found@.contains(j as usize),
        decreases rows.len() - i,
    {
        if rows[i].answers(name) {
            let ghost before = found@;
            found.push(i);
            proof {
                assert forall|j: int|
                    0 <= j < i + 1 && row_matches(#[trigger] rows@[j]@, opt_text(name))
                    implies found@.contains(j as usize) by {
                    if j < i {
                        let k = choose|k: int| 0 <= k < before.len() && before[k] == j as usize;
                        assert(found@[k] == j as usize);
                    } else {
                        assert(found@[found@.len() - 1] == j as usize);
                    }
                }
            }
        }
        i = i + 1;
    }
    found
}

/// Draws one item of `items` with `SliceRandom::choose` of rand on the
/// thread's generator. Claimed: nothing comes back exactly when `items` is
/// empty, and what comes back is one of the items. Which one is chance. The
/// generator gives up only where the system cannot seed it.
#[verifier::external_body]
fn choose_one(items: &Vec<usize>) -> (r: Option<usize>)
    ensures
        items@.len() == 0 <==> r is None,
        r matches Some(x) ==> items@.contains(x),
{
    rand::seq::SliceRandom::choose(items.as_slice(), &mut rand::thread_rng()).copied()
}

/// The reply to a lookup for `name` over the fetched `rows`, given the
/// position of the row that was drawn, or `None` where no row answers.
pub fn reply_for(name: Option<&str>, rows: &Vec<Quote>, choice: Option<usize>) -> (r: String)
    requires
        choice matches Some(i) ==> i < rows@.len(),
    ensures
        r@ == reply_text(
            opt_text(name),
            views(rows@),
            match choice {
                Some(i) => Some(i as int),
                None => None,
            },
        ),
{
    match choice {
        Some(i) => rows[i].render(),
        None => match name {
            Some(n) => {
                let mut r = String::from_str("No quotes found for \"");
                r.append(n);
                r.append("\".");
                r
            },
            None => String::from_str("No quotes found in the database."),
        },
    }
}

/// The reply to a lookup for `name` over the fetched `rows`: one of the rows
/// that answer it, drawn at random and rendered, or the fixed text that says
/// that there is none. Rows that do not answer the lookup are never shown,
/// whatever the store handed over.
pub fn quote_reply(name: Option<&str>, rows: &Vec<Quote>) -> (r: String)
    ensures
        answers_lookup(views(rows@), opt_text(name), r@),
{
    let found = matching_rows(rows, name);
    let choice = choose_one(&found);
    let ghost shown = views(rows@);
    proof {
        match choice {
            Some(x) => {
                let k = choose|k: int| 0 <= k < found@.len() && found@[k] == x;
                assert(row_matches(rows@[found@[k] as int]@, opt_text(name)));
                assert(row_matches(shown[x as int], opt_text(name)));
            },
            None => {
                assert forall|i: int| 0 <= i < shown.len() implies !row_matches(
                    #[trigger] shown[i],
                    opt_text(name),
                ) by {
                    if row_matches(rows@[i]@, opt_text(name)) {
                        assert(found@.contains(i as usize));
                    }
                }
            },
        }
    }
    reply_for(name, rows, choice)
}

} // verus!
