//! An in-memory quote table and the whole handling of a message against it.

use crate::handler::{
    dispatch, dispatch_spec, failed_text, insert_response, thumbs_up, Request, RequestView,
    Response, ResponseView,
};
use crate::quote::{
    answers_lookup, none_for, quote_reply, rendered, row_matches, views, Quote, QuoteView,
};
use crate::text::contains_text;
use vstd::prelude::*;
use vstd::string::*;

verus! {

/// The quote table: its rows in insertion order and the id that the next row
/// will get.
#[derive(Debug, Clone, PartialEq, Eq)]
pub struct QuoteTable {
    pub rows: Vec<Quote>,
    pub next_id: u64,
}

/// A table as plain values.
pub struct TableView {
    pub rows: Seq<QuoteView>,
    pub next_id: u64,
}

impl View for QuoteTable {
    type V = TableView;

    open spec fn view(&self) -> TableView {
        TableView { rows: views(self.rows@), next_id: self.next_id }
    }
}

/// Ids start at one, grow with the order of insertion, and lie below the id
/// that comes next.
pub open spec fn well_formed(t: TableView) -> bool {
    &&& t.next_id >= 1
    &&& forall|i: int| 0 <= i < t.rows.len() ==> 1 <= (#[trigger] t.rows[i]).id < t.next_id
    &&& forall|i: int, j: int| 0 <= i < j < t.rows.len() ==> t.rows[i].id < t.rows[j].id
}

/// Whether the table still has an id to give.
pub open spec fn can_insert(t: TableView) -> bool {
    t.next_id < u64::MAX
}

/// The table after one insertion: one more row at the end, with the next id,
/// where an id is left; else the table as it was.
pub open spec fn inserted(t: TableView, text: Seq<char>, author: Seq<char>) -> TableView {
    if can_insert(t) {
        TableView {
            rows: t.rows.push(QuoteView { id: t.next_id, text, author }),
            next_id: (t.next_id + 1) as u64,
        }
    } else {
        t
    }
}

/// The optional response as plain values.
pub open spec fn response_view(r: Option<Response>) -> Option<ResponseView> {
    match r {
        Some(x) => Some(x@),
        None => None,
    }
}

/// Whether handling `request` may take the table from `before` to `after`
/// with `response` sent back.
pub open spec fn handled(
    before: TableView,
    request: RequestView,
    after: TableView,
    response: Option<ResponseView>,
) -> bool {
    match request {
        RequestView::Ignore => after == before && response is None,
        RequestView::Say { text } => after == before && response == Some(
            ResponseView::Say { text },
        ),
        RequestView::Fetch { name } => {
            &&& after == before
            &&& response matches Some(ResponseView::Say { text })
            &&& answers_lookup(before.rows, name, text)
        },
        RequestView::Insert { text, author } => {
            &&& after == inserted(before, text, author)
            &&& response == Some(
                if can_insert(before) {
                    ResponseView::React { emoji: thumbs_up() }
                } else {
                    ResponseView::Say { text: failed_text() }
                },
            )
        },
    }
}

impl QuoteTable {
    /// The empty table.
    pub fn new() -> (t: QuoteTable)
        ensures
            well_formed(t@),
            t@.rows.len() == 0,
            t@.next_id == 1,
    {
        QuoteTable { rows: Vec::new(), next_id: 1 }
    }

    /// Appends a row with the next id and returns that id; where no id is
    /// left, nothing changes and nothing is returned.
    pub fn insert(&mut self, text: String, author: String) -> (r: Option<u64>)
        requires
            well_formed(old(self)@),
        ensures
            well_formed(final(self)@),
            final(self)@ == inserted(old(self)@, text@, author@),
            r == if can_insert(old(self)@) {
                Some(old(self)@.next_id)
            } else {
                None
            },
    {
        if self.next_id == u64::MAX {
            return None;
        }
        let id: u64 = self.next_id;
        self.rows.push(Quote { id, text, author });
        self.next_id = id + 1;
        proof {
            assert(self@.rows =~= old(self)@.rows.push(
                QuoteView { id, text: text@, author: author@ },
            ));
        }
        Some(id)
    }

    /// Handles one message against this table: decides what it asks for,
    /// looks up or inserts, and returns what is sent back, if anything.
    pub fn handle(&mut self, author_is_bot: bool, content: &str) -> (r: Option<Response>)
        requires
            well_formed(old(self)@),
        ensures
            well_formed(final(self)@),
            handled(
                old(self)@,
                dispatch_spec(author_is_bot, content@),
                final(self)@,
                response_view(r),
            ),
    {
        match dispatch(author_is_bot, content) {
            Request::Ignore => None,
            Request::Say { text } => Some(Response::Say { text }),
            Request::Fetch { name } => {
                let text = match &name {
                    Some(n) => quote_reply(Some(n.as_str()), &self.rows),
                    None => quote_reply(None, &self.rows),
                };
                Some(Response::Say { text })
            },
            Request::Insert { text, author } => {
                let stored = self.insert(text, author).is_some();
                Some(insert_response(stored))
            },
        }
    }
}

/// Handling a message that the bot wrote itself changes nothing and sends
/// nothing, whatever the message holds.
pub proof fn lemma_own_message_changes_nothing(
    before: TableView,
    content: Seq<char>,
    after: TableView,
    response: Option<ResponseView>,
)
    requires
        handled(before, dispatch_spec(true, content), after, response),
    ensures
        after == before,
        response is None,
{
}

/// No two rows of a well-formed table have the same id.
pub proof fn lemma_ids_unique(t: TableView, i: int, j: int)
    requires
        well_formed(t),
        0 <= i < t.rows.len(),
        0 <= j < t.rows.len(),
        i != j,
    ensures
        t.rows[i].id != t.rows[j].id,
{
    if i < j {
        assert(t.rows[i].id < t.rows[j].id);
    } else {
        assert(t.rows[j].id < t.rows[i].id);
    }
}

/// Inserting the same text and author twice adds two rows with the same
/// content and different ids, and leaves the earlier rows as they were:
/// nothing is deduplicated.
pub proof fn lemma_insert_twice(t: TableView, text: Seq<char>, author: Seq<char>)
    requires
        well_formed(t),
        t.next_id + 1 < u64::MAX,
    ensures
        ({
            let n = t.rows.len() as int;
            let u = inserted(inserted(t, text, author), text, author);
            &&& well_formed(u)
            &&& u.rows.len() == n + 2
            &&& u.rows.subrange(0, n) == t.rows
            &&& u.rows[n].text == text && u.rows[n].author == author
            &&& u.rows[n + 1].text == text && u.rows[n + 1].author == author
            &&& u.rows[n].id != u.rows[n + 1].id
        }),
{
    let n = t.rows.len() as int;
    let u = inserted(inserted(t, text, author), text, author);
    assert(u.rows.subrange(0, n) =~= t.rows);
}

/// A lookup without a name on a table that holds a row is answered with one
/// of the stored rows, rendered.
pub proof fn lemma_lookup_shows_a_stored_row(rows: Seq<QuoteView>, text: Seq<char>)
    requires
        rows.len() > 0,
        answers_lookup(rows, None, text),
    ensures
        exists|i: int| 0 <= i < rows.len() && text == rendered(#[trigger] rows[i]),
{
    assert(row_matches(rows[0], None));
    let i = choose|i: int|
        0 <= i < rows.len() && row_matches(#[trigger] rows[i], None) && text == rendered(rows[i]);
    assert(text == rendered(rows[i]));
}

/// A lookup by name is answered either with a row whose author holds the
/// name, rendered, or, exactly where no author holds it, with the fixed text
/// that names the name.
pub proof fn lemma_lookup_by_name(rows: Seq<QuoteView>, name: Seq<char>, text: Seq<char>)
    requires
        answers_lookup(rows, Some(name), text),
    ensures
        (forall|i: int| 0 <= i < rows.len() ==> !contains_text((#[trigger] rows[i]).author, name))
            ==> text == none_for(name),
        text == none_for(name) || exists|i: int|
            0 <= i < rows.len() && contains_text((#[trigger] rows[i]).author, name) && text
                == rendered(rows[i]),
{
    if exists|i: int| 0 <= i < rows.len() && row_matches(#[trigger] rows[i], Some(name)) {
        let i = choose|i: int|
            0 <= i < rows.len() && row_matches(#[trigger] rows[i], Some(name)) && text
                == rendered(rows[i]);
        assert(contains_text(rows[i].author, name));
    } else {
        assert forall|i: int| 0 <= i < rows.len() implies !contains_text(
            (#[trigger] rows[i]).author,
            name,
        ) by {
            assert(!row_matches(rows[i], Some(name)));
        }
    }
}

} // verus!
