//! Buttons under messages, and the answers to inline queries.
use vstd::prelude::*;

use crate::actions::search::SEARCH_CAP;
use crate::db::Contact;
use crate::decimal::{i64_text, int_text};
use crate::rows::views;
use crate::tables::ContactView;
use crate::text::{cat, head, nonblank, str_eq, take_chars, trim};

verus! {

/// A button: what it says and what it sends.
#[derive(Debug)]
pub struct Button {
    pub text: String,
    pub data: String,
}

impl View for Button {
    type V = (Seq<char>, Seq<char>);

    open spec fn view(&self) -> (Seq<char>, Seq<char>) {
        (self.text@, self.data@)
    }
}

/// Rows of buttons.
#[derive(Debug)]
pub struct Keyboard {
    pub inline_keyboard: Vec<Vec<Button>>,
}

pub open spec fn row_view() -> spec_fn(Vec<Button>) -> Seq<(Seq<char>, Seq<char>)> {
    |row: Vec<Button>| views(row@)
}

impl View for Keyboard {
    type V = Seq<Seq<(Seq<char>, Seq<char>)>>;

    open spec fn view(&self) -> Seq<Seq<(Seq<char>, Seq<char>)>> {
        self.inline_keyboard@.map_values(row_view())
    }
}

fn button(text: &str, data: &str) -> (r: Button)
    ensures
        r@ == (text@, data@),
{
    Button { text: text.to_owned(), data: data.to_owned() }
}

fn row1(a: Button) -> (r: Vec<Button>)
    ensures
        views(r@) == seq![a@],
{
    let ghost x = a@;
    let mut row: Vec<Button> = Vec::new();
    row.push(a);
    assert(views(row@) =~= seq![x]);
    row
}

fn row2(a: Button, b: Button) -> (r: Vec<Button>)
    ensures
        views(r@) == seq![a@, b@],
{
    let ghost x = a@;
    let ghost y = b@;
    let mut row: Vec<Button> = Vec::new();
    row.push(a);
    row.push(b);
    assert(views(row@) =~= seq![x, y]);
    row
}

pub fn status_keyboard() -> (r: Keyboard)
    ensures
        r@ == seq![seq![("🔄 Refresh"@, "st:r"@)]],
{
    let mut rows: Vec<Vec<Button>> = Vec::new();
    rows.push(row1(button("🔄 Refresh", "st:r")));
    let k = Keyboard { inline_keyboard: rows };
    assert(k@ =~= seq![seq![("🔄 Refresh"@, "st:r"@)]]);
    k
}

pub open spec fn forward_buttons() -> Seq<Seq<(Seq<char>, Seq<char>)>> {
    seq![
        seq![("Pick contact"@, "cf:search"@), ("Type number"@, "cf:type"@)],
        seq![("Disable"@, "cf:off"@), ("Cancel"@, "cf:cancel"@)],
    ]
}

pub fn forward_keyboard() -> (r: Keyboard)
    ensures
        r@ == forward_buttons(),
{
    let mut rows: Vec<Vec<Button>> = Vec::new();
    rows.push(row2(button("Pick contact", "cf:search"), button("Type number", "cf:type")));
    rows.push(row2(button("Disable", "cf:off"), button("Cancel", "cf:cancel")));
    let k = Keyboard { inline_keyboard: rows };
    assert(k@ =~= forward_buttons());
    k
}

/// A number on a row of its own.
pub open spec fn number_row(prefix: Seq<char>) -> spec_fn(Seq<char>) -> Seq<(Seq<char>, Seq<char>)> {
    |n: Seq<char>| seq![(n, prefix + n)]
}

fn numbers_under(prefix: &str, numbers: &[String]) -> (r: Keyboard)
    ensures
        r@ == views(numbers@).map_values(number_row(prefix@)),
{
    let ghost all = views(numbers@);
    let mut rows: Vec<Vec<Button>> = Vec::new();
    let mut i: usize = 0;
    while i < numbers.len()
        invariant
            i <= numbers@.len(),
            all == views(numbers@),
            rows@.map_values(row_view()) == all.take(i as int).map_values(number_row(prefix@)),
        decreases numbers@.len() - i,
    {
        let ghost before = rows@;
        let n = numbers[i].as_str();
        let row = row1(button(n, cat(prefix, n).as_str()));
        let ghost added = views(row@);
        rows.push(row);
        assert(rows@.map_values(row_view()) =~= before.map_values(row_view()).push(added));
        assert(all.take(i + 1).map_values(number_row(prefix@)) =~= all.take(i as int).map_values(
            number_row(prefix@),
        ).push(number_row(prefix@)(all[i as int])));
        i = i + 1;
    }
    assert(all.take(i as int) =~= all);
    Keyboard { inline_keyboard: rows }
}

/// Buttons to choose the default number of a topic.
pub fn number_keyboard(numbers: &[String]) -> (r: Keyboard)
    ensures
        r@ == views(numbers@).map_values(number_row("num:"@)),
{
    numbers_under("num:", numbers)
}

/// Buttons to choose the number that calls go to.
pub fn forward_number_keyboard(numbers: &[String]) -> (r: Keyboard)
    ensures
        r@ == views(numbers@).map_values(number_row("cf:n:"@)),
{
    numbers_under("cf:n:", numbers)
}

/// A name short enough for a button, and never empty.
pub open spec fn label(name: Seq<char>) -> Seq<char> {
    if name.len() == 0 {
        "?"@
    } else {
        head(name, 64)
    }
}

pub fn button_label(name: &str) -> (r: String)
    ensures
        r@ == label(name@),
{
    if name.is_empty() {
        "?".to_owned()
    } else {
        take_chars(name, 64)
    }
}

pub open spec fn contact_row(prefix: Seq<char>) -> spec_fn(ContactView) -> Seq<
    (Seq<char>, Seq<char>),
> {
    |c: ContactView| seq![(label(c.display_name), prefix + int_text(c.id as int))]
}

/// The first contacts, as many as are shown.
pub open spec fn shown_hits(hits: Seq<ContactView>) -> Seq<ContactView> {
    if hits.len() > SEARCH_CAP {
        hits.take(SEARCH_CAP as int)
    } else {
        hits
    }
}

fn contacts_under(prefix: &str, hits: &[Contact]) -> (r: Keyboard)
    ensures
        r@ == shown_hits(views(hits@)).map_values(contact_row(prefix@)),
{
    let n: usize = if hits.len() > SEARCH_CAP {
        SEARCH_CAP
    } else {
        hits.len()
    };
    let ghost all = views(hits@);
    let ghost f = contact_row(prefix@);
    let mut rows: Vec<Vec<Button>> = Vec::new();
    let mut i: usize = 0;
    while i < n
        invariant
            i <= n <= hits@.len(),
            all == views(hits@),
            f == contact_row(prefix@),
            rows@.map_values(row_view()) == all.take(i as int).map_values(f),
        decreases n - i,
    {
        let ghost before = rows@;
        let c = &hits[i];
        let data = cat(prefix, i64_text(c.id).as_str());
        let row = row1(button(button_label(c.display_name.as_str()).as_str(), data.as_str()));
        let ghost added = views(row@);
        rows.push(row);
        assert(rows@.map_values(row_view()) =~= before.map_values(row_view()).push(added));
        assert(all[i as int] == c@);
        assert(all.take(i + 1).map_values(f) =~= all.take(i as int).map_values(f).push(
            f(all[i as int]),
        ));
        i = i + 1;
    }
    assert(all.take(n as int) =~= shown_hits(all));
    Keyboard { inline_keyboard: rows }
}

/// Buttons to open the topics of contacts that were found.
pub fn search_keyboard(hits: &[Contact]) -> (r: Keyboard)
    ensures
        r@ == shown_hits(views(hits@)).map_values(contact_row("open:"@)),
{
    contacts_under("open:", hits)
}

/// Buttons to forward calls to contacts that were found.
pub fn forward_search_keyboard(hits: &[Contact]) -> (r: Keyboard)
    ensures
        r@ == shown_hits(views(hits@)).map_values(contact_row("cf:c:"@)),
{
    contacts_under("cf:c:", hits)
}

// ---------------------------------------------------------------------------
// Inline queries
// ---------------------------------------------------------------------------

/// Id, title and description of an answer to an inline query.
pub type Article = (String, String, String);

pub open spec fn article_views(s: Seq<Article>) -> Seq<(Seq<char>, Seq<char>, Seq<char>)> {
    s.map_values(|a: Article| (a.0@, a.1@, a.2@))
}

pub open spec fn article_of() -> spec_fn(ContactView) -> (Seq<char>, Seq<char>, Seq<char>) {
    |c: ContactView|
        (
            int_text(c.id as int),
            c.display_name,
            if c.numbers.len() > 0 {
                c.numbers[0]
            } else {
                Seq::empty()
            },
        )
}

pub fn inline_articles(hits: &[Contact]) -> (r: Vec<(String, String, String)>)
    ensures
        article_views(r@) == shown_hits(views(hits@)).map_values(article_of()),
{
    let n: usize = if hits.len() > SEARCH_CAP {
        SEARCH_CAP
    } else {
        hits.len()
    };
    let ghost all = views(hits@);
    let ghost f = article_of();
    let mut out: Vec<Article> = Vec::new();
    let mut i: usize = 0;
    while i < n
        invariant
            i <= n <= hits@.len(),
            all == views(hits@),
            f == article_of(),
            article_views(out@) == all.take(i as int).map_values(f),
        decreases n - i,
    {
        let ghost before = out@;
        let c = &hits[i];
        assert(all[i as int] == c@);
        let description = if c.numbers.len() > 0 {
            assert(views(c.numbers@)[0] == c.numbers@[0]@);
            c.numbers[0].clone()
        } else {
            let none = String::new();
            assert(none@ =~= Seq::empty());
            none
        };
        let article = (i64_text(c.id), c.display_name.clone(), description);
        let ghost added = (article.0@, article.1@, article.2@);
        out.push(article);
        assert(article_views(out@) =~= article_views(before).push(added));
        assert(all.take(i + 1).map_values(f) =~= all.take(i as int).map_values(f).push(
            f(all[i as int]),
        ));
        i = i + 1;
    }
    assert(all.take(n as int) =~= shown_hits(all));
    out
}

/// The answers to an inline query, given what the search found. An empty query
/// has none, and a search that failed says so.
pub open spec fn inline_answer(query: Seq<char>, search: Option<Seq<ContactView>>) -> Seq<
    (Seq<char>, Seq<char>, Seq<char>),
> {
    if nonblank(Some(query)) is None {
        Seq::empty()
    } else {
        match search {
            Some(hits) => shown_hits(hits).map_values(article_of()),
            None => seq![("unavailable"@, "contacts unavailable"@, Seq::empty())],
        }
    }
}

pub fn inline_answer_articles(query: &str, search: Result<&[Contact], ()>) -> (r: Vec<
    (String, String, String),
>)
    ensures
        article_views(r@) == inline_answer(
            query@,
            match search {
                Ok(hits) => Some(views(hits@)),
                Err(_) => None,
            },
        ),
{
    let mut out: Vec<Article> = Vec::new();
    if trim(query).as_str().is_empty() {
        assert(article_views(out@) =~= Seq::empty());
        return out;
    }
    match search {
        Ok(hits) => inline_articles(hits),
        Err(_) => {
            let none = String::new();
            assert(none@ =~= Seq::empty());
            out.push(("unavailable".to_owned(), "contacts unavailable".to_owned(), none));
            assert(article_views(out@) =~= seq![
                ("unavailable"@, "contacts unavailable"@, Seq::empty()),
            ]);
            out
        },
    }
}

/// What choosing an answer sends.
pub fn article_message(id: &str) -> (r: String)
    ensures
        r@ == if id@ == "unavailable"@ {
            "contacts unavailable"@
        } else {
            "/open "@ + id@
        },
{
    if str_eq(id, "unavailable") {
        "contacts unavailable".to_owned()
    } else {
        cat("/open ", id)
    }
}

} // verus!
