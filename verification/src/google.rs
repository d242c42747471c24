//! The address book at Google: its errors, its tokens and its people.
use vstd::prelude::*;

use crate::db::contacts::numbers_refused;
use crate::db::laws::{law_contact_comes_back, law_numbers_come_back};
use crate::db::{Db, DbError, DbErrorView};
use crate::decimal::{i64_text, int_text};
use crate::normalize::{normalize_e164, normalized, result_view, NormalizeError, NormalizeErrorView};
use crate::rows::{find, lemma_find, lemma_find_is, opt_view, pair_views, res_plain, views};
use crate::tables::{
    contact_by_id, contact_id_for, contact_put, fresh_number, not_of_contact, numbers_fit,
    numbers_put, with_resource, NumberRowView, Tables,
};
use crate::text::{
    among, cat, cat3, contains, cut_at_space, first_word, head, holds, lookup, lower, split,
    split_at_space, split_on, str_eq, take_chars, to_lower, trim, trimmed, value_under, word,
};

verus! {

pub const CONTACTS_SCOPE: &'static str = "https://www.googleapis.com/auth/contacts.readonly";

pub const REDIRECT_URI: &'static str = "http://127.0.0.1:8765/";

#[derive(Debug)]
pub enum GoogleError {
    Io(String),
    Json(String),
    Http(String),
    Db(DbError),
    Auth(String),
    Transient(String),
    Other(String),
}

pub enum GoogleErrorView {
    Io(Seq<char>),
    Json(Seq<char>),
    Http(Seq<char>),
    Db(DbErrorView),
    Auth(Seq<char>),
    Transient(Seq<char>),
    Other(Seq<char>),
}

impl View for GoogleError {
    type V = GoogleErrorView;

    open spec fn view(&self) -> GoogleErrorView {
        match self {
            GoogleError::Io(s) => GoogleErrorView::Io(s@),
            GoogleError::Json(s) => GoogleErrorView::Json(s@),
            GoogleError::Http(s) => GoogleErrorView::Http(s@),
            GoogleError::Db(e) => GoogleErrorView::Db(e@),
            GoogleError::Auth(s) => GoogleErrorView::Auth(s@),
            GoogleError::Transient(s) => GoogleErrorView::Transient(s@),
            GoogleError::Other(s) => GoogleErrorView::Other(s@),
        }
    }
}

impl GoogleErrorView {
    pub open spec fn words(self) -> Seq<char> {
        match self {
            GoogleErrorView::Io(s) => "io: "@ + s,
            GoogleErrorView::Json(s) => "json: "@ + s,
            GoogleErrorView::Http(s) => "http: "@ + s,
            GoogleErrorView::Db(e) => "db: "@ + e.words(),
            GoogleErrorView::Auth(s) => "google auth: "@ + s,
            GoogleErrorView::Transient(s) => "transient: "@ + s,
            GoogleErrorView::Other(s) => s,
        }
    }
}

impl GoogleError {
    /// The error in words.
    pub fn message(&self) -> (r: String)
        ensures
            r@ == self@.words(),
    {
        match self {
            GoogleError::Io(s) => cat("io: ", s.as_str()),
            GoogleError::Json(s) => cat("json: ", s.as_str()),
            GoogleError::Http(s) => cat("http: ", s.as_str()),
            GoogleError::Db(e) => cat("db: ", e.message().as_str()),
            GoogleError::Auth(s) => cat("google auth: ", s.as_str()),
            GoogleError::Transient(s) => cat("transient: ", s.as_str()),
            GoogleError::Other(s) => s.clone(),
        }
    }
}

// ---------------------------------------------------------------------------
// What a failed request means
// ---------------------------------------------------------------------------

/// As much of a body as an error shows.
pub fn snippet(body: &str) -> (r: String)
    ensures
        r@ == head(body@, 200),
{
    take_chars(body, 200)
}

pub open spec fn people_failure(status: u16, url: Seq<char>, snippet: Seq<char>) -> GoogleErrorView {
    let words = "people api "@ + int_text(status as int) + " "@ + url + " "@ + snippet;
    if status >= 500 || status == 429 {
        GoogleErrorView::Transient(words)
    } else if status == 401 {
        GoogleErrorView::Auth(words)
    } else {
        GoogleErrorView::Other(words)
    }
}

/// What it means that the address book refused a request. Overload and trouble
/// of the server pass; a token that is no longer good is replaced.
pub fn classify_people_status(status: u16, url: &str, snippet: &str) -> (r: GoogleError)
    ensures
        r@ == people_failure(status, url@, snippet@),
{
    let number = i64_text(status as i64);
    let words = cat3("people api ", number.as_str(), " ");
    let words = cat3(words.as_str(), url, " ");
    let words = cat(words.as_str(), snippet);
    if status >= 500 || status == 429 {
        GoogleError::Transient(words)
    } else if status == 401 {
        GoogleError::Auth(words)
    } else {
        GoogleError::Other(words)
    }
}

pub open spec fn token_failure(status: u16, body: Seq<char>) -> GoogleErrorView {
    let words = "token endpoint "@ + int_text(status as int) + " "@ + head(body, 200);
    let low = lower(body);
    if (status == 400 || status == 401) && (holds(low, "invalid_grant"@) || holds(
        low,
        "invalid_client"@,
    )) {
        GoogleErrorView::Auth(words)
    } else if status >= 500 {
        GoogleErrorView::Transient(words)
    } else {
        GoogleErrorView::Other(words)
    }
}

/// What it means that no token was given.
pub fn classify_token_failure(status: u16, body: &str) -> (r: GoogleError)
    ensures
        r@ == token_failure(status, body@),
{
    let lowered = to_lower(body);
    let number = i64_text(status as i64);
    let words = cat3("token endpoint ", number.as_str(), " ");
    let words = cat(words.as_str(), snippet(body).as_str());
    if (status == 400 || status == 401) && (contains(lowered.as_str(), "invalid_grant")
        || contains(lowered.as_str(), "invalid_client")) {
        GoogleError::Auth(words)
    } else if status >= 500 {
        GoogleError::Transient(words)
    } else {
        GoogleError::Other(words)
    }
}

/// What it means that a request got no answer.
pub fn classify_send_err(timeout: bool, connect: bool, message: String) -> (r: GoogleError)
    ensures
        r@ == if timeout || connect {
            GoogleErrorView::Transient(message@)
        } else {
            GoogleErrorView::Http(message@)
        },
{
    if timeout || connect {
        GoogleError::Transient(message)
    } else {
        GoogleError::Http(message)
    }
}

// ---------------------------------------------------------------------------
// Tokens
// ---------------------------------------------------------------------------

/// A token and when it runs out, in nanoseconds on some steady clock.
#[derive(Debug)]
pub struct CachedToken {
    pub token: String,
    pub expires_at: u128,
}

/// A token is not used any more when this little time is left to it: five
/// minutes, in nanoseconds.
pub const TOKEN_REFRESH_MARGIN: u128 = 300_000_000_000;

pub const SECOND: u128 = 1_000_000_000;

/// How long a token is good if nothing is said, in seconds.
pub const TOKEN_LIFETIME: u64 = 3600;

pub open spec fn fresh(expires_at: u128, now: u64) -> bool {
    expires_at > now + TOKEN_REFRESH_MARGIN
}

/// Whether a token can still be used.
pub fn token_fresh(cached: &CachedToken, now: u64) -> (r: bool)
    ensures
        r == fresh(cached.expires_at, now),
{
    cached.expires_at > now as u128 + TOKEN_REFRESH_MARGIN
}

/// The token that was given last.
#[derive(Debug)]
pub struct TokenCache {
    pub cached: Option<CachedToken>,
}

impl TokenCache {
    pub fn new() -> (r: Self)
        ensures
            r.cached is None,
    {
        TokenCache { cached: None }
    }

    /// The token, while it can still be used.
    pub fn cached_token(&self, now: u64) -> (r: Option<String>)
        ensures
            opt_view(r) == match self.cached {
                Some(c) => if fresh(c.expires_at, now) {
                    Some(c.token@)
                } else {
                    None
                },
                None => None,
            },
    {
        match &self.cached {
            Some(c) => if token_fresh(c, now) {
                Some(c.token.clone())
            } else {
                None
            },
            None => None,
        }
    }

    /// Keeps a token that was given for so many seconds.
    pub fn store_cached_token(&mut self, token: &str, expires_in: u64, now: u64)
        ensures
            final(self).cached matches Some(c) && c.token@ == token@ && c.expires_at == now
                + expires_in * SECOND,
    {
        assert(expires_in * SECOND <= u64::MAX * SECOND) by (nonlinear_arith)
            requires
                0 <= expires_in <= u64::MAX,
                SECOND == 1_000_000_000,
        ;
        self.cached = Some(
            CachedToken {
                token: token.to_owned(),
                expires_at: now as u128 + expires_in as u128 * SECOND,
            },
        );
    }

    pub fn invalidate_cached_token(&mut self)
        ensures
            final(self).cached is None,
    {
        self.cached = None;
    }
}

/// A token is used from when it was given until five minutes before it runs
/// out, and not a moment longer.
pub proof fn law_token_is_used_in_time(given: u64, expires_in: u64, now: u64)
    ensures
        fresh((given + expires_in * SECOND) as u128, now) <==> now + TOKEN_REFRESH_MARGIN < given
            + expires_in * SECOND,
{
    assert(0 <= expires_in * SECOND <= u64::MAX * SECOND) by (nonlinear_arith)
        requires
            0 <= expires_in <= u64::MAX,
            SECOND == 1_000_000_000,
    ;
}

/// The error of a token file that cannot be read.
pub fn unreadable_token(message: &str) -> (r: GoogleError)
    ensures
        r@ == GoogleErrorView::Auth("token file unreadable: "@ + message@),
{
    GoogleError::Auth(cat("token file unreadable: ", message))
}

/// The error of a token file that holds no token.
pub fn unparsable_token(message: &str) -> (r: GoogleError)
    ensures
        r@ == GoogleErrorView::Auth("token file unparsable: "@ + message@),
{
    GoogleError::Auth(cat("token file unparsable: ", message))
}

/// For how many seconds a token is good.
pub fn token_lifetime(expires_in: Option<u64>) -> (r: u64)
    ensures
        r == match expires_in {
            Some(n) => n,
            None => TOKEN_LIFETIME,
        },
{
    match expires_in {
        Some(n) => n,
        None => TOKEN_LIFETIME,
    }
}

// ---------------------------------------------------------------------------
// A whole sync
// ---------------------------------------------------------------------------

/// How far a sync is.
#[derive(Debug, Clone, Copy, PartialEq, Eq, Structural)]
pub enum SyncAt {
    /// Getting a token; the second time if the first was refused.
    Token { again: bool },
    /// Fetching all pages with the token.
    Pages { again: bool },
}

/// What a sync does next.
#[derive(Debug)]
pub enum SyncAction {
    /// Get a token, after the one that is kept was dropped if so said.
    GetToken { drop_cached: bool },
    /// Fetch all pages.
    FetchPages,
    /// Store what was fetched.
    Store,
    /// End with an error.
    Fail(GoogleError),
}

pub enum SyncActionView {
    GetToken { drop_cached: bool },
    FetchPages,
    Store,
    Fail(GoogleErrorView),
}

impl View for SyncAction {
    type V = SyncActionView;

    open spec fn view(&self) -> SyncActionView {
        match self {
            SyncAction::GetToken { drop_cached } => SyncActionView::GetToken {
                drop_cached: *drop_cached,
            },
            SyncAction::FetchPages => SyncActionView::FetchPages,
            SyncAction::Store => SyncActionView::Store,
            SyncAction::Fail(e) => SyncActionView::Fail(e@),
        }
    }
}

/// How a sync goes on, given the error of the last action if it had one. When
/// the token is refused while fetching, another one is tried, once.
pub open spec fn sync_next(at: SyncAt, error: Option<GoogleErrorView>) -> (SyncAt, SyncActionView) {
    match (at, error) {
        (SyncAt::Token { again }, None) => (SyncAt::Pages { again }, SyncActionView::FetchPages),
        (SyncAt::Pages { again }, None) => (at, SyncActionView::Store),
        (SyncAt::Pages { again }, Some(e)) => if e is Auth && !again {
            (SyncAt::Token { again: true }, SyncActionView::GetToken { drop_cached: true })
        } else {
            (at, SyncActionView::Fail(e))
        },
        (_, Some(e)) => (at, SyncActionView::Fail(e)),
    }
}

/// Begins a sync.
pub fn sync_start() -> (r: (SyncAt, SyncAction))
    ensures
        r.0 == (SyncAt::Token { again: false }),
        r.1@ == (SyncActionView::GetToken { drop_cached: false }),
{
    (SyncAt::Token { again: false }, SyncAction::GetToken { drop_cached: false })
}

/// Goes on with what came of the last action.
pub fn sync_step(at: SyncAt, error: Option<GoogleError>) -> (r: (SyncAt, SyncAction))
    ensures
        (r.0, r.1@) == sync_next(at, opt_view(error)),
{
    match at {
        SyncAt::Token { again } => match error {
            None => (SyncAt::Pages { again }, SyncAction::FetchPages),
            Some(e) => (at, SyncAction::Fail(e)),
        },
        SyncAt::Pages { again } => match error {
            None => (at, SyncAction::Store),
            Some(GoogleError::Auth(s)) => if again {
                (at, SyncAction::Fail(GoogleError::Auth(s)))
            } else {
                (SyncAt::Token { again: true }, SyncAction::GetToken { drop_cached: true })
            },
            Some(e) => (at, SyncAction::Fail(e)),
        },
    }
}

/// A sync never asks for a third token: a second refusal ends it.
pub proof fn law_token_is_renewed_once(at: SyncAt, e: GoogleErrorView)
    requires
        at == (SyncAt::Token { again: true }) || at == (SyncAt::Pages { again: true }),
    ensures
        sync_next(at, Some(e)).1 == SyncActionView::Fail(e),
{
}

/// The page that follows, if the last one says that there is one.
pub fn next_page(token: Option<String>) -> (r: Option<String>)
    ensures
        opt_view(r) == match opt_view(token) {
            Some(t) => if t.len() > 0 {
                Some(t)
            } else {
                None
            },
            None => None,
        },
{
    match token {
        Some(t) => if t.as_str().is_empty() {
            None
        } else {
            Some(t)
        },
        None => None,
    }
}

// ---------------------------------------------------------------------------
// People
// ---------------------------------------------------------------------------

/// A person of the address book, as it is told there.
#[derive(Debug)]
pub struct Person {
    pub resource_name: Option<String>,
    pub names: Vec<Option<String>>,
    pub phone_numbers: Vec<Option<String>>,
}

pub struct PersonView {
    pub resource_name: Option<Seq<char>>,
    pub names: Seq<Option<Seq<char>>>,
    pub phone_numbers: Seq<Option<Seq<char>>>,
}

pub open spec fn opt_views(s: Seq<Option<String>>) -> Seq<Option<Seq<char>>> {
    s.map_values(|o: Option<String>| opt_view(o))
}

impl View for Person {
    type V = PersonView;

    open spec fn view(&self) -> PersonView {
        PersonView {
            resource_name: opt_view(self.resource_name),
            names: opt_views(self.names@),
            phone_numbers: opt_views(self.phone_numbers@),
        }
    }
}

/// Resource, name and numbers of a person.
pub type ParsedContact = (String, String, Vec<String>);

pub type ParsedView = (Seq<char>, Seq<char>, Seq<Seq<char>>);

pub open spec fn parsed_view(c: ParsedContact) -> ParsedView {
    (c.0@, c.1@, views(c.2@))
}

/// The numbers with one more among them, if it is a number and a new one.
pub open spec fn with_number(
    numbers: Seq<Seq<char>>,
    number: Result<Seq<char>, NormalizeErrorView>,
) -> Seq<Seq<char>> {
    match number {
        Ok(e164) => if numbers.contains(e164) {
            numbers
        } else {
            numbers.push(e164)
        },
        Err(_) => numbers,
    }
}

/// The numbers of a person in E.164 form, each once, in the order in which
/// they are told. What is no number is left out.
pub open spec fn person_numbers(values: Seq<Option<Seq<char>>>, region: Seq<char>) -> Seq<Seq<char>>
    decreases values.len(),
{
    if values.len() == 0 {
        Seq::empty()
    } else {
        let before = person_numbers(values.drop_last(), region);
        match values.last() {
            Some(raw) => with_number(before, normalized(raw, region)),
            None => before,
        }
    }
}

/// The first name of a person, or that it is not known.
pub open spec fn person_name(names: Seq<Option<Seq<char>>>) -> Seq<char> {
    if names.len() == 0 {
        "Unknown"@
    } else {
        match names[0] {
            Some(name) => if name.len() > 0 {
                name
            } else {
                "Unknown"@
            },
            None => "Unknown"@,
        }
    }
}

/// The contact that a person is; one without a resource is none.
pub open spec fn contact_of(p: PersonView, region: Seq<char>) -> Option<ParsedView> {
    match p.resource_name {
        Some(resource) => Some(
            (resource, person_name(p.names), person_numbers(p.phone_numbers, region)),
        ),
        None => None,
    }
}

/// The contacts among people, in their order.
pub open spec fn contacts_of(people: Seq<PersonView>, region: Seq<char>) -> Seq<ParsedView>
    decreases people.len(),
{
    if people.len() == 0 {
        Seq::empty()
    } else {
        let before = contacts_of(people.drop_last(), region);
        match contact_of(people.last(), region) {
            Some(c) => before.push(c),
            None => before,
        }
    }
}

/// No number of a person is told twice.
pub proof fn law_numbers_are_distinct(values: Seq<Option<Seq<char>>>, region: Seq<char>)
    ensures
        person_numbers(values, region).no_duplicates(),
    decreases values.len(),
{
    if values.len() > 0 {
        law_numbers_are_distinct(values.drop_last(), region);
    }
}

/// Takes a number in, if it is one and a new one.
pub fn keep_number(numbers: Vec<String>, number: Result<String, NormalizeError>) -> (r: Vec<String>)
    ensures
        views(r@) == with_number(views(numbers@), result_view(number)),
{
    let mut out = numbers;
    if let Ok(e164) = number {
        if among(&out, e164.as_str()) {
            return out;
        }
        let ghost before = views(out@);
        let ghost added = e164@;
        out.push(e164);
        assert(views(out@) =~= before.push(added));
    }
    out
}

/// The contact that a person is.
pub fn person_to_contact(p: &Person, region: &str) -> (r: Option<ParsedContact>)
    ensures
        contact_of(p@, region@) == match r {
            Some(c) => Some(parsed_view(c)),
            None => None,
        },
{
    let resource = match &p.resource_name {
        Some(resource) => resource.clone(),
        None => {
            return None;
        },
    };
    let mut display = "Unknown".to_owned();
    if p.names.len() > 0 {
        assert(opt_views(p.names@)[0] == opt_view(p.names@[0]));
        if let Some(name) = &p.names[0] {
            if !name.as_str().is_empty() {
                display = name.clone();
            }
        }
    }
    let ghost values = opt_views(p.phone_numbers@);
    let mut numbers: Vec<String> = Vec::new();
    let mut i: usize = 0;
    assert(views(numbers@) =~= person_numbers(values.take(0), region@));
    while i < p.phone_numbers.len()
        invariant
            i <= p.phone_numbers@.len(),
            values == opt_views(p.phone_numbers@),
            views(numbers@) == person_numbers(values.take(i as int), region@),
        decreases p.phone_numbers@.len() - i,
    {
        assert(values.take(i + 1).drop_last() =~= values.take(i as int));
        assert(values.take(i + 1).last() == opt_view(p.phone_numbers@[i as int]));
        if let Some(raw) = &p.phone_numbers[i] {
            let number = normalize_e164(raw.as_str(), region);
            numbers = keep_number(numbers, number);
        }
        i = i + 1;
    }
    assert(values.take(i as int) =~= values);
    Some((resource, display, numbers))
}

pub open spec fn parsed_views(s: Seq<ParsedContact>) -> Seq<ParsedView> {
    s.map_values(|c: ParsedContact| parsed_view(c))
}

/// The contacts among the people of a page.
pub fn contacts_from_people(people: &Vec<Person>, region: &str) -> (r: Vec<ParsedContact>)
    ensures
        parsed_views(r@) == contacts_of(views(people@), region@),
{
    let ghost all = views(people@);
    let mut out: Vec<ParsedContact> = Vec::new();
    let mut i: usize = 0;
    assert(parsed_views(out@) =~= contacts_of(all.take(0), region@));
    while i < people.len()
        invariant
            i <= people@.len(),
            all == views(people@),
            parsed_views(out@) == contacts_of(all.take(i as int), region@),
        decreases people@.len() - i,
    {
        assert(all.take(i + 1).drop_last() =~= all.take(i as int));
        assert(all.take(i + 1).last() == people@[i as int]@);
        let ghost before = out@;
        if let Some(c) = person_to_contact(&people[i], region) {
            let ghost added = parsed_view(c);
            out.push(c);
            assert(parsed_views(out@) =~= parsed_views(before).push(added));
        }
        i = i + 1;
    }
    assert(all.take(i as int) =~= all);
    out
}

/// Storing one contact: the tables after it, and what went wrong, if anything.
pub open spec fn contact_synced(t: Tables, c: ParsedView, now: Seq<char>) -> (
    Tables,
    Option<DbErrorView>,
) {
    let id = contact_id_for(t, c.0);
    if id > i64::MAX {
        (t, Some(DbErrorView::Sqlite("database or disk is full"@)))
    } else {
        let stored = contact_put(t, c.0, c.1, now);
        if numbers_fit(stored, id as i64, c.2) {
            (numbers_put(stored, id as i64, c.2), None)
        } else {
            (stored, Some(numbers_refused(stored, id as i64, c.2)))
        }
    }
}

/// Storing contacts one after the other, up to the first that fails.
pub open spec fn synced(t: Tables, contacts: Seq<ParsedView>, now: Seq<char>) -> (
    Tables,
    Option<DbErrorView>,
)
    decreases contacts.len(),
{
    if contacts.len() == 0 {
        (t, None)
    } else {
        let before = synced(t, contacts.drop_last(), now);
        match before.1 {
            Some(e) => before,
            None => contact_synced(before.0, contacts.last(), now),
        }
    }
}

/// How a sync of contacts ends.
pub open spec fn sync_result(t: Tables, contacts: Seq<ParsedView>, now: Seq<char>) -> Result<
    usize,
    GoogleErrorView,
> {
    match synced(t, contacts, now).1 {
        None => Ok(contacts.len() as usize),
        Some(e) => Err(GoogleErrorView::Db(e)),
    }
}

proof fn lemma_sync_stops(t: Tables, contacts: Seq<ParsedView>, now: Seq<char>, n: int)
    requires
        0 <= n <= contacts.len(),
        synced(t, contacts.take(n), now).1 is Some,
    ensures
        synced(t, contacts, now) == synced(t, contacts.take(n), now),
    decreases contacts.len() - n,
{
    if n == contacts.len() {
        assert(contacts.take(n) =~= contacts);
    } else {
        assert(contacts.take(n + 1).drop_last() =~= contacts.take(n));
        lemma_sync_stops(t, contacts, now, n + 1);
    }
}

/// Stores contacts of the address book, seen there at the given time.
pub fn sync_parsed_at(db: &mut Db, contacts: &Vec<ParsedContact>, now: &str) -> (r: Result<
    usize,
    GoogleError,
>)
    requires
        old(db)@.wf(),
    ensures
        final(db)@.wf(),
        final(db)@ == synced(old(db)@, parsed_views(contacts@), now@).0,
        res_plain(r) == sync_result(old(db)@, parsed_views(contacts@), now@),
{
    let ghost t = db@;
    let ghost all = parsed_views(contacts@);
    let mut i: usize = 0;
    assert(synced(t, all.take(0), now@) == (t, None::<DbErrorView>));
    while i < contacts.len()
        invariant
            i <= contacts@.len(),
            all == parsed_views(contacts@),
            db@.wf(),
            t == old(db)@,
            synced(t, all.take(i as int), now@) == (db@, None::<DbErrorView>),
        decreases contacts@.len() - i,
    {
        let ghost before = db@;
        assert(all.take(i + 1).drop_last() =~= all.take(i as int));
        assert(all.take(i + 1).last() == parsed_view(contacts@[i as int]));
        let c = &contacts[i];
        let id = match db.upsert_contact_at(c.0.as_str(), c.1.as_str(), now) {
            Ok(id) => id,
            Err(e) => {
                proof {
                    lemma_sync_stops(t, all, now@, i + 1);
                }
                return Err(GoogleError::Db(e));
            },
        };
        match db.replace_contact_numbers(id, c.2.as_slice()) {
            Ok(_) => {},
            Err(e) => {
                proof {
                    lemma_sync_stops(t, all, now@, i + 1);
                }
                return Err(GoogleError::Db(e));
            },
        }
        i = i + 1;
    }
    assert(all.take(i as int) =~= all);
    Ok(contacts.len())
}

/// Stores contacts of the address book, seen there now.
pub fn sync_parsed(db: &mut Db, contacts: &Vec<ParsedContact>) -> (r: Result<usize, GoogleError>)
    requires
        old(db)@.wf(),
    ensures
        final(db)@.wf(),
        exists|now: Seq<char>|
            final(db)@ == (#[trigger] synced(old(db)@, parsed_views(contacts@), now)).0
                && res_plain(r) == sync_result(old(db)@, parsed_views(contacts@), now),
{
    let now = crate::clock::now_text();
    sync_parsed_at(db, contacts, now.as_str())
}

// ---------------------------------------------------------------------------
// Signing in
// ---------------------------------------------------------------------------

/// What `url::Url::parse`, reached through the `oauth2` crate, makes of an
/// address: the pairs of its query, or the words of its error.
pub uninterp spec fn query_of(address: Seq<char>) -> Result<Seq<(Seq<char>, Seq<char>)>, Seq<char>>;

/// Calls `oauth2::url::Url::parse` and reads `query_pairs`. The result is
/// named.
#[verifier::external_body]
fn query_pairs(address: &str) -> (r: Result<Vec<(String, String)>, String>)
    ensures
        query_of(address@) == match r {
            Ok(pairs) => Ok(pair_views(pairs@)),
            Err(e) => Err(e@),
        },
{
    let url = oauth2::url::Url::parse(address).map_err(|e| e.to_string())?;
    Ok(url.query_pairs().map(|(k, v)| (k.into_owned(), v.into_owned())).collect())
}

/// The first line of a request.
pub open spec fn request_line(request: Seq<char>) -> Seq<char> {
    split(request, '\n')[0]
}

/// The second word of a line, or the root.
pub open spec fn target_of(line: Seq<char>) -> Seq<char> {
    match cut_at_space(trimmed(line)) {
        Some((method, rest)) => match first_word(rest) {
            Some(target) => target,
            None => "/"@,
        },
        None => "/"@,
    }
}

/// The code and the state of a redirect, or what is missing.
pub open spec fn redirected(
    query: Result<Seq<(Seq<char>, Seq<char>)>, Seq<char>>,
) -> Result<(Seq<char>, Seq<char>), GoogleErrorView> {
    match query {
        Err(e) => Err(GoogleErrorView::Other(e)),
        Ok(pairs) => match value_under(pairs, "code"@) {
            None => Err(GoogleErrorView::Other("redirect missing code"@)),
            Some(code) => match value_under(pairs, "state"@) {
                None => Err(GoogleErrorView::Other("redirect missing state"@)),
                Some(state) => Ok((code, state)),
            },
        },
    }
}

pub open spec fn redirect_view(r: Result<(String, String), GoogleError>) -> Result<
    (Seq<char>, Seq<char>),
    GoogleErrorView,
> {
    match r {
        Ok((code, state)) => Ok((code@, state@)),
        Err(e) => Err(e@),
    }
}

/// Finds code and state among the pairs of a query.
pub fn redirect_from(query: Result<Vec<(String, String)>, String>) -> (r: Result<
    (String, String),
    GoogleError,
>)
    ensures
        redirect_view(r) == redirected(
            match query {
                Ok(pairs) => Ok(pair_views(pairs@)),
                Err(e) => Err(e@),
            },
        ),
{
    match query {
        Err(e) => Err(GoogleError::Other(e)),
        Ok(pairs) => match lookup(&pairs, "code") {
            None => Err(GoogleError::Other("redirect missing code".to_owned())),
            Some(code) => match lookup(&pairs, "state") {
                None => Err(GoogleError::Other("redirect missing state".to_owned())),
                Some(state) => Ok((code, state)),
            },
        },
    }
}

/// Reads code and state from the request that a redirect makes.
pub fn redirect_params(request: &str) -> (r: Result<(String, String), GoogleError>)
    ensures
        redirect_view(r) == redirected(
            query_of("http://127.0.0.1"@ + target_of(request_line(request@))),
        ),
{
    let lines = split_on(request, '\n');
    assert(split(request@, '\n').len() > 0);
    assert(views(lines@).len() == lines@.len());
    assert(views(lines@)[0] == lines@[0]@);
    let path = match split_at_space(trim(lines[0].as_str()).as_str()) {
        Some((_, rest)) => match word(rest.as_str()) {
            Some(target) => target,
            None => "/".to_owned(),
        },
        None => "/".to_owned(),
    };
    redirect_from(query_pairs(cat("http://127.0.0.1", path.as_str()).as_str()))
}

/// The state that comes back must be the one that was sent.
pub fn check_state(state: &str, sent: &str) -> (r: Result<(), GoogleError>)
    ensures
        res_plain(r) == if state@ == sent@ {
            Ok::<(), GoogleErrorView>(())
        } else {
            Err(GoogleErrorView::Other("oauth state mismatch"@))
        },
{
    if str_eq(state, sent) {
        Ok(())
    } else {
        Err(GoogleError::Other("oauth state mismatch".to_owned()))
    }
}

// ---------------------------------------------------------------------------
// Laws
// ---------------------------------------------------------------------------

/// A contact that was stored is found with its name and its numbers, under the
/// id that its resource has from then on.
pub proof fn law_synced_contact_is_found(t: Tables, c: ParsedView, now: Seq<char>)
    requires
        t.wf(),
        contact_synced(t, c, now).1 is None,
    ensures
        ({
            let id = contact_id_for(t, c.0) as i64;
            let after = contact_synced(t, c, now).0;
            &&& contact_id_for(after, c.0) == id
            &&& contact_by_id(after, id) matches Some(found)
            &&& found.google_resource == c.0
            &&& found.display_name == c.1
            &&& found.numbers == c.2
        }),
{
    let id = contact_id_for(t, c.0) as i64;
    let stored = contact_put(t, c.0, c.1, now);
    law_contact_comes_back(t, c.0, c.1, now);
    law_numbers_come_back(stored, id, c.2, id);
}

/// What a page of the address book tells is never refused for its numbers: a
/// contact is stored as long as there is an id left for it.
pub proof fn law_people_are_stored(t: Tables, p: PersonView, region: Seq<char>, now: Seq<char>)
    requires
        t.wf(),
    ensures
        contact_of(p, region) matches Some(c) ==> contact_id_for(t, c.0) <= i64::MAX
            ==> contact_synced(t, c, now).1 is None,
{
    law_numbers_are_distinct(p.phone_numbers, region);
    if let Some(c) = contact_of(p, region) {
        if contact_id_for(t, c.0) <= i64::MAX {
            let stored = contact_put(t, c.0, c.1, now);
            let i = find(t.contacts, with_resource(c.0));
            lemma_find(t.contacts, with_resource(c.0));
            assert(stored.contacts[i].id == contact_id_for(t, c.0));
        }
    }
}

/// Storing the same contact again, seen at the same time, changes nothing.
pub proof fn law_sync_repeats(t: Tables, c: ParsedView, now: Seq<char>)
    requires
        t.wf(),
        contact_synced(t, c, now).1 is None,
    ensures
        ({
            let after = contact_synced(t, c, now).0;
            contact_synced(after, c, now) == (after, None::<DbErrorView>)
        }),
{
    let id = contact_id_for(t, c.0) as i64;
    let stored = contact_put(t, c.0, c.1, now);
    let after = contact_synced(t, c, now).0;
    law_contact_comes_back(t, c.0, c.1, now);
    let p = with_resource(c.0);
    let i = find(t.contacts, p);
    lemma_find(t.contacts, p);
    assert forall|j: int| 0 <= j < i implies !p(#[trigger] stored.contacts[j]) by {
        assert(stored.contacts[j] == t.contacts[j]);
    }
    lemma_find_is(stored.contacts, p, i);
    let again = contact_put(after, c.0, c.1, now);
    assert(again.contacts =~= after.contacts);
    let kept = stored.numbers.filter(not_of_contact(id));
    let added = c.2.map_values(fresh_number(id));
    Seq::filter_distributes_over_add(kept, added, not_of_contact(id));
    lemma_filtered_again(stored.numbers, id);
    added.lemma_all_neg_filter_empty(not_of_contact(id));
    assert(after.numbers.filter(not_of_contact(id)) =~= kept);
    assert(numbers_put(again, id, c.2).numbers =~= after.numbers);
}

proof fn lemma_filtered_again(s: Seq<NumberRowView>, id: i64)
    ensures
        s.filter(not_of_contact(id)).filter(not_of_contact(id)) == s.filter(not_of_contact(id)),
    decreases s.len(),
{
    reveal(Seq::filter);
    if s.len() > 0 {
        let front = s.drop_last();
        lemma_filtered_again(front, id);
        assert(front.filter(not_of_contact(id)).push(s.last()).drop_last() =~= front.filter(
            not_of_contact(id),
        ));
    } else {
        assert(s.filter(not_of_contact(id)) =~= s);
    }
}

} // verus!
