//! Searching the contacts.
use vstd::prelude::*;

use crate::actions::{ActionError, ActionErrorView};
use crate::db::contacts::searched;
use crate::db::{Contact, Db, DbError, DbErrorView};
use crate::rows::{res_views, views};
use crate::tables::{ContactView, Tables};
use crate::text::{trim, trimmed};

verus! {

/// No search gives more contacts than this.
pub const SEARCH_CAP: usize = 20;

/// The first contacts that match, as many as are shown.
pub open spec fn capped(s: Seq<ContactView>) -> Seq<ContactView> {
    if s.len() > SEARCH_CAP {
        s.take(SEARCH_CAP as int)
    } else {
        s
    }
}

/// What a search gives. A query of white space asks for nothing.
pub open spec fn search_result(t: Tables, query: Seq<char>) -> Result<
    Seq<ContactView>,
    ActionErrorView,
> {
    if trimmed(query).len() == 0 {
        Err(ActionErrorView::Validation("query is required"@))
    } else {
        match searched(t, trimmed(query)) {
            Ok(hits) => Ok(capped(hits)),
            Err(DbErrorView::ContactsUnavailable) => Err(ActionErrorView::ContactsUnavailable),
            Err(e) => Err(ActionErrorView::Db(e)),
        }
    }
}

/// Searches the contacts by name.
pub fn search_contacts(db: &Db, query: &str) -> (r: Result<Vec<Contact>, ActionError>)
    ensures
        res_views(r) == search_result(db@, query@),
{
    let q = trim(query);
    if q.as_str().is_empty() {
        return Err(ActionError::Validation("query is required".to_owned()));
    }
    match db.search_contacts(q.as_str()) {
        Ok(hits) => {
            let mut hits = hits;
            let ghost all = hits@;
            if hits.len() > SEARCH_CAP {
                hits.truncate(SEARCH_CAP);
                assert(views(hits@) =~= views(all).take(SEARCH_CAP as int));
            }
            Ok(hits)
        },
        Err(DbError::ContactsUnavailable) => Err(ActionError::ContactsUnavailable),
        Err(e) => Err(ActionError::Db(e)),
    }
}

} // verus!
