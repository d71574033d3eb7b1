//! The audit log listing: its paging and who each entry is attributed to.
use vstd::prelude::*;

use crate::text::opt_text;

verus! {

/// The page of the audit log a request asks for.
#[derive(Debug)]
pub struct PaginationParams {
    /// 1-based.
    pub page: Option<u64>,
    pub limit: Option<u64>,
}

/// The page shown when none is asked for.
pub const DEFAULT_PAGE: u64 = 1;

/// The page size used when none is asked for.
pub const DEFAULT_LIMIT: u64 = 50;

/// The page and page size of a request, with the defaults where it gives none.
pub fn resolve_pagination(p: &PaginationParams) -> (r: (u64, u64))
    ensures
        r.0 == match p.page {
            Some(x) => x,
            None => DEFAULT_PAGE,
        },
        r.1 == match p.limit {
            Some(x) => x,
            None => DEFAULT_LIMIT,
        },
{
    let page = match p.page {
        Some(x) => x,
        None => DEFAULT_PAGE,
    };
    let limit = match p.limit {
        Some(x) => x,
        None => DEFAULT_LIMIT,
    };
    (page, limit)
}

/// The 0-based index of a 1-based page.
pub fn page_index(page: u64) -> (r: u64)
    requires
        page >= 1,
    ensures
        r == page - 1,
{
    page - 1
}

/// A known user.
#[derive(Debug)]
pub struct ActorUser {
    pub id: String,
    pub name: String,
}

/// Who an audit entry is attributed to: the identity and the name of its known user, or,
/// for an unknown user, the recorded identity (empty if none) for both.
pub fn resolve_actor(user: &Option<ActorUser>, actor_id: &Option<String>) -> (r: (String, String))
    ensures
        match user {
            Some(u) => r.0@ == u.id@ && r.1@ == u.name@,
            None => r.0@ == r.1@ && r.0@ == match opt_text(*actor_id) {
                Some(a) => a,
                None => Seq::<char>::empty(),
            },
        },
{
    match user {
        Some(u) => (u.id.clone(), u.name.clone()),
        None => {
            let a = match actor_id {
                Some(a) => a.clone(),
                None => String::new(),
            };
            let b = a.clone();
            (a, b)
        },
    }
}

} // verus!
