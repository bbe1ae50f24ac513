//! The user routes' core: the authenticated user's own record, and the
//! paginated, searchable user listing.

use crate::errors::ApiError;
use crate::fields::User;
use crate::store::{
    filtered_recs, lemma_filtered_recs_len, page_recs, user_of, FetchUserQuery, Store, UserRecV,
};
use vstd::prelude::*;

verus! {

/// The response of the profile route: the authenticated user's record.
pub struct AuthenticatedUserResponse {
    pub user: User,
}

/// Returns the requesting user's own record, as resolved by the access
/// guard.
pub fn get_authenticated_user(user: User) -> (r: AuthenticatedUserResponse)
    ensures
        r.user == user,
{
    AuthenticatedUserResponse { user }
}

/// The raw listing parameters: an optional username substring to search
/// for, a 1-indexed page, and a page size.
pub struct QueryParams {
    pub username: Option<String>,
    pub page: Option<i64>,
    pub limit: Option<i64>,
}

impl QueryParams {
    /// The requested page, after the default of 1.
    pub open spec fn page_spec(&self) -> int {
        match self.page {
            Some(p) => p as int,
            None => 1,
        }
    }

    /// The requested page size, after the default of 10.
    pub open spec fn limit_spec(&self) -> int {
        match self.limit {
            Some(l) => l as int,
            None => 10,
        }
    }

    /// The view of the optional search string.
    pub open spec fn search_spec(&self) -> Option<Seq<char>> {
        match self.username {
            Some(ref s) => Some(s@),
            None => None,
        }
    }
}

/// The pagination facts of a listing response.
pub struct Pagination {
    pub has_next: bool,
    pub has_prev: bool,
    pub current_page: i64,
    pub total_pages: i64,
}

/// A listing response: the windowed users and the pagination facts.
pub struct GetUsersResponse {
    pub users: Vec<User>,
    pub pagination: Pagination,
}

/// Lists users for the authenticated `user`. Page and limit default to
/// 1 and 10; the requesting user is excluded; `username` is a substring
/// search; ordering is newest first. The total page count is the
/// selected count divided by the limit, plus one — also on exact
/// multiples, as the interface documents it. Fails with `ServerError`
/// exactly when the page lies below 1 or the limit is negative (a
/// negative offset or limit is refused by the store).
pub fn get_users(store: &Store, query: QueryParams, user: &User) -> (r: Result<
    GetUsersResponse,
    ApiError,
>)
    requires
        store.wf(),
        query.limit_spec() != 0,
        query.page_spec() > i64::MIN,
        i64::MIN <= (query.page_spec() - 1) * query.limit_spec() <= i64::MAX,
    ensures
        r is Ok <==> query.page_spec() >= 1 && query.limit_spec() > 0,
        r matches Ok(resp) ==> ({
            let filt = filtered_recs(store@, query.search_spec(), user@.username);
            let skip = (query.page_spec() - 1) * query.limit_spec();
            let total_pages = filt.len() as int / query.limit_spec() + 1;
            &&& resp.users@.map_values(|u: User| u@) == page_recs(
                filt,
                skip,
                query.limit_spec(),
            ).map_values(|rec: UserRecV| user_of(store@, rec))
            &&& resp.pagination.current_page == query.page_spec()
            &&& resp.pagination.total_pages == total_pages
            &&& resp.pagination.has_prev == (query.page_spec() > 1)
            &&& resp.pagination.has_next == (query.page_spec() < total_pages)
        }),
{
    let page: i64 = match query.page {
        Some(p) => p,
        None => 1,
    };
    let limit: i64 = match query.limit {
        Some(l) => l,
        None => 10,
    };
    if page < 1 || limit < 0 {
        return Err(ApiError::ServerError);
    }
    let skip: i64 = (page - 1) * limit;
    let fetch_query = FetchUserQuery {
        username: query.username,
        auth_user: user.username.inner(),
        skip,
        limit,
    };
    let (users, count) = match store.fetch_users(&fetch_query) {
        Ok(p) => p,
        Err(_) => {
            proof {
                assert(false);
            }
            return Err(ApiError::ServerError);
        },
    };
    proof {
        lemma_filtered_recs_len(store@, query.search_spec(), user@.username);
        assert(count / limit <= count) by (nonlinear_arith)
            requires
                count >= 0 && limit >= 1,
        ;
    }
    let total_pages = count / limit + 1;
    Ok(
        GetUsersResponse {
            users,
            pagination: Pagination {
                has_next: page < total_pages,
                has_prev: page > 1,
                current_page: page,
                total_pages,
            },
        },
    )
}

} // verus!
