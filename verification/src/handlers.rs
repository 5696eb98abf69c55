//! Lifecycle handlers: the five resource operations, composing validation,
//! the simulated store, the pagination calculator and the response envelope.
//!
//! The store boundary is simulated: the list operation reports a fixed total
//! and synthesizes the records of the requested slice, the lookup operations
//! treat one fixed identifier as absent, and create assigns a fixed
//! identifier. The orchestration around it - bounds checks, validation,
//! error classification and envelope shaping - is the logic of this layer.

use crate::envelope::{details_view, ApiResponse};
use crate::errors::AppError;
use crate::model::{User, UserCreate, UserStatus, UserUpdate};
use crate::pagination::{pages_of, ListUsersQuery, PaginatedResponse};
use crate::validation::{create_error_list, update_error_list, validate_create, validate_update};
use vstd::arithmetic::mul::lemma_mul_inequality;
use vstd::prelude::*;
use vstd::string::{StrSliceExecFns, StringExecFns};

verus! {

/// Process-wide state handed to every operation. The simulated store needs
/// none; a real deployment would hold its collaborators here.
#[derive(Clone)]
pub struct AppState {}

/// Total number of records the simulated store reports to the list operation.
pub const MOCK_TOTAL: i64 = 100;

/// The decimal digit character for `d` in `[0, 9]`.
pub open spec fn digit_char(d: nat) -> char {
    if d == 0 {
        '0'
    } else if d == 1 {
        '1'
    } else if d == 2 {
        '2'
    } else if d == 3 {
        '3'
    } else if d == 4 {
        '4'
    } else if d == 5 {
        '5'
    } else if d == 6 {
        '6'
    } else if d == 7 {
        '7'
    } else if d == 8 {
        '8'
    } else {
        '9'
    }
}

/// Decimal representation of `n`: most significant digit first, no sign, no
/// leading zeros (a single `'0'` for zero).
pub open spec fn dec_digits(n: nat) -> Seq<char>
    decreases n,
{
    if n < 10 {
        seq![digit_char(n)]
    } else {
        dec_digits(n / 10).push(digit_char(n % 10))
    }
}

/// One-character string slice for the digit `d`.
fn digit_str(d: u64) -> (r: &'static str)
    requires
        d < 10,
    ensures
        r@ == seq![digit_char(d as nat)],
{
    if d == 0 {
        proof {
            reveal_strlit("0");
            assert("0"@ =~= seq![digit_char(0)]);
        }
        "0"
    } else if d == 1 {
        proof {
            reveal_strlit("1");
            assert("1"@ =~= seq![digit_char(1)]);
        }
        "1"
    } else if d == 2 {
        proof {
            reveal_strlit("2");
            assert("2"@ =~= seq![digit_char(2)]);
        }
        "2"
    } else if d == 3 {
        proof {
            reveal_strlit("3");
            assert("3"@ =~= seq![digit_char(3)]);
        }
        "3"
    } else if d == 4 {
        proof {
            reveal_strlit("4");
            assert("4"@ =~= seq![digit_char(4)]);
        }
        "4"
    } else if d == 5 {
        proof {
            reveal_strlit("5");
            assert("5"@ =~= seq![digit_char(5)]);
        }
        "5"
    } else if d == 6 {
        proof {
            reveal_strlit("6");
            assert("6"@ =~= seq![digit_char(6)]);
        }
        "6"
    } else if d == 7 {
        proof {
            reveal_strlit("7");
            assert("7"@ =~= seq![digit_char(7)]);
        }
        "7"
    } else if d == 8 {
        proof {
            reveal_strlit("8");
            assert("8"@ =~= seq![digit_char(8)]);
        }
        "8"
    } else {
        proof {
            reveal_strlit("9");
            assert("9"@ =~= seq![digit_char(9)]);
        }
        "9"
    }
}

/// Renders `n` in decimal.
pub fn u64_to_dec(n: u64) -> (s: String)
    ensures
        s@ == dec_digits(n as nat),
    decreases n,
{
    if n < 10 {
        String::from_str(digit_str(n))
    } else {
        let prefix = u64_to_dec(n / 10);
        let s = prefix.concat(digit_str(n % 10));
        proof {
            assert(dec_digits((n / 10) as nat) + seq![digit_char((n % 10) as nat)] =~= dec_digits(
                n as nat,
            ));
        }
        s
    }
}

/// Timestamp the simulated store stamps on every record.
pub open spec fn mock_timestamp() -> Seq<char> {
    "2024-01-01T00:00:00Z"@
}

/// The record the simulated store holds at index `i` of the listing.
pub open spec fn is_mock_user(u: User, i: nat) -> bool {
    &&& u.id@ == dec_digits(i)
    &&& u.email@ == "user"@ + dec_digits(i) + "@example.com"@
    &&& u.name@ == "User "@ + dec_digits(i)
    &&& u.status == UserStatus::Active
    &&& u.created_at@ == mock_timestamp()
    &&& u.updated_at@ == mock_timestamp()
}

/// Synthesizes the listing record at index `i`.
fn mock_user(i: u64) -> (u: User)
    ensures
        is_mock_user(u, i as nat),
{
    let id = u64_to_dec(i);
    let email = String::from_str("user").concat(id.as_str()).concat("@example.com");
    let name = String::from_str("User ").concat(id.as_str());
    User {
        id,
        email,
        name,
        status: UserStatus::Active,
        created_at: String::from_str("2024-01-01T00:00:00Z"),
        updated_at: String::from_str("2024-01-01T00:00:00Z"),
    }
}

/// Message attached to a NotFound error for `id`.
pub open spec fn not_found_message(id: Seq<char>) -> Seq<char> {
    "User with id "@ + id + " not found"@
}

/// Builds the NotFound error for `id`.
fn not_found_error(id: &str) -> (e: AppError)
    ensures
        e matches AppError::NotFound(m) && m@ == not_found_message(id@),
{
    AppError::NotFound(String::from_str("User with id ").concat(id).concat(" not found"))
}

/// Whether the simulated store has no record under `id`: the lookup
/// operations treat exactly this identifier as absent.
pub open spec fn store_absent(id: Seq<char>) -> bool {
    id == "999"@
}

/// Decides absence against the simulated store.
fn is_absent(id: &String) -> (b: bool)
    ensures
        b == store_absent(id@),
{
    let probe = String::from_str("999");
    *id == probe
}

/// First item index of the requested page slice.
pub open spec fn slice_start(page: int, page_size: int) -> int {
    (page - 1) * page_size
}

/// One past the last item index of the requested page slice.
pub open spec fn slice_end(page: int, page_size: int, total: int) -> int {
    if page * page_size < total {
        page * page_size
    } else {
        total
    }
}

/// Number of items on the requested page: empty when the page lies beyond
/// the collection (a policy, not an error, at this layer).
pub open spec fn slice_len(page: int, page_size: int, total: int) -> int {
    if slice_start(page, page_size) < slice_end(page, page_size, total) {
        slice_end(page, page_size, total) - slice_start(page, page_size)
    } else {
        0
    }
}

/// Lists a page of users. Rejects out-of-range pagination bounds as
/// BadRequest; a page beyond the collection yields an empty item list, never
/// an error. On success the envelope carries the page slice together with
/// the full page descriptor.
pub fn list_users(query: ListUsersQuery) -> (r: Result<
    ApiResponse<PaginatedResponse<User>>,
    AppError,
>)
    ensures
        query.page < 1 ==> (r matches Err(e) && e matches AppError::BadRequest(m) && m@
            == "page must be >= 1"@),
        query.page >= 1 && !(1 <= query.page_size <= 100) ==> (r matches Err(e) && e matches
            AppError::BadRequest(m) && m@ == "page_size must be between 1 and 100"@),
        query.page >= 1 && 1 <= query.page_size <= 100 ==> (r matches Ok(env) && env.wf()
            && env.error is None && (env.data matches Some(p) && {
            &&& p.total == MOCK_TOTAL
            &&& p.page == query.page
            &&& p.page_size == query.page_size
            &&& p.pages == pages_of(MOCK_TOTAL as int, query.page_size as int)
            &&& p.items@.len() == slice_len(
                query.page as int,
                query.page_size as int,
                MOCK_TOTAL as int,
            )
            &&& forall|k: int|
                0 <= k < p.items@.len() ==> is_mock_user(
                    #[trigger] p.items@[k],
                    (slice_start(query.page as int, query.page_size as int) + k) as nat,
                )
        })),
{
    if query.page < 1 {
        return Err(AppError::BadRequest(String::from_str("page must be >= 1")));
    }
    if query.page_size < 1 || query.page_size > 100 {
        return Err(AppError::BadRequest(String::from_str("page_size must be between 1 and 100")));
    }
    let total: i64 = MOCK_TOTAL;
    let mut items: Vec<User> = Vec::new();
    if query.page - 1 <= total {
        proof {
            let pg = query.page as int;
            let ps = query.page_size as int;
            assert(0 <= (pg - 1) * ps <= 10000 && 0 <= pg * ps <= 10100) by (nonlinear_arith)
                requires
                    1 <= pg <= 101,
                    1 <= ps <= 100,
            ;
        }
        let start = (query.page - 1) * query.page_size;
        let end_raw = query.page * query.page_size;
        let end = if end_raw < total {
            end_raw
        } else {
            total
        };
        let mut i = start;
        while i < end
            invariant
                1 <= query.page,
                1 <= query.page_size <= 100,
                query.page - 1 <= total,
                total == MOCK_TOTAL,
                start == slice_start(query.page as int, query.page_size as int),
                end == slice_end(query.page as int, query.page_size as int, total as int),
                0 <= start <= i,
                i <= end || i == start,
                0 <= i <= 10100,
                items@.len() == i - start,
                forall|k: int|
                    0 <= k < items@.len() ==> is_mock_user(
                        #[trigger] items@[k],
                        (start + k) as nat,
                    ),
            decreases end - i,
        {
            items.push(mock_user(i as u64));
            i = i + 1;
        }
    } else {
        proof {
            lemma_mul_inequality(1, query.page_size as int, query.page as int - 1);
        }
    }
    let resp = PaginatedResponse::new(items, total, query.page, query.page_size);
    Ok(ApiResponse::success(resp))
}

/// Creates a user. A violated field rule yields ValidationError carrying the
/// full ordered detail list; on success the store assigns the identifier and
/// timestamps and the envelope comes with the created status code.
pub fn create_user(payload: UserCreate) -> (r: Result<(u16, ApiResponse<User>), AppError>)
    ensures
        create_error_list(payload).len() > 0 ==> (r matches Err(e) && e matches
            AppError::ValidationError(m, d) && m@ == "Validation failed"@ && details_view(d@)
            == create_error_list(payload)),
        create_error_list(payload).len() == 0 ==> (r matches Ok((code, env)) && code == 201
            && env.wf() && env.error is None && (env.data matches Some(u) && {
            &&& u.id@ == "123"@
            &&& u.email == payload.email
            &&& u.name == payload.name
            &&& u.status == payload.status
            &&& u.created_at@ == mock_timestamp()
            &&& u.updated_at@ == mock_timestamp()
        })),
{
    let details = validate_create(&payload);
    if details.len() > 0 {
        return Err(AppError::ValidationError(String::from_str("Validation failed"), details));
    }
    let user = User {
        id: String::from_str("123"),
        email: payload.email,
        name: payload.name,
        status: payload.status,
        created_at: String::from_str("2024-01-01T00:00:00Z"),
        updated_at: String::from_str("2024-01-01T00:00:00Z"),
    };
    Ok((201, ApiResponse::success(user)))
}

/// Fetches a user by identifier: NotFound when the store has none, else a
/// success envelope around the stored record.
pub fn get_user(user_id: String) -> (r: Result<ApiResponse<User>, AppError>)
    ensures
        store_absent(user_id@) ==> (r matches Err(e) && e matches AppError::NotFound(m) && m@
            == not_found_message(user_id@)),
        !store_absent(user_id@) ==> (r matches Ok(env) && env.wf() && env.error is None
            && (env.data matches Some(u) && {
            &&& u.id == user_id
            &&& u.email@ == "user@example.com"@
            &&& u.name@ == "User Name"@
            &&& u.status == UserStatus::Active
            &&& u.created_at@ == mock_timestamp()
            &&& u.updated_at@ == mock_timestamp()
        })),
{
    if is_absent(&user_id) {
        return Err(not_found_error(user_id.as_str()));
    }
    let user = User {
        id: user_id,
        email: String::from_str("user@example.com"),
        name: String::from_str("User Name"),
        status: UserStatus::Active,
        created_at: String::from_str("2024-01-01T00:00:00Z"),
        updated_at: String::from_str("2024-01-01T00:00:00Z"),
    };
    Ok(ApiResponse::success(user))
}

/// Partially updates a user: validation first (present fields only), then
/// the existence check, then the merge - a present field replaces the stored
/// one, an absent field leaves it unchanged.
pub fn update_user(user_id: String, payload: UserUpdate) -> (r: Result<ApiResponse<User>, AppError>)
    ensures
        update_error_list(payload).len() > 0 ==> (r matches Err(e) && e matches
            AppError::ValidationError(m, d) && m@ == "Validation failed"@ && details_view(d@)
            == update_error_list(payload)),
        update_error_list(payload).len() == 0 && store_absent(user_id@) ==> (r matches Err(e)
            && e matches AppError::NotFound(m) && m@ == not_found_message(user_id@)),
        update_error_list(payload).len() == 0 && !store_absent(user_id@) ==> (r matches Ok(env)
            && env.wf() && env.error is None && (env.data matches Some(u) && {
            &&& u.id == user_id
            &&& match payload.email {
                Some(e) => u.email == e,
                None => u.email@ == "user@example.com"@,
            }
            &&& match payload.name {
                Some(n) => u.name == n,
                None => u.name@ == "User Name"@,
            }
            &&& match payload.status {
                Some(s) => u.status == s,
                None => u.status == UserStatus::Active,
            }
            &&& u.created_at@ == mock_timestamp()
            &&& u.updated_at@ == mock_timestamp()
        })),
{
    let details = validate_update(&payload);
    if details.len() > 0 {
        return Err(AppError::ValidationError(String::from_str("Validation failed"), details));
    }
    if is_absent(&user_id) {
        return Err(not_found_error(user_id.as_str()));
    }
    let UserUpdate { email, name, status } = payload;
    let email = match email {
        Some(e) => e,
        None => String::from_str("user@example.com"),
    };
    let name = match name {
        Some(n) => n,
        None => String::from_str("User Name"),
    };
    let status = match status {
        Some(s) => s,
        None => UserStatus::Active,
    };
    let user = User {
        id: user_id,
        email,
        name,
        status,
        created_at: String::from_str("2024-01-01T00:00:00Z"),
        updated_at: String::from_str("2024-01-01T00:00:00Z"),
    };
    Ok(ApiResponse::success(user))
}

/// What a delete result must look like for the identifier `id`: NotFound
/// with the standard message when the store has no such record, else the
/// no-body success status.
pub open spec fn delete_post(id: Seq<char>, r: Result<u16, AppError>) -> bool {
    &&& store_absent(id) ==> (r matches Err(e) && e matches AppError::NotFound(m) && m@
        == not_found_message(id))
    &&& !store_absent(id) ==> r == Ok::<u16, AppError>(204u16)
}

/// Deletes a user: NotFound when absent, else the no-body success status
/// (there is no envelope for a bodiless response).
pub fn delete_user(user_id: String) -> (r: Result<u16, AppError>)
    ensures
        delete_post(user_id@, r),
{
    if is_absent(&user_id) {
        return Err(not_found_error(user_id.as_str()));
    }
    Ok(204)
}

/// Deleting an already-absent identifier is idempotent in its
/// classification: because a delete result is a function of the identifier
/// alone, any two delete results for the same absent identifier are NotFound
/// with the same status code and the same message.
pub proof fn lemma_delete_absent_idempotent(
    id: Seq<char>,
    r1: Result<u16, AppError>,
    r2: Result<u16, AppError>,
)
    requires
        store_absent(id),
        delete_post(id, r1),
        delete_post(id, r2),
    ensures
        r1 matches Err(e1) && e1 matches AppError::NotFound(m1) && m1@ == not_found_message(id),
        r2 matches Err(e2) && e2 matches AppError::NotFound(m2) && m2@ == not_found_message(id),
        r1->Err_0.status_spec() == r2->Err_0.status_spec(),
        r1->Err_0.message_spec() == r2->Err_0.message_spec(),
{
}

} // verus!
