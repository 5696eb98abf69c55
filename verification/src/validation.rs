//! The validation engine: per-field rules over the create and update inputs,
//! collected into an ordered field-error list in one pass.
//!
//! Validation never short-circuits: every field is checked and every violated
//! rule yields its own entry, in field-declaration order, so a client can fix
//! all problems in one round trip. It never mutates its input.

use crate::envelope::{details_view, DetailView, ErrorDetail};
use crate::model::{UserCreate, UserUpdate};
use vstd::prelude::*;
use vstd::string::{StrSliceExecFns, StringExecFns};

verus! {

/// Number of occurrences of `c` in `s`.
pub open spec fn count_matching(s: Seq<char>, c: char) -> nat
    decreases s.len(),
{
    if s.len() == 0 {
        0
    } else {
        count_matching(s.drop_last(), c) + if s.last() == c {
            1nat
        } else {
            0nat
        }
    }
}

/// Conservative syntactic email check: exactly one `@`, with a non-empty
/// local part before it and a non-empty domain part after it.
pub open spec fn valid_email(s: Seq<char>) -> bool {
    &&& count_matching(s, '@') == 1
    &&& s.first() != '@'
    &&& s.last() != '@'
}

/// Name rule: between 1 and 100 characters, both bounds inclusive.
pub open spec fn valid_name(s: Seq<char>) -> bool {
    1 <= s.len() <= 100
}

/// Password rule: at least 8 characters, no upper bound.
pub open spec fn valid_password(s: Seq<char>) -> bool {
    s.len() >= 8
}

/// Decides the email rule.
pub fn check_email(s: &str) -> (r: bool)
    ensures
        r == valid_email(s@),
{
    let n = s.unicode_len();
    if n == 0 {
        return false;
    }
    let mut count: usize = 0;
    let mut i: usize = 0;
    while i < n
        invariant
            i <= n,
            n == s@.len(),
            count <= i,
            count == count_matching(s@.take(i as int), '@'),
        decreases n - i,
    {
        let c = s.get_char(i);
        proof {
            assert(s@.take(i + 1).drop_last() =~= s@.take(i as int));
            assert(s@.take(i + 1).last() == s@[i as int]);
        }
        if c == '@' {
            count = count + 1;
        }
        i = i + 1;
    }
    proof {
        assert(s@.take(n as int) =~= s@);
    }
    let first = s.get_char(0);
    let last = s.get_char(n - 1);
    count == 1 && first != '@' && last != '@'
}

/// The field-error list the create input earns: one entry per violated rule,
/// in field-declaration order (email, name, password).
pub open spec fn create_error_list(c: UserCreate) -> Seq<DetailView> {
    (if valid_email(c.email@) {
        Seq::<DetailView>::empty()
    } else {
        seq![(Some("email"@), "Invalid email format"@)]
    }) + (if valid_name(c.name@) {
        Seq::<DetailView>::empty()
    } else {
        seq![(Some("name"@), "Name must be 1-100 characters"@)]
    }) + (if valid_password(c.password@) {
        Seq::<DetailView>::empty()
    } else {
        seq![(Some("password"@), "Password must be at least 8 characters"@)]
    })
}

/// The field-error list the partial-update input earns: only present fields
/// are checked, against the same rules as on create, in declaration order.
pub open spec fn update_error_list(u: UserUpdate) -> Seq<DetailView> {
    (match u.email {
        Some(e) => if valid_email(e@) {
            Seq::<DetailView>::empty()
        } else {
            seq![(Some("email"@), "Invalid email format"@)]
        },
        None => Seq::<DetailView>::empty(),
    }) + (match u.name {
        Some(n) => if valid_name(n@) {
            Seq::<DetailView>::empty()
        } else {
            seq![(Some("name"@), "Name must be 1-100 characters"@)]
        },
        None => Seq::<DetailView>::empty(),
    })
}

/// Validates the create input: returns the full field-error list, empty
/// exactly when every rule holds.
pub fn validate_create(c: &UserCreate) -> (r: Vec<ErrorDetail>)
    ensures
        details_view(r@) == create_error_list(*c),
        r@.len() == create_error_list(*c).len(),
{
    let mut out: Vec<ErrorDetail> = Vec::new();
    if !check_email(c.email.as_str()) {
        out.push(
            ErrorDetail {
                field: Some(String::from_str("email")),
                message: String::from_str("Invalid email format"),
            },
        );
    }
    let name_len = c.name.as_str().unicode_len();
    if name_len < 1 || name_len > 100 {
        out.push(
            ErrorDetail {
                field: Some(String::from_str("name")),
                message: String::from_str("Name must be 1-100 characters"),
            },
        );
    }
    let password_len = c.password.as_str().unicode_len();
    if password_len < 8 {
        out.push(
            ErrorDetail {
                field: Some(String::from_str("password")),
                message: String::from_str("Password must be at least 8 characters"),
            },
        );
    }
    proof {
        assert(details_view(out@) =~= create_error_list(*c));
    }
    out
}

/// Validates the partial-update input: present fields are held to the same
/// rules as on create; absent fields earn no entry.
pub fn validate_update(u: &UserUpdate) -> (r: Vec<ErrorDetail>)
    ensures
        details_view(r@) == update_error_list(*u),
        r@.len() == update_error_list(*u).len(),
{
    let mut out: Vec<ErrorDetail> = Vec::new();
    match &u.email {
        Some(e) => {
            if !check_email(e.as_str()) {
                out.push(
                    ErrorDetail {
                        field: Some(String::from_str("email")),
                        message: String::from_str("Invalid email format"),
                    },
                );
            }
        },
        None => {},
    }
    match &u.name {
        Some(n) => {
            let name_len = n.as_str().unicode_len();
            if name_len < 1 || name_len > 100 {
                out.push(
                    ErrorDetail {
                        field: Some(String::from_str("name")),
                        message: String::from_str("Name must be 1-100 characters"),
                    },
                );
            }
        },
        None => {},
    }
    proof {
        assert(details_view(out@) =~= update_error_list(*u));
    }
    out
}

/// Whether some entry of the list names the field `f`.
pub open spec fn has_field_entry(l: Seq<DetailView>, f: Seq<char>) -> bool {
    exists|i: int| 0 <= i < l.len() && l[i].0 == Some(f)
}

/// Validation of the create input collects every violated field in one pass
/// and never raises more than one message per violated rule per field: the
/// list holds one entry per violated rule, an entry names a field exactly
/// when that field's rule fails, and no two entries name the same field.
pub proof fn lemma_create_validation_complete(c: UserCreate)
    ensures
        create_error_list(c).len() == (if valid_email(c.email@) {
            0int
        } else {
            1int
        }) + (if valid_name(c.name@) {
            0int
        } else {
            1int
        }) + (if valid_password(c.password@) {
            0int
        } else {
            1int
        }),
        has_field_entry(create_error_list(c), "email"@) <==> !valid_email(c.email@),
        has_field_entry(create_error_list(c), "name"@) <==> !valid_name(c.name@),
        has_field_entry(create_error_list(c), "password"@) <==> !valid_password(c.password@),
        forall|i: int, j: int|
            0 <= i < j < create_error_list(c).len()
                ==> #[trigger] create_error_list(c)[i].0 != #[trigger] create_error_list(c)[j].0,
{
    reveal_strlit("email");
    reveal_strlit("name");
    reveal_strlit("password");
    let l = create_error_list(c);
    assert("email"@.len() == 5 && "name"@.len() == 4 && "password"@.len() == 8);
    if !valid_email(c.email@) {
        assert(l[0].0 == Some("email"@));
    }
    if !valid_name(c.name@) {
        let idx = if valid_email(c.email@) {
            0int
        } else {
            1int
        };
        assert(l[idx].0 == Some("name"@));
    }
    if !valid_password(c.password@) {
        let idx = (if valid_email(c.email@) {
            0int
        } else {
            1int
        }) + (if valid_name(c.name@) {
            0int
        } else {
            1int
        });
        assert(l[idx].0 == Some("password"@));
    }
}

/// The same completeness and one-entry-per-rule statement for the
/// partial-update input, over its present fields.
pub proof fn lemma_update_validation_complete(u: UserUpdate)
    ensures
        update_error_list(u).len() == (match u.email {
            Some(e) => if valid_email(e@) {
                0int
            } else {
                1int
            },
            None => 0int,
        }) + (match u.name {
            Some(n) => if valid_name(n@) {
                0int
            } else {
                1int
            },
            None => 0int,
        }),
        has_field_entry(update_error_list(u), "email"@) <==> (u.email matches Some(e)
            && !valid_email(e@)),
        has_field_entry(update_error_list(u), "name"@) <==> (u.name matches Some(n) && !valid_name(
            n@,
        )),
        forall|i: int, j: int|
            0 <= i < j < update_error_list(u).len()
                ==> #[trigger] update_error_list(u)[i].0 != #[trigger] update_error_list(u)[j].0,
{
    reveal_strlit("email");
    reveal_strlit("name");
    assert("email"@.len() == 5 && "name"@.len() == 4);
    let l = update_error_list(u);
    if u.email matches Some(e) && !valid_email(e@) {
        assert(l[0].0 == Some("email"@));
    }
    if u.name matches Some(n) && !valid_name(n@) {
        let idx = match u.email {
            Some(e) => if valid_email(e@) {
                0int
            } else {
                1int
            },
            None => 0int,
        };
        assert(l[idx].0 == Some("name"@));
    }
}

} // verus!
