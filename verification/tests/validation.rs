use rest_api_core::model::{UserCreate, UserStatus, UserUpdate};
use rest_api_core::validation::{validate_create, validate_update};

fn create_input(email: &str, name: &str, password: &str) -> UserCreate {
    UserCreate {
        email: email.to_string(),
        name: name.to_string(),
        password: password.to_string(),
        status: UserStatus::Active,
    }
}

#[test]
fn all_empty_fields_yield_three_errors_in_field_order() {
    let errors = validate_create(&create_input("", "", ""));
    assert_eq!(errors.len(), 3);
    assert_eq!(errors[0].field.as_deref(), Some("email"));
    assert_eq!(errors[1].field.as_deref(), Some("name"));
    assert_eq!(errors[2].field.as_deref(), Some("password"));
}

#[test]
fn two_violations_yield_two_entries_in_one_pass() {
    // invalid email and too-short password together: 2 entries, not 1
    let errors = validate_create(&create_input("not-an-email", "Alice", "short"));
    assert_eq!(errors.len(), 2);
    assert_eq!(errors[0].field.as_deref(), Some("email"));
    assert_eq!(errors[0].message, "Invalid email format");
    assert_eq!(errors[1].field.as_deref(), Some("password"));
    assert_eq!(errors[1].message, "Password must be at least 8 characters");
}

#[test]
fn valid_create_input_yields_no_errors() {
    let errors = validate_create(&create_input("alice@example.com", "Alice", "longenough"));
    assert_eq!(errors.len(), 0);
}

#[test]
fn email_needs_exactly_one_at_with_nonempty_sides() {
    assert_eq!(validate_create(&create_input("a@b", "A", "password")).len(), 0);
    for bad in ["", "plain", "@domain", "local@", "a@@b", "a@b@c", "@"] {
        let errors = validate_create(&create_input(bad, "A", "password"));
        assert_eq!(errors.len(), 1, "email {:?} should be rejected", bad);
        assert_eq!(errors[0].field.as_deref(), Some("email"));
        assert_eq!(errors[0].message, "Invalid email format");
    }
}

#[test]
fn name_bounds_are_inclusive() {
    let name_100 = "n".repeat(100);
    let name_101 = "n".repeat(101);
    assert_eq!(validate_create(&create_input("a@b", &name_100, "password")).len(), 0);
    let errors = validate_create(&create_input("a@b", &name_101, "password"));
    assert_eq!(errors.len(), 1);
    assert_eq!(errors[0].field.as_deref(), Some("name"));
    assert_eq!(errors[0].message, "Name must be 1-100 characters");
    let errors = validate_create(&create_input("a@b", "", "password"));
    assert_eq!(errors.len(), 1);
    assert_eq!(errors[0].field.as_deref(), Some("name"));
}

#[test]
fn password_bound_is_a_lower_bound_only() {
    assert_eq!(validate_create(&create_input("a@b", "A", "12345678")).len(), 0);
    let long = "p".repeat(500);
    assert_eq!(validate_create(&create_input("a@b", "A", &long)).len(), 0);
    let errors = validate_create(&create_input("a@b", "A", "1234567"));
    assert_eq!(errors.len(), 1);
    assert_eq!(errors[0].field.as_deref(), Some("password"));
}

#[test]
fn update_with_no_fields_present_yields_no_errors() {
    let u = UserUpdate { email: None, name: None, status: None };
    assert_eq!(validate_update(&u).len(), 0);
}

#[test]
fn update_checks_only_present_fields() {
    let u = UserUpdate {
        email: Some("bad".to_string()),
        name: None,
        status: Some(UserStatus::Suspended),
    };
    let errors = validate_update(&u);
    assert_eq!(errors.len(), 1);
    assert_eq!(errors[0].field.as_deref(), Some("email"));
    assert_eq!(errors[0].message, "Invalid email format");

    let u = UserUpdate {
        email: Some("ok@example.com".to_string()),
        name: Some("".to_string()),
        status: None,
    };
    let errors = validate_update(&u);
    assert_eq!(errors.len(), 1);
    assert_eq!(errors[0].field.as_deref(), Some("name"));

    let u = UserUpdate {
        email: Some("bad".to_string()),
        name: Some("n".repeat(101)),
        status: None,
    };
    let errors = validate_update(&u);
    assert_eq!(errors.len(), 2);
    assert_eq!(errors[0].field.as_deref(), Some("email"));
    assert_eq!(errors[1].field.as_deref(), Some("name"));
}

#[test]
fn validation_does_not_depend_on_status() {
    for status in [UserStatus::Active, UserStatus::Inactive, UserStatus::Suspended] {
        let input = UserCreate {
            email: "alice@example.com".to_string(),
            name: "Alice".to_string(),
            password: "longenough".to_string(),
            status,
        };
        assert_eq!(validate_create(&input).len(), 0);
    }
}
