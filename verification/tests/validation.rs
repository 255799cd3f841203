use credential_rotation::form::{empty_or_long, Field, FieldErrors, FormModel, MIN_PASSWORD_LENGTH};

fn form(old: &str, new: &str, confirm: &str) -> FormModel {
    FormModel::new(old.to_string(), new.to_string(), confirm.to_string())
}

const CLEAN: FieldErrors = FieldErrors {
    old_password_missing: false,
    old_password_short: false,
    password_short: false,
    confirm_mismatch: false,
};

#[test]
fn minimum_length_is_eight() {
    assert_eq!(MIN_PASSWORD_LENGTH, 8);
}

#[test]
fn well_formed_self_service_form_is_valid() {
    let f = form("oldpass1", "newpass1", "newpass1");
    assert!(f.validate(false));
    assert_eq!(f.check(false), CLEAN);
    assert!(f.check(false).is_clean());
}

#[test]
fn mismatched_confirmation_is_rejected() {
    let f = form("oldpass1", "abcdefgh", "abcdefgi");
    assert!(!f.validate(false));
    assert_eq!(f.check(false), FieldErrors { confirm_mismatch: true, ..CLEAN });
    assert_eq!(
        f.check(false).field_message(Field::ConfirmPassword),
        "Passwords must match"
    );
    assert_eq!(f.check(false).field_message(Field::Password), "");
    assert_eq!(f.check(false).field_message(Field::OldPassword), "");
}

#[test]
fn short_new_password_is_rejected() {
    let f = form("oldpass1", "abcdefg", "abcdefg");
    assert!(!f.validate(false));
    assert!(!f.validate(true));
    assert_eq!(f.check(false), FieldErrors { password_short: true, ..CLEAN });
    assert_eq!(
        f.check(false).field_message(Field::Password),
        "Invalid password. Min length: 8"
    );
}

#[test]
fn new_password_of_exactly_eight_characters_is_accepted() {
    assert!(form("oldpass1", "12345678", "12345678").validate(false));
    assert!(!form("oldpass1", "1234567", "1234567").validate(false));
}

#[test]
fn new_password_length_counts_characters() {
    // Five characters in ten bytes.
    let f = form("oldpass1", "ééééé", "ééééé");
    assert!(f.check(false).password_short);
    // Eight characters in sixteen bytes.
    assert!(form("oldpass1", "éééééééé", "éééééééé").validate(false));
}

#[test]
fn confirmation_must_match_exactly() {
    assert!(form("oldpass1", "newpass1", "Newpass1").check(false).confirm_mismatch);
    assert!(form("oldpass1", "newpass1", "newpass1 ").check(false).confirm_mismatch);
    assert!(form("oldpass1", "newpass1", "").check(false).confirm_mismatch);
    assert!(!form("oldpass1", "newpass1", "newpass1").check(false).confirm_mismatch);
}

#[test]
fn empty_old_password_needs_privilege() {
    let f = form("", "newpass1", "newpass1");
    assert!(!f.validate(false));
    assert_eq!(f.check(false), FieldErrors { old_password_missing: true, ..CLEAN });
    assert_eq!(
        f.check(false).field_message(Field::OldPassword),
        "Current password should not be empty"
    );
    assert!(f.validate(true));
    assert_eq!(f.check(true), CLEAN);
}

#[test]
fn truncated_old_password_is_rejected() {
    let f = form("short", "newpass1", "newpass1");
    assert!(!f.validate(false));
    assert!(!f.validate(true));
    assert_eq!(f.check(false), FieldErrors { old_password_short: true, ..CLEAN });
    assert_eq!(
        f.check(false).field_message(Field::OldPassword),
        "Password should be longer than 8 characters"
    );
}

#[test]
fn every_failing_field_is_reported() {
    let f = form("short", "abc", "abd");
    assert_eq!(
        f.check(false),
        FieldErrors {
            old_password_missing: false,
            old_password_short: true,
            password_short: true,
            confirm_mismatch: true,
        }
    );
    assert!(!f.check(false).is_clean());
}

#[test]
fn empty_or_long_accepts_empty_and_eight_characters() {
    assert!(empty_or_long(""));
    assert!(empty_or_long("12345678"));
    assert!(empty_or_long("123456789"));
    assert!(!empty_or_long("1"));
    assert!(!empty_or_long("1234567"));
}

#[test]
fn empty_or_long_counts_characters() {
    // Four characters in eight bytes.
    assert!(!empty_or_long("éééé"));
    // Five characters in ten bytes.
    assert!(!empty_or_long("ééééé"));
    // Seven characters in fourteen bytes.
    assert!(!empty_or_long("ééééééé"));
    // Eight characters in sixteen bytes.
    assert!(empty_or_long("éééééééé"));
}

#[test]
fn old_and_new_password_are_measured_alike() {
    let f = form("ééééé", "ééééé", "ééééé");
    assert!(f.check(false).old_password_short);
    assert!(f.check(false).password_short);
    let f = form("éééééééé", "éééééééé", "éééééééé");
    assert_eq!(f.check(false), CLEAN);
    assert!(f.validate(false));
}

#[test]
fn clean_findings_have_no_messages() {
    assert_eq!(CLEAN.field_message(Field::OldPassword), "");
    assert_eq!(CLEAN.field_message(Field::Password), "");
    assert_eq!(CLEAN.field_message(Field::ConfirmPassword), "");
}
