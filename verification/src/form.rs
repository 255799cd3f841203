use vstd::prelude::*;
use vstd::string::StringExecFns;

verus! {

/// Shortest password that is accepted.
pub const MIN_PASSWORD_LENGTH: u64 = 8;

/// The three inputs of the form.
#[derive(Clone, Copy, Debug, PartialEq, Eq)]
pub enum Field {
    OldPassword,
    Password,
    ConfirmPassword,
}

/// The fields of the form, as they stand when it is submitted.
#[derive(Debug, PartialEq, Eq)]
pub struct FormModel {
    pub old_password: String,
    pub password: String,
    pub confirm_password: String,
}

/// The contents of a form.
pub struct FormContent {
    pub old_password: Seq<char>,
    pub password: Seq<char>,
    pub confirm_password: Seq<char>,
}

impl View for FormModel {
    type V = FormContent;

    open spec fn view(&self) -> FormContent {
        FormContent {
            old_password: self.old_password@,
            password: self.password@,
            confirm_password: self.confirm_password@,
        }
    }
}

/// Which constraints a form fails. All `false` means that it may be sent.
#[derive(Clone, Copy, Debug, PartialEq, Eq, Structural)]
pub struct FieldErrors {
    /// The current password is required and was left empty.
    pub old_password_missing: bool,
    /// The current password is neither empty nor at least eight characters
    /// long.
    pub old_password_short: bool,
    /// The new password has fewer than eight characters.
    pub password_short: bool,
    /// The confirmation differs from the new password.
    pub confirm_mismatch: bool,
}

/// A value is acceptable as a current password when it is empty or has at
/// least eight characters.
pub open spec fn spec_empty_or_long(value: Seq<char>) -> bool {
    value.len() == 0 || value.len() >= MIN_PASSWORD_LENGTH
}

/// The constraints that the three values fail.
pub open spec fn spec_check(
    old_password: Seq<char>,
    password: Seq<char>,
    confirm_password: Seq<char>,
    is_admin: bool,
) -> FieldErrors {
    FieldErrors {
        old_password_missing: !is_admin && old_password.len() == 0,
        old_password_short: !spec_empty_or_long(old_password),
        password_short: password.len() < MIN_PASSWORD_LENGTH,
        confirm_mismatch: confirm_password != password,
    }
}

/// The text shown beside `field` for the given findings; empty when the
/// field is fine.
pub open spec fn spec_field_message(errors: FieldErrors, field: Field) -> Seq<char> {
    match field {
        Field::OldPassword => if errors.old_password_missing {
            "Current password should not be empty"@
        } else if errors.old_password_short {
            "Password should be longer than 8 characters"@
        } else {
            ""@
        },
        Field::Password => if errors.password_short {
            "Invalid password. Min length: 8"@
        } else {
            ""@
        },
        Field::ConfirmPassword => if errors.confirm_mismatch {
            "Passwords must match"@
        } else {
            ""@
        },
    }
}

/// `validator::validate_length` with only a lower bound: the number of
/// characters of `value` is compared with `min`.
#[verifier::external_body]
fn length_at_least(value: &str, min: u64) -> (ok: bool)
    ensures
        ok == (value@.len() >= min),
{
    validator::validate_length(value, Some(min), None, None)
}

/// `validator::validate_must_match` on two strings: they are compared for
/// equality, character by character.
#[verifier::external_body]
fn must_match(a: &str, b: &str) -> (ok: bool)
    ensures
        ok == (a@ == b@),
{
    validator::validate_must_match(a, b)
}

/// Whether `value` is empty or at least eight characters long.
pub fn empty_or_long(value: &str) -> (ok: bool)
    ensures
        ok == spec_empty_or_long(value@),
{
    value.is_empty() || length_at_least(value, MIN_PASSWORD_LENGTH)
}

impl FieldErrors {
    /// No constraint is violated.
    pub open spec fn spec_is_clean(self) -> bool {
        !self.old_password_missing && !self.old_password_short && !self.password_short
            && !self.confirm_mismatch
    }

    #[verifier::when_used_as_spec(spec_is_clean)]
    pub fn is_clean(self) -> (clean: bool)
        ensures
            clean == self.spec_is_clean(),
    {
        !self.old_password_missing && !self.old_password_short && !self.password_short
            && !self.confirm_mismatch
    }

    /// The text to show beside `field`; empty when that field is fine.
    pub fn field_message(self, field: Field) -> (message: String)
        ensures
            message@ == spec_field_message(self, field),
    {
        match field {
            Field::OldPassword => if self.old_password_missing {
                String::from_str("Current password should not be empty")
            } else if self.old_password_short {
                String::from_str("Password should be longer than 8 characters")
            } else {
                String::from_str("")
            },
            Field::Password => if self.password_short {
                String::from_str("Invalid password. Min length: 8")
            } else {
                String::from_str("")
            },
            Field::ConfirmPassword => if self.confirm_mismatch {
                String::from_str("Passwords must match")
            } else {
                String::from_str("")
            },
        }
    }
}

impl FormContent {
    /// The constraints that this form fails.
    pub open spec fn findings(self, is_admin: bool) -> FieldErrors {
        spec_check(self.old_password, self.password, self.confirm_password, is_admin)
    }

    /// The form may be sent: the current password is present unless the
    /// caller is privileged, and is empty or long enough; the new password is
    /// long enough; the confirmation repeats it.
    pub open spec fn valid(self, is_admin: bool) -> bool {
        &&& is_admin || self.old_password.len() > 0
        &&& spec_empty_or_long(self.old_password)
        &&& self.password.len() >= MIN_PASSWORD_LENGTH
        &&& self.confirm_password == self.password
    }
}

impl FormModel {
    /// A form with the given inputs.
    pub fn new(old_password: String, password: String, confirm_password: String) -> (form: Self)
        ensures
            form@ == (FormContent {
                old_password: old_password@,
                password: password@,
                confirm_password: confirm_password@,
            }),
    {
        FormModel { old_password, password, confirm_password }
    }

    /// Evaluates every constraint, so that each failing field can be marked.
    pub fn check(&self, is_admin: bool) -> (errors: FieldErrors)
        ensures
            errors == self@.findings(is_admin),
            errors.spec_is_clean() == self@.valid(is_admin),
    {
        FieldErrors {
            old_password_missing: !is_admin && self.old_password.as_str().is_empty(),
            old_password_short: !empty_or_long(self.old_password.as_str()),
            password_short: !length_at_least(self.password.as_str(), MIN_PASSWORD_LENGTH),
            confirm_mismatch: !must_match(
                self.confirm_password.as_str(),
                self.password.as_str(),
            ),
        }
    }

    /// Whether the form may be sent.
    pub fn validate(&self, is_admin: bool) -> (valid: bool)
        ensures
            valid == self@.valid(is_admin),
    {
        self.check(is_admin).is_clean()
    }
}

} // verus!
