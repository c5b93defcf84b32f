use vstd::prelude::*;

use crate::models::{role_text, Timestamp, User, UserRole};
use crate::text::{hyphenated, is_email, uuid_text};
use crate::validation::{
    check_email, check_match, check_min_chars, check_range, email_rule, finish, match_rule,
    min_chars, outcome_view, range_rule, report, report_spec, Violation,
};

verus! {

/// A registration request.
pub struct RegisterUserDto {
    pub name: String,
    pub email: String,
    pub password: String,
    pub password_confirm: String,
}

impl RegisterUserDto {
    /// The first violation of each field, in declaration order.
    pub open spec fn violations(&self) -> Seq<(Seq<char>, Seq<char>)> {
        let pw = min_chars(self.password@, 6, "Password must be at least 6 characters"@);
        let confirm = match_rule(
            self.password_confirm@,
            min_chars(self.password_confirm@, 1, "Confirm  Password is required"@),
            self.password@,
            pw,
            "passwords do not match"@,
        );
        let s = report_spec(
            Seq::empty(),
            "name"@,
            min_chars(self.name@, 1, "Name is required"@),
        );
        let s = report_spec(s, "email"@, email_rule(self.email@));
        let s = report_spec(s, "password"@, pw);
        report_spec(s, "password_confirm"@, confirm)
    }

    /// Checks every field's constraints.
    pub fn validate(&self) -> (r: Result<(), Vec<Violation>>)
        ensures
            outcome_view(r) == self.violations(),
            r is Ok <==> self.violations().len() == 0,
    {
        let mut out: Vec<Violation> = Vec::new();
        report(&mut out, "name", check_min_chars(&self.name, 1, "Name is required"));
        report(&mut out, "email", check_email(&self.email));
        let pw = check_min_chars(&self.password, 6, "Password must be at least 6 characters");
        let own = check_min_chars(&self.password_confirm, 1, "Confirm  Password is required");
        let confirm = check_match(
            &self.password_confirm,
            own,
            &self.password,
            &pw,
            "passwords do not match",
        );
        report(&mut out, "password", pw);
        report(&mut out, "password_confirm", confirm);
        finish(out)
    }
}

/// A registration whose confirmation differs from a password that meets its
/// own length constraint fails, and one of its violations is on the
/// confirmation field.
pub proof fn lemma_register_mismatch_names_confirmation(d: RegisterUserDto)
    requires
        d.password_confirm@ != d.password@,
        d.password@.len() >= 6,
    ensures
        d.violations().len() > 0,
        exists|i: int|
            0 <= i < d.violations().len() && (#[trigger] d.violations()[i]).0
                == "password_confirm"@,
{
    let v = d.violations();
    assert(v.last().0 == "password_confirm"@);
    assert(v[v.len() - 1].0 == "password_confirm"@);
}

/// A registration whose fields all meet their constraints and whose
/// confirmation equals the password passes validation.
pub proof fn lemma_register_valid(d: RegisterUserDto)
    requires
        d.name@.len() >= 1,
        d.email@.len() >= 1,
        is_email(d.email@),
        d.password@.len() >= 6,
        d.password_confirm@ == d.password@,
    ensures
        d.violations().len() == 0,
{
}

/// A login request.
pub struct LoginUserDto {
    pub email: String,
    pub password: String,
}

impl LoginUserDto {
    /// The first violation of each field, in declaration order.
    pub open spec fn violations(&self) -> Seq<(Seq<char>, Seq<char>)> {
        let s = report_spec(Seq::empty(), "email"@, email_rule(self.email@));
        report_spec(
            s,
            "password"@,
            min_chars(self.password@, 6, "Password must be at least 6 characters"@),
        )
    }

    /// Checks every field's constraints.
    pub fn validate(&self) -> (r: Result<(), Vec<Violation>>)
        ensures
            outcome_view(r) == self.violations(),
            r is Ok <==> self.violations().len() == 0,
    {
        let mut out: Vec<Violation> = Vec::new();
        report(&mut out, "email", check_email(&self.email));
        report(
            &mut out,
            "password",
            check_min_chars(&self.password, 6, "Password must be at least 6 characters"),
        );
        finish(out)
    }
}

/// A pagination query.
pub struct RequestQueryDto {
    pub page: Option<usize>,
    pub limit: Option<usize>,
}

impl RequestQueryDto {
    /// The first violation of each field, in declaration order.
    pub open spec fn violations(&self) -> Seq<(Seq<char>, Seq<char>)> {
        let s = report_spec(
            Seq::empty(),
            "page"@,
            range_rule(self.page, 1, usize::MAX as nat, "Page must be greater than 0"@),
        );
        report_spec(s, "limit"@, range_rule(self.limit, 1, 50, "Limit must be greater than 0"@))
    }

    /// Checks every field's constraints.
    pub fn validate(&self) -> (r: Result<(), Vec<Violation>>)
        ensures
            outcome_view(r) == self.violations(),
            r is Ok <==> self.violations().len() == 0,
    {
        let mut out: Vec<Violation> = Vec::new();
        report(
            &mut out,
            "page",
            check_range(self.page, 1, usize::MAX, "Page must be greater than 0"),
        );
        report(&mut out, "limit", check_range(self.limit, 1, 50, "Limit must be greater than 0"));
        finish(out)
    }
}

/// A name change.
pub struct NameUpdateDto {
    pub name: String,
}

impl NameUpdateDto {
    /// The first violation of each field, in declaration order.
    pub open spec fn violations(&self) -> Seq<(Seq<char>, Seq<char>)> {
        report_spec(Seq::empty(), "name"@, min_chars(self.name@, 1, "Name is required"@))
    }

    /// Checks every field's constraints.
    pub fn validate(&self) -> (r: Result<(), Vec<Violation>>)
        ensures
            outcome_view(r) == self.violations(),
            r is Ok <==> self.violations().len() == 0,
    {
        let mut out: Vec<Violation> = Vec::new();
        report(&mut out, "name", check_min_chars(&self.name, 1, "Name is required"));
        finish(out)
    }
}

/// Only administrators and plain users may be assigned through a role update.
pub open spec fn role_rule(role: UserRole) -> Option<Seq<char>> {
    match role {
        UserRole::Admin | UserRole::User => None,
        _ => Some("Invalid role"@),
    }
}

/// Narrows the role domain to the two assignable roles.
fn validate_user_role(role: &UserRole) -> (r: Result<(), String>)
    ensures
        match r {
            Ok(_) => role_rule(*role) is None,
            Err(m) => role_rule(*role) == Some(m@),
        },
{
    match role {
        UserRole::Admin | UserRole::User => Ok(()),
        _ => Err(String::from_str("Invalid role")),
    }
}

/// A role change.
pub struct RoleUpdateDto {
    pub role: UserRole,
}

impl RoleUpdateDto {
    /// The first violation of each field, in declaration order.
    pub open spec fn violations(&self) -> Seq<(Seq<char>, Seq<char>)> {
        report_spec(Seq::empty(), "role"@, role_rule(self.role))
    }

    /// Checks every field's constraints.
    pub fn validate(&self) -> (r: Result<(), Vec<Violation>>)
        ensures
            outcome_view(r) == self.violations(),
            r is Ok <==> self.violations().len() == 0,
    {
        let mut out: Vec<Violation> = Vec::new();
        let outcome = match validate_user_role(&self.role) {
            Ok(_) => None,
            Err(m) => Some(m),
        };
        report(&mut out, "role", outcome);
        finish(out)
    }
}

/// A role update passes validation exactly when the role is one of the two
/// assignable roles; any other role fails on the role field.
pub proof fn lemma_role_whitelist(d: RoleUpdateDto)
    ensures
        d.violations().len() == 0 <==> (d.role == UserRole::Admin || d.role == UserRole::User),
        d.role == UserRole::Moderator ==> d.violations() == seq![("role"@, "Invalid role"@)],
{
}

/// A password change by a signed-in user.
pub struct UserPasswordUpdateDto {
    pub new_password: String,
    pub new_password_confirm: String,
    pub old_password: String,
}

impl UserPasswordUpdateDto {
    /// The first violation of each field, in declaration order.
    pub open spec fn violations(&self) -> Seq<(Seq<char>, Seq<char>)> {
        let msg = "Password must be at least 6 characters"@;
        let pw = min_chars(self.new_password@, 6, msg);
        let confirm = match_rule(
            self.new_password_confirm@,
            min_chars(self.new_password_confirm@, 6, msg),
            self.new_password@,
            pw,
            "passwords do not match"@,
        );
        let s = report_spec(Seq::empty(), "new_password"@, pw);
        let s = report_spec(s, "new_password_confirm"@, confirm);
        report_spec(s, "old_password"@, min_chars(self.old_password@, 6, msg))
    }

    /// Checks every field's constraints.
    pub fn validate(&self) -> (r: Result<(), Vec<Violation>>)
        ensures
            outcome_view(r) == self.violations(),
            r is Ok <==> self.violations().len() == 0,
    {
        let mut out: Vec<Violation> = Vec::new();
        let msg = "Password must be at least 6 characters";
        let pw = check_min_chars(&self.new_password, 6, msg);
        let own = check_min_chars(&self.new_password_confirm, 6, msg);
        let confirm = check_match(
            &self.new_password_confirm,
            own,
            &self.new_password,
            &pw,
            "passwords do not match",
        );
        report(&mut out, "new_password", pw);
        report(&mut out, "new_password_confirm", confirm);
        report(&mut out, "old_password", check_min_chars(&self.old_password, 6, msg));
        finish(out)
    }
}

/// The query of an e-mail verification link.
pub struct VerifyEmailQueryDto {
    pub token: String,
}

impl VerifyEmailQueryDto {
    /// The first violation of each field, in declaration order.
    pub open spec fn violations(&self) -> Seq<(Seq<char>, Seq<char>)> {
        report_spec(Seq::empty(), "token"@, min_chars(self.token@, 1, "Token is required"@))
    }

    /// Checks every field's constraints.
    pub fn validate(&self) -> (r: Result<(), Vec<Violation>>)
        ensures
            outcome_view(r) == self.violations(),
            r is Ok <==> self.violations().len() == 0,
    {
        let mut out: Vec<Violation> = Vec::new();
        report(&mut out, "token", check_min_chars(&self.token, 1, "Token is required"));
        finish(out)
    }
}

/// A request for a password-reset link.
pub struct ForgotPasswordRequestDto {
    pub email: String,
}

impl ForgotPasswordRequestDto {
    /// The first violation of each field, in declaration order.
    pub open spec fn violations(&self) -> Seq<(Seq<char>, Seq<char>)> {
        report_spec(Seq::empty(), "email"@, email_rule(self.email@))
    }

    /// Checks every field's constraints.
    pub fn validate(&self) -> (r: Result<(), Vec<Violation>>)
        ensures
            outcome_view(r) == self.violations(),
            r is Ok <==> self.violations().len() == 0,
    {
        let mut out: Vec<Violation> = Vec::new();
        report(&mut out, "email", check_email(&self.email));
        finish(out)
    }
}

/// A password reset through an emailed token.
pub struct ResetPasswordRequestDto {
    pub token: String,
    pub new_password: String,
    pub new_password_confirm: String,
}

impl ResetPasswordRequestDto {
    /// The first violation of each field, in declaration order.
    pub open spec fn violations(&self) -> Seq<(Seq<char>, Seq<char>)> {
        let pw = min_chars(self.new_password@, 6, "New Password must be at least 6 characters"@);
        let confirm = match_rule(
            self.new_password_confirm@,
            min_chars(
                self.new_password_confirm@,
                6,
                "Confirm New Password must be at least 6 characters"@,
            ),
            self.new_password@,
            pw,
            "new passwords do not match"@,
        );
        let s = report_spec(Seq::empty(), "token"@, min_chars(self.token@, 1, "Token is required"@));
        let s = report_spec(s, "new_password"@, pw);
        report_spec(s, "new_password_confirm"@, confirm)
    }

    /// Checks every field's constraints.
    pub fn validate(&self) -> (r: Result<(), Vec<Violation>>)
        ensures
            outcome_view(r) == self.violations(),
            r is Ok <==> self.violations().len() == 0,
    {
        let mut out: Vec<Violation> = Vec::new();
        report(&mut out, "token", check_min_chars(&self.token, 1, "Token is required"));
        let pw = check_min_chars(
            &self.new_password,
            6,
            "New Password must be at least 6 characters",
        );
        let own = check_min_chars(
            &self.new_password_confirm,
            6,
            "Confirm New Password must be at least 6 characters",
        );
        let confirm = check_match(
            &self.new_password_confirm,
            own,
            &self.new_password,
            &pw,
            "new passwords do not match",
        );
        report(&mut out, "new_password", pw);
        report(&mut out, "new_password_confirm", confirm);
        finish(out)
    }
}

/// The public view of a stored user: no password or hash material.
pub struct FilterUserDto {
    pub id: String,
    pub name: String,
    pub email: String,
    pub role: String,
    pub verified: bool,
    pub created_at: Timestamp,
    pub updated_at: Timestamp,
}

/// `d` is the public view of `u`: the identifier in its hyphenated form, the
/// role as its lowercase token, the other fields copied.
pub open spec fn projects(d: FilterUserDto, u: User) -> bool {
    &&& d.id@ == hyphenated(u.id)
    &&& d.name@ == u.name@
    &&& d.email@ == u.email@
    &&& d.role@ == role_text(u.role)
    &&& d.verified == u.verified
    &&& d.created_at == u.created_at
    &&& d.updated_at == u.updated_at
}

impl FilterUserDto {
    /// The public view of one user.
    pub fn filter_user(user: &User) -> (r: Self)
        ensures
            projects(r, *user),
    {
        FilterUserDto {
            id: uuid_text(user.id),
            name: user.name.clone(),
            email: user.email.clone(),
            verified: user.verified,
            role: String::from_str(user.role.to_str()),
            created_at: user.created_at,
            updated_at: user.updated_at,
        }
    }

    /// The public views of a sequence of users, one per user, in order.
    pub fn filter_users(user: &[User]) -> (r: Vec<FilterUserDto>)
        ensures
            r@.len() == user@.len(),
            forall|i: int| 0 <= i < user@.len() ==> projects(#[trigger] r@[i], user@[i]),
    {
        let mut out: Vec<FilterUserDto> = Vec::new();
        let mut i: usize = 0;
        while i < user.len()
            invariant
                i <= user@.len(),
                out@.len() == i,
                forall|j: int| 0 <= j < i ==> projects(#[trigger] out@[j], user@[j]),
            decreases user@.len() - i,
        {
            out.push(FilterUserDto::filter_user(&user[i]));
            i = i + 1;
        }
        out
    }
}

/// The `data` member of a single-user response.
pub struct UserData {
    pub user: FilterUserDto,
}

/// `{"status": "success", "data": {"user": ...}}`.
pub struct UserResponseDto {
    pub status: String,
    pub data: UserData,
}

/// `{"status": "success", "users": [...], "results": n}`.
pub struct UserListResponseDto {
    pub status: String,
    pub users: Vec<FilterUserDto>,
    pub results: i64,
}

/// `{"status": "success", "token": ...}`.
pub struct UserLoginResponseDto {
    pub status: String,
    pub token: String,
}

/// A plain status and message.
pub struct Response {
    pub status: &'static str,
    pub message: String,
}

} // verus!
