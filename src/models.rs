use vstd::prelude::*;

verus! {

/// An instant in UTC: whole seconds since the Unix epoch and the
/// nanoseconds past that second.
#[derive(PartialEq, Eq, Structural, Debug, Clone, Copy)]
pub struct Timestamp {
    pub seconds: i64,
    pub nanos: u32,
}

impl Timestamp {
    /// The nanoseconds stay under one second.
    pub open spec fn wf(&self) -> bool {
        self.nanos < 1_000_000_000
    }
}

/// The role domain of a user.
#[derive(PartialEq, Eq, Structural, Debug, Clone, Copy)]
pub enum UserRole {
    Admin,
    Moderator,
    User,
}

/// The canonical lowercase token of each role.
pub open spec fn role_text(r: UserRole) -> Seq<char> {
    match r {
        UserRole::Admin => "admin"@,
        UserRole::Moderator => "moderator"@,
        UserRole::User => "user"@,
    }
}

impl UserRole {
    /// The role's canonical lowercase token.
    pub fn to_str(&self) -> (r: &'static str)
        ensures
            r@ == role_text(*self),
    {
        match self {
            UserRole::Admin => "admin",
            UserRole::Moderator => "moderator",
            UserRole::User => "user",
        }
    }
}

/// A stored user, as persistence hands it over.
pub struct User {
    pub id: u128,
    pub name: String,
    pub email: String,
    pub password: String,
    pub role: UserRole,
    pub verified: bool,
    pub created_at: Timestamp,
    pub updated_at: Timestamp,
}

} // verus!
