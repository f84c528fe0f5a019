//! User accounts as the record store holds them, and the making of new ones.

use vstd::prelude::*;

verus! {

/// A user account; times are Unix seconds.
pub struct User {
    pub id: String,
    pub email: String,
    pub phone: Option<String>,
    pub last_logged_in: Option<i64>,
    pub verified: bool,
    pub role: String,
    pub created_at: Option<i64>,
}

/// An account about to be stored.
pub struct NewUser {
    pub id: String,
    pub email: String,
    pub phone: Option<String>,
    pub verified: bool,
    pub role: String,
}

/// The roles an account can hold.
#[derive(PartialEq, Eq, Structural, Clone, Copy, Debug)]
pub enum Role {
    Admin,
    User,
}

/// The text under which a role is stored.
pub open spec fn role_text(role: Role) -> Seq<char> {
    match role {
        Role::Admin => seq!['A', 'd', 'm', 'i', 'n'],
        Role::User => seq!['u', 's', 'e', 'r'],
    }
}

impl Role {
    /// The text under which this role is stored.
    pub fn as_string(&self) -> (r: String)
        ensures
            r@ == role_text(*self),
    {
        proof {
            reveal_strlit("Admin");
            reveal_strlit("user");
        }
        let r = match self {
            Role::Admin => "Admin".to_owned(),
            Role::User => "user".to_owned(),
        };
        proof {
            assert(r@ =~= role_text(*self));
        }
        r
    }
}

/// Whether `c` is a lower-case hexadecimal digit.
pub open spec fn is_lower_hex(c: char) -> bool {
    ('0' <= c && c <= '9') || ('a' <= c && c <= 'f')
}

/// Relies on uuid's `Uuid::new_v4()` written with `simple()`: 32 lower-case
/// hexadecimal digits drawn at random.
#[verifier::external_body]
fn random_uuid_simple() -> (r: String)
    ensures
        r@.len() == 32,
        forall|i: int| 0 <= i < 32 ==> is_lower_hex(#[trigger] r@[i]),
{
    uuid::Uuid::new_v4().simple().to_string()
}

/// A new, unverified account with the plain user role and a fresh random id.
pub fn new_user_record(email: &str, phone: Option<&str>) -> (r: NewUser)
    ensures
        r.id@.len() == 32,
        forall|i: int| 0 <= i < 32 ==> is_lower_hex(#[trigger] r.id@[i]),
        r.email@ == email@,
        match phone {
            Some(p) => r.phone matches Some(q) && q@ == p@,
            None => r.phone is None,
        },
        !r.verified,
        r.role@ == role_text(Role::User),
{
    let phone = match phone {
        Some(p) => Some(p.to_owned()),
        None => None,
    };
    NewUser {
        id: random_uuid_simple(),
        email: email.to_owned(),
        phone,
        verified: false,
        role: Role::User.as_string(),
    }
}

/// The public view of an account.
pub struct FilteredUser {
    pub id: String,
    pub email: String,
    pub phone: Option<String>,
    pub last_logged_in: Option<i64>,
    pub verified: bool,
    pub role: String,
    pub created_at: Option<i64>,
}

/// The public view of `user`: every field but none hidden or changed.
pub fn filtered_user_record(user: &User) -> (r: FilteredUser)
    ensures
        r.id == user.id,
        r.email == user.email,
        r.phone == user.phone,
        r.last_logged_in == user.last_logged_in,
        r.verified == user.verified,
        r.role == user.role,
        r.created_at == user.created_at,
{
    let phone = match &user.phone {
        Some(p) => Some(p.clone()),
        None => None,
    };
    FilteredUser {
        id: user.id.clone(),
        email: user.email.clone(),
        phone,
        last_logged_in: user.last_logged_in,
        verified: user.verified,
        role: user.role.clone(),
        created_at: user.created_at,
    }
}

} // verus!
