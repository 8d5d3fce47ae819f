use vstd::prelude::*;

use crate::error::{Error, ErrorCode};

verus! {

/// The four access tiers.
#[derive(Clone, Copy, Debug, PartialEq, Eq, Structural)]
pub enum AccessLevel {
    Read,
    Write,
    Internal,
    Admin,
}

/// The lowercase name under which a level is stored and sent.
pub open spec fn level_name(l: AccessLevel) -> Seq<char> {
    match l {
        AccessLevel::Read => seq!['r', 'e', 'a', 'd'],
        AccessLevel::Write => seq!['w', 'r', 'i', 't', 'e'],
        AccessLevel::Internal => seq!['i', 'n', 't', 'e', 'r', 'n', 'a', 'l'],
        AccessLevel::Admin => seq!['a', 'd', 'm', 'i', 'n'],
    }
}

/// The level a string names, if it names one.
pub open spec fn parse_level(s: Seq<char>) -> Option<AccessLevel> {
    if s == level_name(AccessLevel::Read) {
        Some(AccessLevel::Read)
    } else if s == level_name(AccessLevel::Write) {
        Some(AccessLevel::Write)
    } else if s == level_name(AccessLevel::Internal) {
        Some(AccessLevel::Internal)
    } else if s == level_name(AccessLevel::Admin) {
        Some(AccessLevel::Admin)
    } else {
        None
    }
}

pub open spec fn is_admin_name(s: Seq<char>) -> bool {
    parse_level(s) == Some(AccessLevel::Admin)
}

impl AccessLevel {
    pub fn from(s: String) -> (r: Option<AccessLevel>)
        ensures
            r == parse_level(s@),
    {
        proof {
            reveal_strlit("read");
            reveal_strlit("write");
            reveal_strlit("internal");
            reveal_strlit("admin");
            assert("read"@ =~= level_name(AccessLevel::Read));
            assert("write"@ =~= level_name(AccessLevel::Write));
            assert("internal"@ =~= level_name(AccessLevel::Internal));
            assert("admin"@ =~= level_name(AccessLevel::Admin));
        }
        if s == String::from_str("read") {
            Some(AccessLevel::Read)
        } else if s == String::from_str("write") {
            Some(AccessLevel::Write)
        } else if s == String::from_str("internal") {
            Some(AccessLevel::Internal)
        } else if s == String::from_str("admin") {
            Some(AccessLevel::Admin)
        } else {
            None
        }
    }

    pub fn to_string(&self) -> (r: String)
        ensures
            r@ == level_name(*self),
    {
        match self {
            AccessLevel::Read => {
                proof {
                    reveal_strlit("read");
                    assert("read"@ =~= level_name(AccessLevel::Read));
                }
                String::from_str("read")
            },
            AccessLevel::Write => {
                proof {
                    reveal_strlit("write");
                    assert("write"@ =~= level_name(AccessLevel::Write));
                }
                String::from_str("write")
            },
            AccessLevel::Internal => {
                proof {
                    reveal_strlit("internal");
                    assert("internal"@ =~= level_name(AccessLevel::Internal));
                }
                String::from_str("internal")
            },
            AccessLevel::Admin => {
                proof {
                    reveal_strlit("admin");
                    assert("admin"@ =~= level_name(AccessLevel::Admin));
                }
                String::from_str("admin")
            },
        }
    }

    pub fn is_readable(&self) -> (r: bool)
        ensures
            r,
    {
        true
    }

    pub fn is_writable(&self) -> (r: bool)
        ensures
            r == (*self == AccessLevel::Write || *self == AccessLevel::Internal
                || *self == AccessLevel::Admin),
    {
        *self == AccessLevel::Write || *self == AccessLevel::Internal || *self
            == AccessLevel::Admin
    }

    pub fn is_internal(&self) -> (r: bool)
        ensures
            r == (*self == AccessLevel::Internal || *self == AccessLevel::Admin),
    {
        *self == AccessLevel::Internal || *self == AccessLevel::Admin
    }

    pub fn is_admin(&self) -> (r: bool)
        ensures
            r == (*self == AccessLevel::Admin),
    {
        *self == AccessLevel::Admin
    }
}

/// Every level is named by exactly one string, and parsing that string gives it back.
pub proof fn lemma_level_round_trip(l: AccessLevel)
    ensures
        parse_level(level_name(l)) == Some(l),
        level_name(l).len() > 0,
{
    assert(level_name(AccessLevel::Read) != level_name(AccessLevel::Write));
    assert(level_name(AccessLevel::Read) != level_name(AccessLevel::Internal));
    assert(level_name(AccessLevel::Read) != level_name(AccessLevel::Admin));
    assert(level_name(AccessLevel::Write) != level_name(AccessLevel::Internal));
    assert(level_name(AccessLevel::Write) != level_name(AccessLevel::Admin));
    assert(level_name(AccessLevel::Internal) != level_name(AccessLevel::Admin)) by {
        assert(level_name(AccessLevel::Internal).len() != level_name(AccessLevel::Admin).len());
    }
}

/// A string that parses to a level is that level's name; any other string parses to nothing.
pub proof fn lemma_parse_inverts_name(s: Seq<char>)
    ensures
        parse_level(s) matches Some(l) ==> level_name(l) == s,
        parse_level(s) is None ==> forall|l: AccessLevel| level_name(l) != s,
{
}

/// The stored form of an account.
pub struct User {
    pub id: String,
    pub name: String,
    pub password: String,
    pub access_level: String,
}

/// The mathematical value of an account.
pub struct UserView {
    pub id: Seq<char>,
    pub name: Seq<char>,
    pub password: Seq<char>,
    pub access_level: Seq<char>,
}

impl View for User {
    type V = UserView;

    open spec fn view(&self) -> UserView {
        UserView {
            id: self.id@,
            name: self.name@,
            password: self.password@,
            access_level: self.access_level@,
        }
    }
}

/// The values of a sequence of accounts.
pub open spec fn user_views(s: Seq<User>) -> Seq<UserView> {
    s.map_values(|u: User| u@)
}

/// What a new account must satisfy: a known level and no empty field.
pub open spec fn valid_account(u: UserView) -> bool {
    parse_level(u.access_level) is Some && u.id.len() > 0 && u.name.len() > 0 && u.password.len()
        > 0
}

/// What an update must satisfy: as for a new account, but the password may be empty.
pub open spec fn soft_valid_account(u: UserView) -> bool {
    parse_level(u.access_level) is Some && u.id.len() > 0 && u.name.len() > 0
}

impl User {
    pub fn validate(&self) -> (r: Result<(), Error>)
        ensures
            r is Ok <==> valid_account(self@),
            r matches Err(e) ==> e.code == ErrorCode::InvalidData,
    {
        if AccessLevel::from(self.access_level.clone()).is_none() {
            return Err(Error::new(ErrorCode::InvalidData));
        }
        if self.id.as_str().is_empty() || self.name.as_str().is_empty()
            || self.password.as_str().is_empty() || self.access_level.as_str().is_empty() {
            Err(Error::new(ErrorCode::InvalidData))
        } else {
            Ok(())
        }
    }

    pub fn soft_validate(&self) -> (r: Result<(), Error>)
        ensures
            r is Ok <==> soft_valid_account(self@),
            r matches Err(e) ==> e.code == ErrorCode::InvalidData,
    {
        if AccessLevel::from(self.access_level.clone()).is_none() {
            return Err(Error::new(ErrorCode::InvalidData));
        }
        if self.id.as_str().is_empty() || self.name.as_str().is_empty()
            || self.access_level.as_str().is_empty() {
            Err(Error::new(ErrorCode::InvalidData))
        } else {
            Ok(())
        }
    }
}

/// The public projection of an account: it has no password field.
pub struct AbstractUser {
    pub id: String,
    pub name: String,
    pub access_level: String,
}

pub struct AbstractUserView {
    pub id: Seq<char>,
    pub name: Seq<char>,
    pub access_level: Seq<char>,
}

impl View for AbstractUser {
    type V = AbstractUserView;

    open spec fn view(&self) -> AbstractUserView {
        AbstractUserView { id: self.id@, name: self.name@, access_level: self.access_level@ }
    }
}

pub open spec fn project(u: UserView) -> AbstractUserView {
    AbstractUserView { id: u.id, name: u.name, access_level: u.access_level }
}

impl AbstractUser {
    pub fn from(user: &User) -> (r: AbstractUser)
        ensures
            r@ == project(user@),
    {
        AbstractUser {
            id: user.id.clone(),
            name: user.name.clone(),
            access_level: user.access_level.clone(),
        }
    }
}

} // verus!
