use vstd::prelude::*;
use vstd::string::StringExecFns;

verus! {

/// The role a stored user holds; it is fixed when the user is stored.
#[derive(Clone, Copy, Debug, PartialEq, Eq, Structural)]
pub enum Role {
    User,
    Admin,
}

/// The failures that a fallible lookup can signal.
///
/// Only `NotFound` is produced today; `Unknown` is kept so that the set of
/// variants, and with it the encoded shape, stays as it is.
#[derive(Clone, Copy, Debug, PartialEq, Eq, Structural)]
pub enum Error {
    NotFound,
    Unknown,
}

/// A failure kind with no values: the declared error of an operation that
/// cannot fail. Its one field is of std's uninhabited `Infallible`, so no
/// caller can ever build one.
#[derive(Clone, Copy, Debug, PartialEq, Eq)]
pub struct Error2(core::convert::Infallible);

/// One stored user. Its identity is the identifier the store assigns to it.
#[derive(Clone, Debug, PartialEq, Eq)]
pub struct User {
    pub active: bool,
    pub name: String,
    pub role: Role,
    pub age: u8,
    pub salary: u64,
    pub favorite_numbers: Vec<u32>,
}

/// The mathematical value of a `User`: its fields, with the string and the
/// list as sequences.
pub struct UserView {
    pub active: bool,
    pub name: Seq<char>,
    pub role: Role,
    pub age: u8,
    pub salary: u64,
    pub favorite_numbers: Seq<u32>,
}

impl View for User {
    type V = UserView;

    open spec fn view(&self) -> UserView {
        UserView {
            active: self.active,
            name: self.name@,
            role: self.role,
            age: self.age,
            salary: self.salary,
            favorite_numbers: self.favorite_numbers@,
        }
    }
}

/// The user that `get_user` hands out for an identifier with no stored user.
pub open spec fn sentinel_user() -> UserView {
    UserView {
        active: false,
        name: seq!['n', 'o', 'n', 'e'],
        role: Role::Admin,
        age: 0,
        salary: 0,
        favorite_numbers: Seq::empty(),
    }
}

impl User {
    /// A user made of the given fields.
    pub fn new(
        active: bool,
        name: String,
        role: Role,
        age: u8,
        salary: u64,
        favorite_numbers: Vec<u32>,
    ) -> (r: User)
        ensures
            r@ == (UserView {
                active,
                name: name@,
                role,
                age,
                salary,
                favorite_numbers: favorite_numbers@,
            }),
    {
        User { active, name, role, age, salary, favorite_numbers }
    }

    /// The stand-in for a missing user: inactive, named "none", an admin,
    /// with every number zero and no favorite numbers.
    pub fn sentinel() -> (r: User)
        ensures
            r@ == sentinel_user(),
    {
        proof {
            reveal_strlit("none");
        }
        let r = User {
            active: false,
            name: String::from_str("none"),
            role: Role::Admin,
            age: 0,
            salary: 0,
            favorite_numbers: Vec::new(),
        };
        assert(r@.name =~= sentinel_user().name);
        assert(r@.favorite_numbers =~= sentinel_user().favorite_numbers);
        r
    }

    /// A copy of this user with the same value.
    pub fn duplicate(&self) -> (r: User)
        ensures
            r@ == self@,
    {
        let numbers = self.favorite_numbers.clone();
        assert(numbers@ =~= self.favorite_numbers@);
        User {
            active: self.active,
            name: self.name.clone(),
            role: self.role,
            age: self.age,
            salary: self.salary,
            favorite_numbers: numbers,
        }
    }
}

} // verus!
