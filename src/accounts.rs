//! The accounts service of the federated graph: the signed-in user and
//! users resolved by id.

use vstd::prelude::*;
use vstd::string::*;

use crate::text::{join2, str_eq};

verus! {

/// A profile picture.
pub struct Picture {
    pub url: String,
    pub width: u32,
    pub height: u32,
}

/// A user account.
pub struct User {
    pub id: String,
    pub username: String,
    pub profile_picture: Option<Picture>,
    pub review_count: u32,
    pub joined_timestamp: u64,
}

/// The id of the signed-in user.
pub open spec fn me_id() -> Seq<char> {
    "1234"@
}

/// Whether `u` is the signed-in user's account.
pub open spec fn is_me(u: User) -> bool {
    &&& u.id@ == me_id()
    &&& u.username@ == "Me"@
    &&& u.profile_picture matches Some(p) && p.url@ == "http://localhost:8080/me.jpg"@ && p.width
        == 256 && p.height == 256
    &&& u.review_count == 0
    &&& u.joined_timestamp == 1
}

/// Whether `u` is the account that the service makes up for another id.
pub open spec fn is_other_user(u: User, id: Seq<char>) -> bool {
    &&& u.id@ == id
    &&& u.username@ == "User "@ + id
    &&& u.profile_picture is None
    &&& u.review_count == 0
    &&& u.joined_timestamp == 1500
}

impl User {
    /// The signed-in user's account.
    pub fn me() -> (r: User)
        ensures
            is_me(r),
    {
        User {
            id: "1234".to_owned(),
            username: "Me".to_owned(),
            profile_picture: Some(
                Picture { url: "http://localhost:8080/me.jpg".to_owned(), width: 256, height: 256 },
            ),
            review_count: 0,
            joined_timestamp: 1,
        }
    }
}

/// A representation that named a type but lacked its key field.
#[derive(PartialEq, Eq, Structural, Copy, Clone, Debug)]
pub struct MissingKey;

/// The queries of the accounts service.
pub struct Query;

impl Query {
    /// The signed-in user.
    pub fn me(&self) -> (r: User)
        ensures
            is_me(r),
    {
        User::me()
    }

    /// The account with this id: the signed-in user's own, or one made up
    /// for any other id.
    pub fn find_user_by_id(&self, id: String) -> (r: User)
        ensures
            id@ == me_id() ==> is_me(r),
            id@ != me_id() ==> is_other_user(r, id@),
    {
        if str_eq(id.as_str(), "1234") {
            User::me()
        } else {
            let username = join2("User ", id.as_str());
            User { id, username, profile_picture: None, review_count: 0, joined_timestamp: 1500 }
        }
    }

    /// Resolves one entity representation: a `User` with its `id`. Other
    /// types resolve to nothing here.
    pub fn resolve_entity(&self, typename: &str, id: Option<String>) -> (r: Result<
        Option<User>,
        MissingKey,
    >)
        ensures
            typename@ != "User"@ ==> r matches Ok(None),
            typename@ == "User"@ ==> match id {
                None => r == Err::<Option<User>, MissingKey>(MissingKey),
                Some(i) => r matches Ok(Some(u)) && (if i@ == me_id() {
                    is_me(u)
                } else {
                    is_other_user(u, i@)
                }),
            },
    {
        if !str_eq(typename, "User") {
            return Ok(None);
        }
        match id {
            None => Err(MissingKey),
            Some(i) => Ok(Some(self.find_user_by_id(i))),
        }
    }
}

} // verus!
