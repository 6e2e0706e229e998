//! The reviews service of the federated graph: which product and author
//! each review belongs to, how far a user is trusted, and how entity
//! representations resolve.

use vstd::prelude::*;
use vstd::string::*;

use crate::accounts::MissingKey;
use crate::text::str_eq;

verus! {

/// A picture attached to a review.
pub struct Picture {
    pub url: String,
    pub width: u32,
    pub height: u32,
    pub alt_text: String,
}

/// A review.
pub struct Review {
    pub id: String,
    pub body: String,
    pub pictures: Vec<Picture>,
}

/// A product as this service knows it: its UPC and price.
pub struct Product {
    pub upc: String,
    pub price: u32,
}

/// A user as this service knows it.
pub struct User {
    pub id: String,
    pub review_count: u32,
    pub joined_timestamp: u64,
}

/// How far a user is trusted.
#[derive(PartialEq, Eq, Structural, Copy, Clone, Debug)]
pub enum Trustworthiness {
    ReallyTrusted,
    KindaTrusted,
    NotTrusted,
}

/// Whether the service knows a review by this id.
pub open spec fn known_review(id: Seq<char>) -> bool {
    id == "review-1"@ || id == "review-2"@ || id == "review-3"@
}

/// The UPC of the product that a known review is about.
pub open spec fn review_upc(id: Seq<char>) -> Seq<char> {
    if id == "review-1"@ {
        "top-1"@
    } else if id == "review-2"@ {
        "top-2"@
    } else {
        "top-3"@
    }
}

/// The price of the product that a known review is about.
pub open spec fn review_price(id: Seq<char>) -> u32 {
    if id == "review-1"@ {
        10
    } else if id == "review-2"@ {
        20
    } else {
        30
    }
}

/// The id of the author of a known review.
pub open spec fn review_author_id(id: Seq<char>) -> Seq<char> {
    if id == "review-1"@ || id == "review-2"@ {
        "1234"@
    } else {
        "7777"@
    }
}

/// How many reviews the user with this id has written.
pub open spec fn review_count_of(id: Seq<char>) -> u32 {
    if id == "1234"@ {
        2
    } else if id == "7777"@ {
        1
    } else {
        0
    }
}

/// The joined timestamp assumed when the request did not supply one.
pub const DEFAULT_JOINED_TIMESTAMP: u64 = 9001;

/// The user with this id, joined at the given time (or at the default).
pub fn user_by_id(id: String, joined_timestamp: Option<u64>) -> (r: User)
    ensures
        r.id == id,
        r.review_count == review_count_of(id@),
        r.joined_timestamp == (match joined_timestamp {
            Some(t) => t,
            None => DEFAULT_JOINED_TIMESTAMP,
        }),
{
    let review_count: u32 = if str_eq(id.as_str(), "1234") {
        2
    } else if str_eq(id.as_str(), "7777") {
        1
    } else {
        0
    };
    let joined_timestamp = match joined_timestamp {
        Some(t) => t,
        None => DEFAULT_JOINED_TIMESTAMP,
    };
    User { id, review_count, joined_timestamp }
}

/// The trust level of a user: long-standing users with several reviews
/// are really trusted, early users kinda, the rest not.
pub open spec fn trust_of(review_count: u32, joined_timestamp: u64) -> Trustworthiness {
    if joined_timestamp < 1000 && review_count > 1 {
        Trustworthiness::ReallyTrusted
    } else if joined_timestamp < 2000 {
        Trustworthiness::KindaTrusted
    } else {
        Trustworthiness::NotTrusted
    }
}

impl User {
    /// How far this user is trusted.
    pub fn trustworthiness(&self) -> (r: Trustworthiness)
        ensures
            r == trust_of(self.review_count, self.joined_timestamp),
    {
        if self.joined_timestamp < 1000 && self.review_count > 1 {
            Trustworthiness::ReallyTrusted
        } else if self.joined_timestamp < 2000 {
            Trustworthiness::KindaTrusted
        } else {
            Trustworthiness::NotTrusted
        }
    }
}

impl Review {
    /// The product that this review is about.
    pub fn get_product(&self) -> (r: Product)
        requires
            known_review(self.id@),
        ensures
            r.upc@ == review_upc(self.id@),
            r.price == review_price(self.id@),
    {
        if str_eq(self.id.as_str(), "review-1") {
            Product { upc: "top-1".to_owned(), price: 10 }
        } else if str_eq(self.id.as_str(), "review-2") {
            Product { upc: "top-2".to_owned(), price: 20 }
        } else {
            Product { upc: "top-3".to_owned(), price: 30 }
        }
    }

    /// The author of this review.
    pub fn get_author(&self) -> (r: User)
        requires
            known_review(self.id@),
        ensures
            r.id@ == review_author_id(self.id@),
            r.review_count == review_count_of(r.id@),
            r.joined_timestamp == DEFAULT_JOINED_TIMESTAMP,
    {
        let user_id = if str_eq(self.id.as_str(), "review-1") || str_eq(
            self.id.as_str(),
            "review-2",
        ) {
            "1234".to_owned()
        } else {
            "7777".to_owned()
        };
        user_by_id(user_id, None)
    }
}

/// The indices, ascending, of the reviews written by the user with this id.
pub open spec fn reviews_by(reviews: Seq<Review>, user_id: Seq<char>) -> Seq<usize>
    decreases reviews.len(),
{
    if reviews.len() == 0 {
        Seq::empty()
    } else {
        let prev = reviews_by(reviews.drop_last(), user_id);
        if review_author_id(reviews.last().id@) == user_id {
            prev.push((reviews.len() - 1) as usize)
        } else {
            prev
        }
    }
}

/// The reviews written by the user with this id, by index.
pub fn reviews_of_user(reviews: &Vec<Review>, user_id: &str) -> (r: Vec<usize>)
    requires
        forall|i: int| 0 <= i < reviews@.len() ==> known_review((#[trigger] reviews@[i]).id@),
    ensures
        r@ == reviews_by(reviews@, user_id@),
{
    let mut out: Vec<usize> = Vec::new();
    let mut i: usize = 0;
    while i < reviews.len()
        invariant
            i <= reviews@.len(),
            forall|k: int| 0 <= k < reviews@.len() ==> known_review((#[trigger] reviews@[k]).id@),
            out@ == reviews_by(reviews@.subrange(0, i as int), user_id@),
        decreases reviews@.len() - i,
    {
        assert(reviews@.subrange(0, i + 1).drop_last() =~= reviews@.subrange(0, i as int));
        let author = reviews[i].get_author();
        if str_eq(author.id.as_str(), user_id) {
            out.push(i);
        }
        i = i + 1;
    }
    assert(reviews@.subrange(0, i as int) =~= reviews@);
    out
}

/// An entity that a representation resolves to.
pub enum Entity {
    User(User),
    Product(Product),
}

/// Resolves one entity representation: a `User` by its `id` (with the
/// joined timestamp if the request gave one), a `Product` by its `upc` at
/// price zero. Other types resolve to nothing. `key` is the `id` or the
/// `upc`, as the type asks.
pub fn resolve_entity(typename: &str, key: Option<String>, joined_timestamp: Option<u64>) -> (r:
    Result<Option<Entity>, MissingKey>)
    ensures
        typename@ != "User"@ && typename@ != "Product"@ ==> r matches Ok(None),
        (typename@ == "User"@ || typename@ == "Product"@) && key is None ==> r is Err,
        typename@ == "User"@ ==> (key matches Some(k) ==> r matches Ok(Some(Entity::User(u)))
            && u.id == k && u.review_count == review_count_of(k@) && u.joined_timestamp == (
        match joined_timestamp {
            Some(t) => t,
            None => DEFAULT_JOINED_TIMESTAMP,
        })),
        typename@ == "Product"@ && typename@ != "User"@ ==> (key matches Some(k) ==> r matches Ok(
            Some(Entity::Product(p)),
        ) && p.upc == k && p.price == 0),
{
    if str_eq(typename, "User") {
        match key {
            None => Err(MissingKey),
            Some(id) => Ok(Some(Entity::User(user_by_id(id, joined_timestamp)))),
        }
    } else if str_eq(typename, "Product") {
        match key {
            None => Err(MissingKey),
            Some(upc) => Ok(Some(Entity::Product(Product { upc, price: 0 }))),
        }
    } else {
        Ok(None)
    }
}

} // verus!
