//! Reviews that link to their author and product by key, and the lookups
//! that list a user's or a product's reviews.

use vstd::prelude::*;

use crate::text::str_eq;

verus! {

/// A user, known here by id alone.
pub struct User {
    pub id: String,
}

/// A product, known here by UPC alone.
pub struct Product {
    pub upc: String,
}

/// A review, with its author and product.
pub struct Review {
    pub body: String,
    pub author: User,
    pub product: Product,
}

/// The indices, ascending, of the reviews whose author (`by_author`) or
/// product (`!by_author`) has this key.
pub open spec fn linked(reviews: Seq<Review>, key: Seq<char>, by_author: bool) -> Seq<usize>
    decreases reviews.len(),
{
    if reviews.len() == 0 {
        Seq::empty()
    } else {
        let prev = linked(reviews.drop_last(), key, by_author);
        let r = reviews.last();
        if (if by_author { r.author.id@ } else { r.product.upc@ }) == key {
            prev.push((reviews.len() - 1) as usize)
        } else {
            prev
        }
    }
}

fn linked_reviews(reviews: &Vec<Review>, key: &str, by_author: bool) -> (r: Vec<usize>)
    ensures
        r@ == linked(reviews@, key@, by_author),
{
    let mut out: Vec<usize> = Vec::new();
    let mut i: usize = 0;
    while i < reviews.len()
        invariant
            i <= reviews@.len(),
            out@ == linked(reviews@.subrange(0, i as int), key@, by_author),
        decreases reviews@.len() - i,
    {
        assert(reviews@.subrange(0, i + 1).drop_last() =~= reviews@.subrange(0, i as int));
        let field = if by_author {
            reviews[i].author.id.as_str()
        } else {
            reviews[i].product.upc.as_str()
        };
        if str_eq(field, key) {
            out.push(i);
        }
        i = i + 1;
    }
    assert(reviews@.subrange(0, i as int) =~= reviews@);
    out
}

impl User {
    /// The reviews this user wrote, by index.
    pub fn reviews(&self, reviews: &Vec<Review>) -> (r: Vec<usize>)
        ensures
            r@ == linked(reviews@, self.id@, true),
    {
        linked_reviews(reviews, self.id.as_str(), true)
    }
}

impl Product {
    /// The reviews of this product, by index.
    pub fn reviews(&self, reviews: &Vec<Review>) -> (r: Vec<usize>)
        ensures
            r@ == linked(reviews@, self.upc@, false),
    {
        linked_reviews(reviews, self.upc.as_str(), false)
    }
}

} // verus!
