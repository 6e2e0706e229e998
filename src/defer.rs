//! The deferred-fields demo: a fixed list of books, whose comments are
//! slow to come and so are deferred.

use vstd::prelude::*;
use vstd::string::*;

verus! {

/// A comment on a book.
pub struct Comment {
    pub user: String,
    pub text: String,
}

/// A book of the demo list.
pub struct Book {
    pub id: i32,
    pub title: String,
    pub author: String,
}

/// The comments on the book with this id, as (user, text) pairs.
pub open spec fn comments_of(id: i32) -> Seq<(Seq<char>, Seq<char>)> {
    if id == 1 {
        seq![("John"@, "I liked it"@), ("Mary"@, "It is a book"@)]
    } else if id == 2 {
        seq![("Alberta"@, "Amazing :-)"@), ("Joanna"@, "Excellent"@)]
    } else {
        Seq::empty()
    }
}

/// Whether `cs` holds exactly the comments `expected`, in order.
pub open spec fn comments_are(cs: Seq<Comment>, expected: Seq<(Seq<char>, Seq<char>)>) -> bool {
    cs.len() == expected.len() && forall|i: int|
        0 <= i < cs.len() ==> ((#[trigger] cs[i]).user@, cs[i].text@) == expected[i]
}

fn comment(user: &str, text: &str) -> (r: Comment)
    ensures
        r.user@ == user@,
        r.text@ == text@,
{
    Comment { user: user.to_owned(), text: text.to_owned() }
}

impl Book {
    /// The comments on this book.
    pub fn comments(&self) -> (r: Vec<Comment>)
        ensures
            comments_are(r@, comments_of(self.id)),
    {
        let mut r: Vec<Comment> = Vec::new();
        if self.id == 1 {
            r.push(comment("John", "I liked it"));
            r.push(comment("Mary", "It is a book"));
        } else if self.id == 2 {
            r.push(comment("Alberta", "Amazing :-)"));
            r.push(comment("Joanna", "Excellent"));
        }
        r
    }
}

/// The queries of the deferred-fields demo.
pub struct Query;

impl Query {
    /// The three books of the demo.
    pub fn books(&self) -> (r: Vec<Book>)
        ensures
            r@.len() == 3,
            r@[0].id == 1 && r@[0].title@ == "Harry Potter and the Chamber of Secrets"@
                && r@[0].author@ == "J.K. Rowling"@,
            r@[1].id == 2 && r@[1].title@ == "Jurassic Park"@ && r@[1].author@
                == "Michael Crichton"@,
            r@[2].id == 3 && r@[2].title@ == "Moby Dick"@ && r@[2].author@ == "Herman Melville"@,
    {
        let mut r: Vec<Book> = Vec::new();
        r.push(
            Book {
                id: 1,
                title: "Harry Potter and the Chamber of Secrets".to_owned(),
                author: "J.K. Rowling".to_owned(),
            },
        );
        r.push(
            Book {
                id: 2,
                title: "Jurassic Park".to_owned(),
                author: "Michael Crichton".to_owned(),
            },
        );
        r.push(
            Book { id: 3, title: "Moby Dick".to_owned(), author: "Herman Melville".to_owned() },
        );
        r
    }
}

} // verus!
