//! The batch lookup behind the book data loader: which batches fail, and
//! the query that fetches the rest.

use itertools::Itertools;
use vstd::prelude::*;
use vstd::string::*;

use crate::ids::decimal;

verus! {

/// The decimal form of an integer, with a leading `-` when negative.
pub open spec fn int_decimal(i: int) -> Seq<char> {
    if i < 0 {
        seq!['-'] + decimal((-i) as nat)
    } else {
        decimal(i as nat)
    }
}

/// The decimal forms of the keys, separated by commas.
pub open spec fn comma_joined(keys: Seq<i32>) -> Seq<char>
    decreases keys.len(),
{
    if keys.len() == 0 {
        Seq::empty()
    } else if keys.len() == 1 {
        int_decimal(keys[0] as int)
    } else {
        comma_joined(keys.drop_last()) + ","@ + int_decimal(keys.last() as int)
    }
}

/// Relies on `Itertools::join` over `i32`'s `Display`: the decimal forms of
/// the keys, separated by commas.
#[verifier::external_body]
fn join_keys(keys: &[i32]) -> (r: String)
    ensures
        r@ == comma_joined(keys@),
{
    keys.iter().join(",")
}

/// The key whose lookup stands for a failing database.
pub const FAILING_KEY: i32 = 9;

/// Why a batch was not loaded.
#[derive(PartialEq, Eq, Structural, Copy, Clone, Debug)]
pub enum LoadError {
    /// The batch holds the key that stands for a failing database.
    MockDbError,
}

impl LoadError {
    /// The message that the failure reports.
    pub fn message(&self) -> (r: &'static str)
        ensures
            r@ == "MOCK DBError"@,
    {
        "MOCK DBError"
    }
}

/// The query that fetches a batch of books by key.
pub open spec fn batch_query_text(keys: Seq<i32>) -> Seq<char> {
    "SELECT id, name, author FROM books WHERE id IN ("@ + comma_joined(keys) + ")"@
}

/// The query for a batch of keys; a batch that holds the failing key fails
/// as a whole.
pub fn batch_query(keys: &[i32]) -> (r: Result<String, LoadError>)
    ensures
        keys@.contains(FAILING_KEY) ==> r == Err::<String, LoadError>(LoadError::MockDbError),
        !keys@.contains(FAILING_KEY) ==> (r matches Ok(q) && q@ == batch_query_text(keys@)),
{
    let mut i: usize = 0;
    while i < keys.len()
        invariant
            i <= keys@.len(),
            forall|j: int| 0 <= j < i ==> keys@[j] != FAILING_KEY,
        decreases keys@.len() - i,
    {
        if keys[i] == FAILING_KEY {
            assert(keys@[i as int] == FAILING_KEY);
            return Err(LoadError::MockDbError);
        }
        i = i + 1;
    }
    let mut q = "SELECT id, name, author FROM books WHERE id IN (".to_owned();
    let joined = join_keys(keys);
    q.append(joined.as_str());
    q.append(")");
    Ok(q)
}

} // verus!
