//! Errors with extensions, and the query text as it is logged beside a
//! query error.

use vstd::prelude::*;
use vstd::string::*;

verus! {

/// An error of the demo resolvers.
pub enum MyError {
    NotFound,
    ServerError(String),
    ErrorWithoutExtensions,
}

/// The message of each error.
pub open spec fn my_error_message(e: MyError) -> Seq<char> {
    match e {
        MyError::NotFound => "Could not find resource"@,
        MyError::ServerError(_) => "ServerError"@,
        MyError::ErrorWithoutExtensions => "No Extensions"@,
    }
}

impl MyError {
    /// The message shown for this error.
    pub fn message(&self) -> (r: &'static str)
        ensures
            r@ == my_error_message(*self),
    {
        match self {
            MyError::NotFound => "Could not find resource",
            MyError::ServerError(_) => "ServerError",
            MyError::ErrorWithoutExtensions => "No Extensions",
        }
    }

    /// The extension entry that this error carries: `code` for a missing
    /// resource, the `reason` of a server error, none otherwise.
    pub fn extension(&self) -> (r: Option<(String, String)>)
        ensures
            match *self {
                MyError::NotFound => r matches Some(kv) && kv.0@ == "code"@ && kv.1@
                    == "NOT_FOUND"@,
                MyError::ServerError(reason) => r matches Some(kv) && kv.0@ == "reason"@ && kv.1
                    == reason,
                MyError::ErrorWithoutExtensions => r is None,
            },
    {
        match self {
            MyError::NotFound => Some(("code".to_owned(), "NOT_FOUND".to_owned())),
            MyError::ServerError(reason) => Some(("reason".to_owned(), reason.clone())),
            MyError::ErrorWithoutExtensions => None,
        }
    }
}

/// Whether `c` has the Unicode White_Space property.
pub open spec fn white_space(c: char) -> bool {
    let u = c as u32;
    (0x09 <= u <= 0x0d) || u == 0x20 || u == 0x85 || u == 0xa0 || u == 0x1680 || (0x2000 <= u
        <= 0x200a) || u == 0x2028 || u == 0x2029 || u == 0x202f || u == 0x205f || u == 0x3000
}

/// Whether `c` is white space, as `char::is_whitespace` decides.
pub fn is_white_space(c: char) -> (r: bool)
    ensures
        r == white_space(c),
{
    let u = c as u32;
    (0x09 <= u && u <= 0x0d) || u == 0x20 || u == 0x85 || u == 0xa0 || u == 0x1680 || (0x2000 <= u
        && u <= 0x200a) || u == 0x2028 || u == 0x2029 || u == 0x202f || u == 0x205f || u == 0x3000
}

/// The characters of `s` that are not white space, in order.
pub open spec fn without_white_space(s: Seq<char>) -> Seq<char>
    decreases s.len(),
{
    if s.len() == 0 {
        Seq::empty()
    } else if white_space(s.last()) {
        without_white_space(s.drop_last())
    } else {
        without_white_space(s.drop_last()).push(s.last())
    }
}

/// The query with all white space taken out, to fit a log line.
pub fn condense_query(query: &str) -> (r: String)
    ensures
        r@ == without_white_space(query@),
{
    let n = query.unicode_len();
    let mut out = String::new();
    let mut i: usize = 0;
    while i < n
        invariant
            n == query@.len(),
            i <= n,
            out@ == without_white_space(query@.subrange(0, i as int)),
        decreases n - i,
    {
        assert(query@.subrange(0, i + 1).drop_last() =~= query@.subrange(0, i as int));
        if !is_white_space(query.get_char(i)) {
            let piece = query.substring_char(i, i + 1);
            assert(piece@ =~= seq![query@[i as int]]);
            out.append(piece);
        }
        i = i + 1;
    }
    assert(query@.subrange(0, n as int) =~= query@);
    out
}

/// The queries of the query-error logging demo.
pub struct QueryRoot;

impl QueryRoot {
    /// Always fails, so that the failure shows in the log.
    pub fn make_error(&self) -> (r: Result<String, String>)
        ensures
            r matches Err(m) && m@ == "Oh no, a terrible error happened!"@,
    {
        Err("Oh no, a terrible error happened!".to_owned())
    }
}

} // verus!
