//! The book store: books kept in a slab under small integer keys, the
//! mutations that create and delete them, and the change events those
//! mutations publish to subscribers.

use slab::Slab;
use vstd::prelude::*;

use crate::ids::{decimal, key_id, parse_key, parse_key_spec};
use crate::text::{join2, str_eq};

verus! {

#[verifier::external_type_specification]
#[verifier::external_body]
#[verifier::reject_recursive_types(T)]
pub struct ExSlab<T>(Slab<T>);

/// A stored book. Its id is the decimal form of its slot key.
pub struct Book {
    pub id: String,
    pub name: String,
    pub author: String,
}

impl Clone for Book {
    fn clone(&self) -> (r: Self)
        ensures
            r == *self,
    {
        Book { id: self.id.clone(), name: self.name.clone(), author: self.author.clone() }
    }
}


/// What a slab of books holds: each occupied key and the book under it.
pub uninterp spec fn book_slots(s: Slab<Book>) -> Map<usize, Book>;

/// The key that the next insertion into a slab of books takes.
pub uninterp spec fn book_slab_next(s: Slab<Book>) -> usize;

/// Relies on `Slab::new`: a new slab holds nothing.
#[verifier::external_body]
fn book_slab_new() -> (r: Slab<Book>)
    ensures
        book_slots(r).is_empty(),
{
    Slab::new()
}

/// Relies on `Slab::vacant_key`: the key of the next insertion, which is
/// not occupied.
#[verifier::external_body]
fn book_slab_vacant_key(s: &Slab<Book>) -> (r: usize)
    ensures
        r == book_slab_next(*s),
        !book_slots(*s).contains_key(r),
{
    s.vacant_key()
}

/// Relies on `Slab::insert`: the value goes under the vacant key, which is
/// returned; the other entries stay.
#[verifier::external_body]
fn book_slab_insert(s: &mut Slab<Book>, v: Book) -> (r: usize)
    ensures
        r == book_slab_next(*old(s)),
        book_slots(*final(s)) == book_slots(*old(s)).insert(r, v),
{
    s.insert(v)
}

/// Relies on `Slab::contains`: whether the key is occupied.
#[verifier::external_body]
fn book_slab_contains(s: &Slab<Book>, k: usize) -> (r: bool)
    ensures
        r == book_slots(*s).contains_key(k),
{
    s.contains(k)
}

/// Relies on `Slab::remove`: takes out the value under an occupied key (it
/// panics on a vacant one).
#[verifier::external_body]
fn book_slab_remove(s: &mut Slab<Book>, k: usize) -> (r: Book)
    requires
        book_slots(*old(s)).contains_key(k),
    ensures
        r == book_slots(*old(s))[k],
        book_slots(*final(s)) == book_slots(*old(s)).remove(k),
{
    s.remove(k)
}

/// Relies on `Slab::get`: the value under the key, if it is occupied.
#[verifier::external_body]
fn book_slab_get(s: &Slab<Book>, k: usize) -> (r: Option<&Book>)
    ensures
        r matches Some(b) ==> book_slots(*s).contains_key(k) && *b == book_slots(*s)[k],
        r is None ==> !book_slots(*s).contains_key(k),
{
    s.get(k)
}

/// Relies on `Slab::iter`, which walks the occupied entries in key order:
/// the occupied keys, ascending.
#[verifier::external_body]
fn book_slab_keys(s: &Slab<Book>) -> (r: Vec<usize>)
    ensures
        forall|i: int, j: int| 0 <= i < j < r@.len() ==> r@[i] < r@[j],
        forall|k: usize| book_slots(*s).contains_key(k) <==> r@.contains(k),
{
    s.iter().map(|(k, _)| k).collect()
}

/// Keys in strictly ascending order.
pub open spec fn ascending(ks: Seq<usize>) -> bool {
    forall|i: int, j: int| 0 <= i < j < ks.len() ==> ks[i] < ks[j]
}

/// `out` lists the values of `m` in ascending order of their keys.
pub open spec fn in_key_order<V>(m: Map<usize, V>, out: Seq<V>) -> bool {
    exists|ks: Seq<usize>|
        ascending(ks) && (forall|k: usize| m.contains_key(k) <==> ks.contains(k)) && ks.len()
            == out.len() && (forall|i: int| 0 <= i < ks.len() ==> out[i] == m[#[trigger] ks[i]])
}

/// The books, each under the key that its id names.
pub struct BookStore {
    slab: Slab<Book>,
}

impl View for BookStore {
    type V = Map<usize, Book>;

    closed spec fn view(&self) -> Map<usize, Book> {
        book_slots(self.slab)
    }
}

impl BookStore {
    /// Every book's id is the decimal form of its key.
    pub open spec fn wf(&self) -> bool {
        forall|k: usize| self@.contains_key(k) ==> (#[trigger] self@[k]).id@ == decimal(k as nat)
    }

    /// The key that the next book created takes.
    pub closed spec fn next_key(&self) -> usize {
        book_slab_next(self.slab)
    }

    /// An empty store.
    pub fn new() -> (r: BookStore)
        ensures
            r@.is_empty(),
            r.wf(),
    {
        BookStore { slab: book_slab_new() }
    }

    /// The book under `key`, if any.
    pub fn get(&self, key: usize) -> (r: Option<Book>)
        ensures
            r == (if self@.contains_key(key) { Some(self@[key]) } else { None::<Book> }),
    {
        match book_slab_get(&self.slab, key) {
            Some(b) => Some(b.clone()),
            None => None,
        }
    }
}

/// Whether a book was created or deleted.
#[derive(PartialEq, Eq, Structural, Copy, Clone, Debug)]
pub enum MutationType {
    Created,
    Deleted,
}

/// The name of a mutation type in the schema.
pub open spec fn mutation_type_name(t: MutationType) -> Seq<char> {
    match t {
        MutationType::Created => "CREATED"@,
        MutationType::Deleted => "DELETED"@,
    }
}

/// The mutation type that a schema name stands for, if any.
pub open spec fn mutation_type_named(s: Seq<char>) -> Option<MutationType> {
    if s == "CREATED"@ {
        Some(MutationType::Created)
    } else if s == "DELETED"@ {
        Some(MutationType::Deleted)
    } else {
        None
    }
}

impl MutationType {
    /// The name of this mutation type in the schema.
    pub fn name(&self) -> (r: &'static str)
        ensures
            r@ == mutation_type_name(*self),
    {
        match self {
            MutationType::Created => "CREATED",
            MutationType::Deleted => "DELETED",
        }
    }

    /// Reads a mutation type from its schema name; any other text is
    /// refused with a message that quotes it.
    pub fn from_str(s: &str) -> (r: Result<MutationType, String>)
        ensures
            r matches Ok(t) ==> mutation_type_named(s@) == Some(t),
            r matches Err(m) ==> mutation_type_named(s@) is None && m@ == "Invalid MutationType: "@
                + s@,
            mutation_type_named(s@) is Some ==> r is Ok,
    {
        if str_eq(s, "CREATED") {
            Ok(MutationType::Created)
        } else if str_eq(s, "DELETED") {
            Ok(MutationType::Deleted)
        } else {
            Err(join2("Invalid MutationType: ", s))
        }
    }
}

/// Reading back the name of a mutation type gives that mutation type.
pub proof fn lemma_mutation_type_name_round_trip(t: MutationType)
    ensures
        mutation_type_named(mutation_type_name(t)) == Some(t),
{
    reveal_strlit("CREATED");
    reveal_strlit("DELETED");
    assert("CREATED"@[0] != "DELETED"@[0]);
}

/// An id that does not read as a slot key.
#[derive(PartialEq, Eq, Structural, Copy, Clone, Debug)]
pub struct InvalidId;

/// The event published when a book is created or deleted.
pub struct BookChanged {
    pub mutation_type: MutationType,
    pub id: String,
}

impl Clone for BookChanged {
    fn clone(&self) -> (r: Self)
        ensures
            r == *self,
    {
        BookChanged { mutation_type: self.mutation_type, id: self.id.clone() }
    }
}

impl BookChanged {
    /// The book that the event's id names, as the store holds it now.
    pub fn book(&self, store: &BookStore) -> (r: Result<Option<Book>, InvalidId>)
        ensures
            r == (match parse_key_spec(self.id@) {
                None => Err(InvalidId),
                Some(k) => Ok(
                    if store@.contains_key(k) {
                        Some(store@[k])
                    } else {
                        None
                    },
                ),
            }),
    {
        match parse_key(self.id.as_str()) {
            None => Err(InvalidId),
            Some(k) => Ok(store.get(k)),
        }
    }
}

/// The queries of the book schema.
pub struct QueryRoot;

impl QueryRoot {
    /// All books, in ascending order of their keys.
    pub fn books(&self, store: &BookStore) -> (r: Vec<Book>)
        ensures
            in_key_order(store@, r@),
    {
        let keys = book_slab_keys(&store.slab);
        let ghost m = store@;
        let mut out: Vec<Book> = Vec::new();
        let mut i: usize = 0;
        while i < keys.len()
            invariant
                m == store@,
                m == book_slots(store.slab),
                i <= keys@.len(),
                out@.len() == i,
                forall|k: usize| m.contains_key(k) <==> keys@.contains(k),
                forall|j: int| 0 <= j < i ==> out@[j] == m[#[trigger] keys@[j]],
            decreases keys@.len() - i,
        {
            let k = keys[i];
            assert(keys@.contains(k));
            match store.get(k) {
                Some(b) => out.push(b),
                None => {},
            }
            i = i + 1;
        }
        assert(ascending(keys@));
        assert(in_key_order(m, out@));
        out
    }
}

/// The mutations of the book schema.
pub struct MutationRoot;

impl MutationRoot {
    /// Stores a new book under the next vacant key, with that key's decimal
    /// form as its id, and returns the creation event to publish.
    pub fn create_book(&self, store: &mut BookStore, name: String, author: String) -> (r:
        BookChanged)
        requires
            old(store).wf(),
        ensures
            final(store).wf(),
            !old(store)@.contains_key(old(store).next_key()),
            r.mutation_type == MutationType::Created,
            r.id@ == decimal(old(store).next_key() as nat),
            final(store)@ == old(store)@.insert(
                old(store).next_key(),
                (Book { id: r.id, name: name, author: author }),
            ),
    {
        let key = book_slab_vacant_key(&store.slab);
        let id = key_id(key);
        let book = Book { id: id.clone(), name, author };
        book_slab_insert(&mut store.slab, book);
        assert forall|k2: usize| store@.contains_key(k2) implies (#[trigger] store@[k2]).id@
            == decimal(k2 as nat) by {
            if k2 != key {
                assert(old(store)@.contains_key(k2));
            }
        }
        BookChanged { mutation_type: MutationType::Created, id }
    }

    /// Deletes the book that `id` names. An id that is not a key is an
    /// error; otherwise the answer is whether a book was there, and when it
    /// was, the deletion event to publish.
    pub fn delete_book(&self, store: &mut BookStore, id: &str) -> (r: Result<
        Option<BookChanged>,
        InvalidId,
    >)
        requires
            old(store).wf(),
        ensures
            final(store).wf(),
            match parse_key_spec(id@) {
                None => r is Err && final(store)@ == old(store)@,
                Some(k) => if old(store)@.contains_key(k) {
                    &&& final(store)@ == old(store)@.remove(k)
                    &&& r matches Ok(Some(ev)) && ev.mutation_type == MutationType::Deleted
                        && ev.id@ == decimal(k as nat)
                } else {
                    final(store)@ == old(store)@ && r matches Ok(None)
                },
            },
    {
        match parse_key(id) {
            None => Err(InvalidId),
            Some(k) => {
                if book_slab_contains(&store.slab, k) {
                    book_slab_remove(&mut store.slab, k);
                    assert forall|k2: usize| store@.contains_key(k2) implies (#[trigger] store@[
                        k2
                    ]).id@ == decimal(k2 as nat) by {
                        assert(old(store)@.contains_key(k2));
                    }
                    Ok(Some(BookChanged { mutation_type: MutationType::Deleted, id: key_id(k) }))
                } else {
                    Ok(None)
                }
            },
        }
    }
}

/// The subscriptions of the book schema.
pub struct SubscriptionRoot;

impl SubscriptionRoot {
    /// Whether a change event passes a subscription's filter: every event
    /// when no mutation type is asked for, else those of that type.
    pub fn books_filter(&self, mutation_type: Option<MutationType>, event: &BookChanged) -> (r:
        bool)
        ensures
            r == (match mutation_type {
                Some(t) => event.mutation_type == t,
                None => true,
            }),
    {
        match mutation_type {
            Some(t) => event.mutation_type == t,
            None => true,
        }
    }

    /// The next value of the interval stream, `n` more than the last; none
    /// once it would leave the range of `i32`.
    pub fn interval_next(&self, value: i32, n: i32) -> (r: Option<i32>)
        ensures
            r == (if i32::MIN <= value + n <= i32::MAX {
                Some((value + n) as i32)
            } else {
                None::<i32>
            }),
    {
        if n > 0 && value > i32::MAX - n {
            None
        } else if n < 0 && value < i32::MIN - n {
            None
        } else {
            Some(value + n)
        }
    }
}

} // verus!
