//! The upload store: metadata of uploaded files kept in a slab under small
//! integer keys.

use slab::Slab;
use vstd::prelude::*;

use crate::books::{ascending, in_key_order};
use crate::ids::{decimal, key_id};

verus! {

/// What is kept of an uploaded file: its id, the decimal form of its slot
/// key, and the name it was uploaded under.
pub struct FileInfo {
    pub id: String,
    pub url: String,
}

impl Clone for FileInfo {
    fn clone(&self) -> (r: Self)
        ensures
            r == *self,
    {
        FileInfo { id: self.id.clone(), url: self.url.clone() }
    }
}

/// What a slab of file records holds: each occupied key and its record.
pub uninterp spec fn file_slots(s: Slab<FileInfo>) -> Map<usize, FileInfo>;

/// The key that the next insertion into a slab of file records takes.
pub uninterp spec fn file_slab_next(s: Slab<FileInfo>) -> usize;

/// Relies on `Slab::new`: a new slab holds nothing.
#[verifier::external_body]
fn file_slab_new() -> (r: Slab<FileInfo>)
    ensures
        file_slots(r).is_empty(),
{
    Slab::new()
}

/// Relies on `Slab::vacant_key`: the key of the next insertion, which is
/// not occupied.
#[verifier::external_body]
fn file_slab_vacant_key(s: &Slab<FileInfo>) -> (r: usize)
    ensures
        r == file_slab_next(*s),
        !file_slots(*s).contains_key(r),
{
    s.vacant_key()
}

/// Relies on `Slab::insert`: the record goes under the vacant key, which
/// is returned; the other entries stay.
#[verifier::external_body]
fn file_slab_insert(s: &mut Slab<FileInfo>, v: FileInfo) -> (r: usize)
    ensures
        r == file_slab_next(*old(s)),
        file_slots(*final(s)) == file_slots(*old(s)).insert(r, v),
{
    s.insert(v)
}

/// Relies on `Slab::len`: the number of occupied entries.
#[verifier::external_body]
fn file_slab_len(s: &Slab<FileInfo>) -> (r: usize)
    ensures
        r == file_slots(*s).len(),
{
    s.len()
}

/// Relies on `Slab::get`: the record under the key, if it is occupied.
#[verifier::external_body]
fn file_slab_get(s: &Slab<FileInfo>, k: usize) -> (r: Option<&FileInfo>)
    ensures
        r matches Some(f) ==> file_slots(*s).contains_key(k) && *f == file_slots(*s)[k],
        r is None ==> !file_slots(*s).contains_key(k),
{
    s.get(k)
}

/// Relies on `Slab::iter`, which walks the occupied entries in key order:
/// the occupied keys, ascending.
#[verifier::external_body]
fn file_slab_keys(s: &Slab<FileInfo>) -> (r: Vec<usize>)
    ensures
        forall|i: int, j: int| 0 <= i < j < r@.len() ==> r@[i] < r@[j],
        forall|k: usize| file_slots(*s).contains_key(k) <==> r@.contains(k),
{
    s.iter().map(|(k, _)| k).collect()
}


/// The uploaded files, each under the key that its id names.
pub struct FileStore {
    slab: Slab<FileInfo>,
}

impl View for FileStore {
    type V = Map<usize, FileInfo>;

    closed spec fn view(&self) -> Map<usize, FileInfo> {
        file_slots(self.slab)
    }
}

/// `after` is `before` with `infos[i]` added under the fresh key `ks[i]`,
/// each id being the decimal form of its key.
pub open spec fn stored_under(
    before: Map<usize, FileInfo>,
    after: Map<usize, FileInfo>,
    ks: Seq<usize>,
    infos: Seq<FileInfo>,
) -> bool {
    &&& ks.len() == infos.len()
    &&& ks.no_duplicates()
    &&& forall|i: int|
        0 <= i < ks.len() ==> !before.contains_key(#[trigger] ks[i]) && after.contains_key(ks[i])
            && after[ks[i]] == infos[i] && infos[i].id@ == decimal(ks[i] as nat)
    &&& forall|k: usize| #[trigger]
        before.contains_key(k) ==> after.contains_key(k) && after[k] == before[k]
    &&& forall|k: usize| #[trigger]
        after.contains_key(k) ==> before.contains_key(k) || ks.contains(k)
}

impl FileStore {
    /// Every record's id is the decimal form of its key.
    pub open spec fn wf(&self) -> bool {
        forall|k: usize| self@.contains_key(k) ==> (#[trigger] self@[k]).id@ == decimal(k as nat)
    }

    /// The key that the next file recorded takes.
    pub closed spec fn next_key(&self) -> usize {
        file_slab_next(self.slab)
    }

    /// An empty store.
    pub fn new() -> (r: FileStore)
        ensures
            r@.is_empty(),
            r.wf(),
    {
        FileStore { slab: file_slab_new() }
    }

    /// The number of files stored.
    pub fn len(&self) -> (r: usize)
        ensures
            r == self@.len(),
    {
        file_slab_len(&self.slab)
    }

    /// Stores a record for `filename` under the next vacant key.
    fn store(&mut self, filename: String) -> (r: FileInfo)
        requires
            old(self).wf(),
        ensures
            final(self).wf(),
            stored_under(old(self)@, final(self)@, seq![file_slab_next(old(self).slab)], seq![r]),
            r.url == filename,
    {
        let key = file_slab_vacant_key(&self.slab);
        let info = FileInfo { id: key_id(key), url: filename };
        file_slab_insert(&mut self.slab, info.clone());
        assert forall|k2: usize| self@.contains_key(k2) implies (#[trigger] self@[k2]).id@
            == decimal(k2 as nat) by {
            if k2 != key {
                assert(old(self)@.contains_key(k2));
            }
        }
        let ghost ks = seq![key];
        assert(ks[0] == key);
        assert forall|k: usize| self@.contains_key(k) implies old(self)@.contains_key(k)
            || ks.contains(k) by {
            if k == key {
                assert(ks[0] == k);
            }
        }
        info
    }
}

/// The queries of the upload schema.
pub struct QueryRoot;

impl QueryRoot {
    /// All stored records, in ascending order of their keys.
    pub fn uploads(&self, store: &FileStore) -> (r: Vec<FileInfo>)
        ensures
            in_key_order(store@, r@),
    {
        let keys = file_slab_keys(&store.slab);
        let ghost m = store@;
        let mut out: Vec<FileInfo> = Vec::new();
        let mut i: usize = 0;
        while i < keys.len()
            invariant
                m == store@,
                m == file_slots(store.slab),
                i <= keys@.len(),
                out@.len() == i,
                forall|k: usize| m.contains_key(k) <==> keys@.contains(k),
                forall|j: int| 0 <= j < i ==> out@[j] == m[#[trigger] keys@[j]],
            decreases keys@.len() - i,
        {
            let k = keys[i];
            assert(keys@.contains(k));
            match file_slab_get(&store.slab, k) {
                Some(f) => out.push(f.clone()),
                None => {},
            }
            i = i + 1;
        }
        assert(ascending(keys@));
        assert(in_key_order(m, out@));
        out
    }
}

/// The mutations of the upload schema.
pub struct MutationRoot;

impl MutationRoot {
    /// Records one uploaded file under the next vacant key.
    pub fn single_upload(&self, store: &mut FileStore, filename: String) -> (r: FileInfo)
        requires
            old(store).wf(),
        ensures
            final(store).wf(),
            r.url == filename,
            stored_under(old(store)@, final(store)@, seq![old(store).next_key()], seq![r]),
    {
        let r = store.store(filename);
        r
    }

    /// Records each uploaded file in turn, each under the next vacant key,
    /// and returns the records in the order of the files.
    pub fn multiple_upload(&self, store: &mut FileStore, filenames: Vec<String>) -> (r: Vec<
        FileInfo,
    >)
        requires
            old(store).wf(),
        ensures
            final(store).wf(),
            r@.len() == filenames@.len(),
            forall|i: int| 0 <= i < r@.len() ==> (#[trigger] r@[i]).url == filenames@[i],
            exists|ks: Seq<usize>|
                stored_under(old(store)@, final(store)@, ks, r@) && (ks.len() > 0 ==> ks[0]
                    == old(store).next_key()),
    {
        let mut infos: Vec<FileInfo> = Vec::new();
        let ghost mut ks: Seq<usize> = Seq::empty();
        let mut i: usize = 0;
        while i < filenames.len()
            invariant
                store.wf(),
                i <= filenames@.len(),
                infos@.len() == i,
                forall|j: int| 0 <= j < i ==> (#[trigger] infos@[j]).url == filenames@[j],
                stored_under(old(store)@, store@, ks, infos@),
                ks.len() > 0 ==> ks[0] == old(store).next_key(),
                ks.len() == 0 ==> store.next_key() == old(store).next_key(),
            decreases filenames@.len() - i,
        {
            let ghost before = store@;
            let ghost k = file_slab_next(store.slab);
            let info = store.store(filenames[i].clone());
            proof {
                assert(seq![k][0] == k);
                assert(!before.contains_key(k));
                let nks = ks.push(k);
                let ninfos = infos@.push(info);
                assert forall|a: int, b: int| 0 <= a < nks.len() && 0 <= b < nks.len() && a != b
                    implies nks[a] != nks[b] by {
                    if a < ks.len() && b < ks.len() {
                    } else if a < ks.len() {
                        assert(before.contains_key(ks[a]));
                    } else {
                        assert(before.contains_key(ks[b]));
                    }
                }
                assert forall|j: int| 0 <= j < nks.len() implies !old(store)@.contains_key(
                    #[trigger] nks[j],
                ) && store@.contains_key(nks[j]) && store@[nks[j]] == ninfos[j] && ninfos[j].id@
                    == decimal(nks[j] as nat) by {
                    if j < ks.len() {
                        assert(before.contains_key(ks[j]));
                        assert(ks[j] != k);
                    } else {
                        assert(seq![k][0] == k);
                        if old(store)@.contains_key(k) {
                            assert(before.contains_key(k));
                        }
                    }
                }
                assert forall|k2: usize| store@.contains_key(k2) implies old(store)@.contains_key(
                    k2,
                ) || nks.contains(k2) by {
                    if before.contains_key(k2) {
                        if !old(store)@.contains_key(k2) {
                            assert(ks.contains(k2));
                            let t = choose|t: int| 0 <= t < ks.len() && ks[t] == k2;
                            assert(nks[t] == k2);
                        }
                    } else {
                        assert(seq![k].contains(k2));
                        assert(nks[ks.len() as int] == k2);
                    }
                }
                assert forall|k2: usize| #[trigger]
                    old(store)@.contains_key(k2) implies store@.contains_key(k2) && store@[k2]
                    == old(store)@[k2] by {
                    assert(before.contains_key(k2));
                }
                assert(stored_under(old(store)@, store@, nks, ninfos));
                ks = nks;
            }
            infos.push(info);
            i = i + 1;
        }
        infos
    }
}

} // verus!
