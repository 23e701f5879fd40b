//! The repository capability: the abstract persistence contract a profile
//! service needs (create, update, fetch), stated over a mathematical store — a
//! sequence of brawler records with pairwise distinct identifiers — and an
//! in-memory implementation of it.

use vstd::prelude::*;
use vstd::pervasive::VecAdditionalExecFns;

use crate::domain::{
    Brawler, BrawlerView, RegisterRequest, RegisterRequestView, RepositoryError, UploadedImage,
    opt_string_view,
};

verus! {

/// Whether some record in the store has this identifier.
pub open spec fn has_id(s: Seq<BrawlerView>, id: int) -> bool {
    exists|i: int| 0 <= i < s.len() && s[i].id == id
}

/// Whether some record in the store has this handle.
pub open spec fn has_handle(s: Seq<BrawlerView>, handle: Seq<char>) -> bool {
    exists|i: int| 0 <= i < s.len() && s[i].handle == handle
}

/// Whether the records' identifiers are pairwise distinct.
pub open spec fn ids_unique(s: Seq<BrawlerView>) -> bool {
    forall|i: int, j: int|
        0 <= i < s.len() && 0 <= j < s.len() && i != j ==> s[i].id != s[j].id
}

/// The position of the record with this identifier; meaningful where
/// `has_id(s, id)` holds.
pub open spec fn index_of_id(s: Seq<BrawlerView>, id: int) -> int {
    choose|i: int| 0 <= i < s.len() && s[i].id == id
}

/// The record `b` with its display name replaced.
pub open spec fn with_display_name(b: BrawlerView, name: Seq<char>) -> BrawlerView {
    BrawlerView { id: b.id, handle: b.handle, display_name: name, avatar: b.avatar }
}

/// The record `b` with its avatar reference replaced.
pub open spec fn with_avatar(b: BrawlerView, encoded: Seq<char>) -> BrawlerView {
    BrawlerView { id: b.id, handle: b.handle, display_name: b.display_name, avatar: Some(encoded) }
}

/// The store after renaming the brawler with this identifier.
pub open spec fn renamed(s: Seq<BrawlerView>, id: int, name: Seq<char>) -> Seq<BrawlerView> {
    s.update(index_of_id(s, id), with_display_name(s[index_of_id(s, id)], name))
}

/// The store after storing an avatar for the brawler with this identifier.
pub open spec fn avatar_stored(s: Seq<BrawlerView>, id: int, encoded: Seq<char>) -> Seq<
    BrawlerView,
> {
    s.update(index_of_id(s, id), with_avatar(s[index_of_id(s, id)], encoded))
}

/// What a successful registration does: it appends exactly one record, whose
/// identifier is new, whose handle was not taken before, and whose handle and
/// initial display name are the requested handle, with no avatar yet.
pub open spec fn registered(
    old_s: Seq<BrawlerView>,
    new_s: Seq<BrawlerView>,
    req: RegisterRequestView,
    b: BrawlerView,
) -> bool {
    &&& !has_id(old_s, b.id)
    &&& !has_handle(old_s, req.handle)
    &&& b.handle == req.handle
    &&& b.display_name == req.handle
    &&& b.avatar is None
    &&& new_s == old_s.push(b)
}

/// The authorization shape of a mutation: record count and every identifier
/// are kept, and every record whose identifier differs from `id` is unchanged.
pub open spec fn mutates_only(
    old_s: Seq<BrawlerView>,
    new_s: Seq<BrawlerView>,
    id: int,
) -> bool {
    &&& new_s.len() == old_s.len()
    &&& forall|i: int| 0 <= i < old_s.len() ==> new_s[i].id == old_s[i].id
    &&& forall|i: int| 0 <= i < old_s.len() && old_s[i].id != id ==> new_s[i] == old_s[i]
}

/// Where a record with identifier `id` stands at position `j`, and the
/// identifiers are pairwise distinct, `index_of_id` picks exactly `j`.
pub proof fn lemma_index_of_id(s: Seq<BrawlerView>, id: int, j: int)
    requires
        ids_unique(s),
        0 <= j < s.len(),
        s[j].id == id,
    ensures
        has_id(s, id),
        index_of_id(s, id) == j,
{
    assert(has_id(s, id));
    let k: int = index_of_id(s, id);
    assert(0 <= k < s.len() && s[k].id == id);
}

/// Law: renaming a brawler is observably idempotent. Applying the same rename
/// twice yields the same store as applying it once, the brawler stays
/// present, identifiers stay pairwise distinct, and the brawler's display
/// name afterwards is the requested one.
pub proof fn lemma_rename_idempotent(s: Seq<BrawlerView>, id: int, name: Seq<char>)
    requires
        ids_unique(s),
        has_id(s, id),
    ensures
        has_id(renamed(s, id, name), id),
        ids_unique(renamed(s, id, name)),
        renamed(s, id, name)[index_of_id(s, id)].display_name == name,
        renamed(renamed(s, id, name), id, name) == renamed(s, id, name),
{
    let j: int = index_of_id(s, id);
    assert(0 <= j < s.len() && s[j].id == id);
    let r1: Seq<BrawlerView> = renamed(s, id, name);
    assert(r1[j].id == id);
    assert(has_id(r1, id));
    assert(ids_unique(r1));
    lemma_index_of_id(r1, id, j);
    assert(with_display_name(r1[j], name) == r1[j]);
    assert(renamed(r1, id, name) =~= r1);
}

/// A rename mutates only the brawler with this identifier: record count and
/// all identifiers are kept, every other record is unchanged.
pub proof fn lemma_renamed_mutates_only(s: Seq<BrawlerView>, id: int, name: Seq<char>)
    requires
        has_id(s, id),
    ensures
        mutates_only(s, renamed(s, id, name), id),
{
    let k: int = index_of_id(s, id);
    assert(0 <= k < s.len() && s[k].id == id);
}

/// Storing an avatar mutates only the brawler with this identifier: record
/// count and all identifiers are kept, every other record is unchanged.
pub proof fn lemma_avatar_stored_mutates_only(s: Seq<BrawlerView>, id: int, encoded: Seq<char>)
    requires
        has_id(s, id),
    ensures
        mutates_only(s, avatar_stored(s, id, encoded), id),
{
    let k: int = index_of_id(s, id);
    assert(0 <= k < s.len() && s[k].id == id);
}

/// The abstract persistence contract consumed by the use-case layer. Any
/// storage engine satisfying it is acceptable; `inv` is the engine's own
/// integrity condition, and `store` its mathematical content. Every operation
/// may fail with `Unavailable` when the backing store cannot be reached, and
/// every failure leaves the store unchanged.
pub trait BrawlerRepository: Sized {
    /// The mathematical content of the store.
    spec fn store(&self) -> Seq<BrawlerView>;

    /// The engine's integrity condition; every operation preserves it.
    spec fn inv(&self) -> bool;

    /// Creates a new brawler. Fails with `Conflict` exactly on a violated
    /// uniqueness constraint: a record with the requested handle exists.
    fn register(&mut self, req: RegisterRequest) -> (r: Result<Brawler, RepositoryError>)
        requires
            old(self).inv(),
        ensures
            final(self).inv(),
            ids_unique(final(self).store()) == ids_unique(old(self).store()),
            r matches Ok(b) ==> registered(old(self).store(), final(self).store(), req@, b@),
            r is Err ==> final(self).store() == old(self).store(),
            (r is Err && r->Err_0 == RepositoryError::Conflict) ==> has_handle(
                old(self).store(),
                req@.handle,
            ),
            !(r is Err && r->Err_0 == RepositoryError::NotFound),
        ;

    /// Replaces the display name of the brawler with this identifier. Fails
    /// with `NotFound` only where no such brawler exists.
    fn update_display_name(&mut self, brawler_id: i32, new_name: String) -> (r: Result<
        (),
        RepositoryError,
    >)
        requires
            old(self).inv(),
        ensures
            final(self).inv(),
            ids_unique(final(self).store()) == ids_unique(old(self).store()),
            r is Ok ==> has_id(old(self).store(), brawler_id as int) && final(self).store()
                == renamed(old(self).store(), brawler_id as int, new_name@),
            r is Err ==> final(self).store() == old(self).store(),
            (r is Err && r->Err_0 == RepositoryError::NotFound) ==> !has_id(
                old(self).store(),
                brawler_id as int,
            ),
            !(r is Err && r->Err_0 == RepositoryError::Conflict),
        ;

    /// Stores an encoded avatar image for the brawler with this identifier
    /// and describes what was stored. Fails with `NotFound` only where no
    /// such brawler exists.
    fn store_avatar(&mut self, brawler_id: i32, encoded_image: String) -> (r: Result<
        UploadedImage,
        RepositoryError,
    >)
        requires
            old(self).inv(),
        ensures
            final(self).inv(),
            ids_unique(final(self).store()) == ids_unique(old(self).store()),
            r matches Ok(u) ==> u@.brawler_id == brawler_id as int && u@.encoded
                == encoded_image@ && has_id(old(self).store(), brawler_id as int)
                && final(self).store() == avatar_stored(
                old(self).store(),
                brawler_id as int,
                encoded_image@,
            ),
            r is Err ==> final(self).store() == old(self).store(),
            (r is Err && r->Err_0 == RepositoryError::NotFound) ==> !has_id(
                old(self).store(),
                brawler_id as int,
            ),
            !(r is Err && r->Err_0 == RepositoryError::Conflict),
        ;
}

/// An in-memory storage engine satisfying the repository contract: records in
/// a vector, identifiers assigned from a counter. It is always reachable, so
/// it fails with `Unavailable` only when the identifier space is exhausted.
pub struct MemoryBrawlerRepository {
    brawlers: Vec<Brawler>,
    next_id: i32,
}

impl MemoryBrawlerRepository {
    /// Whether a fresh identifier can still be assigned.
    pub closed spec fn capacity_left(&self) -> bool {
        self.next_id < i32::MAX
    }

    /// An empty store whose first assigned identifier is 1.
    pub fn new() -> (r: Self)
        ensures
            r.inv(),
            r.store() == Seq::<BrawlerView>::empty(),
            r.capacity_left(),
    {
        let r = MemoryBrawlerRepository { brawlers: Vec::new(), next_id: 1 };
        proof {
            assert(r.store() =~= Seq::<BrawlerView>::empty());
        }
        r
    }

    /// Whether a record with this handle exists.
    fn handle_taken(&self, handle: &String) -> (r: bool)
        ensures
            r == has_handle(self.store(), handle@),
    {
        let mut i: usize = 0;
        while i < self.brawlers.len()
            invariant
                i <= self.brawlers@.len(),
                forall|j: int| 0 <= j < i ==> self.store()[j].handle != handle@,
            decreases self.brawlers@.len() - i,
        {
            if self.brawlers[i].handle == *handle {
                proof {
                    assert(self.store()[i as int].handle == handle@);
                }
                return true;
            }
            i = i + 1;
        }
        false
    }

    /// The position of the record with this identifier, if one exists.
    fn position_of_id(&self, brawler_id: i32) -> (r: Option<usize>)
        ensures
            match r {
                Some(j) => j < self.store().len() && self.store()[j as int].id
                    == brawler_id as int,
                None => !has_id(self.store(), brawler_id as int),
            },
    {
        let mut i: usize = 0;
        while i < self.brawlers.len()
            invariant
                i <= self.brawlers@.len(),
                forall|j: int| 0 <= j < i ==> self.store()[j].id != brawler_id as int,
            decreases self.brawlers@.len() - i,
        {
            if self.brawlers[i].id == brawler_id {
                return Some(i);
            }
            i = i + 1;
        }
        None
    }

    /// Fetches a copy of the brawler with this identifier, if one exists.
    pub fn find_by_id(&self, brawler_id: i32) -> (r: Option<Brawler>)
        requires
            self.inv(),
        ensures
            match r {
                Some(b) => has_id(self.store(), brawler_id as int) && b@ == self.store()[
                    index_of_id(self.store(), brawler_id as int)
                ],
                None => !has_id(self.store(), brawler_id as int),
            },
    {
        match self.position_of_id(brawler_id) {
            Some(j) => {
                let b = &self.brawlers[j];
                let copy = Brawler {
                    id: b.id,
                    handle: b.handle.clone(),
                    display_name: b.display_name.clone(),
                    avatar: clone_opt_string(&b.avatar),
                };
                proof {
                    lemma_index_of_id(self.store(), brawler_id as int, j as int);
                }
                Some(copy)
            },
            None => None,
        }
    }
}

/// A copy of an optional text value.
fn clone_opt_string(a: &Option<String>) -> (r: Option<String>)
    ensures
        opt_string_view(&r) == opt_string_view(a),
{
    match a {
        Some(s) => Some(s.clone()),
        None => None,
    }
}

impl BrawlerRepository for MemoryBrawlerRepository {
    closed spec fn store(&self) -> Seq<BrawlerView> {
        self.brawlers@.map_values(|b: Brawler| b@)
    }

    closed spec fn inv(&self) -> bool {
        &&& ids_unique(self.store())
        &&& forall|i: int| 0 <= i < self.store().len() ==> self.store()[i].id < self.next_id
    }

    fn register(&mut self, req: RegisterRequest) -> (r: Result<Brawler, RepositoryError>)
        ensures
            (r is Ok) == (!has_handle(old(self).store(), req@.handle)
                && old(self).capacity_left()),
            (r == Err::<Brawler, RepositoryError>(RepositoryError::Conflict)) == has_handle(
                old(self).store(),
                req@.handle,
            ),
    {
        if self.handle_taken(&req.handle) {
            return Err(RepositoryError::Conflict);
        }
        if self.next_id == i32::MAX {
            return Err(RepositoryError::Unavailable);
        }
        let id = self.next_id;
        self.next_id = id + 1;
        let stored = Brawler {
            id,
            handle: req.handle.clone(),
            display_name: req.handle.clone(),
            avatar: None,
        };
        let ghost old_store = self.store();
        let ghost b_view = stored@;
        self.brawlers.push(stored);
        proof {
            assert(self.store() =~= old_store.push(b_view));
            assert(!has_id(old_store, id as int));
            assert forall|i: int, j: int|
                0 <= i < self.store().len() && 0 <= j < self.store().len() && i
                    != j implies self.store()[i].id != self.store()[j].id by {
                if i < old_store.len() && j < old_store.len() {
                    assert(old_store[i].id != old_store[j].id);
                }
            }
        }
        Ok(Brawler { id, handle: req.handle.clone(), display_name: req.handle, avatar: None })
    }

    fn update_display_name(&mut self, brawler_id: i32, new_name: String) -> (r: Result<
        (),
        RepositoryError,
    >)
        ensures
            (r is Ok) == has_id(old(self).store(), brawler_id as int),
            (r == Err::<(), RepositoryError>(RepositoryError::NotFound)) == !has_id(
                old(self).store(),
                brawler_id as int,
            ),
    {
        match self.position_of_id(brawler_id) {
            None => Err(RepositoryError::NotFound),
            Some(j) => {
                let ghost old_store = self.store();
                let b = &self.brawlers[j];
                let replacement = Brawler {
                    id: b.id,
                    handle: b.handle.clone(),
                    display_name: new_name,
                    avatar: clone_opt_string(&b.avatar),
                };
                let ghost r_view = replacement@;
                self.brawlers.set(j, replacement);
                proof {
                    lemma_index_of_id(old_store, brawler_id as int, j as int);
                    assert(self.store() =~= old_store.update(j as int, r_view));
                    assert(r_view == with_display_name(old_store[j as int], r_view.display_name));
                    assert(self.store() =~= renamed(old_store, brawler_id as int, r_view.display_name));
                }
                Ok(())
            },
        }
    }

    fn store_avatar(&mut self, brawler_id: i32, encoded_image: String) -> (r: Result<
        UploadedImage,
        RepositoryError,
    >)
        ensures
            (r is Ok) == has_id(old(self).store(), brawler_id as int),
            (r is Err && r->Err_0 == RepositoryError::NotFound) == !has_id(
                old(self).store(),
                brawler_id as int,
            ),
    {
        match self.position_of_id(brawler_id) {
            None => Err(RepositoryError::NotFound),
            Some(j) => {
                let ghost old_store = self.store();
                let b = &self.brawlers[j];
                let replacement = Brawler {
                    id: b.id,
                    handle: b.handle.clone(),
                    display_name: b.display_name.clone(),
                    avatar: Some(encoded_image.clone()),
                };
                let ghost r_view = replacement@;
                let owner_id = b.id;
                self.brawlers.set(j, replacement);
                proof {
                    lemma_index_of_id(old_store, brawler_id as int, j as int);
                    assert(self.store() =~= old_store.update(j as int, r_view));
                    assert(r_view == with_avatar(old_store[j as int], encoded_image@));
                    assert(self.store() =~= avatar_stored(
                        old_store,
                        brawler_id as int,
                        encoded_image@,
                    ));
                }
                Ok(UploadedImage { brawler_id: owner_id, encoded: encoded_image })
            },
        }
    }
}

} // verus!
