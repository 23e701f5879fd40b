//! The profile use-case service: the only place business rules live. It
//! exclusively owns its repository handle, delegates persistence to it, and
//! wraps repository failures with their cause for transport-level reporting.
//! For the two protected operations the brawler identifier must be the
//! caller's own verified identity — the handlers enforce that the value
//! passed here never comes from a request body.

use vstd::prelude::*;

use crate::domain::{Brawler, RegisterRequest, RepositoryError, UploadedImage, UseCaseError};
use crate::domain::BrawlerView;
use crate::encoding::{base64_text, encode};
use crate::repository::{
    BrawlerRepository, avatar_stored, has_handle, has_id, ids_unique, registered, renamed,
};

verus! {

/// Orchestrates registration, profile update and avatar upload against one
/// repository handle, which it owns for its lifetime.
pub struct BrawlersUseCase<T: BrawlerRepository> {
    repository: T,
}

impl<T: BrawlerRepository> BrawlersUseCase<T> {
    /// The mathematical content of the owned repository's store.
    pub closed spec fn store(&self) -> Seq<BrawlerView> {
        self.repository.store()
    }

    /// The owned repository's integrity condition.
    pub closed spec fn inv(&self) -> bool {
        self.repository.inv()
    }

    /// A service over the given repository handle.
    pub fn new(repository: T) -> (s: Self)
        ensures
            s.store() == repository.store(),
            s.inv() == repository.inv(),
    {
        BrawlersUseCase { repository }
    }

    /// Registers a new brawler. Failures are surfaced immediately, wrapped
    /// with their repository cause; nothing is retried.
    pub fn register(&mut self, model: RegisterRequest) -> (r: Result<Brawler, UseCaseError>)
        requires
            old(self).inv(),
        ensures
            final(self).inv(),
            ids_unique(final(self).store()) == ids_unique(old(self).store()),
            r matches Ok(b) ==> registered(old(self).store(), final(self).store(), model@, b@),
            r is Err ==> final(self).store() == old(self).store(),
            (r is Err && r->Err_0 == UseCaseError::Repository(RepositoryError::Conflict))
                ==> has_handle(old(self).store(), model@.handle),
            !(r is Err && r->Err_0 == UseCaseError::Repository(RepositoryError::NotFound)),
    {
        match self.repository.register(model) {
            Ok(b) => Ok(b),
            Err(e) => Err(UseCaseError::Repository(e)),
        }
    }

    /// Stores an avatar for the brawler with this identifier: encodes the raw
    /// image bytes as text and delegates to the repository. The identifier
    /// MUST come from a verified identity, never from a request body — a
    /// caller can only upload an avatar for themselves.
    pub fn upload_avatar(&mut self, brawler_id: i32, image_bytes: &Vec<u8>) -> (r: Result<
        UploadedImage,
        UseCaseError,
    >)
        requires
            old(self).inv(),
        ensures
            final(self).inv(),
            ids_unique(final(self).store()) == ids_unique(old(self).store()),
            r matches Ok(u) ==> u@.brawler_id == brawler_id as int && u@.encoded == base64_text(
                image_bytes@,
            ) && has_id(old(self).store(), brawler_id as int) && final(self).store()
                == avatar_stored(
                old(self).store(),
                brawler_id as int,
                base64_text(image_bytes@),
            ),
            r is Err ==> final(self).store() == old(self).store(),
            (r is Err && r->Err_0 == UseCaseError::Repository(RepositoryError::NotFound))
                ==> !has_id(old(self).store(), brawler_id as int),
            !(r is Err && r->Err_0 == UseCaseError::Repository(RepositoryError::Conflict)),
    {
        let encoded = encode(image_bytes);
        match self.repository.store_avatar(brawler_id, encoded) {
            Ok(u) => Ok(u),
            Err(e) => Err(UseCaseError::Repository(e)),
        }
    }

    /// Replaces the display name of the brawler with this identifier — the
    /// only mutable field a caller may set directly. The identifier MUST come
    /// from a verified identity, never from a request body.
    pub fn update_profile(&mut self, brawler_id: i32, display_name: String) -> (r: Result<
        (),
        UseCaseError,
    >)
        requires
            old(self).inv(),
        ensures
            final(self).inv(),
            ids_unique(final(self).store()) == ids_unique(old(self).store()),
            r is Ok ==> has_id(old(self).store(), brawler_id as int) && final(self).store()
                == renamed(old(self).store(), brawler_id as int, display_name@),
            r is Err ==> final(self).store() == old(self).store(),
            (r is Err && r->Err_0 == UseCaseError::Repository(RepositoryError::NotFound))
                ==> !has_id(old(self).store(), brawler_id as int),
            !(r is Err && r->Err_0 == UseCaseError::Repository(RepositoryError::Conflict)),
    {
        match self.repository.update_display_name(brawler_id, display_name) {
            Ok(u) => Ok(u),
            Err(e) => Err(UseCaseError::Repository(e)),
        }
    }

    /// Gives back the owned repository handle.
    pub fn into_repository(self) -> (r: T)
        ensures
            r.store() == self.store(),
            r.inv() == self.inv(),
    {
        self.repository
    }
}

} // verus!
