//! Request handler cores: they translate a transport payload into a use-case
//! call and map the result to a transport response. Handlers perform no
//! persistence themselves and never recover an error — every failure is
//! surfaced with a description of its cause. For the two protected
//! operations, the brawler identifier used for mutation is the verified
//! identity's, never a value taken from the request body.

use vstd::prelude::*;

use crate::domain::{
    Brawler, RegisterRequest, UpdateProfileRequest, UploadedImage, UseCaseError, VerifiedIdentity,
    use_case_error_text,
};
use crate::encoding::base64_text;
use crate::multipart::{
    AvatarExtractError, AvatarSelection, MultipartPart, avatar_selection, extract_avatar,
    part_views,
};
use crate::repository::{
    BrawlerRepository, avatar_stored, has_handle, has_id, ids_unique,
    lemma_avatar_stored_mutates_only, lemma_renamed_mutates_only, mutates_only, registered,
    renamed,
};
use crate::use_cases::BrawlersUseCase;

verus! {

/// Transport-level outcome of a handled request, framework-agnostic: the
/// status a response carries is `status_of` it.
pub enum ApiResponse {
    /// Created (201), with the new brawler's public representation.
    Created(Brawler),
    /// Success (200), with a description of the stored avatar.
    Uploaded(UploadedImage),
    /// Success (200), with no body.
    Updated,
    /// Bad request (400), with a description of the missing or unreadable
    /// input.
    BadRequest(String),
    /// Server error (500), with a description of the underlying failure.
    ServerError(String),
}

/// The status code a response carries.
pub open spec fn status_of(r: ApiResponse) -> int {
    match r {
        ApiResponse::Created(_) => 201,
        ApiResponse::Uploaded(_) => 200,
        ApiResponse::Updated => 200,
        ApiResponse::BadRequest(_) => 400,
        ApiResponse::ServerError(_) => 500,
    }
}

impl ApiResponse {
    /// The status code a response carries.
    pub fn status_code(&self) -> (c: u16)
        ensures
            c as int == status_of(*self),
    {
        match self {
            ApiResponse::Created(_) => 201,
            ApiResponse::Uploaded(_) => 200,
            ApiResponse::Updated => 200,
            ApiResponse::BadRequest(_) => 400,
            ApiResponse::ServerError(_) => 500,
        }
    }
}

/// Handles account creation: on success the response is `Created` with the
/// new brawler; on failure it is `ServerError` with the failure's
/// description, and the store is unchanged — in particular whenever the
/// requested handle is already taken.
pub fn register<T: BrawlerRepository>(
    use_case: &mut BrawlersUseCase<T>,
    model: RegisterRequest,
) -> (r: ApiResponse)
    requires
        old(use_case).inv(),
    ensures
        final(use_case).inv(),
        ids_unique(final(use_case).store()) == ids_unique(old(use_case).store()),
        r is Created || r is ServerError,
        r matches ApiResponse::Created(b) ==> registered(
            old(use_case).store(),
            final(use_case).store(),
            model@,
            b@,
        ),
        r is ServerError ==> final(use_case).store() == old(use_case).store(),
        r matches ApiResponse::ServerError(msg) ==> (exists|e: UseCaseError| msg@
            == use_case_error_text(e)),
        has_handle(old(use_case).store(), model@.handle) ==> r is ServerError,
{
    match use_case.register(model) {
        Ok(b) => ApiResponse::Created(b),
        Err(e) => {
            let msg = e.message();
            proof {
                assert(msg@ == use_case_error_text(e));
            }
            ApiResponse::ServerError(msg)
        },
    }
}

/// Handles an avatar upload for the verified caller. The multipart body is
/// scanned for the first part named `avatar`; its bytes are encoded and
/// stored for the caller's own identifier, and the response describes what
/// was stored. A body with no avatar part, or whose avatar part could not be
/// read, yields `BadRequest` and no mutation; a repository failure yields
/// `ServerError` and no mutation. Only the caller's own record can change.
pub fn upload_avatar_multipart<T: BrawlerRepository>(
    use_case: &mut BrawlersUseCase<T>,
    identity: VerifiedIdentity,
    parts: &Vec<MultipartPart>,
) -> (r: ApiResponse)
    requires
        old(use_case).inv(),
    ensures
        final(use_case).inv(),
        ids_unique(final(use_case).store()) == ids_unique(old(use_case).store()),
        mutates_only(
            old(use_case).store(),
            final(use_case).store(),
            identity.brawler_id as int,
        ),
        r is Uploaded || r is BadRequest || r is ServerError,
        (r is BadRequest) == !(avatar_selection(part_views(parts@)) is Found),
        avatar_selection(part_views(parts@)) is Missing ==> (r matches ApiResponse::BadRequest(
            msg,
        ) && msg@ == "avatar file is required"@),
        avatar_selection(part_views(parts@)) matches AvatarSelection::Unreadable(e) ==> (r
            matches ApiResponse::BadRequest(msg) && msg@ == e),
        r is BadRequest ==> final(use_case).store() == old(use_case).store(),
        r is ServerError ==> final(use_case).store() == old(use_case).store(),
        r matches ApiResponse::ServerError(msg) ==> (exists|e: UseCaseError| msg@
            == use_case_error_text(e)),
        r matches ApiResponse::Uploaded(u) ==> (avatar_selection(part_views(parts@))
            matches AvatarSelection::Found(b) && u@.brawler_id == identity.brawler_id as int
            && u@.encoded == base64_text(b) && has_id(
            old(use_case).store(),
            identity.brawler_id as int,
        ) && final(use_case).store() == avatar_stored(
            old(use_case).store(),
            identity.brawler_id as int,
            base64_text(b),
        )),
{
    match extract_avatar(parts) {
        Ok(bytes) => {
            match use_case.upload_avatar(identity.brawler_id, &bytes) {
                Ok(u) => {
                    proof {
                        lemma_avatar_stored_mutates_only(
                            old(use_case).store(),
                            identity.brawler_id as int,
                            base64_text(bytes@),
                        );
                    }
                    ApiResponse::Uploaded(u)
                },
                Err(e) => {
                    let msg = e.message();
                    proof {
                        assert(msg@ == use_case_error_text(e));
                    }
                    ApiResponse::ServerError(msg)
                },
            }
        },
        Err(AvatarExtractError::MissingField) => ApiResponse::BadRequest(
            "avatar file is required".to_owned(),
        ),
        Err(AvatarExtractError::Unreadable(msg)) => ApiResponse::BadRequest(msg),
    }
}

/// Handles a profile update for the verified caller: the new display name,
/// the only field of the payload, replaces the caller's own. On success the
/// response is `Updated` with no body; on failure `ServerError`, with the
/// store unchanged. Only the caller's own record can change.
pub fn update_profile<T: BrawlerRepository>(
    use_case: &mut BrawlersUseCase<T>,
    identity: VerifiedIdentity,
    model: UpdateProfileRequest,
) -> (r: ApiResponse)
    requires
        old(use_case).inv(),
    ensures
        final(use_case).inv(),
        ids_unique(final(use_case).store()) == ids_unique(old(use_case).store()),
        mutates_only(
            old(use_case).store(),
            final(use_case).store(),
            identity.brawler_id as int,
        ),
        r is Updated || r is ServerError,
        r is Updated ==> has_id(old(use_case).store(), identity.brawler_id as int)
            && final(use_case).store() == renamed(
            old(use_case).store(),
            identity.brawler_id as int,
            model.display_name@,
        ),
        r is ServerError ==> final(use_case).store() == old(use_case).store(),
        r matches ApiResponse::ServerError(msg) ==> (exists|e: UseCaseError| msg@
            == use_case_error_text(e)),
        !has_id(old(use_case).store(), identity.brawler_id as int) ==> r is ServerError,
{
    match use_case.update_profile(identity.brawler_id, model.display_name) {
        Ok(_) => {
            proof {
                lemma_renamed_mutates_only(
                    old(use_case).store(),
                    identity.brawler_id as int,
                    model.display_name@,
                );
            }
            ApiResponse::Updated
        },
        Err(e) => {
            let msg = e.message();
            proof {
                assert(msg@ == use_case_error_text(e));
            }
            ApiResponse::ServerError(msg)
        },
    }
}

} // verus!
