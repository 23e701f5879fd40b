//! Domain entities and value objects of the profile-management core, each with
//! a mathematical view used by the contracts.

use vstd::prelude::*;

verus! {

/// The account entity. The identifier is assigned by the repository on
/// creation and immutable afterwards; the handle is the unique, immutable
/// registration name; display name and avatar reference are the only mutable
/// fields. The avatar reference is absent until the first upload and holds the
/// stored image in its encoded text form.
pub struct Brawler {
    pub id: i32,
    pub handle: String,
    pub display_name: String,
    pub avatar: Option<String>,
}

/// The view of an optional text value.
pub open spec fn opt_string_view(text: &Option<String>) -> Option<Seq<char>> {
    match text {
        Some(s) => Some(s@),
        None => None,
    }
}

/// Mathematical view of a `Brawler`.
pub ghost struct BrawlerView {
    pub id: int,
    pub handle: Seq<char>,
    pub display_name: Seq<char>,
    pub avatar: Option<Seq<char>>,
}

impl View for Brawler {
    type V = BrawlerView;

    open spec fn view(&self) -> BrawlerView {
        BrawlerView {
            id: self.id as int,
            handle: self.handle@,
            display_name: self.display_name@,
            avatar: opt_string_view(&self.avatar),
        }
    }
}

/// Input payload for account creation: the requested unique handle.
pub struct RegisterRequest {
    pub handle: String,
}

/// Mathematical view of a `RegisterRequest`.
pub ghost struct RegisterRequestView {
    pub handle: Seq<char>,
}

impl View for RegisterRequest {
    type V = RegisterRequestView;

    open spec fn view(&self) -> RegisterRequestView {
        RegisterRequestView { handle: self.handle@ }
    }
}

/// Input payload for a profile update: the new display name, the only mutable
/// field a caller may set directly.
pub struct UpdateProfileRequest {
    pub display_name: String,
}

/// A transient value describing a stored avatar: the owning brawler's
/// identifier and the image bytes in their encoded text form. Raw bytes are
/// never persisted by this core.
pub struct UploadedImage {
    pub brawler_id: i32,
    pub encoded: String,
}

/// Mathematical view of an `UploadedImage`.
pub ghost struct UploadedImageView {
    pub brawler_id: int,
    pub encoded: Seq<char>,
}

impl View for UploadedImage {
    type V = UploadedImageView;

    open spec fn view(&self) -> UploadedImageView {
        UploadedImageView { brawler_id: self.brawler_id as int, encoded: self.encoded@ }
    }
}

/// The authenticated caller's own brawler identifier, established by the
/// authentication middleware before a protected handler runs. It is valid for
/// one request only and is the only identity a mutation may use.
#[derive(Clone, Copy, PartialEq, Eq, Structural)]
pub struct VerifiedIdentity {
    pub brawler_id: i32,
}

/// Failure of a repository operation.
#[derive(Clone, Copy, PartialEq, Eq, Structural)]
pub enum RepositoryError {
    /// The addressed brawler does not exist.
    NotFound,
    /// A uniqueness constraint (duplicate handle) was violated.
    Conflict,
    /// The backing store cannot be reached.
    Unavailable,
}

/// Failure of a use-case operation, carrying the underlying repository cause
/// for transport-level reporting.
#[derive(Clone, Copy, PartialEq, Eq, Structural)]
pub enum UseCaseError {
    Repository(RepositoryError),
}

/// The text a response carries for each repository failure.
pub open spec fn repository_error_text(e: RepositoryError) -> Seq<char> {
    match e {
        RepositoryError::NotFound => "brawler not found"@,
        RepositoryError::Conflict => "a brawler with this handle already exists"@,
        RepositoryError::Unavailable => "repository unavailable"@,
    }
}

/// The text a response carries for a use-case failure: the underlying cause's.
pub open spec fn use_case_error_text(e: UseCaseError) -> Seq<char> {
    match e {
        UseCaseError::Repository(cause) => repository_error_text(cause),
    }
}

impl UseCaseError {
    /// Human-readable description of the failure, surfaced to the caller.
    pub fn message(&self) -> (s: String)
        ensures
            s@ == use_case_error_text(*self),
    {
        match self {
            UseCaseError::Repository(RepositoryError::NotFound) => "brawler not found".to_owned(),
            UseCaseError::Repository(RepositoryError::Conflict) => "a brawler with this handle already exists".to_owned(),
            UseCaseError::Repository(RepositoryError::Unavailable) => "repository unavailable".to_owned(),
        }
    }
}

} // verus!
