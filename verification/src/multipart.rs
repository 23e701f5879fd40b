//! Selection of the avatar field from a multipart body. The body is modelled
//! as a sequence of named parts; each part's bytes either arrived whole or
//! failed mid-stream with the transport's description. The first part named
//! `avatar` wins and scanning stops there; parts after it are never read.

use vstd::prelude::*;

use crate::domain::opt_string_view;

verus! {

/// One part of a multipart body: its field name, if the part carries one, and
/// its bytes — or the transport's failure description where reading the bytes
/// failed mid-stream.
pub struct MultipartPart {
    pub name: Option<String>,
    pub body: Result<Vec<u8>, String>,
}

/// Mathematical view of a `MultipartPart`.
pub ghost struct PartView {
    pub name: Option<Seq<char>>,
    pub body: Result<Seq<u8>, Seq<char>>,
}

impl View for MultipartPart {
    type V = PartView;

    open spec fn view(&self) -> PartView {
        PartView {
            name: opt_string_view(&self.name),
            body: match &self.body {
                Ok(b) => Ok(b@),
                Err(e) => Err(e@),
            },
        }
    }
}

/// The views of a sequence of parts.
pub open spec fn part_views(parts: Seq<MultipartPart>) -> Seq<PartView> {
    parts.map_values(|p: MultipartPart| p@)
}

/// Whether a part is the avatar field.
pub open spec fn is_avatar_part(p: PartView) -> bool {
    p.name == Some("avatar"@)
}

/// What scanning a multipart body for the avatar field yields.
pub ghost enum AvatarSelection {
    /// The first part named `avatar` was read whole; these are its bytes.
    Found(Seq<u8>),
    /// Reading the bytes of the first part named `avatar` failed; this is the
    /// transport's description.
    Unreadable(Seq<char>),
    /// No part is named `avatar`.
    Missing,
}

/// The avatar field of a body: the first part named `avatar` decides, and
/// parts after it never matter.
pub open spec fn avatar_selection(parts: Seq<PartView>) -> AvatarSelection
    decreases parts.len(),
{
    if parts.len() == 0 {
        AvatarSelection::Missing
    } else if is_avatar_part(parts[0]) {
        match parts[0].body {
            Ok(b) => AvatarSelection::Found(b),
            Err(e) => AvatarSelection::Unreadable(e),
        }
    } else {
        avatar_selection(parts.skip(1))
    }
}

/// Failure to obtain avatar bytes from a multipart body; both cases answer a
/// request with a 400-class response.
pub enum AvatarExtractError {
    /// No part of the body is named `avatar`.
    MissingField,
    /// The first part named `avatar` could not be read whole; carries the
    /// transport's description.
    Unreadable(String),
}

/// Whether a field name is the avatar field's. A streaming reader asks this
/// of each part's name before deciding to read the part's bytes.
pub fn is_avatar_name(name: &Option<String>) -> (r: bool)
    ensures
        r == (opt_string_view(name) == Some("avatar"@)),
{
    match name {
        Some(n) => {
            let avatar: String = "avatar".to_owned();
            *n == avatar
        },
        None => false,
    }
}

/// Scans the parts in order and returns the bytes of the first part named
/// `avatar`; the read failure of that part, or the absence of any such part,
/// is reported as the error. Parts after the first avatar part are never
/// inspected.
pub fn extract_avatar(parts: &Vec<MultipartPart>) -> (r: Result<Vec<u8>, AvatarExtractError>)
    ensures
        match avatar_selection(part_views(parts@)) {
            AvatarSelection::Found(b) => r is Ok && r->Ok_0@ == b,
            AvatarSelection::Unreadable(e) => r matches Err(AvatarExtractError::Unreadable(msg))
                && msg@ == e,
            AvatarSelection::Missing => r == Err::<Vec<u8>, AvatarExtractError>(
                AvatarExtractError::MissingField,
            ),
        },
{
    let ghost views = part_views(parts@);
    let mut i: usize = 0;
    proof {
        assert(views.skip(0) =~= views);
    }
    while i < parts.len()
        invariant
            i <= parts.len(),
            views == part_views(parts@),
            avatar_selection(views) == avatar_selection(views.skip(i as int)),
        decreases parts.len() - i,
    {
        let p = &parts[i];
        proof {
            assert(views[i as int] == parts@[i as int]@);
            assert(views.skip(i as int)[0] == views[i as int]);
        }
        if is_avatar_name(&p.name) {
            match &p.body {
                Ok(bytes) => {
                    return Ok(vstd::slice::slice_to_vec(bytes.as_slice()));
                },
                Err(e) => {
                    return Err(AvatarExtractError::Unreadable(e.clone()));
                },
            }
        }
        proof {
            assert(views.skip(i as int).skip(1) =~= views.skip(i as int + 1));
        }
        i = i + 1;
    }
    proof {
        assert(views.skip(i as int) =~= Seq::<PartView>::empty());
    }
    Err(AvatarExtractError::MissingField)
}

} // verus!
