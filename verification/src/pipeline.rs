//! The submission pipeline: validate, accept the avatar fetch outcome,
//! create the row invisible, write media, flip the row visible.
//!
//! The avatar fetch itself is a network call made by the caller; its
//! outcome comes in as a plain value, and the pipeline is verified for
//! every such outcome.  The row is inserted with `visible = false` and is
//! flipped visible only after every requested media write, so a failure in
//! between leaves at worst an invisible orphan row and never a visible
//! post with missing media.

use vstd::prelude::*;

use crate::errors::{FetchError, SubmitError};
use crate::media::{avatar_file_path_spec, image_file_path_spec, MediaDir, MediaKind};
use crate::store::PostStore;
use crate::submission::{declares_png, image_ok, is_date_shape, valid_submission, validate,
    Submission};

verus! {

/// The outcome of the avatar fetch asked for by one submission.
pub enum AvatarFetch {
    /// The submission carried no avatar URL, so no fetch was attempted.
    NotRequested,
    /// The HTTP request itself failed.
    Unreachable,
    /// A response arrived, with its declared content type and its body.
    Response { content_type: Option<String>, body: Vec<u8> },
}

impl AvatarFetch {
    /// Whether the fetch outcome lets the submission go on.
    pub open spec fn accepted(&self) -> bool {
        match self {
            AvatarFetch::NotRequested => true,
            AvatarFetch::Unreachable => false,
            AvatarFetch::Response { content_type, .. } => declares_png(*content_type),
        }
    }

    /// The error owed for a rejected fetch outcome.
    pub open spec fn rejection(&self) -> SubmitError {
        match self {
            AvatarFetch::Response { content_type: Some(_), .. } => SubmitError::Fetch(
                FetchError::NotPng,
            ),
            AvatarFetch::Response { content_type: None, .. } => SubmitError::Fetch(
                FetchError::MissingContentType,
            ),
            _ => SubmitError::Fetch(FetchError::Unreachable),
        }
    }

    /// The body bytes of an accepted response, empty when none arrived.
    pub open spec fn body_bytes(&self) -> Seq<u8> {
        match self {
            AvatarFetch::Response { body, .. } => body@,
            _ => Seq::<u8>::empty(),
        }
    }
}

/// Accept the body of a fetched avatar response exactly when the response
/// declares the `image/png` content type; reject it with the owed fetch
/// error otherwise.
pub fn avatar_from_response(content_type: &Option<String>, body: Vec<u8>) -> (r: Result<
    Vec<u8>,
    SubmitError,
>)
    ensures
        r is Ok <==> declares_png(*content_type),
        r is Ok ==> r->Ok_0 == body,
        content_type is None ==> r == Result::<Vec<u8>, SubmitError>::Err(
            SubmitError::Fetch(FetchError::MissingContentType),
        ),
        content_type is Some && !declares_png(*content_type) ==> r == Result::<
            Vec<u8>,
            SubmitError,
        >::Err(SubmitError::Fetch(FetchError::NotPng)),
{
    match content_type {
        None => Err(SubmitError::Fetch(FetchError::MissingContentType)),
        Some(t) => {
            let png = String::from_str("image/png");
            if *t == png {
                Ok(body)
            } else {
                Err(SubmitError::Fetch(FetchError::NotPng))
            }
        },
    }
}

/// Run one whole submission against the store and the media directory.
///
/// The caller has already performed the avatar fetch exactly when the
/// submission carries a non-empty avatar URL, and hands in its outcome.
/// On failure nothing is persisted: validation and fetch errors stop
/// before the row, and the one store failure, exhaustion of the id space,
/// is reported before anything changes.  On success exactly one new row
/// exists, visible, its media flags matching exactly the media written.
pub fn submit(
    store: &mut PostStore,
    media: &mut MediaDir,
    sub: &Submission,
    fetch: AvatarFetch,
) -> (r: Result<u64, SubmitError>)
    requires
        old(store).wf(),
        (sub.avatar@.len() == 0) <==> (fetch is NotRequested),
    ensures
        final(store).wf(),
        r is Ok <==> valid_submission(*sub) && fetch.accepted() && old(store).next_id < u64::MAX,
        !is_date_shape(sub.date@) ==> r == Result::<u64, SubmitError>::Err(
            SubmitError::Validation(crate::errors::ValidationError::InvalidDateFormat),
        ),
        is_date_shape(sub.date@) && !image_ok(*sub) ==> r == Result::<u64, SubmitError>::Err(
            SubmitError::Validation(crate::errors::ValidationError::InvalidImageType),
        ),
        valid_submission(*sub) && !fetch.accepted() ==> r == Result::<u64, SubmitError>::Err(
            fetch.rejection(),
        ),
        valid_submission(*sub) && fetch.accepted() && old(store).next_id == u64::MAX ==> r
            == Result::<u64, SubmitError>::Err(SubmitError::Store),
        r is Err ==> *final(store) == *old(store) && *final(media) == *old(media),
        r is Ok ==> {
            &&& r->Ok_0 == old(store).next_id
            &&& final(store).next_id == old(store).next_id + 1
            &&& final(store).posts@.len() == old(store).posts@.len() + 1
            &&& final(store).posts@.drop_last() == old(store).posts@
            &&& final(store).posts@.last().id == old(store).next_id
            &&& final(store).posts@.last().author@ == sub.user@
            &&& final(store).posts@.last().date@ == sub.date@
            &&& final(store).posts@.last().content@ == sub.text@
            &&& final(store).posts@.last().visible == true
            &&& final(store).posts@.last().has_avatar == (sub.avatar@.len() != 0)
            &&& final(store).posts@.last().has_image == (sub.image@.len() != 0)
        },
        r is Ok ==> {
            let wrote_avatar: int = if sub.avatar@.len() != 0 { 1 } else { 0 };
            let wrote_image: int = if sub.image@.len() != 0 { 1 } else { 0 };
            &&& final(media).files@.len() == old(media).files@.len() + wrote_avatar + wrote_image
            &&& final(media).files@.take(old(media).files@.len() as int) == old(media).files@
            &&& sub.avatar@.len() != 0 ==> {
                &&& final(media).files@[old(media).files@.len() as int].path@
                    == avatar_file_path_spec(old(store).next_id)
                &&& final(media).files@[old(media).files@.len() as int].bytes@
                    == fetch.body_bytes()
            }
            &&& sub.image@.len() != 0 ==> {
                &&& final(media).files@.last().path@ == image_file_path_spec(old(store).next_id)
                &&& final(media).files@.last().bytes@ == sub.image@
            }
        },
{
    match validate(sub) {
        Err(e) => {
            return Err(e);
        },
        Ok(()) => {},
    }
    let avatar_bytes: Option<Vec<u8>> = match fetch {
        AvatarFetch::NotRequested => None,
        AvatarFetch::Unreachable => {
            return Err(SubmitError::Fetch(FetchError::Unreachable));
        },
        AvatarFetch::Response { content_type, body } => {
            match avatar_from_response(&content_type, body) {
                Ok(b) => Some(b),
                Err(e) => {
                    return Err(e);
                },
            }
        },
    };
    let id = match store.create_invisible(sub.user.as_str(), sub.date.as_str(), sub.text.as_str()) {
        Ok(id) => id,
        Err(e) => {
            return Err(e);
        },
    };
    let ghost created = *store;
    let ghost media0 = *media;
    let has_avatar = match &avatar_bytes {
        Some(b) => {
            media.write(MediaKind::Avatar, id, b.as_slice());
            true
        },
        None => false,
    };
    let ghost media1 = *media;
    let has_image = sub.image.len() > 0;
    if has_image {
        media.write(MediaKind::Image, id, sub.image.as_slice());
    }
    proof {
        assert(created.posts@[created.posts@.len() - 1].id == id);
        assert(created.has_id(id));
        if has_avatar {
            assert(media1.files@.take(media0.files@.len() as int) =~= media0.files@);
        }
        assert(media.files@.take(media0.files@.len() as int) =~= media0.files@);
    }
    match store.finalize(id, has_image, has_avatar) {
        Ok(()) => {
            proof {
                let i = choose|i: int|
                    0 <= i < created.posts@.len() && created.posts@[i].id == id
                        && store.posts@ =~= created.posts@.update(
                        i,
                        (crate::store::Post {
                            has_image,
                            has_avatar,
                            visible: true,
                            ..created.posts@[i]
                        }),
                    );
                assert(i == created.posts@.len() - 1);
                assert(store.posts@.drop_last() =~= old(store).posts@);
            }
            Ok(id)
        },
        Err(e) => Err(e),
    }
}

} // verus!
