//! The submission pipeline.
//!
//! One incoming post flows through field extraction and validation, an
//! optional image write, an optional avatar fetch and write, and a single
//! insert into the post table — in that strict order, so that a failure at
//! any step leaves no post record behind. Only the insert makes the post
//! visible to readers; an already-written blob whose submission later
//! fails is merely orphaned, never referenced.

use vstd::prelude::*;

use crate::form::FormError;
use crate::form::Part;
use crate::form::Submission;
use crate::form::SubmissionModel;
use crate::form::extract_form;
use crate::form::extract_spec;
use crate::form::lemma_extract_ok_nonempty;
use crate::form::opt_bytes;
use crate::names::avatar_filename;
use crate::names::image_filename;
use crate::names::spec_avatar_filename;
use crate::names::spec_image_filename;
use crate::post::Post;
use crate::store::BlobStore;
use crate::store::FeedStore;

verus! {

/// Why a submission failed.
#[derive(Clone, Copy, Debug, PartialEq, Eq, Structural)]
pub enum SubmitError {
    /// The multipart payload is malformed input (a client error).
    Rejected(FormError),
    /// The avatar could not be retrieved from the given URL (a client
    /// error: the URL is part of the submission).
    AvatarUnavailable,
    /// The storage port refused the insert (a server error).
    StorageFailed,
}

/// The HTTP status that answers a finished submission: a redirect to the
/// feed on success, bad-request for malformed input or an unreachable
/// avatar, internal-server-error for a storage failure.
pub fn response_status(r: &Result<(), SubmitError>) -> (code: u16)
    ensures
        r is Ok ==> code == 303,
        r == Err::<(), SubmitError>(SubmitError::AvatarUnavailable) ==> code == 400,
        (r matches Err(SubmitError::Rejected(e))) ==> code == 400,
        r == Err::<(), SubmitError>(SubmitError::StorageFailed) ==> code == 500,
{
    match r {
        Ok(_) => 303,
        Err(SubmitError::Rejected(_)) => 400,
        Err(SubmitError::AvatarUnavailable) => 400,
        Err(SubmitError::StorageFailed) => 500,
    }
}

/// Relies on `uuid::Uuid::new_v4` (read back through `as_u128`): a
/// freshly drawn random version-4 identifier. Nothing can be promised of
/// a random value.
#[verifier::external_body]
fn fresh_id() -> u128 {
    uuid::Uuid::new_v4().as_u128()
}

/// Relies on `chrono::Utc::now` (read back through `timestamp_micros`):
/// the clock's current reading as microseconds since the Unix epoch.
/// Nothing is promised of the clock.
#[verifier::external_body]
fn now_micros() -> i64 {
    chrono::Utc::now().timestamp_micros()
}

/// A validated submission stamped with its identity and the derived blob
/// filenames, ready for the side-effecting steps.
pub struct PendingPost {
    pub id: u128,
    pub created_at: i64,
    pub body: String,
    pub author: String,
    pub image: Option<Vec<u8>>,
    pub avatar_url: Option<String>,
    pub image_name: String,
    pub avatar_name: String,
}

impl PendingPost {
    /// Well-formed: required texts non-empty, filenames derived from the
    /// id.
    pub open spec fn wf(self) -> bool {
        &&& self.body@.len() > 0
        &&& self.author@.len() > 0
        &&& self.image_name@ == spec_image_filename(self.id)
        &&& self.avatar_name@ == spec_avatar_filename(self.id)
    }

    /// The pending fields agree with a validated submission.
    pub open spec fn carries(self, m: SubmissionModel) -> bool {
        &&& self.body@ == m.body
        &&& self.author@ == m.author
        &&& (match (self.image, m.image) {
            (Some(v), Some(b)) => v@ == b,
            (None, None) => true,
            _ => false,
        })
        &&& (match (self.avatar_url, m.avatar_url) {
            (Some(s), Some(c)) => s@ == c,
            (None, None) => true,
            _ => false,
        })
    }
}

/// Attaches an identity and the derived blob filenames to a validated
/// submission.
pub fn plan_submission(sub: Submission, id: u128, created_at: i64) -> (p: PendingPost)
    requires
        sub.body@.len() > 0,
        sub.author@.len() > 0,
    ensures
        p.wf(),
        p.carries(sub@),
        p.id == id,
        p.created_at == created_at,
{
    let image_name = image_filename(id);
    let avatar_name = avatar_filename(id);
    PendingPost {
        id,
        created_at,
        body: sub.body,
        author: sub.author,
        image: sub.image,
        avatar_url: sub.avatar_url,
        image_name,
        avatar_name,
    }
}

/// Extracts and validates the parts, then stamps the submission with a
/// fresh random id and the current time.
pub fn begin_submission(parts: Vec<Part>) -> (r: Result<PendingPost, FormError>)
    ensures
        extract_spec(parts@) matches Ok(m) ==> (r matches Ok(p) && p.wf() && p.carries(m)),
        extract_spec(parts@) matches Err(e) ==> r == Err::<PendingPost, FormError>(e),
{
    let ghost all = parts@;
    match extract_form(parts) {
        Err(e) => Err(e),
        Ok(sub) => {
            proof {
                lemma_extract_ok_nonempty(all);
            }
            let id = fresh_id();
            let created_at = now_micros();
            Ok(plan_submission(sub, id, created_at))
        },
    }
}

/// Turns a pending submission into its post record; the caller commits it
/// only after the planned blob writes succeeded.
pub fn build_post(p: PendingPost) -> (post: Post)
    requires
        p.wf(),
    ensures
        post.wf(),
        post.id == p.id,
        post.created_at == p.created_at,
        post.body@ == p.body@,
        post.author@ == p.author@,
        (post.image_ref is Some) == (p.image is Some),
        (post.avatar_ref is Some) == (p.avatar_url is Some),
{
    let PendingPost { id, created_at, body, author, image, avatar_url, image_name, avatar_name } =
        p;
    let image_ref = if image.is_some() {
        Some(image_name)
    } else {
        None
    };
    let avatar_ref = if avatar_url.is_some() {
        Some(avatar_name)
    } else {
        None
    };
    Post { id, created_at, author, body, image_ref, avatar_ref }
}

/// The blob writes a submission performs before its insert, in order: the
/// image first (when one was submitted), then the fetched avatar bytes
/// (when the submission carries an avatar URL and the fetch succeeded).
pub open spec fn planned_blobs(m: SubmissionModel, id: u128, fetched: Option<Seq<u8>>) -> Seq<
    (Seq<char>, Seq<u8>),
> {
    (match m.image {
        Some(bytes) => seq![(spec_image_filename(id), bytes)],
        None => seq![],
    }) + (match m.avatar_url {
        Some(_) => match fetched {
            Some(d) => seq![(spec_avatar_filename(id), d)],
            None => seq![],
        },
        None => seq![],
    })
}

/// The record a successful submission leaves in the post table.
pub open spec fn post_matches(p: Post, m: SubmissionModel, id: u128, created_at: i64) -> bool {
    &&& p.wf()
    &&& p.id == id
    &&& p.created_at == created_at
    &&& p.body@ == m.body
    &&& p.author@ == m.author
    &&& (p.image_ref is Some) == (m.image is Some)
    &&& (p.avatar_ref is Some) == (m.avatar_url is Some)
}

/// Runs one whole submission against the given ports: extraction and
/// validation, the image write, the avatar retrieval and write, and the
/// single insert, in that order. `avatar_response` stands for the avatar
/// fetcher's answer for this submission's URL (`None` is a failed fetch);
/// it is consulted only when the submission carries an avatar URL. The id
/// and timestamp are the caller's, so that the contract can speak of
/// them; `begin_submission` is the path that draws them.
pub fn handle_submission(
    store: &mut FeedStore,
    blobs: &mut BlobStore,
    parts: Vec<Part>,
    id: u128,
    created_at: i64,
    avatar_response: Option<Vec<u8>>,
) -> (r: Result<(), SubmitError>)
    requires
        old(store).wf(),
    ensures
        final(store).wf(),
        extract_spec(parts@) matches Err(e) ==> (r == Err::<(), SubmitError>(
            SubmitError::Rejected(e),
        ) && final(store)@ == old(store)@ && final(blobs)@ == old(blobs)@),
        extract_spec(parts@) matches Ok(m) ==> ((m.avatar_url is Some && avatar_response is None)
            ==> (r == Err::<(), SubmitError>(SubmitError::AvatarUnavailable) && final(store)@
            == old(store)@ && final(blobs)@ == old(blobs)@ + planned_blobs(
            m,
            id,
            opt_bytes(avatar_response),
        ))),
        extract_spec(parts@) matches Ok(m) ==> ((m.avatar_url is Some ==> avatar_response is Some)
            ==> (final(blobs)@ == old(blobs)@ + planned_blobs(m, id, opt_bytes(avatar_response))
            && (if old(store).contains_id(id) {
            r == Err::<(), SubmitError>(SubmitError::StorageFailed) && final(store)@ == old(
                store,
            )@
        } else {
            r == Ok::<(), SubmitError>(()) && final(store)@.len() == old(store)@.len() + 1
                && final(store)@.drop_last() == old(store)@ && post_matches(
                final(store)@.last(),
                m,
                id,
                created_at,
            )
        }))),
{
    let ghost all = parts@;
    let ghost fetched = opt_bytes(avatar_response);
    let sub = match extract_form(parts) {
        Err(e) => {
            return Err(SubmitError::Rejected(e));
        },
        Ok(s) => s,
    };
    let ghost m = sub@;
    proof {
        lemma_extract_ok_nonempty(all);
    }
    let p = plan_submission(sub, id, created_at);
    let PendingPost {
        id: pid,
        created_at: pts,
        body,
        author,
        image,
        avatar_url,
        image_name,
        avatar_name,
    } = p;
    let has_image = image.is_some();
    match image {
        Some(bytes) => {
            blobs.put(image_name.clone(), bytes);
        },
        None => {},
    }
    let has_avatar = avatar_url.is_some();
    if has_avatar {
        match avatar_response {
            Some(d) => {
                blobs.put(avatar_name.clone(), d);
            },
            None => {
                proof {
                    assert(blobs@ =~= old(blobs)@ + planned_blobs(m, id, fetched));
                }
                return Err(SubmitError::AvatarUnavailable);
            },
        }
    }
    proof {
        assert(blobs@ =~= old(blobs)@ + planned_blobs(m, id, fetched));
    }
    let image_ref = if has_image {
        Some(image_name)
    } else {
        None
    };
    let avatar_ref = if has_avatar {
        Some(avatar_name)
    } else {
        None
    };
    let post = Post { id: pid, created_at: pts, author, body, image_ref, avatar_ref };
    let ghost committed = post;
    match store.insert(post) {
        Ok(_) => {
            proof {
                assert(store@.drop_last() =~= old(store)@);
                assert(post_matches(committed, m, id, created_at));
            }
            Ok(())
        },
        Err(_) => Err(SubmitError::StorageFailed),
    }
}

} // verus!
