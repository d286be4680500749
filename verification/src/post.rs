//! The persisted blog entry.

use vstd::prelude::*;

use crate::names::spec_avatar_filename;
use crate::names::spec_image_filename;

verus! {

/// A persisted blog post. Created exactly once by the submission pipeline,
/// never mutated, never deleted.
pub struct Post {
    /// Unique handle, also the namespace for the blob filenames.
    pub id: u128,
    /// Microseconds since the Unix epoch, assigned at submission time;
    /// defines the feed order (most recent first).
    pub created_at: i64,
    /// Author name; never empty.
    pub author: String,
    /// Body text; never empty.
    pub body: String,
    /// Filename of the stored image blob, when an image was submitted.
    pub image_ref: Option<String>,
    /// Filename of the stored avatar blob, when an avatar was retrieved.
    pub avatar_ref: Option<String>,
}

impl Post {
    /// Well-formed: the required texts are non-empty and each blob
    /// reference, when present, is the filename derived from this post's
    /// own id.
    pub open spec fn wf(self) -> bool {
        &&& self.author@.len() > 0
        &&& self.body@.len() > 0
        &&& (self.image_ref matches Some(n) ==> n@ == spec_image_filename(self.id))
        &&& (self.avatar_ref matches Some(n) ==> n@ == spec_avatar_filename(self.id))
    }
}

} // verus!
