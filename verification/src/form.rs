//! Multipart form ingestion and validation.
//!
//! A submission arrives as a sequence of named parts, each carrying raw
//! bytes. Exactly one part per recognized name (`text`, `image`, `user`,
//! `avatar`) is accepted: a repeated name or an unrecognized one rejects the
//! whole submission. After all parts are read, `text` and `user` are
//! required and must not be blank (empty or whitespace only), an empty
//! `image` payload counts as no image, and an empty `avatar` value counts
//! as no avatar URL. Text-valued parts must be valid UTF-8.

use vstd::prelude::*;
use vstd::utf8::decode_first_scalar;
use vstd::utf8::decode_utf8;
use vstd::utf8::pop_first_scalar;
use vstd::utf8::valid_utf8;

verus! {

/// One named part of a multipart payload, as it came off the wire.
pub struct Part {
    pub name: String,
    pub data: Vec<u8>,
}

/// Why a submission was rejected as malformed input.
#[derive(Clone, Copy, Debug, PartialEq, Eq, Structural)]
pub enum FormError {
    /// A part's name is outside the recognized set.
    UnrecognizedField,
    /// A second part carries a name already seen.
    RepeatedField,
    /// A text-valued part is not valid UTF-8.
    BadEncoding,
    /// The `text` part is missing or blank.
    MissingText,
    /// The `user` part is missing or blank.
    MissingUser,
}

/// The four field slots, each filled by at most one part.
pub struct FieldAcc {
    pub text: Option<Seq<u8>>,
    pub image: Option<Seq<u8>>,
    pub user: Option<Seq<u8>>,
    pub avatar: Option<Seq<u8>>,
}

/// A validated submission, ready for the pipeline.
pub struct Submission {
    /// Body text of the post; never blank.
    pub body: String,
    /// Author name; never blank.
    pub author: String,
    /// Raw image bytes, when a non-empty image was submitted.
    pub image: Option<Vec<u8>>,
    /// Avatar URL, when a non-empty one was submitted.
    pub avatar_url: Option<String>,
}

/// The mathematical content of a validated submission.
pub struct SubmissionModel {
    pub body: Seq<char>,
    pub author: Seq<char>,
    pub image: Option<Seq<u8>>,
    pub avatar_url: Option<Seq<char>>,
}

impl View for Submission {
    type V = SubmissionModel;

    open spec fn view(&self) -> SubmissionModel {
        SubmissionModel {
            body: self.body@,
            author: self.author@,
            image: match self.image {
                Some(v) => Some(v@),
                None => None,
            },
            avatar_url: match self.avatar_url {
                Some(s) => Some(s@),
                None => None,
            },
        }
    }
}

/// An ASCII whitespace byte.
pub open spec fn is_space_byte(b: u8) -> bool {
    b == 0x20 || b == 0x09 || b == 0x0a || b == 0x0d
}

/// Empty or made of whitespace only; such a value counts as missing.
pub open spec fn is_blank(s: Seq<u8>) -> bool {
    forall|i: int| 0 <= i < s.len() ==> is_space_byte(s[i])
}

/// The empty accumulation state: no part seen yet.
pub open spec fn empty_acc() -> FieldAcc {
    FieldAcc { text: None, image: None, user: None, avatar: None }
}

/// Files one part into the accumulation state, or rejects it.
pub open spec fn scan_step(acc: FieldAcc, p: Part) -> Result<FieldAcc, FormError> {
    if p.name@ == "text"@ {
        if acc.text is Some {
            Err(FormError::RepeatedField)
        } else {
            Ok(FieldAcc { text: Some(p.data@), ..acc })
        }
    } else if p.name@ == "image"@ {
        if acc.image is Some {
            Err(FormError::RepeatedField)
        } else {
            Ok(FieldAcc { image: Some(p.data@), ..acc })
        }
    } else if p.name@ == "user"@ {
        if acc.user is Some {
            Err(FormError::RepeatedField)
        } else {
            Ok(FieldAcc { user: Some(p.data@), ..acc })
        }
    } else if p.name@ == "avatar"@ {
        if acc.avatar is Some {
            Err(FormError::RepeatedField)
        } else {
            Ok(FieldAcc { avatar: Some(p.data@), ..acc })
        }
    } else {
        Err(FormError::UnrecognizedField)
    }
}

/// Files the parts in order, starting from `acc`; the first offending part
/// decides the error.
pub open spec fn scan_from(acc: FieldAcc, parts: Seq<Part>) -> Result<FieldAcc, FormError>
    decreases parts.len(),
{
    if parts.len() == 0 {
        Ok(acc)
    } else {
        match scan_step(acc, parts[0]) {
            Err(e) => Err(e),
            Ok(acc2) => scan_from(acc2, parts.skip(1)),
        }
    }
}

/// Files all parts in order into the four slots.
pub open spec fn scan_parts(parts: Seq<Part>) -> Result<FieldAcc, FormError> {
    scan_from(empty_acc(), parts)
}

/// Validates the filled slots: `text` and `user` are required and must not
/// be blank; an empty `image` payload means no image; an empty `avatar`
/// value means no avatar. Text-valued slots must decode as UTF-8; the
/// fields are checked in the order `text`, `user`, `avatar`.
pub open spec fn validate_acc(acc: FieldAcc) -> Result<SubmissionModel, FormError> {
    match acc.text {
        None => Err(FormError::MissingText),
        Some(t) => if is_blank(t) {
            Err(FormError::MissingText)
        } else if !valid_utf8(t) {
            Err(FormError::BadEncoding)
        } else {
            match acc.user {
                None => Err(FormError::MissingUser),
                Some(u) => if is_blank(u) {
                    Err(FormError::MissingUser)
                } else if !valid_utf8(u) {
                    Err(FormError::BadEncoding)
                } else {
                    match acc.avatar {
                        Some(a) => if a.len() == 0 {
                            Ok(SubmissionModel {
                                body: decode_utf8(t),
                                author: decode_utf8(u),
                                image: image_of(acc.image),
                                avatar_url: None,
                            })
                        } else if !valid_utf8(a) {
                            Err(FormError::BadEncoding)
                        } else {
                            Ok(SubmissionModel {
                                body: decode_utf8(t),
                                author: decode_utf8(u),
                                image: image_of(acc.image),
                                avatar_url: Some(decode_utf8(a)),
                            })
                        },
                        None => Ok(SubmissionModel {
                            body: decode_utf8(t),
                            author: decode_utf8(u),
                            image: image_of(acc.image),
                            avatar_url: None,
                        }),
                    }
                },
            }
        },
    }
}

/// An empty image payload counts as no image.
pub open spec fn image_of(slot: Option<Seq<u8>>) -> Option<Seq<u8>> {
    match slot {
        Some(b) => if b.len() == 0 {
            None
        } else {
            Some(b)
        },
        None => None,
    }
}

/// What field extraction makes of a sequence of parts.
pub open spec fn extract_spec(parts: Seq<Part>) -> Result<SubmissionModel, FormError> {
    match scan_parts(parts) {
        Err(e) => Err(e),
        Ok(acc) => validate_acc(acc),
    }
}

/// A non-empty valid UTF-8 byte sequence decodes to at least one
/// character.
pub proof fn lemma_decode_nonempty(b: Seq<u8>)
    requires
        valid_utf8(b),
        b.len() > 0,
    ensures
        decode_utf8(b).len() > 0,
{
    assert(decode_utf8(b) == seq![decode_first_scalar(b) as char] + decode_utf8(
        pop_first_scalar(b),
    ));
}

/// A validated submission carries a non-empty body and a non-empty author
/// name: blank required fields never pass validation.
pub proof fn lemma_extract_ok_nonempty(parts: Seq<Part>)
    requires
        extract_spec(parts) is Ok,
    ensures
        extract_spec(parts) matches Ok(m) ==> m.body.len() > 0 && m.author.len() > 0,
{
    match scan_parts(parts) {
        Ok(acc) => {
            match acc.text {
                Some(t) => {
                    assert(!is_blank(t));
                    assert(t.len() > 0);
                    lemma_decode_nonempty(t);
                },
                None => {
                    assert(false);
                },
            }
            match acc.user {
                Some(u) => {
                    assert(!is_blank(u));
                    assert(u.len() > 0);
                    lemma_decode_nonempty(u);
                },
                None => {
                    assert(false);
                },
            }
        },
        Err(_) => {
            assert(false);
        },
    }
}

/// Relies on `String::from_utf8`: it returns `Ok` exactly when the bytes
/// are valid UTF-8, and then the string holds their decoded characters
/// (stated over vstd's model of UTF-8).
#[verifier::external_body]
fn decode_text(bytes: Vec<u8>) -> (r: Option<String>)
    ensures
        r is Some <==> valid_utf8(bytes@),
        r matches Some(s) ==> s@ == decode_utf8(bytes@),
{
    String::from_utf8(bytes).ok()
}

/// A `String` with the given content.
fn key_string(s: &str) -> (r: String)
    ensures
        r@ == s@,
{
    let mut r = String::new();
    r.append(s);
    r
}

/// Whether the bytes are empty or all whitespace.
fn blank(v: &Vec<u8>) -> (r: bool)
    ensures
        r == is_blank(v@),
{
    let mut i: usize = 0;
    while i < v.len()
        invariant
            0 <= i <= v@.len(),
            forall|j: int| 0 <= j < i ==> is_space_byte(v@[j]),
        decreases v@.len() - i,
    {
        let b = v[i];
        if !(b == 0x20 || b == 0x09 || b == 0x0a || b == 0x0d) {
            return false;
        }
        i = i + 1;
    }
    true
}

/// Reads the parts in order into the four recognized fields, then applies
/// the validation rules; returns the validated submission or the reason the
/// payload is malformed.
#[verifier::loop_isolation(false)]
pub fn extract_form(parts: Vec<Part>) -> (r: Result<Submission, FormError>)
    ensures
        r matches Ok(sub) ==> extract_spec(parts@) == Ok::<SubmissionModel, FormError>(sub@),
        r matches Err(e) ==> extract_spec(parts@) == Err::<SubmissionModel, FormError>(e),
{
    let ghost all = parts@;
    let mut rest = parts;
    let mut text: Option<Vec<u8>> = None;
    let mut image: Option<Vec<u8>> = None;
    let mut user: Option<Vec<u8>> = None;
    let mut avatar: Option<Vec<u8>> = None;

    let text_key = key_string("text");
    let image_key = key_string("image");
    let user_key = key_string("user");
    let avatar_key = key_string("avatar");

    while rest.len() > 0
        invariant
            scan_parts(all) == scan_from(
                FieldAcc {
                    text: opt_bytes(text),
                    image: opt_bytes(image),
                    user: opt_bytes(user),
                    avatar: opt_bytes(avatar),
                },
                rest@,
            ),
            text_key@ == "text"@,
            image_key@ == "image"@,
            user_key@ == "user"@,
            avatar_key@ == "avatar"@,
        decreases rest@.len(),
    {
        let ghost pre = rest@;
        let ghost acc0 = FieldAcc {
            text: opt_bytes(text),
            image: opt_bytes(image),
            user: opt_bytes(user),
            avatar: opt_bytes(avatar),
        };
        let p = rest.remove(0);
        proof {
            assert(pre[0] == p);
            assert(rest@ =~= pre.skip(1));
            assert(scan_from(acc0, pre) == match scan_step(acc0, p) {
                Err(e) => Err(e),
                Ok(acc2) => scan_from(acc2, pre.skip(1)),
            });
        }
        if p.name == text_key {
            if text.is_some() {
                return Err(FormError::RepeatedField);
            }
            text = Some(p.data);
        } else if p.name == image_key {
            if image.is_some() {
                return Err(FormError::RepeatedField);
            }
            image = Some(p.data);
        } else if p.name == user_key {
            if user.is_some() {
                return Err(FormError::RepeatedField);
            }
            user = Some(p.data);
        } else if p.name == avatar_key {
            if avatar.is_some() {
                return Err(FormError::RepeatedField);
            }
            avatar = Some(p.data);
        } else {
            return Err(FormError::UnrecognizedField);
        }
    }
    validate_fields(Ghost(all), text, image, user, avatar)
}

/// The accumulated slots, seen abstractly.
pub open spec fn opt_bytes(o: Option<Vec<u8>>) -> Option<Seq<u8>> {
    match o {
        Some(v) => Some(v@),
        None => None,
    }
}

/// Applies the validation rules to the filled slots.
fn validate_fields(
    Ghost(all): Ghost<Seq<Part>>,
    text: Option<Vec<u8>>,
    image: Option<Vec<u8>>,
    user: Option<Vec<u8>>,
    avatar: Option<Vec<u8>>,
) -> (r: Result<Submission, FormError>)
    requires
        scan_parts(all) == Ok::<FieldAcc, FormError>(
            FieldAcc {
                text: opt_bytes(text),
                image: opt_bytes(image),
                user: opt_bytes(user),
                avatar: opt_bytes(avatar),
            },
        ),
    ensures
        r matches Ok(sub) ==> extract_spec(all) == Ok::<SubmissionModel, FormError>(sub@),
        r matches Err(e) ==> extract_spec(all) == Err::<SubmissionModel, FormError>(e),
{
    let t = match text {
        None => {
            return Err(FormError::MissingText);
        },
        Some(t) => t,
    };
    if blank(&t) {
        return Err(FormError::MissingText);
    }
    let body = match decode_text(t) {
        None => {
            return Err(FormError::BadEncoding);
        },
        Some(s) => s,
    };
    let u = match user {
        None => {
            return Err(FormError::MissingUser);
        },
        Some(u) => u,
    };
    if blank(&u) {
        return Err(FormError::MissingUser);
    }
    let author = match decode_text(u) {
        None => {
            return Err(FormError::BadEncoding);
        },
        Some(s) => s,
    };
    let avatar_url = match avatar {
        None => None,
        Some(a) => {
            if a.len() == 0 {
                None
            } else {
                match decode_text(a) {
                    None => {
                        return Err(FormError::BadEncoding);
                    },
                    Some(s) => Some(s),
                }
            }
        },
    };
    let image = match image {
        None => None,
        Some(v) => {
            if v.len() == 0 {
                None
            } else {
                Some(v)
            }
        },
    };
    Ok(Submission { body, author, image, avatar_url })
}

} // verus!
