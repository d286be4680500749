//! Blob filenames derived from a post id.
//!
//! Every stored blob is named after the id of the post that owns it:
//! `image-<id>.png` or `avatar-<id>.png`, with the id written as 32
//! hexadecimal digits. Distinct ids therefore yield distinct filenames, and
//! an image filename never equals an avatar filename; both facts are proved
//! below, which is what makes the write-once blob store safe to use without
//! an existence check.

use vstd::prelude::*;
use vstd::string::StringExecFns;

verus! {

/// The hexadecimal digit character for a nibble value (values above 15 are
/// never produced; the final arm is arbitrary).
pub open spec fn hex_char(d: u128) -> char {
    if d == 0 {
        '0'
    } else if d == 1 {
        '1'
    } else if d == 2 {
        '2'
    } else if d == 3 {
        '3'
    } else if d == 4 {
        '4'
    } else if d == 5 {
        '5'
    } else if d == 6 {
        '6'
    } else if d == 7 {
        '7'
    } else if d == 8 {
        '8'
    } else if d == 9 {
        '9'
    } else if d == 10 {
        'a'
    } else if d == 11 {
        'b'
    } else if d == 12 {
        'c'
    } else if d == 13 {
        'd'
    } else if d == 14 {
        'e'
    } else {
        'f'
    }
}

/// Nibble `i` of `id`, counting from the least significant nibble.
pub open spec fn nib(id: u128, i: u128) -> u128 {
    (id >> (4 * i)) & 0xf
}

/// `id` written as 32 hexadecimal digits, most significant nibble first.
pub open spec fn spec_hex32(id: u128) -> Seq<char> {
    Seq::new(32, |i: int| hex_char(nib(id, (31 - i) as u128)))
}

/// The one-character string for a hexadecimal digit.
fn hex_char_str(d: u128) -> (s: &'static str)
    requires
        d < 16,
    ensures
        s@ == seq![hex_char(d)],
{
    proof {
        reveal_strlit("0");
        reveal_strlit("1");
        reveal_strlit("2");
        reveal_strlit("3");
        reveal_strlit("4");
        reveal_strlit("5");
        reveal_strlit("6");
        reveal_strlit("7");
        reveal_strlit("8");
        reveal_strlit("9");
        reveal_strlit("a");
        reveal_strlit("b");
        reveal_strlit("c");
        reveal_strlit("d");
        reveal_strlit("e");
        reveal_strlit("f");
    }
    let s: &'static str = if d == 0 {
        "0"
    } else if d == 1 {
        "1"
    } else if d == 2 {
        "2"
    } else if d == 3 {
        "3"
    } else if d == 4 {
        "4"
    } else if d == 5 {
        "5"
    } else if d == 6 {
        "6"
    } else if d == 7 {
        "7"
    } else if d == 8 {
        "8"
    } else if d == 9 {
        "9"
    } else if d == 10 {
        "a"
    } else if d == 11 {
        "b"
    } else if d == 12 {
        "c"
    } else if d == 13 {
        "d"
    } else if d == 14 {
        "e"
    } else {
        "f"
    };
    assert(s@ =~= seq![hex_char(d)]);
    s
}

/// Renders `id` as its 32-digit hexadecimal form.
pub fn hex32(id: u128) -> (s: String)
    ensures
        s@ == spec_hex32(id),
{
    let mut s = String::new();
    assert(s@ =~= spec_hex32(id).subrange(0, 0));
    for j in 0..32usize
        invariant
            s@ =~= spec_hex32(id).subrange(0, j as int),
    {
        let sh: u128 = 4 * (31 - j as u128);
        let d: u128 = (id >> sh) & 0xf;
        assert(d < 16) by (bit_vector)
            requires
                d == (id >> sh) & 0xf,
        ;
        let c = hex_char_str(d);
        s.append(c);
        assert(s@ =~= spec_hex32(id).subrange(0, j + 1));
    }
    assert(s@ =~= spec_hex32(id));
    s
}

/// The filename under which a post's image blob is stored.
pub open spec fn spec_image_filename(id: u128) -> Seq<char> {
    "image-"@ + spec_hex32(id) + ".png"@
}

/// The filename under which a post's avatar blob is stored.
pub open spec fn spec_avatar_filename(id: u128) -> Seq<char> {
    "avatar-"@ + spec_hex32(id) + ".png"@
}

/// Builds the image filename for a post id.
pub fn image_filename(id: u128) -> (s: String)
    ensures
        s@ == spec_image_filename(id),
{
    let mut s = String::new();
    s.append("image-");
    let h = hex32(id);
    s.append(h.as_str());
    s.append(".png");
    s
}

/// Builds the avatar filename for a post id.
pub fn avatar_filename(id: u128) -> (s: String)
    ensures
        s@ == spec_avatar_filename(id),
{
    let mut s = String::new();
    s.append("avatar-");
    let h = hex32(id);
    s.append(h.as_str());
    s.append(".png");
    s
}

/// Two distinct nibble values map to two distinct digit characters.
proof fn lemma_hex_char_injective(x: u128, y: u128)
    requires
        x < 16,
        y < 16,
        hex_char(x) == hex_char(y),
    ensures
        x == y,
{
}

/// The 32-digit rendering determines the id: no two ids share it.
pub proof fn lemma_hex32_injective(a: u128, b: u128)
    requires
        spec_hex32(a) == spec_hex32(b),
    ensures
        a == b,
{
    assert forall|k: u128| k < 32 implies #[trigger] nib(a, k) == nib(b, k) by {
        let i: int = 31 - k as int;
        assert((31 - i) as u128 == k);
        assert(spec_hex32(a)[i] == spec_hex32(b)[i]);
        assert(spec_hex32(a)[i] == hex_char(nib(a, k)));
        assert(spec_hex32(b)[i] == hex_char(nib(b, k)));
        let x = nib(a, k);
        let y = nib(b, k);
        assert(x < 16) by (bit_vector)
            requires
                x == (a >> (4 * k)) & 0xf,
        ;
        assert(y < 16) by (bit_vector)
            requires
                y == (b >> (4 * k)) & 0xf,
        ;
        lemma_hex_char_injective(x, y);
    }
    assert(nib(a, 0) == nib(b, 0));
    assert(nib(a, 1) == nib(b, 1));
    assert(nib(a, 2) == nib(b, 2));
    assert(nib(a, 3) == nib(b, 3));
    assert(nib(a, 4) == nib(b, 4));
    assert(nib(a, 5) == nib(b, 5));
    assert(nib(a, 6) == nib(b, 6));
    assert(nib(a, 7) == nib(b, 7));
    assert(nib(a, 8) == nib(b, 8));
    assert(nib(a, 9) == nib(b, 9));
    assert(nib(a, 10) == nib(b, 10));
    assert(nib(a, 11) == nib(b, 11));
    assert(nib(a, 12) == nib(b, 12));
    assert(nib(a, 13) == nib(b, 13));
    assert(nib(a, 14) == nib(b, 14));
    assert(nib(a, 15) == nib(b, 15));
    assert(nib(a, 16) == nib(b, 16));
    assert(nib(a, 17) == nib(b, 17));
    assert(nib(a, 18) == nib(b, 18));
    assert(nib(a, 19) == nib(b, 19));
    assert(nib(a, 20) == nib(b, 20));
    assert(nib(a, 21) == nib(b, 21));
    assert(nib(a, 22) == nib(b, 22));
    assert(nib(a, 23) == nib(b, 23));
    assert(nib(a, 24) == nib(b, 24));
    assert(nib(a, 25) == nib(b, 25));
    assert(nib(a, 26) == nib(b, 26));
    assert(nib(a, 27) == nib(b, 27));
    assert(nib(a, 28) == nib(b, 28));
    assert(nib(a, 29) == nib(b, 29));
    assert(nib(a, 30) == nib(b, 30));
    assert(nib(a, 31) == nib(b, 31));
    assert(a == b) by (bit_vector)
        requires
            (a >> (4 * 0u128)) & 0xf == (b >> (4 * 0u128)) & 0xf,
            (a >> (4 * 1u128)) & 0xf == (b >> (4 * 1u128)) & 0xf,
            (a >> (4 * 2u128)) & 0xf == (b >> (4 * 2u128)) & 0xf,
            (a >> (4 * 3u128)) & 0xf == (b >> (4 * 3u128)) & 0xf,
            (a >> (4 * 4u128)) & 0xf == (b >> (4 * 4u128)) & 0xf,
            (a >> (4 * 5u128)) & 0xf == (b >> (4 * 5u128)) & 0xf,
            (a >> (4 * 6u128)) & 0xf == (b >> (4 * 6u128)) & 0xf,
            (a >> (4 * 7u128)) & 0xf == (b >> (4 * 7u128)) & 0xf,
            (a >> (4 * 8u128)) & 0xf == (b >> (4 * 8u128)) & 0xf,
            (a >> (4 * 9u128)) & 0xf == (b >> (4 * 9u128)) & 0xf,
            (a >> (4 * 10u128)) & 0xf == (b >> (4 * 10u128)) & 0xf,
            (a >> (4 * 11u128)) & 0xf == (b >> (4 * 11u128)) & 0xf,
            (a >> (4 * 12u128)) & 0xf == (b >> (4 * 12u128)) & 0xf,
            (a >> (4 * 13u128)) & 0xf == (b >> (4 * 13u128)) & 0xf,
            (a >> (4 * 14u128)) & 0xf == (b >> (4 * 14u128)) & 0xf,
            (a >> (4 * 15u128)) & 0xf == (b >> (4 * 15u128)) & 0xf,
            (a >> (4 * 16u128)) & 0xf == (b >> (4 * 16u128)) & 0xf,
            (a >> (4 * 17u128)) & 0xf == (b >> (4 * 17u128)) & 0xf,
            (a >> (4 * 18u128)) & 0xf == (b >> (4 * 18u128)) & 0xf,
            (a >> (4 * 19u128)) & 0xf == (b >> (4 * 19u128)) & 0xf,
            (a >> (4 * 20u128)) & 0xf == (b >> (4 * 20u128)) & 0xf,
            (a >> (4 * 21u128)) & 0xf == (b >> (4 * 21u128)) & 0xf,
            (a >> (4 * 22u128)) & 0xf == (b >> (4 * 22u128)) & 0xf,
            (a >> (4 * 23u128)) & 0xf == (b >> (4 * 23u128)) & 0xf,
            (a >> (4 * 24u128)) & 0xf == (b >> (4 * 24u128)) & 0xf,
            (a >> (4 * 25u128)) & 0xf == (b >> (4 * 25u128)) & 0xf,
            (a >> (4 * 26u128)) & 0xf == (b >> (4 * 26u128)) & 0xf,
            (a >> (4 * 27u128)) & 0xf == (b >> (4 * 27u128)) & 0xf,
            (a >> (4 * 28u128)) & 0xf == (b >> (4 * 28u128)) & 0xf,
            (a >> (4 * 29u128)) & 0xf == (b >> (4 * 29u128)) & 0xf,
            (a >> (4 * 30u128)) & 0xf == (b >> (4 * 30u128)) & 0xf,
            (a >> (4 * 31u128)) & 0xf == (b >> (4 * 31u128)) & 0xf,
    ;
}

/// An image filename determines the id it was derived from.
pub proof fn lemma_image_filename_injective(a: u128, b: u128)
    requires
        spec_image_filename(a) == spec_image_filename(b),
    ensures
        a == b,
{
    reveal_strlit("image-");
    reveal_strlit(".png");
    assert(spec_hex32(a) =~= spec_image_filename(a).subrange(6, 38));
    assert(spec_hex32(b) =~= spec_image_filename(b).subrange(6, 38));
    lemma_hex32_injective(a, b);
}

/// An avatar filename determines the id it was derived from.
pub proof fn lemma_avatar_filename_injective(a: u128, b: u128)
    requires
        spec_avatar_filename(a) == spec_avatar_filename(b),
    ensures
        a == b,
{
    reveal_strlit("avatar-");
    reveal_strlit(".png");
    assert(spec_hex32(a) =~= spec_avatar_filename(a).subrange(7, 39));
    assert(spec_hex32(b) =~= spec_avatar_filename(b).subrange(7, 39));
    lemma_hex32_injective(a, b);
}

/// An image filename never equals an avatar filename: the two kinds of
/// blob can never collide, whatever the ids.
pub proof fn lemma_image_never_avatar(a: u128, b: u128)
    ensures
        spec_image_filename(a) != spec_avatar_filename(b),
{
    reveal_strlit("image-");
    reveal_strlit("avatar-");
    reveal_strlit(".png");
    assert(spec_image_filename(a).len() == 42);
    assert(spec_avatar_filename(b).len() == 43);
}

/// Blob filenames derived from distinct ids are pairwise distinct, and the
/// image and avatar families never meet: concurrent submissions cannot
/// collide in the blob store.
pub proof fn lemma_filenames_collision_free(a: u128, b: u128)
    requires
        a != b,
    ensures
        spec_image_filename(a) != spec_image_filename(b),
        spec_avatar_filename(a) != spec_avatar_filename(b),
        spec_image_filename(a) != spec_avatar_filename(b),
{
    if spec_image_filename(a) == spec_image_filename(b) {
        lemma_image_filename_injective(a, b);
    }
    if spec_avatar_filename(a) == spec_avatar_filename(b) {
        lemma_avatar_filename_injective(a, b);
    }
    lemma_image_never_avatar(a, b);
}

} // verus!
