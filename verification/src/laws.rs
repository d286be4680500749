//! Properties that tie the pipeline, the stores and the feed together.
//!
//! Each proof function here states one law of the library as a whole —
//! facts that no single function's contract carries on its own.

use vstd::prelude::*;

use crate::feed::feed_sorted;
use crate::feed::precedes;
use crate::form::FieldAcc;
use crate::form::FormError;
use crate::form::Part;
use crate::form::empty_acc;
use crate::form::extract_spec;
use crate::form::scan_from;
use crate::form::scan_parts;
use crate::form::scan_step;
use crate::form::SubmissionModel;
use crate::form::validate_acc;
use crate::names::spec_avatar_filename;
use crate::names::spec_image_filename;
use crate::pipeline::planned_blobs;
use crate::pipeline::post_matches;
use crate::post::Post;
use crate::store::FeedStore;

verus! {

/// A freshly committed post appears in the next feed read, and it stands
/// before every post with an earlier submission time: the table after a
/// successful submission is the old table plus the new post, and any
/// display ordering of that table must list the newcomer ahead of all
/// strictly older posts.
pub proof fn lemma_submitted_post_appears(pre: Seq<Post>, table: Seq<Post>, ord: Seq<Post>, p: Post)
    requires
        table == pre.push(p),
        ord.to_multiset() == table.to_multiset(),
        feed_sorted(ord),
    ensures
        exists|i: int| 0 <= i < ord.len() && ord[i] == p,
        forall|i: int, j: int|
            (0 <= i < ord.len() && ord[i] == p && 0 <= j < ord.len() && ord[j].created_at
                < p.created_at) ==> i < j,
{
    broadcast use vstd::seq_lib::group_to_multiset_ensures;

    assert(table.to_multiset().count(p) > 0) by {
        assert(table.to_multiset() =~= pre.to_multiset().insert(p));
    }
    assert(ord.to_multiset().count(p) > 0);
    assert(ord.contains(p));
    assert forall|i: int, j: int|
        (0 <= i < ord.len() && ord[i] == p && 0 <= j < ord.len() && ord[j].created_at
            < p.created_at) implies i < j by {
        if j < i {
            assert(precedes(ord[j], ord[i]));
        }
    }
}

/// A committed record never references an unwritten blob: whatever blob
/// names the new post carries were written to the blob store during the
/// same submission, before the insert.
pub proof fn lemma_no_dangling_references(
    pre: Seq<(Seq<char>, Seq<u8>)>,
    after: Seq<(Seq<char>, Seq<u8>)>,
    m: SubmissionModel,
    id: u128,
    created_at: i64,
    p: Post,
    fetched: Option<Seq<u8>>,
)
    requires
        post_matches(p, m, id, created_at),
        m.avatar_url is Some ==> fetched is Some,
        after == pre + planned_blobs(m, id, fetched),
    ensures
        p.image_ref matches Some(n) ==> exists|i: int|
            0 <= i < after.len() && (#[trigger] after[i]).0 == n@,
        p.avatar_ref matches Some(n) ==> exists|i: int|
            0 <= i < after.len() && (#[trigger] after[i]).0 == n@,
{
    if p.image_ref is Some {
        assert(m.image is Some);
        assert(after[pre.len() as int].0 == spec_image_filename(id));
    }
    if p.avatar_ref is Some {
        assert(m.avatar_url is Some);
        let j: int = if m.image is Some {
            pre.len() as int + 1
        } else {
            pre.len() as int
        };
        assert(after[j].0 == spec_avatar_filename(id));
    }
}

/// An id that no stored post carries is still free after a post with a
/// different id commits: concurrent submissions with distinct fresh ids
/// can both insert, in either order.
pub proof fn lemma_fresh_id_stays_free(pre: FeedStore, committed: FeedStore, p: Post, id: u128)
    requires
        committed@ == pre@.push(p),
        p.id != id,
    ensures
        committed.contains_id(id) <==> pre.contains_id(id),
{
    if pre.contains_id(id) {
        let i = choose|i: int| 0 <= i < pre@.len() && (#[trigger] pre@[i]).id == id;
        assert(committed@[i].id == id);
    }
    if committed.contains_id(id) {
        let i = choose|i: int| 0 <= i < committed@.len() && (#[trigger] committed@[i]).id == id;
        assert(i < pre@.len());
        assert(pre@[i].id == id);
    }
}

/// Scanning is indifferent to the avatar slot as long as no part is named
/// `avatar`: two runs that differ only there agree on every other slot
/// and on any error.
proof fn lemma_scan_avatar_slot_immaterial(with_a: FieldAcc, without_a: FieldAcc, parts: Seq<Part>)
    requires
        with_a.text == without_a.text,
        with_a.image == without_a.image,
        with_a.user == without_a.user,
        with_a.avatar is Some,
        without_a.avatar is None,
        forall|j: int| 0 <= j < parts.len() ==> (#[trigger] parts[j]).name@ != "avatar"@,
    ensures
        match (scan_from(with_a, parts), scan_from(without_a, parts)) {
            (Ok(r1), Ok(r2)) => r1.text == r2.text && r1.image == r2.image && r1.user == r2.user
                && r1.avatar == with_a.avatar && r2.avatar is None,
            (Err(e1), Err(e2)) => e1 == e2,
            _ => false,
        },
    decreases parts.len(),
{
    if parts.len() > 0 {
        let p = parts[0];
        assert(p.name@ != "avatar"@);
        match (scan_step(with_a, p), scan_step(without_a, p)) {
            (Ok(n1), Ok(n2)) => {
                assert(forall|j: int|
                    0 <= j < parts.skip(1).len() ==> (#[trigger] parts.skip(1)[j]).name@
                        != "avatar"@);
                lemma_scan_avatar_slot_immaterial(n1, n2, parts.skip(1));
            },
            (Err(e1), Err(e2)) => {
            },
            _ => {
                assert(false);
            },
        }
    }
}

/// Scanning a part list with its sole empty-valued `avatar` part removed:
/// the runs agree on every slot but the avatar one, and on any error.
proof fn lemma_scan_remove_empty_avatar(acc: FieldAcc, parts: Seq<Part>, i: int)
    requires
        acc.avatar is None,
        0 <= i < parts.len(),
        parts[i].name@ == "avatar"@,
        parts[i].data@.len() == 0,
        forall|j: int|
            0 <= j < parts.len() && j != i ==> (#[trigger] parts[j]).name@ != "avatar"@,
    ensures
        match (scan_from(acc, parts), scan_from(acc, parts.remove(i))) {
            (Ok(r1), Ok(r2)) => r1.text == r2.text && r1.image == r2.image && r1.user == r2.user
                && r1.avatar == Some(Seq::<u8>::empty()) && r2.avatar is None,
            (Err(e1), Err(e2)) => e1 == e2,
            _ => false,
        },
    decreases parts.len(),
{
    reveal_strlit("text");
    reveal_strlit("image");
    reveal_strlit("user");
    reveal_strlit("avatar");
    if i == 0 {
        let p = parts[0];
        assert(p.data@ =~= Seq::<u8>::empty());
        assert(parts.remove(0) =~= parts.skip(1));
        let stepped = FieldAcc { avatar: Some(p.data@), ..acc };
        assert("text"@.len() == 4);
        assert("avatar"@.len() == 6);
        assert(p.name@ != "text"@);
        assert(p.name@ != "image"@);
        assert(p.name@ != "user"@);
        assert(scan_step(acc, p) == Ok::<FieldAcc, FormError>(stepped));
        assert(forall|j: int|
            0 <= j < parts.skip(1).len() ==> (#[trigger] parts.skip(1)[j]).name@ != "avatar"@);
        lemma_scan_avatar_slot_immaterial(stepped, acc, parts.skip(1));
    } else {
        let p = parts[0];
        assert(parts.remove(i)[0] == p);
        assert(parts.remove(i).skip(1) =~= parts.skip(1).remove(i - 1));
        match scan_step(acc, p) {
            Err(_) => {
            },
            Ok(acc2) => {
                assert(acc2.avatar is None);
                assert(forall|j: int|
                    0 <= j < parts.skip(1).len() && j != i - 1 ==> (#[trigger] parts.skip(
                        1,
                    )[j]).name@ != "avatar"@);
                lemma_scan_remove_empty_avatar(acc2, parts.skip(1), i - 1);
            },
        }
    }
}

/// A submission whose `avatar` part carries the empty value behaves
/// exactly like the same submission with no `avatar` part at all: field
/// extraction reaches the same outcome, so no fetch is attempted and no
/// avatar reference is recorded either way.
pub proof fn lemma_empty_avatar_like_absent(parts: Seq<Part>, i: int)
    requires
        0 <= i < parts.len(),
        parts[i].name@ == "avatar"@,
        parts[i].data@.len() == 0,
        forall|j: int|
            0 <= j < parts.len() && j != i ==> (#[trigger] parts[j]).name@ != "avatar"@,
    ensures
        extract_spec(parts) == extract_spec(parts.remove(i)),
{
    lemma_scan_remove_empty_avatar(empty_acc(), parts, i);
    match (scan_parts(parts), scan_parts(parts.remove(i))) {
        (Ok(r1), Ok(r2)) => {
            assert(validate_acc(r1) == validate_acc(r2));
        },
        (Err(e1), Err(e2)) => {
        },
        _ => {
            assert(false);
        },
    }
}

} // verus!
