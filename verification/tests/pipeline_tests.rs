use miniblog::form::FormError;
use miniblog::form::Part;
use miniblog::names::avatar_filename;
use miniblog::names::hex32;
use miniblog::names::image_filename;
use miniblog::pipeline::SubmitError;
use miniblog::pipeline::begin_submission;
use miniblog::pipeline::handle_submission;
use miniblog::pipeline::response_status;
use miniblog::store::BlobStore;
use miniblog::store::FeedStore;

fn part(name: &str, data: &[u8]) -> Part {
    Part { name: name.to_string(), data: data.to_vec() }
}

fn valid_parts() -> Vec<Part> {
    vec![part("text", b"hello"), part("user", b"alice")]
}

#[test]
fn hex_rendering_is_fixed_width() {
    assert_eq!(hex32(1), "00000000000000000000000000000001");
    assert_eq!(hex32(0), "00000000000000000000000000000000");
    assert_eq!(hex32(0xdeadbeef), "000000000000000000000000deadbeef");
    assert_eq!(hex32(u128::MAX), "ffffffffffffffffffffffffffffffff");
}

#[test]
fn filenames_derive_from_the_id() {
    assert_eq!(image_filename(1), "image-00000000000000000000000000000001.png");
    assert_eq!(avatar_filename(1), "avatar-00000000000000000000000000000001.png");
}

#[test]
fn filenames_of_distinct_ids_differ() {
    assert_ne!(image_filename(1), image_filename(2));
    assert_ne!(avatar_filename(1), avatar_filename(2));
    assert_ne!(image_filename(1), avatar_filename(1));
}

#[test]
fn successful_submission_is_persisted() {
    let mut store = FeedStore::new();
    let mut blobs = BlobStore::new();
    let r = handle_submission(&mut store, &mut blobs, valid_parts(), 7, 1000, None);
    assert!(r.is_ok());
    assert_eq!(store.len(), 1);
    let posts = store.posts();
    assert_eq!(posts[0].id, 7);
    assert_eq!(posts[0].created_at, 1000);
    assert_eq!(posts[0].author, "alice");
    assert_eq!(posts[0].body, "hello");
    assert!(posts[0].image_ref.is_none());
    assert!(posts[0].avatar_ref.is_none());
    assert_eq!(blobs.len(), 0);
}

#[test]
fn submitted_image_is_stored_before_the_record() {
    let mut store = FeedStore::new();
    let mut blobs = BlobStore::new();
    let parts = vec![part("text", b"hi"), part("image", &[9, 9, 9]), part("user", b"bob")];
    let r = handle_submission(&mut store, &mut blobs, parts, 5, 42, None);
    assert!(r.is_ok());
    assert_eq!(blobs.len(), 1);
    let (name, data) = blobs.get(0);
    assert_eq!(name, &image_filename(5));
    assert_eq!(data, &vec![9u8, 9, 9]);
    assert_eq!(store.posts()[0].image_ref, Some(image_filename(5)));
}

#[test]
fn malformed_submission_has_no_side_effect() {
    let mut store = FeedStore::new();
    let mut blobs = BlobStore::new();
    let parts = vec![
        part("text", b"one"),
        part("image", &[1]),
        part("text", b"two"),
        part("user", b"alice"),
    ];
    let r = handle_submission(&mut store, &mut blobs, parts, 1, 1, None);
    assert_eq!(r, Err(SubmitError::Rejected(FormError::RepeatedField)));
    assert_eq!(store.len(), 0);
    assert_eq!(blobs.len(), 0);
}

#[test]
fn unknown_field_has_no_side_effect() {
    let mut store = FeedStore::new();
    let mut blobs = BlobStore::new();
    let parts = vec![part("bogus", b"x"), part("text", b"hi"), part("user", b"bob")];
    let r = handle_submission(&mut store, &mut blobs, parts, 1, 1, None);
    assert_eq!(r, Err(SubmitError::Rejected(FormError::UnrecognizedField)));
    assert_eq!(store.len(), 0);
    assert_eq!(blobs.len(), 0);
}

#[test]
fn failed_avatar_fetch_aborts_the_submission() {
    let mut store = FeedStore::new();
    let mut blobs = BlobStore::new();
    let parts = vec![
        part("text", b"hi"),
        part("image", &[1, 2]),
        part("user", b"bob"),
        part("avatar", b"http://example.test/a.png"),
    ];
    let r = handle_submission(&mut store, &mut blobs, parts, 3, 9, None);
    assert_eq!(r, Err(SubmitError::AvatarUnavailable));
    // no post was committed, even though the image blob was written
    assert_eq!(store.len(), 0);
    assert_eq!(blobs.len(), 1);
    let (name, _) = blobs.get(0);
    assert_eq!(name, &image_filename(3));
}

#[test]
fn fetched_avatar_is_stored_and_referenced() {
    let mut store = FeedStore::new();
    let mut blobs = BlobStore::new();
    let parts = vec![
        part("text", b"hi"),
        part("user", b"bob"),
        part("avatar", b"http://example.test/a.png"),
    ];
    let r = handle_submission(&mut store, &mut blobs, parts, 3, 9, Some(vec![7, 7]));
    assert!(r.is_ok());
    assert_eq!(blobs.len(), 1);
    let (name, data) = blobs.get(0);
    assert_eq!(name, &avatar_filename(3));
    assert_eq!(data, &vec![7u8, 7]);
    assert_eq!(store.posts()[0].avatar_ref, Some(avatar_filename(3)));
    assert!(store.posts()[0].image_ref.is_none());
}

#[test]
fn empty_avatar_submission_matches_absent_avatar_submission() {
    let mut store_a = FeedStore::new();
    let mut blobs_a = BlobStore::new();
    let with_empty =
        vec![part("text", b"hi"), part("user", b"bob"), part("avatar", b"")];
    assert!(handle_submission(&mut store_a, &mut blobs_a, with_empty, 4, 8, None).is_ok());

    let mut store_b = FeedStore::new();
    let mut blobs_b = BlobStore::new();
    let without = vec![part("text", b"hi"), part("user", b"bob")];
    assert!(handle_submission(&mut store_b, &mut blobs_b, without, 4, 8, None).is_ok());

    let a = &store_a.posts()[0];
    let b = &store_b.posts()[0];
    assert_eq!(a.author, b.author);
    assert_eq!(a.body, b.body);
    assert_eq!(a.avatar_ref, None);
    assert_eq!(b.avatar_ref, None);
    assert_eq!(blobs_a.len(), 0);
    assert_eq!(blobs_b.len(), 0);
}

#[test]
fn duplicate_id_insert_fails_without_change() {
    let mut store = FeedStore::new();
    let mut blobs = BlobStore::new();
    assert!(handle_submission(&mut store, &mut blobs, valid_parts(), 7, 1, None).is_ok());
    let r = handle_submission(&mut store, &mut blobs, valid_parts(), 7, 2, None);
    assert_eq!(r, Err(SubmitError::StorageFailed));
    assert_eq!(store.len(), 1);
    assert_eq!(store.posts()[0].created_at, 1);
}

#[test]
fn response_statuses_follow_the_error_taxonomy() {
    assert_eq!(response_status(&Ok(())), 303);
    assert_eq!(response_status(&Err(SubmitError::Rejected(FormError::MissingText))), 400);
    assert_eq!(response_status(&Err(SubmitError::AvatarUnavailable)), 400);
    assert_eq!(response_status(&Err(SubmitError::StorageFailed)), 500);
}

#[test]
fn begin_submission_stamps_time_and_derived_names() {
    let t0 = chrono::Utc::now().timestamp_micros();
    let pending = begin_submission(valid_parts()).unwrap();
    let t1 = chrono::Utc::now().timestamp_micros();
    assert!(pending.created_at >= t0);
    assert!(pending.created_at <= t1);
    assert_eq!(pending.body, "hello");
    assert_eq!(pending.author, "alice");
    assert_eq!(pending.image_name, image_filename(pending.id));
    assert_eq!(pending.avatar_name, avatar_filename(pending.id));
}

#[test]
fn begin_submission_rejects_malformed_input() {
    let r = begin_submission(vec![part("user", b"alice")]);
    assert_eq!(r.err().unwrap(), FormError::MissingText);
}

#[test]
fn fresh_ids_differ_between_submissions() {
    let a = begin_submission(valid_parts()).unwrap();
    let b = begin_submission(valid_parts()).unwrap();
    assert_ne!(a.id, b.id);
    assert_ne!(a.image_name, b.image_name);
    assert_ne!(a.avatar_name, b.avatar_name);
}
