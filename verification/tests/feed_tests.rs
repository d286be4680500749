use miniblog::form::Part;
use miniblog::names::image_filename;
use miniblog::pipeline::handle_submission;
use miniblog::pipeline::response_status;
use miniblog::store::BlobStore;
use miniblog::store::FeedStore;

fn part(name: &str, data: &[u8]) -> Part {
    Part { name: name.to_string(), data: data.to_vec() }
}

fn submit(store: &mut FeedStore, blobs: &mut BlobStore, body: &str, user: &str, id: u128, at: i64) {
    let parts = vec![part("text", body.as_bytes()), part("user", user.as_bytes())];
    assert!(handle_submission(store, blobs, parts, id, at, None).is_ok());
}

#[test]
fn empty_feed_renders_without_error() {
    let store = FeedStore::new();
    let views = miniblog::feed::feed_context(&store);
    assert_eq!(views.len(), 0);
}

#[test]
fn feed_lists_most_recent_first() {
    let mut store = FeedStore::new();
    let mut blobs = BlobStore::new();
    submit(&mut store, &mut blobs, "oldest", "a", 1, 100);
    submit(&mut store, &mut blobs, "newest", "b", 2, 300);
    submit(&mut store, &mut blobs, "middle", "c", 3, 200);
    let views = miniblog::feed::feed_context(&store);
    assert_eq!(views.len(), 3);
    assert_eq!(views[0].body, "newest");
    assert_eq!(views[1].body, "middle");
    assert_eq!(views[2].body, "oldest");
}

#[test]
fn equal_timestamps_order_by_descending_id() {
    let mut store = FeedStore::new();
    let mut blobs = BlobStore::new();
    submit(&mut store, &mut blobs, "low id", "a", 10, 500);
    submit(&mut store, &mut blobs, "high id", "b", 20, 500);
    let views = miniblog::feed::feed_context(&store);
    assert_eq!(views[0].body, "high id");
    assert_eq!(views[1].body, "low id");
}

#[test]
fn concurrent_style_submissions_keep_their_own_blobs() {
    let mut store = FeedStore::new();
    let mut blobs = BlobStore::new();
    let first = vec![part("text", b"one"), part("image", &[1, 1]), part("user", b"a")];
    let second = vec![part("text", b"two"), part("image", &[2, 2]), part("user", b"b")];
    assert!(handle_submission(&mut store, &mut blobs, first, 111, 10, None).is_ok());
    assert!(handle_submission(&mut store, &mut blobs, second, 222, 20, None).is_ok());
    assert_eq!(store.len(), 2);
    assert_eq!(blobs.len(), 2);
    let (n0, d0) = blobs.get(0);
    let (n1, d1) = blobs.get(1);
    assert_ne!(n0, n1);
    assert_eq!(n0, &image_filename(111));
    assert_eq!(d0, &vec![1u8, 1]);
    assert_eq!(n1, &image_filename(222));
    assert_eq!(d1, &vec![2u8, 2]);
    let views = miniblog::feed::feed_context(&store);
    assert_eq!(views[0].body, "two");
    assert_eq!(views[0].image_url, Some(format!("/images/{}", image_filename(222))));
    assert_eq!(views[1].body, "one");
    assert_eq!(views[1].image_url, Some(format!("/images/{}", image_filename(111))));
}

#[test]
fn round_trip_preserves_the_record() {
    let issued_at = 123_456_789;
    let mut store = FeedStore::new();
    let mut blobs = BlobStore::new();
    submit(&mut store, &mut blobs, "hello", "alice", 42, issued_at);
    let views = miniblog::feed::feed_context(&store);
    assert_eq!(views.len(), 1);
    assert_eq!(views[0].author, "alice");
    assert_eq!(views[0].body, "hello");
    assert!(views[0].image_url.is_none());
    assert!(views[0].avatar_url.is_none());
    assert!(views[0].created_at >= issued_at);
}

#[test]
fn example_submission_end_to_end() {
    let mut store = FeedStore::new();
    let mut blobs = BlobStore::new();
    let seventeen = [7u8; 17];
    let parts = vec![
        part("text", b"hi there"),
        part("user", b"bob"),
        part("image", &seventeen),
        part("avatar", b""),
    ];
    let r = handle_submission(&mut store, &mut blobs, parts, 9, 77, None);
    assert_eq!(response_status(&r), 303);
    let views = miniblog::feed::feed_context(&store);
    assert_eq!(views.len(), 1);
    assert_eq!(views[0].body, "hi there");
    assert_eq!(views[0].author, "bob");
    let image_url = views[0].image_url.clone().unwrap();
    assert!(image_url.starts_with("/images/image-"));
    assert!(image_url.ends_with(".png"));
    assert!(views[0].avatar_url.is_none());
    let (name, data) = blobs.get(0);
    assert_eq!(data.len(), 17);
    assert_eq!(format!("/images/{}", name), image_url);
}
