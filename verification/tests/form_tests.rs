use miniblog::form::FormError;
use miniblog::form::Part;
use miniblog::form::Submission;
use miniblog::form::extract_form;

fn part(name: &str, data: &[u8]) -> Part {
    Part { name: name.to_string(), data: data.to_vec() }
}

fn extract(parts: Vec<Part>) -> Result<Submission, FormError> {
    extract_form(parts)
}

#[test]
fn accepts_minimal_valid_submission() {
    let sub = extract(vec![part("text", b"hello"), part("user", b"alice")]).unwrap();
    assert_eq!(sub.body, "hello");
    assert_eq!(sub.author, "alice");
    assert!(sub.image.is_none());
    assert!(sub.avatar_url.is_none());
}

#[test]
fn accepts_all_four_fields() {
    let sub = extract(vec![
        part("text", b"a post"),
        part("image", &[1, 2, 3]),
        part("user", b"bob"),
        part("avatar", b"http://example.test/pic.png"),
    ])
    .unwrap();
    assert_eq!(sub.body, "a post");
    assert_eq!(sub.author, "bob");
    assert_eq!(sub.image, Some(vec![1, 2, 3]));
    assert_eq!(sub.avatar_url, Some("http://example.test/pic.png".to_string()));
}

#[test]
fn field_order_does_not_matter() {
    let sub = extract(vec![part("user", b"bob"), part("text", b"a post")]).unwrap();
    assert_eq!(sub.body, "a post");
    assert_eq!(sub.author, "bob");
}

#[test]
fn missing_text_is_rejected() {
    let r = extract(vec![part("user", b"alice")]);
    assert_eq!(r.err().unwrap(), FormError::MissingText);
}

#[test]
fn missing_user_is_rejected() {
    let r = extract(vec![part("text", b"hello")]);
    assert_eq!(r.err().unwrap(), FormError::MissingUser);
}

#[test]
fn empty_text_is_rejected() {
    let r = extract(vec![part("text", b""), part("user", b"alice")]);
    assert_eq!(r.err().unwrap(), FormError::MissingText);
}

#[test]
fn blank_text_is_rejected() {
    let r = extract(vec![part("text", b"  \t\r\n "), part("user", b"alice")]);
    assert_eq!(r.err().unwrap(), FormError::MissingText);
}

#[test]
fn blank_user_is_rejected() {
    let r = extract(vec![part("text", b"hello"), part("user", b" ")]);
    assert_eq!(r.err().unwrap(), FormError::MissingUser);
}

#[test]
fn repeated_text_field_is_rejected() {
    let r = extract(vec![part("text", b"one"), part("text", b"two"), part("user", b"alice")]);
    assert_eq!(r.err().unwrap(), FormError::RepeatedField);
}

#[test]
fn unknown_field_is_rejected() {
    let r = extract(vec![part("text", b"hello"), part("user", b"alice"), part("extra", b"x")]);
    assert_eq!(r.err().unwrap(), FormError::UnrecognizedField);
}

#[test]
fn invalid_utf8_text_is_rejected() {
    let r = extract(vec![part("text", &[0xff, 0xfe]), part("user", b"alice")]);
    assert_eq!(r.err().unwrap(), FormError::BadEncoding);
}

#[test]
fn multibyte_text_is_decoded() {
    let sub = extract(vec![part("text", "héllo wörld".as_bytes()), part("user", "zoë".as_bytes())])
        .unwrap();
    assert_eq!(sub.body, "héllo wörld");
    assert_eq!(sub.author, "zoë");
}

#[test]
fn empty_image_counts_as_no_image() {
    let sub =
        extract(vec![part("text", b"hello"), part("image", b""), part("user", b"alice")]).unwrap();
    assert!(sub.image.is_none());
}

#[test]
fn empty_avatar_counts_as_no_avatar() {
    let sub =
        extract(vec![part("text", b"hello"), part("user", b"alice"), part("avatar", b"")]).unwrap();
    assert!(sub.avatar_url.is_none());
}

#[test]
fn empty_avatar_behaves_like_absent_avatar() {
    let with_empty =
        extract(vec![part("text", b"hello"), part("avatar", b""), part("user", b"alice")]).unwrap();
    let without = extract(vec![part("text", b"hello"), part("user", b"alice")]).unwrap();
    assert_eq!(with_empty.body, without.body);
    assert_eq!(with_empty.author, without.author);
    assert_eq!(with_empty.image, without.image);
    assert_eq!(with_empty.avatar_url, without.avatar_url);
}
