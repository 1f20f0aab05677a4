use upload_form::intake::PartBuffer;
use upload_form::part::RawPart;
use upload_form::rejection::Rejection;

fn buffer(limit: u64) -> PartBuffer {
    PartBuffer::new("avatar".to_string(), Some("image/png".to_string()), limit)
}

#[test]
fn chunks_are_joined_in_order() {
    let mut b = buffer(10);
    assert_eq!(b.received(), 0);
    assert_eq!(b.feed(b"abc"), Ok(()));
    assert_eq!(b.feed(b""), Ok(()));
    assert_eq!(b.feed(b"de"), Ok(()));
    assert_eq!(b.received(), 5);
    assert_eq!(
        b.finish(),
        RawPart {
            name: "avatar".to_string(),
            content_type: Some("image/png".to_string()),
            bytes: b"abcde".to_vec(),
        }
    );
}

#[test]
fn payload_may_fill_the_limit_exactly() {
    let mut b = buffer(4);
    assert_eq!(b.feed(b"ab"), Ok(()));
    assert_eq!(b.feed(b"cd"), Ok(()));
    assert_eq!(b.received(), 4);
    assert_eq!(b.finish().bytes, b"abcd".to_vec());
}

#[test]
fn chunk_over_the_limit_is_not_taken() {
    let mut b = buffer(4);
    assert_eq!(b.feed(b"abc"), Ok(()));
    assert_eq!(b.feed(b"de"), Err(Rejection::FieldTooLarge("avatar".to_string())));
    assert_eq!(b.received(), 3);
    assert_eq!(b.feed(b"d"), Ok(()));
    assert_eq!(b.feed(b"e"), Err(Rejection::FieldTooLarge("avatar".to_string())));
    assert_eq!(b.finish().bytes, b"abcd".to_vec());
}

#[test]
fn buffer_never_grows_past_its_limit() {
    let mut b = buffer(1000);
    let chunk = [7u8; 64];
    let mut refused = 0;
    for _ in 0..100 {
        if b.feed(&chunk).is_err() {
            refused += 1;
        }
        assert!(b.received() <= 1000);
    }
    assert_eq!(b.received(), 960);
    assert_eq!(refused, 85);
}

#[test]
fn buffer_without_room_takes_only_empty_chunks() {
    let mut b = PartBuffer::new("data".to_string(), None, 0);
    assert_eq!(b.feed(b""), Ok(()));
    assert_eq!(b.feed(b"x"), Err(Rejection::FieldTooLarge("data".to_string())));
    let part = b.finish();
    assert_eq!(part.content_type, None);
    assert!(part.bytes.is_empty());
}
