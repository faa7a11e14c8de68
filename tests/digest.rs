use hank_sync::digest::ContentHasher;

#[test]
fn empty_content_digest() {
    let h = ContentHasher::new();
    assert_eq!(h.hex(), "af1349b9f5f9a1a6a0404dea36dcc9499bcb25c9adc112b7cc9a93cae41f3262");
}

#[test]
fn digest_of_abc() {
    let mut h = ContentHasher::new();
    h.update(b"abc");
    assert_eq!(h.hex(), "6437b3ac38465133ffb63b75273a8db548c558465d79db03fd359c6cd5bd9d85");
}

#[test]
fn digest_does_not_depend_on_how_content_is_cut() {
    let data: Vec<u8> = (0..200_000u32).map(|i| (i % 241) as u8).collect();
    let mut whole = ContentHasher::new();
    whole.update(&data);
    let mut pieces = ContentHasher::new();
    for chunk in data.chunks(65_536) {
        pieces.update(chunk);
    }
    assert_eq!(whole.hex(), pieces.hex());
    assert_eq!(whole.hex().len(), 64);
}
