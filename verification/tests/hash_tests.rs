use avatar_cli::hash::content_hash;

#[test]
fn hash_of_empty_is_offset() {
    assert_eq!(content_hash(&Vec::new()), 0xcbf29ce484222325);
}

#[test]
fn hash_of_known_bytes() {
    assert_eq!(content_hash(&b"a".to_vec()), 0xaf63dc4c8601ec8c);
    assert_eq!(content_hash(&b"hello".to_vec()), 0xa430d84680aabd0b);
}

#[test]
fn different_bytes_different_hash() {
    let a = b"tool: terraform@1.0".to_vec();
    let b = b"tool: terraform@1.1".to_vec();
    assert_ne!(content_hash(&a), content_hash(&b));
}

#[test]
fn single_byte_flip_changes_hash() {
    let orig = b"some project configuration".to_vec();
    for i in 0..orig.len() {
        let mut edited = orig.clone();
        edited[i] ^= 0x01;
        assert_ne!(content_hash(&orig), content_hash(&edited));
    }
}

#[test]
fn length_extension_changes_hash() {
    let a = b"abc".to_vec();
    let b = b"abcd".to_vec();
    assert_ne!(content_hash(&a), content_hash(&b));
}
