use avatar_cli::hash::content_hash;
use avatar_cli::lockfile::lookup_binary;
use avatar_cli::lockfile::parse_lock_doc;

const DIGEST_A: &str =
    "aaaaaaaaaaaaaaaaaaaaaaaaaaaaaaaaaaaaaaaaaaaaaaaaaaaaaaaaaaaaaaaa";
const DIGEST_B: &str =
    "0123456789abcdef0123456789abcdef0123456789abcdef0123456789abcdef";

fn lock_bytes(hash: u64) -> Vec<u8> {
    let mut v = format!("h:{:016x}\n", hash).into_bytes();
    v.extend_from_slice(
        format!("b:terraform:org/tf:{}:/usr/bin/terraform\n", DIGEST_A).as_bytes(),
    );
    v.extend_from_slice(format!("i:org/tf:1.0:{}\n", DIGEST_A).as_bytes());
    v
}

#[test]
fn parses_a_well_formed_document() {
    let doc = parse_lock_doc(&lock_bytes(0xdead)).expect("parses");
    assert_eq!(doc.hash, 0xdead);
    assert_eq!(doc.bins.len(), 1);
    assert_eq!(doc.bins[0].name, b"terraform".to_vec());
    assert_eq!(doc.bins[0].image, b"org/tf".to_vec());
    assert_eq!(doc.bins[0].digest, DIGEST_A.as_bytes().to_vec());
    assert_eq!(doc.bins[0].path, b"/usr/bin/terraform".to_vec());
    assert_eq!(doc.images.len(), 1);
    assert_eq!(doc.images[0].tag, b"1.0".to_vec());
}

#[test]
fn parses_without_trailing_newline() {
    let v = b"h:0000000000000001".to_vec();
    let doc = parse_lock_doc(&v).expect("parses");
    assert_eq!(doc.hash, 1);
    assert!(doc.bins.is_empty());
}

#[test]
fn rejects_empty_and_bad_header() {
    assert_eq!(parse_lock_doc(&Vec::new()).unwrap_err().line, 0);
    assert_eq!(parse_lock_doc(&b"x:00\n".to_vec()).unwrap_err().line, 0);
    assert_eq!(parse_lock_doc(&b"h:00zz\n".to_vec()).unwrap_err().line, 0);
    // uppercase hex is refused
    assert_eq!(parse_lock_doc(&b"h:00000000000000AB\n".to_vec()).unwrap_err().line, 0);
}

#[test]
fn rejects_malformed_entry_naming_the_line() {
    let mut v = b"h:0000000000000001\n".to_vec();
    v.extend_from_slice(b"b:tool:img:shortdigest:/bin/t\n");
    assert_eq!(parse_lock_doc(&v).unwrap_err().line, 1);
}

#[test]
fn rejects_duplicate_tool_binding() {
    let mut v = b"h:0000000000000001\n".to_vec();
    v.extend_from_slice(format!("b:t:img:{}:/bin/t\n", DIGEST_A).as_bytes());
    v.extend_from_slice(format!("b:t:img2:{}:/bin/t2\n", DIGEST_B).as_bytes());
    assert_eq!(parse_lock_doc(&v).unwrap_err().line, 2);
}

#[test]
fn rejects_duplicate_image_tag_row() {
    let mut v = b"h:0000000000000001\n".to_vec();
    v.extend_from_slice(format!("i:img:1.0:{}\n", DIGEST_A).as_bytes());
    v.extend_from_slice(format!("i:img:1.0:{}\n", DIGEST_B).as_bytes());
    assert_eq!(parse_lock_doc(&v).unwrap_err().line, 2);
}

#[test]
fn lookup_finds_the_named_tool_only() {
    let mut v = b"h:0000000000000001\n".to_vec();
    v.extend_from_slice(format!("b:kubectl:org/k8s:{}:/bin/kubectl\n", DIGEST_B).as_bytes());
    v.extend_from_slice(format!("b:terraform:org/tf:{}:/bin/terraform\n", DIGEST_A).as_bytes());
    let doc = parse_lock_doc(&v).expect("parses");
    let b = lookup_binary(&doc, &b"terraform".to_vec()).expect("found");
    assert_eq!(b.image, b"org/tf".to_vec());
    assert!(lookup_binary(&doc, &b"helm".to_vec()).is_none());
}

#[test]
fn header_hash_reads_hex() {
    let v = format!("h:{:016x}\n", 0x0123456789abcdefu64).into_bytes();
    let doc = parse_lock_doc(&v).expect("parses");
    assert_eq!(doc.hash, 0x0123456789abcdef);
    // and it round-trips through the real content hash of some bytes
    let c = b"config".to_vec();
    let h = content_hash(&c);
    let v2 = format!("h:{:016x}\n", h).into_bytes();
    assert_eq!(parse_lock_doc(&v2).expect("parses").hash, h);
}
