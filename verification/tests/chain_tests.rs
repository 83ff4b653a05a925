use avatar_cli::chain::verify_chain;
use avatar_cli::chain::Artifact;
use avatar_cli::chain::ChainError;
use avatar_cli::hash::content_hash;

const DIGEST: &str =
    "aaaaaaaaaaaaaaaaaaaaaaaaaaaaaaaaaaaaaaaaaaaaaaaaaaaaaaaaaaaaaaaa";

fn config_bytes() -> Vec<u8> {
    b"tools:\n  terraform: 1.0\n".to_vec()
}

fn lock_for(config: &Vec<u8>) -> Vec<u8> {
    let mut v = format!("h:{:016x}\n", content_hash(config)).into_bytes();
    v.extend_from_slice(
        format!("b:terraform:org/tf:{}:/usr/bin/terraform\n", DIGEST).as_bytes(),
    );
    v
}

fn state_for(lock: &Vec<u8>) -> Vec<u8> {
    let mut v = format!("h:{:016x}\n", content_hash(lock)).into_bytes();
    v.extend_from_slice(
        format!("b:terraform:org/tf:{}:/usr/bin/terraform\n", DIGEST).as_bytes(),
    );
    v
}

#[test]
fn round_trip_verifies_and_returns_the_state() {
    let c = config_bytes();
    let l = lock_for(&c);
    let s = state_for(&l);
    let doc = verify_chain(Some(&c), Some(&l), Some(&s)).expect("chain verifies");
    assert_eq!(doc.hash, content_hash(&l));
    assert_eq!(doc.bins.len(), 1);
    assert_eq!(doc.bins[0].name, b"terraform".to_vec());
}

#[test]
fn missing_artifacts_are_named_in_order() {
    let c = config_bytes();
    let l = lock_for(&c);
    let s = state_for(&l);
    assert_eq!(
        verify_chain(None, Some(&l), Some(&s)).unwrap_err(),
        ChainError::MissingArtifact(Artifact::Config)
    );
    assert_eq!(
        verify_chain(Some(&c), None, Some(&s)).unwrap_err(),
        ChainError::MissingArtifact(Artifact::Lock)
    );
    assert_eq!(
        verify_chain(Some(&c), Some(&l), None).unwrap_err(),
        ChainError::MissingArtifact(Artifact::State)
    );
}

#[test]
fn any_single_byte_edit_of_config_is_a_stale_lock() {
    let c = config_bytes();
    let l = lock_for(&c);
    let s = state_for(&l);
    for i in 0..c.len() {
        let mut edited = c.clone();
        edited[i] = edited[i].wrapping_add(1);
        assert_eq!(
            verify_chain(Some(&edited), Some(&l), Some(&s)).unwrap_err(),
            ChainError::StaleLock
        );
    }
}

#[test]
fn lock_edit_after_materialization_is_a_stale_state() {
    let c = config_bytes();
    let l = lock_for(&c);
    let s = state_for(&l);
    // regenerate the lock (still linked to the config) after the state was made
    let mut l2 = lock_for(&c);
    l2.extend_from_slice(format!("i:org/tf:1.1:{}\n", DIGEST).as_bytes());
    assert_eq!(
        verify_chain(Some(&c), Some(&l2), Some(&s)).unwrap_err(),
        ChainError::StaleState
    );
}

#[test]
fn malformed_documents_name_the_artifact_and_line() {
    let c = config_bytes();
    let l = lock_for(&c);
    let bad = b"not a document\n".to_vec();
    match verify_chain(Some(&c), Some(&bad), Some(&l)).unwrap_err() {
        ChainError::Malformed(Artifact::Lock, e) => assert_eq!(e.line, 0),
        other => panic!("unexpected: {:?}", other),
    }
    let s = state_for(&l);
    let mut bad_state = s.clone();
    bad_state.extend_from_slice(b"b:broken\n");
    match verify_chain(Some(&c), Some(&l), Some(&bad_state)).unwrap_err() {
        ChainError::Malformed(Artifact::State, e) => assert_eq!(e.line, 2),
        other => panic!("unexpected: {:?}", other),
    }
}
