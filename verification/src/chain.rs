//! The integrity chain: project config, lock file, session state.
//!
//! Each layer stores the content hash of the previous layer's bytes.  Before
//! any container is launched the whole chain is re-checked from the exact
//! on-disk bytes — never from values cached in memory — so a concurrent
//! re-resolution in a sibling terminal is always observed, and the wrapper
//! fails closed rather than running a tool from drifted state.
use crate::hash::content_hash;
use crate::hash::fnv1a;
use crate::hash::lemma_hash_detects_changed_byte;
use crate::lockfile::parse_lock;
use crate::lockfile::parse_lock_doc;
use crate::lockfile::LockDoc;
use crate::lockfile::LockDocV;
use crate::lockfile::ParseError;
use vstd::prelude::*;

verus! {

/// Which of the three layered documents an error names.
#[derive(PartialEq, Eq, Structural, Clone, Copy, Debug)]
pub enum Artifact {
    Config,
    Lock,
    State,
}

#[derive(PartialEq, Eq, Structural, Clone, Copy, Debug)]
pub enum ChainError {
    /// The document is absent: an install/update step has not run, or a
    /// concurrent process removed it.
    MissingArtifact(Artifact),
    /// The document is present but does not parse.
    Malformed(Artifact, ParseError),
    /// The project config was edited after the lock file was generated.
    StaleLock,
    /// The lock file changed after the session state was materialized.
    StaleState,
}

pub open spec fn opt_view(b: Option<&Vec<u8>>) -> Option<Seq<u8>> {
    match b {
        Some(v) => Some(v@),
        None => None,
    }
}

/// The one verdict the chain can reach from the three documents' bytes
/// (`None` marks an absent file): the fully verified state document, or the
/// first failure in order — absence, a malformed lock, a stale lock, a
/// malformed state, a stale state.
pub open spec fn chain_outcome(
    config: Option<Seq<u8>>,
    lock: Option<Seq<u8>>,
    state: Option<Seq<u8>>,
) -> Result<LockDocV, ChainError> {
    if config is None {
        Err(ChainError::MissingArtifact(Artifact::Config))
    } else if lock is None {
        Err(ChainError::MissingArtifact(Artifact::Lock))
    } else if state is None {
        Err(ChainError::MissingArtifact(Artifact::State))
    } else {
        match parse_lock(lock.unwrap()) {
            Err(i) => Err(ChainError::Malformed(Artifact::Lock, ParseError { line: i as usize })),
            Ok(lock_doc) => if fnv1a(config.unwrap()) != lock_doc.hash {
                Err(ChainError::StaleLock)
            } else {
                match parse_lock(state.unwrap()) {
                    Err(i) => Err(
                        ChainError::Malformed(Artifact::State, ParseError { line: i as usize }),
                    ),
                    Ok(state_doc) => if fnv1a(lock.unwrap()) != state_doc.hash {
                        Err(ChainError::StaleState)
                    } else {
                        Ok(state_doc)
                    },
                }
            },
        }
    }
}

/// Verify the hash linkage over the exact bytes of the three documents and
/// return the verified state document.
pub fn verify_chain(
    config: Option<&Vec<u8>>,
    lock: Option<&Vec<u8>>,
    state: Option<&Vec<u8>>,
) -> (r: Result<LockDoc, ChainError>)
    ensures
        match r {
            Ok(doc) => chain_outcome(opt_view(config), opt_view(lock), opt_view(state))
                == Ok::<LockDocV, ChainError>(doc@),
            Err(e) => chain_outcome(opt_view(config), opt_view(lock), opt_view(state))
                == Err::<LockDocV, ChainError>(e),
        },
{
    let config = match config {
        Some(c) => c,
        None => {
            return Err(ChainError::MissingArtifact(Artifact::Config));
        },
    };
    let lock = match lock {
        Some(l) => l,
        None => {
            return Err(ChainError::MissingArtifact(Artifact::Lock));
        },
    };
    let state = match state {
        Some(s) => s,
        None => {
            return Err(ChainError::MissingArtifact(Artifact::State));
        },
    };
    let lock_doc = match parse_lock_doc(lock) {
        Ok(d) => d,
        Err(e) => {
            return Err(ChainError::Malformed(Artifact::Lock, e));
        },
    };
    if content_hash(config) != lock_doc.hash {
        return Err(ChainError::StaleLock);
    }
    let state_doc = match parse_lock_doc(state) {
        Ok(d) => d,
        Err(e) => {
            return Err(ChainError::Malformed(Artifact::State, e));
        },
    };
    if content_hash(lock) != state_doc.hash {
        return Err(ChainError::StaleState);
    }
    Ok(state_doc)
}

/// Law: the round trip through the resolver verifies.  When the lock commits
/// to the config's hash and the state commits to the lock's hash, the chain
/// accepts and yields exactly the state document.
pub proof fn lemma_chain_round_trip(
    config: Seq<u8>,
    lock_bytes: Seq<u8>,
    state_bytes: Seq<u8>,
    lock: LockDocV,
    state: LockDocV,
)
    requires
        parse_lock(lock_bytes) == Ok::<LockDocV, int>(lock),
        lock.hash == fnv1a(config),
        parse_lock(state_bytes) == Ok::<LockDocV, int>(state),
        state.hash == fnv1a(lock_bytes),
    ensures
        chain_outcome(Some(config), Some(lock_bytes), Some(state_bytes)) == Ok::<
            LockDocV,
            ChainError,
        >(state),
{
}

/// Law: editing any single byte of the project config after the lock was
/// generated makes the next verification fail as a stale lock.
pub proof fn lemma_chain_detects_config_edit(
    orig: Seq<u8>,
    edited: Seq<u8>,
    i: int,
    lock_bytes: Seq<u8>,
    state: Option<Seq<u8>>,
    lock: LockDocV,
)
    requires
        parse_lock(lock_bytes) == Ok::<LockDocV, int>(lock),
        lock.hash == fnv1a(orig),
        edited.len() == orig.len(),
        0 <= i < orig.len(),
        edited[i] != orig[i],
        forall|j: int| 0 <= j < orig.len() && j != i ==> edited[j] == orig[j],
        state is Some,
    ensures
        chain_outcome(Some(edited), Some(lock_bytes), state) == Err::<LockDocV, ChainError>(
            ChainError::StaleLock,
        ),
{
    lemma_hash_detects_changed_byte(orig, edited, i);
}

} // verus!
