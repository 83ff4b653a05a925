//! Session identity: the environment variables a session exports, the
//! well-known paths of the three documents under the project's metadata
//! directory, and the session lifecycle decisions.
//!
//! A session is owned by one interactive shell.  Its token is both the guard
//! against nested sessions (a child invocation seeing the token variable set
//! knows it is already inside one) and the correlation id handed to every
//! container the session launches.
use crate::bytes::push_all;
use crate::paths::AbsPath;
use vstd::prelude::*;
use vstd::string::*;

verus! {

pub open spec fn project_path_var() -> Seq<u8> {
    "AVATAR_CLI_PROJECT_PATH".spec_bytes()
}

pub open spec fn config_path_var() -> Seq<u8> {
    "AVATAR_CLI_CONFIG_PATH".spec_bytes()
}

pub open spec fn config_lock_path_var() -> Seq<u8> {
    "AVATAR_CLI_CONFIG_LOCK_PATH".spec_bytes()
}

pub open spec fn state_path_var() -> Seq<u8> {
    "AVATAR_CLI_STATE_PATH".spec_bytes()
}

pub open spec fn session_token_var() -> Seq<u8> {
    "AVATAR_CLI_SESSION_TOKEN".spec_bytes()
}

pub fn session_token_var_bytes() -> (r: Vec<u8>)
    ensures
        r@ == session_token_var(),
{
    "AVATAR_CLI_SESSION_TOKEN".as_bytes_vec()
}

/// Name of the metadata directory that marks a project root.
pub open spec fn meta_dir() -> Seq<u8> {
    ".avatar-cli".spec_bytes()
}

/// File name of the human-edited project config inside the metadata directory.
pub open spec fn config_file() -> Seq<u8> {
    "avatar-cli.yml".spec_bytes()
}

/// File name of the resolver's lock file.
pub open spec fn lock_file() -> Seq<u8> {
    "avatar-cli.lock.yml".spec_bytes()
}

/// Name of the volatile (per-session, regenerable) subdirectory.
pub open spec fn volatile_dir() -> Seq<u8> {
    "volatile".spec_bytes()
}

/// File name of the session-state document inside the volatile directory.
pub open spec fn state_file() -> Seq<u8> {
    "state.yml".spec_bytes()
}

/// Name of the shim directory prepended to the session shell's search path.
pub open spec fn bin_dir() -> Seq<u8> {
    "bin".spec_bytes()
}

pub open spec fn config_path_of(project: Seq<Seq<u8>>) -> Seq<Seq<u8>> {
    project.push(meta_dir()).push(config_file())
}

pub open spec fn lock_path_of(project: Seq<Seq<u8>>) -> Seq<Seq<u8>> {
    project.push(meta_dir()).push(lock_file())
}

pub open spec fn state_path_of(project: Seq<Seq<u8>>) -> Seq<Seq<u8>> {
    project.push(meta_dir()).push(volatile_dir()).push(state_file())
}

pub open spec fn bin_dir_of(project: Seq<Seq<u8>>) -> Seq<Seq<u8>> {
    project.push(meta_dir()).push(volatile_dir()).push(bin_dir())
}

pub fn config_path(project: &AbsPath) -> (r: AbsPath)
    ensures
        r@ == config_path_of(project@),
{
    let mut r = project.dup();
    r.push_component(".avatar-cli".as_bytes_vec());
    r.push_component("avatar-cli.yml".as_bytes_vec());
    proof {
        assert(r@ =~= config_path_of(project@));
    }
    r
}

pub fn lock_path(project: &AbsPath) -> (r: AbsPath)
    ensures
        r@ == lock_path_of(project@),
{
    let mut r = project.dup();
    r.push_component(".avatar-cli".as_bytes_vec());
    r.push_component("avatar-cli.lock.yml".as_bytes_vec());
    proof {
        assert(r@ =~= lock_path_of(project@));
    }
    r
}

pub fn state_path(project: &AbsPath) -> (r: AbsPath)
    ensures
        r@ == state_path_of(project@),
{
    let mut r = project.dup();
    r.push_component(".avatar-cli".as_bytes_vec());
    r.push_component("volatile".as_bytes_vec());
    r.push_component("state.yml".as_bytes_vec());
    proof {
        assert(r@ =~= state_path_of(project@));
    }
    r
}

pub fn bin_dir_path(project: &AbsPath) -> (r: AbsPath)
    ensures
        r@ == bin_dir_of(project@),
{
    let mut r = project.dup();
    r.push_component(".avatar-cli".as_bytes_vec());
    r.push_component("volatile".as_bytes_vec());
    r.push_component("bin".as_bytes_vec());
    proof {
        assert(r@ =~= bin_dir_of(project@));
    }
    r
}

/// A session token byte: the alphabet is letters and digits only.
pub open spec fn is_alnum(b: u8) -> bool {
    (0x30 <= b <= 0x39) || (0x41 <= b <= 0x5a) || (0x61 <= b <= 0x7a)
}

/// A well-formed session token: exactly 16 alphanumeric characters.
pub open spec fn token_wf(t: Seq<u8>) -> bool {
    t.len() == 16 && (forall|j: int| 0 <= j < t.len() ==> is_alnum(t[j]))
}

/// An established session: the project it belongs to and its fresh token.
#[derive(Debug)]
pub struct Session {
    pub project: AbsPath,
    pub token: Vec<u8>,
}

#[derive(Debug)]
pub enum SessionError {
    /// A session-token environment variable is already set (its value is
    /// carried for the report): the caller is already inside a session.
    AlreadyActive(Vec<u8>),
    /// No ancestor of the working directory is a project root.
    OutsideProject,
}

/// The session-entry decision.  `existing_token` is the session-token
/// environment variable as found in the calling process's environment,
/// `project` the located project root, `token` the freshly generated token.
/// Nested sessions are refused no matter what the existing token's value is.
pub fn begin_session_with(
    existing_token: Option<Vec<u8>>,
    project: Option<AbsPath>,
    token: Vec<u8>,
) -> (r: Result<Session, SessionError>)
    ensures
        match r {
            Ok(s) => existing_token is None && project is Some && s.project@ == project.unwrap()@
                && s.token@ == token@,
            Err(SessionError::AlreadyActive(t)) => existing_token matches Some(e) && t@ == e@,
            Err(SessionError::OutsideProject) => existing_token is None && project is None,
        },
{
    match existing_token {
        Some(t) => Err(SessionError::AlreadyActive(t)),
        None => match project {
            Some(p) => Ok(Session { project: p, token }),
            None => Err(SessionError::OutsideProject),
        },
    }
}

/// The environment a new session exports to its shell, in order: the shim
/// directory prepended to the search path, the project root, the three
/// document paths, and the fresh session token.
pub open spec fn env_exports_of(project: Seq<Seq<u8>>, token: Seq<u8>, old_path: Seq<u8>) -> Seq<
    (Seq<u8>, Seq<u8>),
> {
    seq![
        (
            "PATH".spec_bytes(),
            crate::paths::display_of(bin_dir_of(project)) + seq![0x3au8] + old_path,
        ),
        (project_path_var(), crate::paths::display_of(project)),
        (config_path_var(), crate::paths::display_of(config_path_of(project))),
        (config_lock_path_var(), crate::paths::display_of(lock_path_of(project))),
        (state_path_var(), crate::paths::display_of(state_path_of(project))),
        (session_token_var(), token),
    ]
}

/// Render the session's exports; `old_path` is the current value of the
/// search-path variable.
#[verifier::rlimit(100)]
pub fn session_env_exports(s: &Session, old_path: &Vec<u8>) -> (r: Vec<(Vec<u8>, Vec<u8>)>)
    ensures
        r@.map_values(|p: (Vec<u8>, Vec<u8>)| (p.0@, p.1@)) == env_exports_of(
            s.project@,
            s.token@,
            old_path@,
        ),
{
    let mut r: Vec<(Vec<u8>, Vec<u8>)> = Vec::new();
    let bin = bin_dir_path(&s.project);
    let mut path_val = crate::paths::display_path(&bin);
    path_val.push(0x3a);
    push_all(&mut path_val, old_path);
    proof {
        assert(path_val@ =~= crate::paths::display_of(bin_dir_of(s.project@)) + seq![0x3au8]
            + old_path@);
    }
    r.push(("PATH".as_bytes_vec(), path_val));
    r.push((
        "AVATAR_CLI_PROJECT_PATH".as_bytes_vec(),
        crate::paths::display_path(&s.project),
    ));
    let cp = config_path(&s.project);
    r.push(("AVATAR_CLI_CONFIG_PATH".as_bytes_vec(), crate::paths::display_path(&cp)));
    let lp = lock_path(&s.project);
    r.push(("AVATAR_CLI_CONFIG_LOCK_PATH".as_bytes_vec(), crate::paths::display_path(&lp)));
    let sp = state_path(&s.project);
    r.push(("AVATAR_CLI_STATE_PATH".as_bytes_vec(), crate::paths::display_path(&sp)));
    let mut tok: Vec<u8> = Vec::new();
    push_all(&mut tok, &s.token);
    proof {
        assert(tok@ =~= s.token@);
    }
    r.push(("AVATAR_CLI_SESSION_TOKEN".as_bytes_vec(), tok));
    proof {
        assert(r@.map_values(|p: (Vec<u8>, Vec<u8>)| (p.0@, p.1@)) =~~= env_exports_of(
            s.project@,
            s.token@,
            old_path@,
        ));
    }
    r
}

} // verus!
