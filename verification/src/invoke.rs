//! Construction of the exact container-engine command line, and the one
//! decision function behind a tool invocation inside a session.
//!
//! The engine argument list is pinned argument by argument: the container is
//! always removed after exit and started with an init process; standard
//! input is always attached and a pseudo-terminal requested only when the
//! caller says both host streams are terminals; the invoking user's numeric
//! ids are passed through; the project root is bind-mounted read-write at a
//! fixed mount point, with the working directory set to the invocation
//! directory's path relative to the project root; the image is referenced by
//! digest, never by tag; and the user's arguments are forwarded verbatim, in
//! order.
use crate::bytes::dec_rep;
use crate::bytes::dec_u32;
use crate::bytes::push_all;
use crate::chain::chain_outcome;
use crate::chain::opt_view;
use crate::chain::verify_chain;
use crate::chain::ChainError;
use crate::lockfile::bin_for;
use crate::lockfile::lookup_binary;
use crate::lockfile::BinV;
use crate::lockfile::LockDoc;
use crate::paths::check_within;
use crate::paths::display_of;
use crate::paths::display_path;
use crate::paths::display_rel;
use crate::paths::is_within;
use crate::paths::rel_components;
use crate::paths::rel_display_of;
use crate::paths::AbsPath;
use crate::session::session_token_var;
use crate::session::session_token_var_bytes;
use vstd::prelude::*;
use vstd::string::*;

verus! {

/// A digest-pinned image reference, `name@sha256:<digest>`.
pub open spec fn image_ref_of(name: Seq<u8>, digest: Seq<u8>) -> Seq<u8> {
    name + "@sha256:".spec_bytes() + digest
}

pub fn image_ref(name: &Vec<u8>, digest: &Vec<u8>) -> (r: Vec<u8>)
    ensures
        r@ == image_ref_of(name@, digest@),
{
    let mut r: Vec<u8> = Vec::new();
    push_all(&mut r, name);
    let sep = "@sha256:".as_bytes_vec();
    push_all(&mut r, &sep);
    push_all(&mut r, digest);
    proof {
        assert(r@ =~= image_ref_of(name@, digest@));
    }
    r
}

/// The bind-mount argument: project root mounted read-write at the fixed
/// in-container mount point.
pub open spec fn mount_arg_of(project: Seq<Seq<u8>>) -> Seq<u8> {
    "type=bind,source=".spec_bytes() + display_of(project) + ",target=/playground".spec_bytes()
}

/// The in-container working directory: the mount point plus the invocation
/// directory's path relative to the project root.
pub open spec fn workdir_arg_of(rel: Seq<Seq<u8>>) -> Seq<u8> {
    "/playground/".spec_bytes() + rel_display_of(rel)
}

/// The engine arguments up to and including the in-image executable path.
pub open spec fn engine_args_prefix(
    token: Seq<u8>,
    uid: u32,
    gid: u32,
    project: Seq<Seq<u8>>,
    rel: Seq<Seq<u8>>,
    tty: bool,
    image: Seq<u8>,
    digest: Seq<u8>,
    bin_path: Seq<u8>,
) -> Seq<Seq<u8>> {
    let interactive: Seq<Seq<u8>> = if tty {
        seq!["-i".spec_bytes(), "-t".spec_bytes()]
    } else {
        seq!["-i".spec_bytes()]
    };
    seq!["run".spec_bytes(), "--rm".spec_bytes(), "--init".spec_bytes()] + interactive + seq![
        "--env".spec_bytes(),
        session_token_var() + seq![0x3du8] + token,
        "--user".spec_bytes(),
        dec_rep(uid as nat) + seq![0x3au8] + dec_rep(gid as nat),
        "--mount".spec_bytes(),
        mount_arg_of(project),
        "--workdir".spec_bytes(),
        workdir_arg_of(rel),
        image_ref_of(image, digest),
        bin_path,
    ]
}

/// The whole engine argument list: the pinned prefix, then the user's
/// arguments verbatim, in order.
pub open spec fn engine_args_of(
    token: Seq<u8>,
    uid: u32,
    gid: u32,
    project: Seq<Seq<u8>>,
    rel: Seq<Seq<u8>>,
    tty: bool,
    image: Seq<u8>,
    digest: Seq<u8>,
    bin_path: Seq<u8>,
    user_args: Seq<Seq<u8>>,
) -> Seq<Seq<u8>> {
    engine_args_prefix(token, uid, gid, project, rel, tty, image, digest, bin_path) + user_args
}

/// Build the engine argument list, argument for argument.
#[verifier::rlimit(100)]
pub fn build_engine_args(
    token: &Vec<u8>,
    uid: u32,
    gid: u32,
    project: &AbsPath,
    rel: &Vec<Vec<u8>>,
    tty: bool,
    image: &Vec<u8>,
    digest: &Vec<u8>,
    bin_path: &Vec<u8>,
    user_args: &Vec<Vec<u8>>,
) -> (r: Vec<Vec<u8>>)
    ensures
        r@.map_values(|a: Vec<u8>| a@) == engine_args_of(
            token@,
            uid,
            gid,
            project@,
            rel@.map_values(|c: Vec<u8>| c@),
            tty,
            image@,
            digest@,
            bin_path@,
            user_args@.map_values(|a: Vec<u8>| a@),
        ),
{
    let ghost relv = rel@.map_values(|c: Vec<u8>| c@);
    let ghost prefix = engine_args_prefix(
        token@,
        uid,
        gid,
        project@,
        relv,
        tty,
        image@,
        digest@,
        bin_path@,
    );
    let mut args: Vec<Vec<u8>> = Vec::new();
    args.push("run".as_bytes_vec());
    args.push("--rm".as_bytes_vec());
    args.push("--init".as_bytes_vec());
    args.push("-i".as_bytes_vec());
    if tty {
        args.push("-t".as_bytes_vec());
    }
    args.push("--env".as_bytes_vec());
    let mut env_arg = session_token_var_bytes();
    env_arg.push(0x3d);
    push_all(&mut env_arg, token);
    proof {
        assert(env_arg@ =~= session_token_var() + seq![0x3du8] + token@);
    }
    args.push(env_arg);
    args.push("--user".as_bytes_vec());
    let mut user_arg = dec_u32(uid);
    user_arg.push(0x3a);
    let gid_dec = dec_u32(gid);
    push_all(&mut user_arg, &gid_dec);
    proof {
        assert(user_arg@ =~= dec_rep(uid as nat) + seq![0x3au8] + dec_rep(gid as nat));
    }
    args.push(user_arg);
    args.push("--mount".as_bytes_vec());
    let mut mount_arg = "type=bind,source=".as_bytes_vec();
    let project_disp = display_path(project);
    push_all(&mut mount_arg, &project_disp);
    let mount_tail = ",target=/playground".as_bytes_vec();
    push_all(&mut mount_arg, &mount_tail);
    proof {
        assert(mount_arg@ =~= mount_arg_of(project@));
    }
    args.push(mount_arg);
    args.push("--workdir".as_bytes_vec());
    let mut workdir_arg = "/playground/".as_bytes_vec();
    let rel_disp = display_rel(rel);
    push_all(&mut workdir_arg, &rel_disp);
    proof {
        assert(workdir_arg@ =~= workdir_arg_of(relv));
    }
    args.push(workdir_arg);
    args.push(image_ref(image, digest));
    let mut path_arg: Vec<u8> = Vec::new();
    push_all(&mut path_arg, bin_path);
    proof {
        assert(path_arg@ =~= bin_path@);
    }
    args.push(path_arg);
    proof {
        assert(args@.map_values(|a: Vec<u8>| a@) =~~= prefix);
    }
    let ghost user_views = user_args@.map_values(|a: Vec<u8>| a@);
    let mut extra: Vec<Vec<u8>> = Vec::new();
    let mut i: usize = 0;
    while i < user_args.len()
        invariant
            i <= user_args@.len(),
            user_views == user_args@.map_values(|a: Vec<u8>| a@),
            extra@.len() == i,
            forall|j: int| 0 <= j < i ==> extra@[j]@ == user_views[j],
        decreases user_args@.len() - i,
    {
        let mut ua: Vec<u8> = Vec::new();
        push_all(&mut ua, &user_args[i]);
        proof {
            assert(ua@ =~= user_views[i as int]);
        }
        extra.push(ua);
        i += 1;
    }
    let ghost args_before = args@;
    let ghost extra_before = extra@;
    args.append(&mut extra);
    proof {
        let m = args@.map_values(|a: Vec<u8>| a@);
        let target = prefix + user_views;
        assert(args_before.map_values(|a: Vec<u8>| a@) =~~= prefix);
        assert(m.len() == target.len());
        assert forall|j: int| 0 <= j < m.len() implies m[j] == target[j] by {
            assert(m[j] == args@[j]@);
            if j < args_before.len() {
                assert(args@[j] == args_before[j]);
                assert(args_before.map_values(|a: Vec<u8>| a@)[j] == args_before[j]@);
            } else {
                assert(args@[j] == extra_before[j - args_before.len()]);
            }
        }
        assert(m =~= target);
    }
    args
}

/// Everything a tool invocation inside a session can fail with.
#[derive(PartialEq, Eq, Structural, Clone, Copy, Debug)]
pub enum RunError {
    /// The working directory is not the project root nor below it.
    OutsideProject,
    /// The integrity chain rejected the documents.
    Chain(ChainError),
    /// The requested tool has no binding in the verified state.
    UnknownBinary,
    /// No container engine client was found on the host.
    EngineUnavailable,
}

/// The conventional process exit code for each failure, following the BSD
/// extended exit-code set the original taxonomy is drawn from.
pub open spec fn exit_code_spec(e: RunError) -> i32 {
    match e {
        RunError::OutsideProject => 64,
        RunError::Chain(c) => match c {
            ChainError::MissingArtifact(_) => 66,
            ChainError::Malformed(_, _) => 65,
            ChainError::StaleLock => 65,
            ChainError::StaleState => 65,
        },
        RunError::UnknownBinary => 1,
        RunError::EngineUnavailable => 69,
    }
}

pub fn exit_code_for(e: &RunError) -> (r: i32)
    ensures
        r == exit_code_spec(*e),
{
    match e {
        RunError::OutsideProject => 64,
        RunError::Chain(c) => match c {
            ChainError::MissingArtifact(_) => 66,
            ChainError::Malformed(_, _) => 65,
            ChainError::StaleLock => 65,
            ChainError::StaleState => 65,
        },
        RunError::UnknownBinary => 1,
        RunError::EngineUnavailable => 69,
    }
}

pub open spec fn opt_owned_view(b: Option<Vec<u8>>) -> Option<Seq<u8>> {
    match b {
        Some(v) => Some(v@),
        None => None,
    }
}

/// What a tool invocation decides, in the order the checks run: containment
/// of the working directory, then the integrity chain, then the tool lookup
/// in the verified state, then the presence of an engine client.
pub open spec fn run_outcome(
    project: Seq<Seq<u8>>,
    cwd: Seq<Seq<u8>>,
    config: Option<Seq<u8>>,
    lock: Option<Seq<u8>>,
    state: Option<Seq<u8>>,
    tool: Seq<u8>,
    engine: Option<Seq<u8>>,
) -> Result<BinV, RunError> {
    if !is_within(project, cwd) {
        Err(RunError::OutsideProject)
    } else {
        match chain_outcome(config, lock, state) {
            Err(e) => Err(RunError::Chain(e)),
            Ok(doc) => match bin_for(doc.bins, tool) {
                None => Err(RunError::UnknownBinary),
                Some(b) => if engine is None {
                    Err(RunError::EngineUnavailable)
                } else {
                    Ok(b)
                },
            },
        }
    }
}

/// A fully constructed invocation: the engine client to execute and the
/// arguments to hand it.  Executing it replaces the host process; that final
/// step is the caller's.
#[derive(Debug)]
pub struct InvocationPlan {
    pub engine: Vec<u8>,
    pub args: Vec<Vec<u8>>,
}

/// Decide a tool invocation and construct the exact engine command line.
///
/// The caller hands in plain values from its environment boundary: the
/// project root and working directory, the three documents' bytes (`None`
/// for an absent file), the tool name, the user's arguments, the session
/// token, the host user and group ids, whether both host streams are
/// terminals, and the engine client path if one was found.
pub fn plan_tool_run(
    project: &AbsPath,
    cwd: &AbsPath,
    config: Option<&Vec<u8>>,
    lock: Option<&Vec<u8>>,
    state: Option<&Vec<u8>>,
    tool: &Vec<u8>,
    user_args: &Vec<Vec<u8>>,
    token: &Vec<u8>,
    uid: u32,
    gid: u32,
    tty: bool,
    engine: Option<Vec<u8>>,
) -> (r: Result<InvocationPlan, RunError>)
    ensures
        match r {
            Ok(plan) => {
                &&& run_outcome(
                    project@,
                    cwd@,
                    opt_view(config),
                    opt_view(lock),
                    opt_view(state),
                    tool@,
                    opt_owned_view(engine),
                ) matches Ok(b)
                &&& engine matches Some(e) && plan.engine@ == e@
                &&& (run_outcome(
                    project@,
                    cwd@,
                    opt_view(config),
                    opt_view(lock),
                    opt_view(state),
                    tool@,
                    opt_owned_view(engine),
                ) matches Ok(b) ==> plan.args@.map_values(|a: Vec<u8>| a@) == engine_args_of(
                    token@,
                    uid,
                    gid,
                    project@,
                    cwd@.skip(project@.len() as int),
                    tty,
                    b.image,
                    b.digest,
                    b.path,
                    user_args@.map_values(|a: Vec<u8>| a@),
                ))
            },
            Err(e) => run_outcome(
                project@,
                cwd@,
                opt_view(config),
                opt_view(lock),
                opt_view(state),
                tool@,
                opt_owned_view(engine),
            ) == Err::<BinV, RunError>(e),
        },
{
    if !check_within(project, cwd) {
        return Err(RunError::OutsideProject);
    }
    let doc: LockDoc = match verify_chain(config, lock, state) {
        Ok(d) => d,
        Err(e) => {
            return Err(RunError::Chain(e));
        },
    };
    let bin = match lookup_binary(&doc, tool) {
        Some(b) => b,
        None => {
            return Err(RunError::UnknownBinary);
        },
    };
    let engine = match engine {
        Some(e) => e,
        None => {
            return Err(RunError::EngineUnavailable);
        },
    };
    let rel = rel_components(project, cwd);
    let args = build_engine_args(
        token,
        uid,
        gid,
        project,
        &rel,
        tty,
        &bin.image,
        &bin.digest,
        &bin.path,
        user_args,
    );
    Ok(InvocationPlan { engine, args })
}

} // verus!
