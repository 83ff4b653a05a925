//! The host boundary: the few facts the library needs from the process's
//! surroundings — a fresh random token byte, the invoking user's numeric
//! ids, whether a standard stream is a terminal, and where the container
//! engine client lives.  Each comes through one trusted call into the crate
//! that provides it; everything built on top of the answers is verified.
use crate::invoke::engine_args_of;
use crate::invoke::plan_tool_run;
use crate::invoke::run_outcome;
use crate::invoke::InvocationPlan;
use crate::invoke::RunError;
use crate::paths::AbsPath;
use crate::session::begin_session_with;
use crate::session::is_alnum;
use crate::session::token_wf;
use crate::session::Session;
use crate::session::SessionError;
use rand::Rng;
use vstd::prelude::*;

verus! {

/// Relies on rand's thread-local generator with the Alphanumeric
/// distribution: every sampled byte is one of a-z, A-Z, 0-9.
#[verifier::external_body]
fn sample_alnum_byte() -> (r: u8)
    ensures
        is_alnum(r),
{
    rand::thread_rng().sample(rand::distributions::Alphanumeric)
}

/// A fresh session token: 16 random alphanumeric characters.
pub fn fresh_token_bytes() -> (r: Vec<u8>)
    ensures
        token_wf(r@),
{
    let mut r: Vec<u8> = Vec::new();
    let mut i: usize = 0;
    while i < 16
        invariant
            i <= 16,
            r@.len() == i,
            forall|j: int| 0 <= j < i ==> is_alnum(r@[j]),
        decreases 16 - i,
    {
        r.push(sample_alnum_byte());
        i += 1;
    }
    r
}

/// Relies on nix's getuid: the calling process's real user id.
#[verifier::external_body]
pub(crate) fn host_uid() -> u32 {
    nix::unistd::getuid().as_raw()
}

/// Relies on nix's getgid: the calling process's real group id.
#[verifier::external_body]
pub(crate) fn host_gid() -> u32 {
    nix::unistd::getgid().as_raw()
}

/// Relies on atty's is: whether the chosen standard stream (input when
/// `stdin`, output otherwise) is connected to a terminal.
#[verifier::external_body]
pub(crate) fn stream_is_tty(stdin: bool) -> bool {
    let stream = if stdin {
        atty::Stream::Stdin
    } else {
        atty::Stream::Stdout
    };
    atty::is(stream)
}

/// Relies on which's which: a search-path lookup of an executable by name,
/// the found path rendered as bytes.
#[verifier::external_body]
pub(crate) fn find_in_path(name: &str) -> Option<Vec<u8>> {
    match which::which(name) {
        Ok(p) => Some(p.to_string_lossy().into_owned().into_bytes()),
        Err(_) => None,
    }
}

/// Locate the container engine client on the host's search path.
pub fn find_engine_client() -> Option<Vec<u8>> {
    find_in_path("docker")
}

/// Begin a session: refuse a nested session whatever the existing token's
/// value, require a project root, and bind a fresh random token.
pub fn begin_session(existing_token: Option<Vec<u8>>, project: Option<AbsPath>) -> (r: Result<
    Session,
    SessionError,
>)
    ensures
        match r {
            Ok(s) => existing_token is None && project is Some && s.project@ == project.unwrap()@
                && token_wf(s.token@),
            Err(SessionError::AlreadyActive(t)) => existing_token matches Some(e) && t@ == e@,
            Err(SessionError::OutsideProject) => existing_token is None && project is None,
        },
{
    let token = fresh_token_bytes();
    begin_session_with(existing_token, project, token)
}

/// A successful host-side plan: for the host's answers `uid`, `gid`, `tty`
/// and `engine`, the decision pipeline accepted and the plan is the exact
/// engine command line for the tool binding the state names.
pub open spec fn host_plan_ok(
    plan: InvocationPlan,
    project: Seq<Seq<u8>>,
    cwd: Seq<Seq<u8>>,
    config: Option<Seq<u8>>,
    lock: Option<Seq<u8>>,
    state: Option<Seq<u8>>,
    tool: Seq<u8>,
    user_args: Seq<Vec<u8>>,
    token: Seq<u8>,
    uid: u32,
    gid: u32,
    tty: bool,
    engine: Seq<u8>,
) -> bool {
    &&& run_outcome(project, cwd, config, lock, state, tool, Some(engine)) matches Ok(b)
    &&& plan.engine@ == engine
    &&& (run_outcome(project, cwd, config, lock, state, tool, Some(engine)) matches Ok(b)
        ==> plan.args@.map_values(|a: Vec<u8>| a@) == engine_args_of(
        token,
        uid,
        gid,
        project,
        cwd.skip(project.len() as int),
        tty,
        b.image,
        b.digest,
        b.path,
        user_args.map_values(|a: Vec<u8>| a@),
    ))
}

/// Decide a tool invocation, drawing the user ids, the terminal state and
/// the engine client from the host itself.  The terminal, id and engine
/// answers vary with the host, so the contract pins the outcomes that do not
/// depend on them and the shape of the command line for those that do.
pub fn plan_tool_run_host(
    project: &AbsPath,
    cwd: &AbsPath,
    config: Option<&Vec<u8>>,
    lock: Option<&Vec<u8>>,
    state: Option<&Vec<u8>>,
    tool: &Vec<u8>,
    user_args: &Vec<Vec<u8>>,
    token: &Vec<u8>,
) -> (r: Result<InvocationPlan, RunError>)
    ensures
        match r {
            Ok(plan) => exists|uid: u32, gid: u32, tty: bool, engine: Seq<u8>|
                #[trigger] host_plan_ok(
                    plan,
                    project@,
                    cwd@,
                    crate::chain::opt_view(config),
                    crate::chain::opt_view(lock),
                    crate::chain::opt_view(state),
                    tool@,
                    user_args@,
                    token@,
                    uid,
                    gid,
                    tty,
                    engine,
                ),
            Err(e) => exists|engine: Option<Seq<u8>>|
                (#[trigger] run_outcome(
                    project@,
                    cwd@,
                    crate::chain::opt_view(config),
                    crate::chain::opt_view(lock),
                    crate::chain::opt_view(state),
                    tool@,
                    engine,
                )) == Err::<crate::lockfile::BinV, RunError>(e),
        },
{
    let uid = host_uid();
    let gid = host_gid();
    let tty = stream_is_tty(true) && stream_is_tty(false);
    let engine = find_engine_client();
    let ghost engine_view = crate::invoke::opt_owned_view(engine);
    let r = plan_tool_run(
        project,
        cwd,
        config,
        lock,
        state,
        tool,
        user_args,
        token,
        uid,
        gid,
        tty,
        engine,
    );
    proof {
        if r is Ok {
            let plan = r->Ok_0;
            let e = engine_view->Some_0;
            assert(host_plan_ok(
                plan,
                project@,
                cwd@,
                crate::chain::opt_view(config),
                crate::chain::opt_view(lock),
                crate::chain::opt_view(state),
                tool@,
                user_args@,
                token@,
                uid,
                gid,
                tty,
                e,
            ));
        } else {
            assert(run_outcome(
                project@,
                cwd@,
                crate::chain::opt_view(config),
                crate::chain::opt_view(lock),
                crate::chain::opt_view(state),
                tool@,
                engine_view,
            ) == Err::<crate::lockfile::BinV, RunError>(r->Err_0));
        }
    }
    r
}

} // verus!
