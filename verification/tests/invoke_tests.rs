use avatar_cli::availability::first_missing;
use avatar_cli::availability::image_refs;
use avatar_cli::chain::Artifact;
use avatar_cli::chain::ChainError;
use avatar_cli::hash::content_hash;
use avatar_cli::invoke::exit_code_for;
use avatar_cli::invoke::plan_tool_run;
use avatar_cli::invoke::RunError;
use avatar_cli::lockfile::parse_lock_doc;
use avatar_cli::paths::AbsPath;

const DIGEST: &str =
    "aaaaaaaaaaaaaaaaaaaaaaaaaaaaaaaaaaaaaaaaaaaaaaaaaaaaaaaaaaaaaaaa";

fn path(components: &[&str]) -> AbsPath {
    AbsPath { components: components.iter().map(|c| c.as_bytes().to_vec()).collect() }
}

fn config_bytes() -> Vec<u8> {
    b"tools:\n  terraform: 1.0\n".to_vec()
}

fn lock_for(config: &Vec<u8>) -> Vec<u8> {
    let mut v = format!("h:{:016x}\n", content_hash(config)).into_bytes();
    v.extend_from_slice(
        format!("b:terraform:org/tf:{}:/usr/bin/terraform\n", DIGEST).as_bytes(),
    );
    v.extend_from_slice(format!("i:org/tf:1.0:{}\n", DIGEST).as_bytes());
    v
}

fn state_for(lock: &Vec<u8>) -> Vec<u8> {
    let mut v = format!("h:{:016x}\n", content_hash(lock)).into_bytes();
    v.extend_from_slice(
        format!("b:terraform:org/tf:{}:/usr/bin/terraform\n", DIGEST).as_bytes(),
    );
    v
}

fn strs(v: &[&str]) -> Vec<Vec<u8>> {
    v.iter().map(|s| s.as_bytes().to_vec()).collect()
}

#[test]
fn terraform_plan_from_a_subdirectory() {
    let c = config_bytes();
    let l = lock_for(&c);
    let s = state_for(&l);
    let plan = plan_tool_run(
        &path(&["repo"]),
        &path(&["repo", "modules", "net"]),
        Some(&c),
        Some(&l),
        Some(&s),
        &b"terraform".to_vec(),
        &strs(&["plan"]),
        &b"TOKENTOKEN123456".to_vec(),
        1000,
        1000,
        false,
        Some(b"/usr/bin/docker".to_vec()),
    )
    .expect("plan built");
    assert_eq!(plan.engine, b"/usr/bin/docker".to_vec());
    let expected: Vec<Vec<u8>> = strs(&[
        "run",
        "--rm",
        "--init",
        "-i",
        "--env",
        "AVATAR_CLI_SESSION_TOKEN=TOKENTOKEN123456",
        "--user",
        "1000:1000",
        "--mount",
        "type=bind,source=/repo,target=/playground",
        "--workdir",
        "/playground/modules/net",
        &format!("org/tf@sha256:{}", DIGEST),
        "/usr/bin/terraform",
        "plan",
    ]);
    assert_eq!(plan.args, expected);
}

#[test]
fn tty_adds_the_terminal_flag_and_root_workdir_keeps_the_slash() {
    let c = config_bytes();
    let l = lock_for(&c);
    let s = state_for(&l);
    let plan = plan_tool_run(
        &path(&["repo"]),
        &path(&["repo"]),
        Some(&c),
        Some(&l),
        Some(&s),
        &b"terraform".to_vec(),
        &Vec::new(),
        &b"TOKENTOKEN123456".to_vec(),
        0,
        0,
        true,
        Some(b"docker".to_vec()),
    )
    .expect("plan built");
    assert_eq!(plan.args[4], b"-t".to_vec());
    assert_eq!(plan.args[8], b"0:0".to_vec());
    assert!(plan.args.contains(&b"/playground/".to_vec()));
}

#[test]
fn missing_lock_signals_missing_input() {
    let c = config_bytes();
    let l = lock_for(&c);
    let s = state_for(&l);
    let e = plan_tool_run(
        &path(&["repo"]),
        &path(&["repo"]),
        Some(&c),
        None,
        Some(&s),
        &b"terraform".to_vec(),
        &Vec::new(),
        &b"TOKENTOKEN123456".to_vec(),
        0,
        0,
        false,
        Some(b"docker".to_vec()),
    )
    .unwrap_err();
    assert_eq!(e, RunError::Chain(ChainError::MissingArtifact(Artifact::Lock)));
    assert_eq!(exit_code_for(&e), 66);
}

#[test]
fn state_not_matching_lock_hash_signals_data_error() {
    let c = config_bytes();
    let l = lock_for(&c);
    let mut wrong_state = state_for(&l);
    // flip one hex digit of the stored hash
    wrong_state[2] = if wrong_state[2] == b'0' { b'1' } else { b'0' };
    let e = plan_tool_run(
        &path(&["repo"]),
        &path(&["repo"]),
        Some(&c),
        Some(&l),
        Some(&wrong_state),
        &b"terraform".to_vec(),
        &Vec::new(),
        &b"TOKENTOKEN123456".to_vec(),
        0,
        0,
        false,
        Some(b"docker".to_vec()),
    )
    .unwrap_err();
    assert_eq!(e, RunError::Chain(ChainError::StaleState));
    assert_eq!(exit_code_for(&e), 65);
}

#[test]
fn invocation_outside_the_project_is_a_usage_error() {
    let c = config_bytes();
    let l = lock_for(&c);
    let s = state_for(&l);
    let e = plan_tool_run(
        &path(&["repo"]),
        &path(&["tmp"]),
        Some(&c),
        Some(&l),
        Some(&s),
        &b"terraform".to_vec(),
        &Vec::new(),
        &b"TOKENTOKEN123456".to_vec(),
        0,
        0,
        false,
        Some(b"docker".to_vec()),
    )
    .unwrap_err();
    assert_eq!(e, RunError::OutsideProject);
    assert_eq!(exit_code_for(&e), 64);
}

#[test]
fn absent_engine_is_unavailable_and_nothing_is_planned() {
    let c = config_bytes();
    let l = lock_for(&c);
    let s = state_for(&l);
    let e = plan_tool_run(
        &path(&["repo"]),
        &path(&["repo"]),
        Some(&c),
        Some(&l),
        Some(&s),
        &b"terraform".to_vec(),
        &Vec::new(),
        &b"TOKENTOKEN123456".to_vec(),
        0,
        0,
        false,
        None,
    )
    .unwrap_err();
    assert_eq!(e, RunError::EngineUnavailable);
    assert_eq!(exit_code_for(&e), 69);
}

#[test]
fn unknown_tool_has_its_own_exit_code() {
    let c = config_bytes();
    let l = lock_for(&c);
    let s = state_for(&l);
    let e = plan_tool_run(
        &path(&["repo"]),
        &path(&["repo"]),
        Some(&c),
        Some(&l),
        Some(&s),
        &b"helm".to_vec(),
        &Vec::new(),
        &b"TOKENTOKEN123456".to_vec(),
        0,
        0,
        false,
        Some(b"docker".to_vec()),
    )
    .unwrap_err();
    assert_eq!(e, RunError::UnknownBinary);
    assert_eq!(exit_code_for(&e), 1);
}

#[test]
fn stale_config_is_detected_before_anything_runs() {
    let c = config_bytes();
    let l = lock_for(&c);
    let s = state_for(&l);
    let mut edited = c.clone();
    edited[0] ^= 0x01;
    let e = plan_tool_run(
        &path(&["repo"]),
        &path(&["repo"]),
        Some(&edited),
        Some(&l),
        Some(&s),
        &b"terraform".to_vec(),
        &Vec::new(),
        &b"TOKENTOKEN123456".to_vec(),
        0,
        0,
        false,
        Some(b"docker".to_vec()),
    )
    .unwrap_err();
    assert_eq!(e, RunError::Chain(ChainError::StaleLock));
}

#[test]
fn availability_checks_every_declared_image_once() {
    let mut v = b"h:0000000000000001\n".to_vec();
    v.extend_from_slice(format!("i:org/tf:1.0:{}\n", DIGEST).as_bytes());
    v.extend_from_slice(format!("i:org/k8s:2.0:{}\n", DIGEST).as_bytes());
    let doc = parse_lock_doc(&v).expect("parses");
    let refs = image_refs(&doc);
    assert_eq!(
        refs,
        vec![
            format!("org/tf@sha256:{}", DIGEST).into_bytes(),
            format!("org/k8s@sha256:{}", DIGEST).into_bytes(),
        ]
    );
    assert_eq!(first_missing(&vec![true, true]), None);
    assert_eq!(first_missing(&vec![true, false]), Some(1));
    assert_eq!(first_missing(&Vec::new()), None);
}
