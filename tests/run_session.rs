use credible::exposures::{ExposureSpec, Exposures};
use credible::process::{resolve_exposures, ProcessRunningError, RunAction, RunEvent, RunSession, RunStep};
use credible::secret::Secret;

fn argv(words: &[&str]) -> Vec<String> {
    words.iter().map(|w| w.to_string()).collect()
}

fn exposures(flags: &[&str]) -> Exposures {
    let mut e = Exposures::new();
    let specs = flags.iter().map(|f| ExposureSpec::parse_flag(f).ok().unwrap()).collect();
    e.add_config(specs);
    e
}

fn setup(s: &mut RunSession, vars: Vec<(String, String)>) {
    assert!(matches!(s.advance(RunEvent::DirCreated("/tmp/run1".to_string())), RunAction::RestrictDir(_)));
    assert!(matches!(s.advance(RunEvent::Completed), RunAction::ArmSignals));
    assert!(matches!(s.advance(RunEvent::Completed), RunAction::ResolveSecrets));
    assert!(matches!(s.advance(RunEvent::Completed), RunAction::ExposeEnv));
    match s.advance(RunEvent::EnvReady(vars)) {
        RunAction::ExposeFiles(d) => assert_eq!(d, "/tmp/run1"),
        _ => panic!("expected the files"),
    }
    assert!(matches!(s.advance(RunEvent::Completed), RunAction::Spawn));
}

#[test]
fn env_exposure_run_cleans_up() {
    let e = exposures(&["env:db:DB_PASS"]);
    let (mut s, a) = RunSession::start(argv(&["sh", "-c", "echo $DB_PASS"]), &e).ok().unwrap();
    assert!(matches!(a, RunAction::CreateTempDir));
    setup(&mut s, vec![("DB_PASS".to_string(), "sup3r".to_string())]);
    let c = s.command.as_ref().unwrap();
    assert_eq!(c.program, "sh");
    assert_eq!(c.args, argv(&["-c", "echo $DB_PASS"]));
    assert_eq!(c.env, vec![
        ("SECRETS_FILE_DIR".to_string(), "/tmp/run1".to_string()),
        ("DB_PASS".to_string(), "sup3r".to_string()),
    ]);
    assert!(matches!(s.advance(RunEvent::Spawned(77)), RunAction::Wait));
    match s.advance(RunEvent::Exited) {
        RunAction::RemoveDir(d) => assert_eq!(d, "/tmp/run1"),
        _ => panic!("expected the directory removal"),
    }
    match s.advance(RunEvent::Completed) {
        RunAction::RemoveLinks(l) => assert!(l.is_empty()),
        _ => panic!("expected the link removal"),
    }
    assert!(matches!(s.advance(RunEvent::Completed), RunAction::Finish));
}

#[test]
fn vanity_link_removed_after_exit() {
    let e = exposures(&["file:cert:/tmp/mycert"]);
    let (mut s, _) = RunSession::start(argv(&["cat", "/tmp/mycert"]), &e).ok().unwrap();
    setup(&mut s, vec![]);
    s.advance(RunEvent::Spawned(5));
    s.advance(RunEvent::Exited);
    match s.advance(RunEvent::Completed) {
        RunAction::RemoveLinks(l) => assert_eq!(l, vec!["/tmp/mycert".to_string()]),
        _ => panic!("expected the link removal"),
    }
}

#[test]
fn signals_are_forwarded_while_running() {
    let (mut s, _) = RunSession::start(argv(&["sleep", "9"]), &Exposures::new()).ok().unwrap();
    setup(&mut s, vec![]);
    s.advance(RunEvent::Spawned(4242));
    match s.advance(RunEvent::Signal(15)) {
        RunAction::ForwardSignal(a) => assert_eq!(a, argv(&["15", "4242"])),
        _ => panic!("expected a forward"),
    }
    assert!(matches!(s.advance(RunEvent::Completed), RunAction::Wait));
    let failed = RunEvent::Failed(ProcessRunningError::SignallingChildProcess("gone".to_string()));
    assert!(matches!(s.advance(failed), RunAction::Wait));
    assert!(matches!(s.step, RunStep::Running));
}

#[test]
fn empty_command_is_refused() {
    assert!(matches!(
        RunSession::start(vec![], &Exposures::new()),
        Err(ProcessRunningError::EmptyCommand)
    ));
}

#[test]
fn setup_failure_still_cleans_up() {
    let e = exposures(&["file:cert:/tmp/x"]);
    let (mut s, _) = RunSession::start(argv(&["true"]), &e).ok().unwrap();
    s.advance(RunEvent::DirCreated("/tmp/run2".to_string()));
    s.advance(RunEvent::Completed);
    s.advance(RunEvent::Completed);
    let failed = RunEvent::Failed(ProcessRunningError::NoSuchSecret("cert".to_string()));
    match s.advance(failed) {
        RunAction::RemoveDir(d) => assert_eq!(d, "/tmp/run2"),
        _ => panic!("expected the directory removal"),
    }
    assert!(matches!(s.advance(RunEvent::Completed), RunAction::RemoveLinks(_)));
    match s.advance(RunEvent::Completed) {
        RunAction::Abort(ProcessRunningError::NoSuchSecret(n)) => assert_eq!(n, "cert"),
        _ => panic!("expected the failure"),
    }
}

#[test]
fn failure_before_the_directory_aborts_at_once() {
    let (mut s, _) = RunSession::start(argv(&["true"]), &Exposures::new()).ok().unwrap();
    let failed = RunEvent::Failed(ProcessRunningError::CreatingTempDir("full".to_string()));
    assert!(matches!(s.advance(failed), RunAction::Abort(ProcessRunningError::CreatingTempDir(_))));
    assert!(matches!(s.step, RunStep::Done));
}

fn secret(name: &str) -> Secret {
    Secret {
        name: name.to_string(),
        encryption_keys: vec![],
        path: format!("{name}.age"),
        mount_path: None,
        owner_user: None,
        owner_group: None,
    }
}

#[test]
fn unknown_secret_found_before_any_read() {
    let secrets = vec![secret("db")];
    let e = exposures(&["env:db:DB_PASS", "file:cert:/tmp/c"]);
    let envs = e.env_groups();
    let files = e.file_groups();
    match resolve_exposures(&secrets, &envs, &files) {
        Err(ProcessRunningError::NoSuchSecret(n)) => assert_eq!(n, "cert"),
        _ => panic!("expected NoSuchSecret"),
    }
    let e = exposures(&["env:api:K", "file:cert:/tmp/c"]);
    let (envs, files) = (e.env_groups(), e.file_groups());
    match resolve_exposures(&secrets, &envs, &files) {
        Err(ProcessRunningError::NoSuchSecret(n)) => assert_eq!(n, "api"),
        _ => panic!("expected NoSuchSecret"),
    }
    let secrets = vec![secret("db"), secret("cert")];
    let e = exposures(&["env:db:DB_PASS", "file:cert:/tmp/c"]);
    let (envs, files) = (e.env_groups(), e.file_groups());
    let (ev, fv) = resolve_exposures(&secrets, &envs, &files).ok().unwrap();
    assert_eq!(ev[0].0.name, "db");
    assert_eq!(fv[0].0.name, "cert");
}

#[test]
fn dir_and_command_kept_through_setup() {
    let (mut s, _) = RunSession::start(argv(&["env"]), &Exposures::new()).ok().unwrap();
    setup(&mut s, vec![]);
    assert!(matches!(s.advance(RunEvent::Spawned(9)), RunAction::Wait));
    assert_eq!(s.dir, "/tmp/run1");
    assert_eq!(s.command.as_ref().unwrap().program, "env");
    s.advance(RunEvent::Completed);
    match s.advance(RunEvent::Signal(2)) {
        RunAction::ForwardSignal(a) => assert_eq!(a, argv(&["2", "9"])),
        _ => panic!("expected a forward"),
    }
}
