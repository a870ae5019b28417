use credible::exposures::{EnvExposeArgs, FileExposeArgs};
use credible::state::{S3Config, StateBuilder, StateBuilderError, StorageConfig};

fn file(secret: &str, path: Option<&str>) -> FileExposeArgs {
    FileExposeArgs {
        secret_name: secret.to_string(),
        vanity_path: path.map(|p| p.to_string()),
        mode: None,
        owner: None,
        group: None,
    }
}

fn env(secret: &str, name: &str) -> EnvExposeArgs {
    EnvExposeArgs { secret_name: secret.to_string(), name: name.to_string() }
}

fn s3() -> StorageConfig {
    StorageConfig::S3(S3Config { bucket: "b".to_string(), region: "r".to_string() })
}

#[test]
fn duplicate_vanity_path_in_one_batch() {
    let mut b = StateBuilder::new();
    let r = b.add_file_exposures(vec![file("a", Some("/tmp/x")), file("b", Some("/tmp/x"))]);
    match r {
        Err(StateBuilderError::DuplicatePath(p)) => assert_eq!(p, "/tmp/x"),
        _ => panic!("expected DuplicatePath"),
    }
    assert!(b.exposures.files.is_empty());
}

#[test]
fn duplicate_vanity_path_across_batches() {
    let mut b = StateBuilder::new();
    assert!(b.add_file_exposures(vec![file("a", Some("/tmp/x"))]).is_ok());
    let r = b.add_file_exposures(vec![file("c", Some("/tmp/y")), file("b", Some("/tmp/x"))]);
    match r {
        Err(StateBuilderError::DuplicatePath(p)) => assert_eq!(p, "/tmp/x"),
        _ => panic!("expected DuplicatePath"),
    }
    assert_eq!(b.exposures.files.len(), 1);
    assert_eq!(b.seen_file_paths, vec!["/tmp/x".to_string()]);
}

#[test]
fn files_without_vanity_path_never_clash() {
    let mut b = StateBuilder::new();
    assert!(b.add_file_exposures(vec![file("a", None), file("a", None)]).is_ok());
    assert!(b.add_file_exposures(vec![file("b", None)]).is_ok());
    assert_eq!(b.exposures.files.len(), 3);
}

#[test]
fn duplicate_env_name() {
    let mut b = StateBuilder::new();
    assert!(b.add_env_exposures(vec![env("db", "DB_PASS")]).is_ok());
    match b.add_env_exposures(vec![env("other", "DB_PASS")]) {
        Err(StateBuilderError::DuplicateEnvName(n)) => assert_eq!(n, "DB_PASS"),
        _ => panic!("expected DuplicateEnvName"),
    }
    assert_eq!(b.exposures.envs.len(), 1);
}

#[test]
fn acceptance_does_not_depend_on_order() {
    let a = || vec![file("a", Some("/p"))];
    let c = || vec![file("c", Some("/q")), file("d", Some("/p"))];
    let mut one = StateBuilder::new();
    let first = one.add_file_exposures(a()).is_ok() && one.add_file_exposures(c()).is_ok();
    let mut two = StateBuilder::new();
    let second = two.add_file_exposures(c()).is_ok() && two.add_file_exposures(a()).is_ok();
    assert!(!first);
    assert!(!second);
}

#[test]
fn build_without_storage_fails() {
    let b = StateBuilder::new();
    assert!(matches!(b.build(None), Err(StateBuilderError::StorageUnset)));
}

#[test]
fn build_uses_default_key_paths() {
    let mut b = StateBuilder::new();
    b.set_secret_storage(s3());
    let state = b.build(Some("/home/me".to_string())).ok().unwrap();
    assert_eq!(
        state.private_key_paths,
        vec!["/home/me/.ssh/id_rsa".to_string(), "/home/me/.ssh/id_ed25519".to_string()]
    );
}

#[test]
fn build_default_key_paths_with_trailing_slash_and_no_home() {
    let mut b = StateBuilder::new();
    b.set_secret_storage(s3());
    assert_eq!(b.key_paths(Some("/root/".to_string()))[0], "/root/.ssh/id_rsa");
    assert!(b.key_paths(None).is_empty());
}

#[test]
fn set_identities_extends() {
    let mut b = StateBuilder::new();
    b.set_identities(vec!["/k1".to_string()]);
    b.set_identities(vec!["/k2".to_string()]);
    b.set_secret_storage(s3());
    let state = b.build(Some("/home/me".to_string())).ok().unwrap();
    assert_eq!(state.private_key_paths, vec!["/k1".to_string(), "/k2".to_string()]);
}

fn specs_of(b: &StateBuilder, secret: &str) -> Vec<Option<String>> {
    let mut v: Vec<_> = b
        .exposures
        .files
        .iter()
        .filter(|f| f.secret_name == secret)
        .map(|f| f.vanity_path.clone())
        .collect();
    v.sort();
    v
}

#[test]
fn three_batches_in_any_order() {
    let batches = || {
        vec![
            vec![file("a", Some("/1")), file("b", None)],
            vec![file("a", Some("/2"))],
            vec![file("b", Some("/3")), file("a", None)],
        ]
    };
    let orders = [[0usize, 1, 2], [2, 0, 1], [1, 2, 0]];
    let mut results = Vec::new();
    for order in orders {
        let mut all = batches();
        let mut b = StateBuilder::new();
        let mut ok = true;
        for i in order {
            ok &= b.add_file_exposures(std::mem::take(&mut all[i])).is_ok();
        }
        results.push((ok, specs_of(&b, "a"), specs_of(&b, "b")));
    }
    assert!(results.iter().all(|r| r == &results[0]));
    assert!(results[0].0);
}

#[test]
fn three_batches_with_a_clash_fail_in_every_order() {
    let batches = || vec![vec![env("a", "X")], vec![env("b", "Y")], vec![env("c", "X")]];
    for order in [[0usize, 1, 2], [2, 1, 0], [1, 0, 2]] {
        let mut all = batches();
        let mut b = StateBuilder::new();
        let mut ok = true;
        for i in order {
            ok &= b.add_env_exposures(std::mem::take(&mut all[i])).is_ok();
        }
        assert!(!ok);
    }
}
