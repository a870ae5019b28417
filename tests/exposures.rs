use credible::exposures::{EnvExposeArgs, ExposureSpec, Exposures, FileExposeArgs};
use credible::partition_specs;

fn file(secret: &str, path: Option<&str>) -> FileExposeArgs {
    FileExposeArgs {
        secret_name: secret.to_string(),
        vanity_path: path.map(|p| p.to_string()),
        mode: None,
        owner: None,
        group: None,
    }
}

fn env(secret: &str, name: &str) -> EnvExposeArgs {
    EnvExposeArgs { secret_name: secret.to_string(), name: name.to_string() }
}

fn file_paths_for(e: &Exposures, secret: &str) -> Vec<Option<String>> {
    e.file_groups()
        .into_iter()
        .find(|(n, _)| n == secret)
        .map(|(_, v)| v.into_iter().map(|f| f.vanity_path).collect())
        .unwrap_or_default()
}

#[test]
fn parse_file_flag() {
    match ExposureSpec::parse_flag("file:cert:/tmp/mycert").unwrap() {
        ExposureSpec::File(f) => {
            assert_eq!(f.secret_name, "cert");
            assert_eq!(f.vanity_path.as_deref(), Some("/tmp/mycert"));
            assert_eq!(f.mode, None);
            assert_eq!(f.owner, None);
            assert_eq!(f.group, None);
        }
        ExposureSpec::Env(_) => panic!("expected a file exposure"),
    }
}

#[test]
fn parse_env_flag() {
    match ExposureSpec::parse_flag("env:db:DB_PASS").unwrap() {
        ExposureSpec::Env(e) => {
            assert_eq!(e.secret_name, "db");
            assert_eq!(e.name, "DB_PASS");
        }
        ExposureSpec::File(_) => panic!("expected an env exposure"),
    }
}

#[test]
fn parse_flag_through_from_str() {
    let spec: ExposureSpec = "env:db:DB_PASS".parse().unwrap();
    assert!(matches!(spec, ExposureSpec::Env(_)));
}

#[test]
fn parse_flag_rejects_malformed() {
    for bad in ["", "file:cert", "file:a:b:c", "link:cert:/tmp/x", "env::", "ENV:db:X"] {
        let err = ExposureSpec::parse_flag(bad).err();
        if bad == "env::" {
            assert!(err.is_none());
            continue;
        }
        assert_eq!(err, Some(format!("invalid cli exposure spec: {bad}")));
    }
}

#[test]
fn parse_flag_keeps_empty_fields() {
    match ExposureSpec::parse_flag("env::").unwrap() {
        ExposureSpec::Env(e) => {
            assert_eq!(e.secret_name, "");
            assert_eq!(e.name, "");
        }
        ExposureSpec::File(_) => panic!("expected an env exposure"),
    }
}

#[test]
fn file_and_env_from_str() {
    match ExposureSpec::file_from_str("a".to_string(), "/p") {
        ExposureSpec::File(f) => assert_eq!(f.vanity_path.as_deref(), Some("/p")),
        ExposureSpec::Env(_) => panic!("expected a file exposure"),
    }
    match ExposureSpec::env_from_str("a".to_string(), "VAR") {
        ExposureSpec::Env(e) => {
            assert_eq!(e.secret_name, "a");
            assert_eq!(e.name, "VAR");
        }
        ExposureSpec::File(_) => panic!("expected an env exposure"),
    }
}

#[test]
fn partition_keeps_order() {
    let specs = vec![
        ExposureSpec::env_from_str("a".to_string(), "A"),
        ExposureSpec::file_from_str("b".to_string(), "/b"),
        ExposureSpec::env_from_str("c".to_string(), "C"),
        ExposureSpec::file_from_str("d".to_string(), "/d"),
    ];
    let (fs, es) = partition_specs(specs);
    let fnames: Vec<_> = fs.iter().map(|f| f.secret_name.as_str()).collect();
    let enames: Vec<_> = es.iter().map(|e| e.name.as_str()).collect();
    assert_eq!(fnames, vec!["b", "d"]);
    assert_eq!(enames, vec!["A", "C"]);
}

#[test]
fn partition_empty() {
    let (fs, es) = partition_specs(vec![]);
    assert!(fs.is_empty());
    assert!(es.is_empty());
}

#[test]
fn add_files_groups_by_secret() {
    let mut e = Exposures::new();
    e.add_files(vec![file("a", Some("/1")), file("b", Some("/2")), file("a", None)]);
    let groups = e.file_groups();
    assert_eq!(groups.len(), 2);
    assert_eq!(groups[0].0, "a");
    assert_eq!(groups[0].1.len(), 2);
    assert_eq!(groups[1].0, "b");
    assert_eq!(file_paths_for(&e, "a"), vec![Some("/1".to_string()), None]);
}

#[test]
fn add_envs_groups_by_secret() {
    let mut e = Exposures::new();
    e.add_envs(vec![env("db", "X"), env("api", "Y")]);
    e.add_envs(vec![env("db", "Z")]);
    let groups = e.env_groups();
    assert_eq!(groups.len(), 2);
    let db = groups.iter().find(|(n, _)| n == "db").unwrap();
    let names: Vec<_> = db.1.iter().map(|s| s.name.as_str()).collect();
    assert_eq!(names, vec!["X", "Z"]);
}

#[test]
fn additions_commute_per_secret() {
    let a = || vec![file("s", Some("/a")), file("t", Some("/t"))];
    let b = || vec![file("s", Some("/b"))];
    let mut ab = Exposures::new();
    ab.add_files(a());
    ab.add_files(b());
    let mut ba = Exposures::new();
    ba.add_files(b());
    ba.add_files(a());
    for secret in ["s", "t", "u"] {
        let mut x = file_paths_for(&ab, secret);
        let mut y = file_paths_for(&ba, secret);
        x.sort();
        y.sort();
        assert_eq!(x, y);
    }
}

#[test]
fn add_config_mixes_kinds() {
    let mut e = Exposures::new();
    e.add_config(vec![
        ExposureSpec::file_from_str("cert".to_string(), "/tmp/mycert"),
        ExposureSpec::env_from_str("db".to_string(), "DB_PASS"),
    ]);
    assert_eq!(e.files.len(), 1);
    assert_eq!(e.envs.len(), 1);
    assert_eq!(e.envs[0].name, "DB_PASS");
}
