use credible::exposures::{EnvExposeArgs, Exposures, FileExposeArgs};
use credible::manager::{editor_outcome, EditSecretError, SecretManager, UploadSecretError};
use credible::materialize::{cleanup_paths, env_assignments, file_targets, EnvExposureError, FileCleanupError};
use credible::process::{kill_args, prepare_command, ProcessRunningError};
use credible::process_msg;
use credible::recipients::{parse_recipient, parse_recipients, EncryptionError, RecipientKey};
use credible::secret::{find_secret, map_secrets, Secret};
use credible::system::{
    mount_outcome, plan_mount, ramfs_mount_args, stale_generations, unmount_outcome,
    MountRamfsError, UnmountRamfsError,
};
use credible::text::{join_path, to_decimal};

const X25519_PK: &str = "age1t7rxyev2z3rw82stdlrrepyc39nvn86l5078zqkf5uasdy86jp6svpy7pa";
const SSH_PK: &str = "ssh-ed25519 AAAAC3NzaC1lZDI1NTE5AAAAIHsKLqeplhpW+uObz5dvMgjz1OxfM/XXUB+VHtZ6isGN alice@rust";

fn secret(name: &str, keys: &[&str]) -> Secret {
    Secret {
        name: name.to_string(),
        encryption_keys: keys.iter().map(|k| k.to_string()).collect(),
        path: format!("secrets/{name}.age"),
        mount_path: None,
        owner_user: None,
        owner_group: None,
    }
}

fn file(secret: &str, path: Option<&str>, mode: Option<u32>) -> FileExposeArgs {
    FileExposeArgs {
        secret_name: secret.to_string(),
        vanity_path: path.map(|p| p.to_string()),
        mode,
        owner: Some(1000),
        group: None,
    }
}

#[test]
fn recipient_x25519_first() {
    assert!(matches!(parse_recipient(X25519_PK), Ok(RecipientKey::X25519(_))));
}

#[test]
fn recipient_ssh() {
    assert!(matches!(parse_recipient(SSH_PK), Ok(RecipientKey::Ssh(_))));
}

#[test]
fn recipient_generated_key() {
    let pk = age::x25519::Identity::generate().to_public().to_string();
    assert!(matches!(parse_recipient(&pk), Ok(RecipientKey::X25519(_))));
}

#[test]
fn recipient_invalid() {
    assert!(matches!(parse_recipient("not a key"), Err(EncryptionError::InvalidRecipients)));
    assert!(matches!(parse_recipient(""), Err(EncryptionError::InvalidRecipients)));
}

#[test]
fn recipients_skip_invalid_keys() {
    let keys = vec!["junk".to_string(), SSH_PK.to_string(), X25519_PK.to_string()];
    let v = parse_recipients(&keys).ok().unwrap();
    assert_eq!(v.len(), 2);
    assert!(matches!(v[0], RecipientKey::Ssh(_)));
    assert!(matches!(v[1], RecipientKey::X25519(_)));
}

#[test]
fn recipients_none_valid() {
    assert!(matches!(parse_recipients(&vec![]), Err(EncryptionError::NoRecipientsFound)));
    let keys = vec!["junk".to_string()];
    assert!(matches!(parse_recipients(&keys), Err(EncryptionError::NoRecipientsFound)));
}

#[test]
fn process_msg_decodes_or_marks_unknown() {
    assert_eq!(process_msg("mount", b"mount: denied\n".to_vec()), "mount: denied\n");
    assert_eq!(process_msg("mount", "d\u{e9}j\u{e0}".as_bytes().to_vec()), "d\u{e9}j\u{e0}");
    assert_eq!(process_msg("mount", vec![0xff, 0xfe]), "<Unknown>");
    assert_eq!(process_msg("mount", vec![]), "");
}

#[test]
fn file_targets_default_mode_and_links() {
    let specs = vec![file("cert", Some("/tmp/mycert"), None), file("cert", None, Some(0o440))];
    let t = file_targets("/run/credible.d/250", &"cert".to_string(), &specs);
    assert_eq!(t.len(), 2);
    assert_eq!(t[0].dest, "/run/credible.d/250/cert");
    assert_eq!(t[0].mode, 0o400);
    assert_eq!(t[0].owner, Some(1000));
    assert_eq!(t[0].group, None);
    assert_eq!(t[0].link.as_deref(), Some("/tmp/mycert"));
    assert_eq!(t[1].mode, 0o440);
    assert_eq!(t[1].link, None);
}

#[test]
fn env_assignments_utf8() {
    let specs = vec![
        EnvExposeArgs { secret_name: "db".to_string(), name: "DB_PASS".to_string() },
        EnvExposeArgs { secret_name: "db".to_string(), name: "PGPASSWORD".to_string() },
    ];
    let v = env_assignments(&"db".to_string(), b"sup3r".to_vec(), &specs).ok().unwrap();
    assert_eq!(v, vec![
        ("DB_PASS".to_string(), "sup3r".to_string()),
        ("PGPASSWORD".to_string(), "sup3r".to_string()),
    ]);
}

#[test]
fn env_assignments_not_utf8() {
    let specs = vec![EnvExposeArgs { secret_name: "bin".to_string(), name: "B".to_string() }];
    match env_assignments(&"bin".to_string(), vec![0xc3, 0x28], &specs) {
        Err(EnvExposureError::NotValidUTF8(n)) => assert_eq!(n, "bin"),
        _ => panic!("expected NotValidUTF8"),
    }
}

#[test]
fn cleanup_lists_every_vanity_link() {
    let mut e = Exposures::new();
    e.add_files(vec![file("a", Some("/tmp/x"), None), file("b", None, None), file("c", Some("/tmp/y"), None)]);
    assert_eq!(cleanup_paths(&e), vec!["/tmp/x".to_string(), "/tmp/y".to_string()]);
    assert!(cleanup_paths(&Exposures::new()).is_empty());
}

#[test]
fn cleanup_error_message() {
    let e = FileCleanupError("/tmp/x".to_string(), "gone".to_string());
    assert_eq!(e.message(), "not able to clean up symlink at /tmp/x: gone");
}

#[test]
fn command_from_argv() {
    let argv = vec!["sh".to_string(), "-c".to_string(), "echo $DB_PASS".to_string()];
    let mut c = prepare_command(&argv, "/tmp/abc").ok().unwrap();
    assert_eq!(c.program, "sh");
    assert_eq!(c.args, vec!["-c".to_string(), "echo $DB_PASS".to_string()]);
    assert_eq!(c.env, vec![("SECRETS_FILE_DIR".to_string(), "/tmp/abc".to_string())]);
    c.set_envs(vec![("DB_PASS".to_string(), "sup3r".to_string())]);
    assert_eq!(c.env.len(), 2);
    assert_eq!(c.env[1].1, "sup3r");
}

#[test]
fn command_empty_argv() {
    assert!(matches!(prepare_command(&vec![], "/tmp/abc"), Err(ProcessRunningError::EmptyCommand)));
}

#[test]
fn kill_arguments() {
    assert_eq!(kill_args(4242, 15), vec!["15".to_string(), "4242".to_string()]);
    assert_eq!(kill_args(0, 0), vec!["0".to_string(), "0".to_string()]);
}

#[test]
fn decimal_rendering() {
    assert_eq!(to_decimal(0), "0");
    assert_eq!(to_decimal(250), "250");
    assert_eq!(to_decimal(u64::MAX), u64::MAX.to_string());
}

#[test]
fn path_joining() {
    assert_eq!(join_path("/run/credible.d", "100"), "/run/credible.d/100");
    assert_eq!(join_path("/run/", "x"), "/run/x");
    assert_eq!(join_path("", "x"), "x");
    assert_eq!(join_path("/base", "/abs"), "/abs");
}

#[test]
fn secrets_lookup() {
    let secrets = vec![secret("db", &[]), secret("cert", &[])];
    assert_eq!(find_secret(&secrets, "cert").unwrap().path, "secrets/cert.age");
    assert!(find_secret(&secrets, "nope").is_none());
}

#[test]
fn map_secrets_resolves_or_names_missing() {
    let secrets = vec![secret("db", &[]), secret("cert", &[])];
    let groups = vec![("cert".to_string(), vec![1u8]), ("db".to_string(), vec![2u8])];
    let v = map_secrets(&secrets, &groups).ok().unwrap();
    assert_eq!(v[0].0.name, "cert");
    assert_eq!(*v[1].1, vec![2u8]);
    let groups = vec![("db".to_string(), vec![1u8]), ("ghost".to_string(), vec![2u8])];
    assert_eq!(map_secrets(&secrets, &groups).err(), Some("ghost".to_string()));
}

#[test]
fn mount_plan_names_generation() {
    let p = plan_mount("/run/credible.d", 250);
    assert_eq!(p.generation, "250");
    assert_eq!(p.gen_dir, "/run/credible.d/250");
}

#[test]
fn stale_generations_spare_live_one() {
    let entries = vec!["100".to_string(), "250".to_string(), "17".to_string()];
    assert_eq!(
        stale_generations(&entries, Some("250".to_string())),
        vec!["100".to_string(), "17".to_string()]
    );
    assert_eq!(stale_generations(&entries, None), entries);
    assert!(stale_generations(&vec![], Some("250".to_string())).is_empty());
}

#[test]
fn ramfs_arguments() {
    assert_eq!(
        ramfs_mount_args("/run/credible.d/250"),
        vec!["-t", "ramfs", "none", "/run/credible.d/250", "-o", "nodev,nosuid,mode=0751"]
    );
}

#[test]
fn mount_and_unmount_outcomes() {
    assert!(mount_outcome(true, vec![]).is_ok());
    match mount_outcome(false, b"permission denied".to_vec()) {
        Err(MountRamfsError::MountingRamfs(m)) => assert_eq!(m, "permission denied"),
        _ => panic!("expected MountingRamfs"),
    }
    assert!(unmount_outcome(true, vec![]).is_ok());
    match unmount_outcome(false, vec![0xff]) {
        Err(UnmountRamfsError::UnmountingRamfs(m)) => assert_eq!(m, "<Unknown>"),
        _ => panic!("expected UnmountingRamfs"),
    }
}

#[test]
fn manager_targets() {
    let m = SecretManager::new(vec![secret("db", &[X25519_PK])], vec![]);
    assert_eq!(m.upload_target("db").ok().unwrap().name, "db");
    match m.upload_target("x") {
        Err(UploadSecretError::NoSuchSecret(n)) => assert_eq!(n, "x"),
        _ => panic!("expected NoSuchSecret"),
    }
    match m.edit_target("y") {
        Err(EditSecretError::NoSuchSecret(n)) => assert_eq!(n, "y"),
        _ => panic!("expected NoSuchSecret"),
    }
    assert!(editor_outcome(true, Some(0)).is_ok());
    assert!(matches!(editor_outcome(false, Some(2)), Err(EditSecretError::EditorBadExit(Some(2)))));
}
