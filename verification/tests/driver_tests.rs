use docker_volume_xetfs::driver::{capabilities, mount_outcome, Scope, XetDriver};
use docker_volume_xetfs::errors::VolumeError;
use docker_volume_xetfs::volume::XetVolume;

fn opts(pairs: &[(&str, &str)]) -> Vec<(String, String)> {
    pairs.iter().map(|(k, v)| (k.to_string(), v.to_string())).collect()
}

fn driver() -> XetDriver {
    XetDriver::new("/data".to_string())
}

fn err_message(e: &VolumeError) -> String {
    e.message()
}

#[test]
fn create_missing_repo_fails_and_registry_unchanged() {
    let mut d = driver();
    let r = d.create("v1".to_string(), &opts(&[("commit", "main")]));
    let e = r.expect_err("create without repo must fail");
    assert_eq!(err_message(&e), "invalid options: \"repo\" option not set");
    assert!(d.get(&"v1".to_string()).is_none());
    assert_eq!(d.list().len(), 0);
}

#[test]
fn create_missing_commit_fails_and_registry_unchanged() {
    let mut d = driver();
    let r = d.create("v1".to_string(), &opts(&[("repo", "xet://r")]));
    let e = r.expect_err("create without commit must fail");
    assert_eq!(err_message(&e), "invalid options: \"commit\" option not set");
    assert!(d.get(&"v1".to_string()).is_none());
    assert_eq!(d.list().len(), 0);
}

#[test]
fn create_write_and_watch_conflict_fails() {
    let mut d = driver();
    let r = d.create(
        "v1".to_string(),
        &opts(&[("repo", "r"), ("commit", "c"), ("write", "true"), ("watch", "30s")]),
    );
    let e = r.expect_err("write together with watch must fail");
    assert_eq!(
        err_message(&e),
        "invalid options: Writable and watch are incompatible options"
    );
    assert_eq!(d.list().len(), 0);
}

#[test]
fn create_unrecognized_key_fails_naming_the_key() {
    let mut d = driver();
    let r = d.create(
        "v1".to_string(),
        &opts(&[("repo", "r"), ("branch", "main"), ("commit", "c")]),
    );
    let e = r.expect_err("an unknown option key must fail");
    assert_eq!(err_message(&e), "unrecognized option: branch");
    assert_eq!(d.list().len(), 0);
}

#[test]
fn create_bad_watch_interval_fails_with_interval_message() {
    let mut d = driver();
    let r = d.create(
        "v1".to_string(),
        &opts(&[("repo", "r"), ("commit", "c"), ("watch", "bogus")]),
    );
    let e = r.expect_err("an unparseable watch interval must fail");
    assert_eq!(
        err_message(&e),
        "invalid options: interval provided for watch: bogus is invalid"
    );
}

#[test]
fn create_valid_watch_interval_succeeds() {
    let mut d = driver();
    d.create(
        "v1".to_string(),
        &opts(&[("repo", "r"), ("commit", "c"), ("watch", "30s")]),
    )
    .expect("a parseable watch interval must be accepted");
}

#[test]
fn create_keys_are_case_insensitive() {
    let mut d = driver();
    d.create(
        "v1".to_string(),
        &opts(&[("REPO", "r"), ("Commit", "c")]),
    )
    .expect("keys must be matched case-insensitively");
    assert!(d.get(&"v1".to_string()).is_some());
}

#[test]
fn create_then_get_and_list() {
    let mut d = driver();
    d.create("v1".to_string(), &opts(&[("repo", "r"), ("commit", "c")]))
        .expect("create must succeed");
    let got = d.get(&"v1".to_string()).expect("created volume must be found");
    assert_eq!(got.name, "v1");
    assert_eq!(got.mountpoint, "/data/v1");
    assert_eq!(got.status, "");
    let all = d.list();
    assert_eq!(all.len(), 1);
    assert_eq!(all[0].name, "v1");
    assert_eq!(all[0].mountpoint, "/data/v1");
}

#[test]
fn create_replaces_existing_entry() {
    let mut d = driver();
    d.create("v1".to_string(), &opts(&[("repo", "r1"), ("commit", "c1")]))
        .expect("first create must succeed");
    d.create("v1".to_string(), &opts(&[("repo", "r2"), ("commit", "c2")]))
        .expect("re-creating the same name must succeed");
    assert_eq!(d.list().len(), 1);
    let inv = d
        .mount_invocation(&"v1".to_string())
        .expect("mount of the re-created volume must resolve");
    assert!(inv.args.contains(&"r2".to_string()));
    assert!(inv.args.contains(&"c2".to_string()));
}

#[test]
fn remove_then_get_null_then_remove_not_found() {
    let mut d = driver();
    d.create("v1".to_string(), &opts(&[("repo", "r"), ("commit", "c")]))
        .expect("create must succeed");
    d.remove(&"v1".to_string()).expect("removing an existing volume must succeed");
    assert!(d.get(&"v1".to_string()).is_none());
    let e = d
        .remove(&"v1".to_string())
        .expect_err("removing a removed volume must fail");
    assert_eq!(err_message(&e), "volume not found");
}

#[test]
fn mount_invocation_of_missing_volume_fails_not_found() {
    let d = driver();
    let e = d
        .mount_invocation(&"missing".to_string())
        .expect_err("mounting a never-created volume must fail");
    assert_eq!(err_message(&e), "volume not found");
}

#[test]
fn unmount_invocation_of_missing_volume_fails_not_found() {
    let d = driver();
    let e = d
        .unmount_invocation(&"missing".to_string())
        .expect_err("unmounting a never-created volume must fail");
    assert_eq!(err_message(&e), "volume not found");
}

#[test]
fn mount_invocation_arguments_exact() {
    let mut d = driver();
    d.create("v1".to_string(), &opts(&[("repo", "xet://r"), ("commit", "main")]))
        .expect("create must succeed");
    let inv = d.mount_invocation(&"v1".to_string()).expect("mount must resolve");
    assert_eq!(inv.program, "git-xet");
    assert_eq!(inv.args, vec!["mount", "-r", "main", "xet://r", "/data/v1"]);
    assert!(inv.env.is_empty());
    assert_eq!(inv.mountpoint, "/data/v1");
}

#[test]
fn mount_invocation_write_flag_and_watch_flag() {
    let mut d = driver();
    d.create(
        "w".to_string(),
        &opts(&[("repo", "r"), ("commit", "c"), ("write", "TRUE")]),
    )
    .expect("create must succeed");
    let inv = d.mount_invocation(&"w".to_string()).expect("mount must resolve");
    assert_eq!(inv.args, vec!["mount", "-r", "c", "r", "/data/w", "-w"]);

    d.create(
        "t".to_string(),
        &opts(&[("repo", "r"), ("commit", "c"), ("watch", "1H 30M")]),
    )
    .expect("create must succeed");
    let inv = d.mount_invocation(&"t".to_string()).expect("mount must resolve");
    assert_eq!(
        inv.args,
        vec!["mount", "-r", "c", "r", "/data/t", "--watch", "1h 30m"]
    );
}

#[test]
fn mount_invocation_credentials_travel_in_env_only_when_complete() {
    let mut d = driver();
    d.create(
        "v1".to_string(),
        &opts(&[("repo", "r"), ("commit", "c"), ("username", "u"), ("pat", "secret")]),
    )
    .expect("create must succeed");
    let inv = d.mount_invocation(&"v1".to_string()).expect("mount must resolve");
    assert_eq!(
        inv.env,
        vec![
            ("XET_USER_NAME".to_string(), "u".to_string()),
            ("XET_USER_TOKEN".to_string(), "secret".to_string())
        ]
    );
    assert!(!inv.args.contains(&"u".to_string()));
    assert!(!inv.args.contains(&"secret".to_string()));

    d.create(
        "v2".to_string(),
        &opts(&[("repo", "r"), ("commit", "c"), ("username", "u")]),
    )
    .expect("create must succeed");
    let inv = d.mount_invocation(&"v2".to_string()).expect("mount must resolve");
    assert!(inv.env.is_empty());
}

#[test]
fn unmount_invocation_targets_mount_path() {
    let mut d = driver();
    d.create("v1".to_string(), &opts(&[("repo", "r"), ("commit", "c")]))
        .expect("create must succeed");
    let inv = d.unmount_invocation(&"v1".to_string()).expect("unmount must resolve");
    assert_eq!(inv.program, "umount");
    assert_eq!(inv.args, vec!["/data/v1"]);
}

#[test]
fn mount_outcome_reports_mountpoint_or_diagnostics() {
    let ok = mount_outcome("/data/v1".to_string(), true, String::new())
        .expect("a successful mount must report the mountpoint");
    assert_eq!(ok.mountpoint, "/data/v1");
    let e = mount_outcome("/data/v1".to_string(), false, "tool exploded".to_string())
        .expect_err("a failed mount must report an error");
    assert_eq!(err_message(&e), "failed to mount: tool exploded");
}

#[test]
fn path_is_pure_and_total() {
    let d = driver();
    let p1 = d.path(&"anything".to_string());
    let p2 = d.path(&"anything".to_string());
    assert_eq!(p1, "/data/anything");
    assert_eq!(p1, p2);
    assert_eq!(d.path(&"v9".to_string()), "/data/v9");
}

#[test]
fn capabilities_scope_is_local_regardless_of_state() {
    let mut d = driver();
    assert_eq!(capabilities().scope, Scope::Local);
    d.create("v1".to_string(), &opts(&[("repo", "r"), ("commit", "c")]))
        .expect("create must succeed");
    assert_eq!(capabilities().scope, Scope::Local);
}

#[test]
fn many_creates_with_distinct_names_give_exactly_that_many_entries() {
    let mut d = driver();
    let n = 25;
    for i in 0..n {
        d.create(format!("vol{i}"), &opts(&[("repo", "r"), ("commit", "c")]))
            .expect("create must succeed");
    }
    let all = d.list();
    assert_eq!(all.len(), n);
    for i in 0..n {
        let name = format!("vol{i}");
        assert!(all.iter().any(|v| v.name == name));
    }
}

#[test]
fn options_apply_with_lowercased_keys_and_values() {
    let mut v = XetVolume::default();
    v.try_apply_option("Write".to_string(), "True".to_string())
        .expect("a recognized key must apply");
    assert!(v.writeable);
    v.try_apply_option("WATCH".to_string(), "30S".to_string())
        .expect("a recognized key must apply");
    assert_eq!(v.watch.as_deref(), Some("30s"));
    let e = v
        .try_apply_option("color".to_string(), "blue".to_string())
        .expect_err("an unknown key must be rejected");
    assert_eq!(e.message(), "unrecognized option: color");
    assert!(v.repo.is_empty());
}

#[test]
fn io_error_message_carries_the_os_text() {
    let e = VolumeError::FailedIO("disk full".to_string());
    assert_eq!(e.message(), "io error: disk full");
}

#[test]
fn create_extreme_watch_interval_rejected_not_aborted() {
    let mut d = driver();
    let r = d.create(
        "v1".to_string(),
        &opts(&[
            ("repo", "r"),
            ("commit", "c"),
            ("watch", "18446744073709551615s 1000000000ns"),
        ]),
    );
    let e = r.expect_err("an interval at the seconds limit must be rejected");
    assert_eq!(
        err_message(&e),
        "invalid options: interval provided for watch: 18446744073709551615s 1000000000ns is invalid"
    );
    assert_eq!(d.list().len(), 0);
}

#[test]
fn create_watch_interval_with_ten_digit_count_rejected() {
    let mut d = driver();
    let r = d.create(
        "v1".to_string(),
        &opts(&[("repo", "r"), ("commit", "c"), ("watch", "1000000000s")]),
    );
    let e = r.expect_err("an interval with a ten-digit count must be rejected");
    assert_eq!(
        err_message(&e),
        "invalid options: interval provided for watch: 1000000000s is invalid"
    );
}

#[test]
fn create_long_plain_watch_interval_accepted() {
    let mut d = driver();
    d.create(
        "v1".to_string(),
        &opts(&[("repo", "r"), ("commit", "c"), ("watch", "1hours 30minutes 20seconds")]),
    )
    .expect("a verbose plain interval must be accepted");
    let inv = d.mount_invocation(&"v1".to_string()).expect("mount must resolve");
    assert!(inv.args.contains(&"1hours 30minutes 20seconds".to_string()));
}
