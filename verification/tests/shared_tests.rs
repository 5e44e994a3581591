use docker_volume_xetfs::command::{SocketType, TcpArgs, UnixArgs, VolumePluginCommand};
use docker_volume_xetfs::shared::SharedDriver;

fn opts(pairs: &[(&str, &str)]) -> Vec<(String, String)> {
    pairs.iter().map(|(k, v)| (k.to_string(), v.to_string())).collect()
}

#[test]
fn shared_driver_full_lifecycle() {
    let d = SharedDriver::new("/data".to_string());
    d.create("v1".to_string(), &opts(&[("repo", "r"), ("commit", "c")]))
        .expect("create must succeed");
    let got = d.get(&"v1".to_string()).expect("created volume must be found");
    assert_eq!(got.name, "v1");
    assert_eq!(got.mountpoint, "/data/v1");
    assert_eq!(d.path(&"v1".to_string()), "/data/v1");

    let inv = d.mount_invocation(&"v1".to_string()).expect("mount must resolve");
    assert_eq!(inv.program, "git-xet");
    assert_eq!(inv.mountpoint, "/data/v1");
    let un = d.unmount_invocation(&"v1".to_string()).expect("unmount must resolve");
    assert_eq!(un.program, "umount");
    assert_eq!(un.args, vec!["/data/v1"]);

    d.remove(&"v1".to_string()).expect("remove must succeed");
    assert!(d.get(&"v1".to_string()).is_none());
    assert!(d.remove(&"v1".to_string()).is_err());
}

#[test]
fn shared_driver_distinct_creates_all_listed() {
    let d = SharedDriver::new("/data".to_string());
    let n = 10;
    for i in 0..n {
        d.create(format!("vol{i}"), &opts(&[("repo", "r"), ("commit", "c")]))
            .expect("create must succeed");
    }
    let all = d.list();
    assert_eq!(all.len(), n);
}

#[test]
fn shared_driver_rejects_what_the_validator_rejects() {
    let d = SharedDriver::new("/data".to_string());
    assert!(d.create("v1".to_string(), &opts(&[("commit", "c")])).is_err());
    assert!(d.get(&"v1".to_string()).is_none());
    assert_eq!(d.list().len(), 0);
}

#[test]
fn command_defaults_match_the_daemon_configuration() {
    let tcp = TcpArgs::default();
    assert_eq!(tcp.port, 7280);
    let unix = UnixArgs::default();
    assert_eq!(unix.socket_path, "/run/docker/plugins/xethub.sock");
    let cmd = VolumePluginCommand::with_defaults(SocketType::Tcp(TcpArgs::default()));
    assert_eq!(cmd.mount_root, "/data");
    assert_eq!(cmd.state_storage, "/tmp/state");
    assert!(matches!(cmd.socket_type, SocketType::Tcp(_)));
}

#[test]
fn planned_record_carries_derived_mount_path() {
    let d = SharedDriver::new("/data".to_string());
    let v = d
        .plan_volume(
            &"v1".to_string(),
            &opts(&[("repo", "r"), ("commit", "c"), ("watch", "5M")]),
        )
        .expect("planning a valid option set must succeed");
    assert_eq!(v.mount_path, "/data/v1");
    assert_eq!(v.repo, "r");
    assert_eq!(v.commit, "c");
    assert_eq!(v.watch.as_deref(), Some("5m"));
    assert!(!v.writeable);
}
