use remotefs_kube::client::{
    copy_or_move_result, create_dir_result, create_file_finish, create_file_name, exec_result,
    list_dir_result, open_file_paths, remove_dir_all_result, remove_dir_result,
    remove_file_result, require_connected, setstat_commands, setstat_precheck, setstat_step,
    stat_result, stream_unsupported, symlink_result, test_outcome, ContainerSession, SetStat,
};
use remotefs_kube::commands::CivilTime;
use remotefs_kube::errors::ErrorKind;
use remotefs_kube::listing::FileKind;
use remotefs_kube::multipod::{
    classify, containers_to_entries, name_listed, pods_to_entries, remove_target, setstat_target,
    stat_container, stat_pod, stat_root, write_target, Dispatch, MultiPodSession,
};
use remotefs_kube::shell::CommandResult;

fn ok(rc: u32) -> Result<CommandResult, ErrorKind> {
    Ok(CommandResult { exit_code: rc, stdout: String::new() })
}

#[test]
fn should_return_errors_on_uninitialized_client() {
    let mut client = ContainerSession::new("test", "test");
    let alive = false;
    // change dir
    assert!(require_connected(alive).is_err());
    // copy
    assert!(copy_or_move_result(alive, true, ok(0)).is_err());
    // exec
    assert!(exec_result(alive, ok(0)).is_err());
    // disconnect
    assert!(client.disconnect().is_err());
    // list dir
    assert!(list_dir_result(alive, true, "/tmp", Ok(String::new())).is_err());
    // create dir
    assert!(create_dir_result(alive, false, ok(0)).is_err());
    // symlink
    assert!(symlink_result(alive, true, false, ok(0)).is_err());
    // pwd
    assert!(client.pwd(alive).is_err());
    // remove dir all
    assert!(remove_dir_all_result(alive, true, ok(0)).is_err());
    // mov
    assert!(copy_or_move_result(alive, true, ok(0)).is_err());
    // stat
    assert!(stat_result(alive, "/tmp", Ok(String::new())).is_err());
    // setstat
    assert!(setstat_precheck(alive, true).is_err());
    // open / create / append streams
    assert!(stream_unsupported().is_err());
    assert!(stream_unsupported().is_err());
    assert!(stream_unsupported().is_err());
}

#[test]
fn connect_flow_tracks_working_directory() {
    let mut s = ContainerSession::new("my-pod", "alpine");
    assert_eq!(s.wrkdir, "/");
    s.set_connected();
    assert!(s.apply_connect_pwd("/root\n").is_ok());
    assert_eq!(s.wrkdir, "/root");
    assert_eq!(s.pwd(true).unwrap(), "/root");
    assert_eq!(s.resolve("a.txt"), "/root/a.txt");
    assert_eq!(s.resolve("/tmp/a.txt"), "/tmp/a.txt");
    assert!(s.disconnect().is_ok());
}

#[test]
fn bad_pwd_answer_is_a_connection_error() {
    let mut s = ContainerSession::new("p", "c");
    s.set_connected();
    assert_eq!(s.apply_connect_pwd("bash: pwd: not found").unwrap_err(), ErrorKind::ConnectionError);
    assert_eq!(s.wrkdir, "/");
}

#[test]
fn change_dir_probe_outcomes() {
    let mut s = ContainerSession::new("p", "c");
    s.set_connected();
    let new = s.apply_change_dir(Ok("0/tmp\n".to_string())).unwrap();
    assert_eq!(new, "/tmp");
    assert_eq!(s.wrkdir, "/tmp");
    // failed probe: binding unchanged
    assert_eq!(
        s.apply_change_dir(Ok("1\n/tmp\n".to_string())).unwrap_err(),
        ErrorKind::NoSuchFileOrDirectory
    );
    assert_eq!(s.wrkdir, "/tmp");
    assert_eq!(
        s.apply_change_dir(Err(ErrorKind::ProtocolError)).unwrap_err(),
        ErrorKind::ProtocolError
    );
    assert_eq!(s.wrkdir, "/tmp");
}

#[test]
fn operation_outcomes_follow_the_table() {
    assert_eq!(test_outcome(true, ok(0)).unwrap(), true);
    assert_eq!(test_outcome(true, ok(1)).unwrap(), false);
    assert_eq!(test_outcome(true, Err(ErrorKind::ProtocolError)).unwrap_err(), ErrorKind::StatFailed);
    assert_eq!(
        create_dir_result(true, true, ok(0)).unwrap_err(),
        ErrorKind::DirectoryAlreadyExists
    );
    assert_eq!(create_dir_result(true, false, ok(1)).unwrap_err(), ErrorKind::FileCreateDenied);
    assert!(create_dir_result(true, false, ok(0)).is_ok());
    assert_eq!(
        remove_file_result(true, false, ok(0)).unwrap_err(),
        ErrorKind::NoSuchFileOrDirectory
    );
    assert_eq!(remove_file_result(true, true, ok(1)).unwrap_err(), ErrorKind::CouldNotRemoveFile);
    assert_eq!(remove_dir_result(true, true, ok(1)).unwrap_err(), ErrorKind::DirectoryNotEmpty);
    assert_eq!(
        remove_dir_all_result(true, true, ok(1)).unwrap_err(),
        ErrorKind::CouldNotRemoveFile
    );
    assert_eq!(
        symlink_result(true, false, false, ok(0)).unwrap_err(),
        ErrorKind::NoSuchFileOrDirectory
    );
    assert_eq!(symlink_result(true, true, true, ok(0)).unwrap_err(), ErrorKind::FileCreateDenied);
    assert!(symlink_result(true, true, false, ok(0)).is_ok());
    assert_eq!(copy_or_move_result(true, true, ok(1)).unwrap_err(), ErrorKind::FileCreateDenied);
    assert!(copy_or_move_result(true, true, ok(0)).is_ok());
    let (rc, out) = exec_result(
        true,
        Ok(CommandResult { exit_code: 0, stdout: "5\n".to_string() }),
    )
    .unwrap();
    assert_eq!((rc, out.as_str()), (0, "5\n"));
    assert_eq!(stream_unsupported().unwrap_err(), ErrorKind::UnsupportedFeature);
}

#[test]
fn setstat_builds_one_command_per_field() {
    let m = SetStat {
        mode: Some(0o755),
        uid: Some(1000),
        gid: None,
        accessed: None,
        modified: Some(CivilTime { year: 2024, month: 1, day: 2, hour: 3, minute: 4, second: 5 }),
    };
    let cmds = setstat_commands("/tmp/a.sh", &m);
    assert_eq!(
        cmds,
        vec![
            "chmod 755 \"/tmp/a.sh\"".to_string(),
            "chown 1000 \"/tmp/a.sh\"".to_string(),
            "touch -m -t 202401020304.05 \"/tmp/a.sh\"".to_string(),
        ]
    );
    let none = SetStat { mode: None, uid: None, gid: None, accessed: None, modified: None };
    assert!(setstat_commands("/tmp/a.sh", &none).is_empty());
    assert!(setstat_step(ok(0)).is_ok());
    assert_eq!(setstat_step(ok(1)).unwrap_err(), ErrorKind::StatFailed);
    assert_eq!(
        setstat_step(Err(ErrorKind::NotConnected)).unwrap_err(),
        ErrorKind::ProtocolError
    );
}

#[test]
fn stat_parses_the_single_line() {
    let entry = stat_result(
        true,
        "/tmp/a.sh",
        Ok("-rwxr-xr-x 1 root root 7 Apr 22 09:31 a.sh\n".to_string()),
    )
    .unwrap();
    assert_eq!(entry.path, "/tmp/a.sh");
    assert_eq!(entry.size, 7);
    assert_eq!(
        stat_result(true, "/tmp/a.sh", Ok("ls: no such file\n".to_string())).unwrap_err(),
        ErrorKind::NoSuchFileOrDirectory
    );
    assert_eq!(
        stat_result(true, "/", Ok(String::new())).unwrap_err(),
        ErrorKind::StatFailed
    );
}

#[test]
fn list_dir_skips_unparsable_lines() {
    let output = "total 8\n\
                  drwxr-xr-x 1 root root   512 giu 13 21:11 docs\n\
                  garbage line\n\
                  -rw-r--r-- 1 root root  2056 giu 13 21:11 Cargo.toml\n";
    let entries = list_dir_result(true, true, "/tmp", Ok(output.to_string())).unwrap();
    assert_eq!(entries.len(), 2);
    assert_eq!(entries[0].path, "/tmp/docs");
    assert_eq!(entries[1].path, "/tmp/Cargo.toml");
    assert_eq!(
        list_dir_result(true, false, "/tmp", Ok(String::new())).unwrap_err(),
        ErrorKind::NoSuchFileOrDirectory
    );
}

#[test]
fn open_file_source_paths() {
    let (parent, name) = open_file_paths(true, "/tmp/a.txt").unwrap();
    assert_eq!((parent.as_str(), name.as_str()), ("/tmp", "a.txt"));
    let (parent, name) = open_file_paths(true, "/a.txt").unwrap();
    assert_eq!((parent.as_str(), name.as_str()), ("/", "a.txt"));
    assert_eq!(
        open_file_paths(true, "/").unwrap_err(),
        ErrorKind::NoSuchFileOrDirectory
    );
    assert_eq!(
        open_file_paths(false, "/tmp/a.txt").unwrap_err(),
        ErrorKind::NotConnected
    );
}

#[test]
fn create_file_steps() {
    assert_eq!(create_file_name(true, "/tmp/a.txt").unwrap(), "a.txt");
    assert_eq!(
        create_file_name(true, "/").unwrap_err(),
        ErrorKind::NoSuchFileOrDirectory
    );
    assert_eq!(create_file_finish(true, 10).unwrap(), 10);
    assert_eq!(create_file_finish(false, 10).unwrap_err(), ErrorKind::NoSuchFileOrDirectory);
}

#[test]
fn dispatch_levels_and_targets() {
    let mut s = MultiPodSession::new();
    assert!(s.pod_name().is_none());
    assert!(s.container_name().is_none());

    let d = classify(&s.kube_path("/"));
    assert!(matches!(d, Dispatch::AtRoot));
    let d = classify(&s.kube_path("/my-pod"));
    assert!(matches!(d, Dispatch::AtPod(_)));
    let d = classify(&s.kube_path("/my-pod/alpine"));
    assert!(matches!(d, Dispatch::AtContainer(_, _)));
    let d = classify(&s.kube_path("/my-pod/alpine/tmp"));
    match &d {
        Dispatch::AtPath(pod, container, rest) => {
            assert_eq!(pod, "my-pod");
            assert_eq!(container, "alpine");
            assert_eq!(rest, "/tmp");
        },
        _ => panic!("expected a path-level dispatch"),
    }
    assert_eq!(write_target(&d).unwrap(), "/tmp");
    assert_eq!(remove_target(&d).unwrap(), "/tmp");
    assert_eq!(setstat_target(&d).unwrap(), "/tmp");
    let root = Dispatch::AtRoot;
    assert_eq!(write_target(&root).unwrap_err(), ErrorKind::CouldNotOpenFile);
    assert_eq!(remove_target(&root).unwrap_err(), ErrorKind::CouldNotRemoveFile);
    assert!(setstat_target(&root).is_none());

    // The binding is untouched by dispatch bookkeeping around a failed call.
    s.kube.pod_name = "p0".to_string();
    s.kube.container = "c0".to_string();
    let prev = s.enter_scope("my-pod", "alpine");
    assert_eq!(s.kube.pod_name, "my-pod");
    s.leave_scope(prev);
    assert_eq!(s.kube.pod_name, "p0");
    assert_eq!(s.kube.container, "c0");
}

#[test]
fn change_dir_rolls_back_on_failure() {
    let mut s = MultiPodSession::new();
    s.kube.set_connected();
    s.kube.pod_name = "p0".to_string();
    s.kube.container = "c0".to_string();

    // Pod that the inventory does not know: nothing changes.
    let path = s.kube_path("/other-pod/c1/tmp");
    let r = s.change_dir_set_pod(&path, Some(Ok(false)));
    assert_eq!(r.unwrap_err(), ErrorKind::NoSuchFileOrDirectory);
    assert_eq!(s.kube.pod_name, "p0");

    // Pod exists, container does not: the pod selector rolls back.
    let prev_pod = s.kube.pod_name.clone();
    assert!(s.change_dir_set_pod(&path, Some(Ok(true))).is_ok());
    assert_eq!(s.kube.pod_name, "other-pod");
    let r = s.change_dir_set_container(&path, prev_pod.as_str(), Some(Ok(false)));
    assert_eq!(r.unwrap_err(), ErrorKind::NoSuchFileOrDirectory);
    assert_eq!(s.kube.pod_name, "p0");
    assert_eq!(s.kube.container, "c0");

    // Both exist but the remote change fails: both selectors roll back.
    let prev_pod = s.kube.pod_name.clone();
    let prev_container = s.kube.container.clone();
    assert!(s.change_dir_set_pod(&path, Some(Ok(true))).is_ok());
    let rest = s
        .change_dir_set_container(&path, prev_pod.as_str(), Some(Ok(true)))
        .unwrap();
    assert_eq!(rest, Some("/tmp".to_string()));
    let r = s.change_dir_finish(prev_pod, prev_container, Err(ErrorKind::NoSuchFileOrDirectory));
    assert!(r.is_err());
    assert_eq!(s.kube.pod_name, "p0");
    assert_eq!(s.kube.container, "c0");
}

#[test]
fn change_dir_to_container_root() {
    let mut s = MultiPodSession::new();
    s.kube.set_connected();
    let path = s.kube_path("/my-pod/alpine");
    assert!(s.change_dir_set_pod(&path, Some(Ok(true))).is_ok());
    let rest = s.change_dir_set_container(&path, "", Some(Ok(true))).unwrap();
    assert!(rest.is_none());
    assert_eq!(s.kube.wrkdir, "/");
    assert_eq!(s.pwd(true).unwrap(), "/my-pod/alpine");
}

#[test]
fn synthesizes_inventory_listings() {
    let root = stat_root();
    assert_eq!(root.path, "/");
    assert!(matches!(root.kind, FileKind::Directory));

    let pods = vec!["pod-a".to_string(), "pod-b".to_string()];
    let entries = pods_to_entries(&pods);
    assert_eq!(entries.len(), 2);
    assert_eq!(entries[0].path, "/pod-a");
    assert_eq!(entries[1].path, "/pod-b");
    assert!(matches!(entries[0].kind, FileKind::Directory));

    let containers = vec!["alpine".to_string()];
    let entries = containers_to_entries("pod-a", &containers);
    assert_eq!(entries.len(), 1);
    assert_eq!(entries[0].path, "/pod-a/alpine");

    assert!(name_listed(&pods, "pod-b"));
    assert!(!name_listed(&pods, "pod-c"));
    assert_eq!(stat_pod("pod-a", &pods).unwrap().path, "/pod-a");
    assert_eq!(
        stat_pod("pod-c", &pods).unwrap_err(),
        ErrorKind::NoSuchFileOrDirectory
    );
    assert_eq!(
        stat_container("pod-a", "alpine", &containers).unwrap().path,
        "/pod-a/alpine"
    );
    assert_eq!(
        stat_container("pod-a", "debian", &containers).unwrap_err(),
        ErrorKind::NoSuchFileOrDirectory
    );
}

#[test]
fn virtual_paths_are_rerooted() {
    let mut s = MultiPodSession::new();
    assert_eq!(s.pwd(true).unwrap(), "/");
    s.kube.pod_name = "my-pod".to_string();
    assert_eq!(s.pwd(true).unwrap(), "/my-pod");
    s.kube.container = "alpine".to_string();
    s.kube.wrkdir = "/tmp".to_string();
    assert_eq!(s.pwd(true).unwrap(), "/my-pod/alpine/tmp");
    assert!(s.pwd(false).is_err());

    let entry = stat_root();
    let entry = remotefs_kube::listing::FileEntry { path: "/tmp/a.txt".to_string(), ..entry };
    let fixed = s.fix_absolute_path(entry);
    assert_eq!(fixed.path, "/my-pod/alpine/tmp/a.txt");

    assert!(s.exec_allowed().is_ok());
    s.kube.container = String::new();
    assert_eq!(s.exec_allowed().unwrap_err(), ErrorKind::ProtocolError);
}

#[test]
fn error_kinds_have_labels() {
    assert_eq!(ErrorKind::NotConnected.label(), "not connected");
    assert_eq!(ErrorKind::UnsupportedFeature.label(), "unsupported feature");
    assert_eq!(ErrorKind::DirectoryNotEmpty.label(), "directory not empty");
}
