use remotefs_kube::commands::{
    cd_probe_cmd, chmod_cmd, chown_cmd, list_cmd, mkdir_cmd, move_cmd, copy_cmd, pwd_cmd,
    remove_dir_all_cmd, remove_dir_cmd, remove_file_cmd, shell_argv, stat_cmd, symlink_cmd,
    tar_pack_argv, tar_unpack_argv, test_dir_cmd, test_exists_cmd, touch_cmd, CivilTime,
};
use remotefs_kube::errors::ErrorKind;
use remotefs_kube::shell::{decode_stream, wrap_command};
use remotefs_kube::text::{dec_u64, oct_u32, pad4_u32};

#[test]
fn decodes_exit_status_from_stream() {
    let r = decode_stream("5\n;0").unwrap();
    assert_eq!(r.exit_code, 0);
    assert_eq!(r.stdout, "5\n");
}

#[test]
fn stream_without_separator_fails_to_decode() {
    assert_eq!(decode_stream("5\n").unwrap_err(), ErrorKind::ProtocolError);
    // Even an all-digits stream is a decode failure without the
    // separator: the status marker is never optional.
    assert_eq!(decode_stream("7").unwrap_err(), ErrorKind::ProtocolError);
}

#[test]
fn stdout_may_contain_the_separator() {
    let r = decode_stream("a;b\n;2").unwrap();
    assert_eq!(r.exit_code, 2);
    assert_eq!(r.stdout, "a;b\n");
}

#[test]
fn empty_status_token_fails_to_decode() {
    assert_eq!(decode_stream("output;").unwrap_err(), ErrorKind::ProtocolError);
    assert_eq!(decode_stream("").unwrap_err(), ErrorKind::ProtocolError);
    assert_eq!(decode_stream("out;12x").unwrap_err(), ErrorKind::ProtocolError);
}

#[test]
fn empty_output_with_status_decodes() {
    let r = decode_stream(";0").unwrap();
    assert_eq!(r.exit_code, 0);
    assert_eq!(r.stdout, "");
}

#[test]
fn wraps_commands_with_status_suffix() {
    assert_eq!(
        wrap_command("ls -la \"/tmp/\"", "/root"),
        "cd /root && ls -la \"/tmp/\"; echo -n \";$?\""
    );
}

#[test]
fn builds_the_operation_commands() {
    assert_eq!(pwd_cmd(), "pwd");
    assert_eq!(cd_probe_cmd("/tmp"), "cd \"/tmp\"; echo $?; pwd");
    assert_eq!(list_cmd("/tmp"), "ls -la \"/tmp/\"");
    assert_eq!(stat_cmd("/tmp/a", true), "ls -ld \"/tmp/a\"");
    assert_eq!(stat_cmd("/tmp/a", false), "ls -l \"/tmp/a\"");
    assert_eq!(test_dir_cmd("/tmp/a"), "test -d \"/tmp/a\"");
    assert_eq!(test_exists_cmd("/tmp/a"), "test -e \"/tmp/a\"");
    assert_eq!(mkdir_cmd(0o755, "/tmp/mydir"), "mkdir -m 755 \"/tmp/mydir\"");
    assert_eq!(remove_file_cmd("/tmp/a"), "rm -f \"/tmp/a\"");
    assert_eq!(remove_dir_cmd("/tmp/d"), "rmdir \"/tmp/d\"");
    assert_eq!(remove_dir_all_cmd("/tmp/d"), "rm -rf \"/tmp/d\"");
    assert_eq!(symlink_cmd("/tmp/b.sh", "/tmp/a.sh"), "ln -s \"/tmp/a.sh\" \"/tmp/b.sh\"");
    assert_eq!(copy_cmd("/tmp/a.txt", "/tmp/b.txt"), "cp -rf \"/tmp/a.txt\" \"/tmp/b.txt\"");
    assert_eq!(move_cmd("/tmp/a.txt", "/tmp/b.txt"), "mv -f \"/tmp/a.txt\" \"/tmp/b.txt\"");
    assert_eq!(chmod_cmd(0o1000, "/tmp/a.sh"), "chmod 1000 \"/tmp/a.sh\"");
    assert_eq!(chown_cmd(1000, None, "/x"), "chown 1000 \"/x\"");
    assert_eq!(chown_cmd(1000, Some(10), "/x"), "chown 1000:10 \"/x\"");
    let t = CivilTime { year: 2024, month: 1, day: 22, hour: 9, minute: 31, second: 5 };
    assert_eq!(touch_cmd(true, &t, "/x"), "touch -a -t 202401220931.05 \"/x\"");
    assert_eq!(touch_cmd(false, &t, "/x"), "touch -m -t 202401220931.05 \"/x\"");
}

#[test]
fn builds_the_exec_argvs() {
    assert_eq!(shell_argv("pwd"), vec!["/bin/sh", "-c", "pwd"]);
    assert_eq!(tar_unpack_argv("/tmp"), vec!["tar", "xf", "-", "-C", "/tmp"]);
    assert_eq!(
        tar_pack_argv("/tmp", "a.txt"),
        vec!["tar", "cf", "-", "-C", "/tmp", "a.txt"]
    );
}

#[test]
fn renders_numbers() {
    assert_eq!(dec_u64(0), "0");
    assert_eq!(dec_u64(18446744073709551615), "18446744073709551615");
    assert_eq!(oct_u32(0o755), "755");
    assert_eq!(oct_u32(0), "0");
    assert_eq!(pad4_u32(7), "0007");
    assert_eq!(pad4_u32(2024), "2024");
}

#[test]
fn oversized_status_token_fails_to_decode() {
    assert_eq!(
        decode_stream("x;4294967296").unwrap_err(),
        ErrorKind::ProtocolError
    );
    assert_eq!(decode_stream("x;4294967295").unwrap().exit_code, 4294967295);
}
