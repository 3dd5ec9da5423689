use remotefs_kube::listing::{get_name_and_link, parse_ls_output, FileKind, LsTime};

#[test]
fn should_get_name_and_link() {
    let r = get_name_and_link("Cargo.toml");
    assert_eq!(r.0, "Cargo.toml");
    assert!(r.1.is_none());
    let r = get_name_and_link("Cargo -> Cargo.toml");
    assert_eq!(r.0, "Cargo");
    assert_eq!(r.1, Some(String::from("Cargo.toml")));
}

#[test]
fn should_parse_file_ls_output() {
    // File
    let entry = parse_ls_output("/tmp", "-rw-r--r-- 1 root root  2056 giu 13 21:11 /tmp/Cargo.toml")
        .ok()
        .unwrap();
    assert_eq!(entry.name(), "Cargo.toml");
    assert!(matches!(entry.kind, FileKind::Regular));
    assert_eq!(entry.path, "/tmp/Cargo.toml");
    assert_eq!(entry.pex.unwrap().to_mode(), 0o644_u32);
    assert_eq!(entry.size, 2056);
    assert_eq!(entry.extension().unwrap(), "toml");
    assert!(entry.symlink.is_none());
    // File (year)
    let entry = parse_ls_output("/tmp", "-rw-rw-rw- 1 root root  3368 nov  7  2020 CODE_OF_CONDUCT.md")
        .ok()
        .unwrap();
    assert_eq!(entry.name(), "CODE_OF_CONDUCT.md");
    assert!(matches!(entry.kind, FileKind::Regular));
    assert_eq!(entry.path, "/tmp/CODE_OF_CONDUCT.md");
    assert_eq!(entry.pex.unwrap().to_mode(), 0o666_u32);
    assert_eq!(entry.size, 3368);
    assert_eq!(entry.extension().unwrap(), "md");
    assert!(entry.symlink.is_none());
}

#[test]
fn should_parse_directory_from_ls_output() {
    // Directory
    let entry = parse_ls_output("/tmp", "drwxr-xr-x 1 root root   512 giu 13 21:11 docs")
        .ok()
        .unwrap();
    assert_eq!(entry.name(), "docs");
    assert!(matches!(entry.kind, FileKind::Directory));
    assert_eq!(entry.path, "/tmp/docs");
    assert_eq!(entry.pex.unwrap().to_mode(), 0o755_u32);
    assert!(entry.symlink.is_none());
    // Short metadata
    assert!(parse_ls_output("/tmp", "drwxr-xr-x 1 root root   512 giu 13 21:11").is_err());
    // Special file
    assert!(parse_ls_output("/tmp", "crwxr-xr-x 1 root root   512 giu 13 21:11 ttyS1").is_err());
    // Bad pex
    assert!(parse_ls_output("/tmp", "-rwxr-xr 1 root root   512 giu 13 21:11 ttyS1").is_err());
}

#[test]
fn should_parse_symlink_from_ls_output() {
    let entry = parse_ls_output(
        "/tmp",
        "lrw-r--r-- 1 root root  2056 giu 13 21:11 Cargo.toml -> Cargo.prod.toml",
    )
    .ok()
    .unwrap();
    assert_eq!(entry.name(), "Cargo.toml");
    assert_eq!(entry.path, "/tmp/Cargo.toml");
    assert_eq!(entry.pex.unwrap().to_mode(), 0o644_u32);
    assert_eq!(entry.size, 2056);
    assert_eq!(entry.extension().unwrap(), "toml");
    assert_eq!(entry.symlink.as_deref().unwrap(), "Cargo.prod.toml");
    assert!(matches!(entry.kind, FileKind::Symlink));
}

#[test]
fn test_should_parse_special_permissions_ls_output() {
    assert!(parse_ls_output(
        "/tmp",
        "-rw-rwSrw-    1 manufact  manufact    241813 Apr 22 09:31 L9800.SPF",
    )
    .is_ok());
    assert!(parse_ls_output(
        "/tmp",
        "-rw-rwsrw-    1 manufact  manufact    241813 Apr 22 09:31 L9800.SPF",
    )
    .is_ok());
    assert!(parse_ls_output(
        "/tmp",
        "-rw-rwtrw-    1 manufact  manufact    241813 Apr 22 09:31 L9800.SPF",
    )
    .is_ok());
    assert!(parse_ls_output(
        "/tmp",
        "-rw-rwTrw-    1 manufact  manufact    241813 Apr 22 09:31 L9800.SPF",
    )
    .is_ok());
}

#[test]
fn special_execute_bits_count_like_x() {
    // Any of s, S, t, T in an execute slot reads exactly like x.
    let base = parse_ls_output("/tmp", "-rw-rwxrw-    1 u  g    1 Apr 22 09:31 f").ok().unwrap();
    for line in [
        "-rw-rwsrw-    1 u  g    1 Apr 22 09:31 f",
        "-rw-rwSrw-    1 u  g    1 Apr 22 09:31 f",
        "-rw-rwtrw-    1 u  g    1 Apr 22 09:31 f",
        "-rw-rwTrw-    1 u  g    1 Apr 22 09:31 f",
    ] {
        let e = parse_ls_output("/tmp", line).ok().unwrap();
        assert_eq!(e.pex, base.pex);
    }
    assert_eq!(base.pex.unwrap().to_mode(), 0o676_u32);
}

#[test]
fn permission_bits_round_trip() {
    let e = parse_ls_output("/tmp", "-rwxr-xr-x 1 root root 1 Apr 22 09:31 f").ok().unwrap();
    let p = e.pex.unwrap();
    assert_eq!((p.owner, p.group, p.other), (7, 5, 5));
    let e = parse_ls_output("/tmp", "-rw-rw-rw- 1 root root 1 Apr 22 09:31 f").ok().unwrap();
    let p = e.pex.unwrap();
    assert_eq!((p.owner, p.group, p.other), (6, 6, 6));
}

#[test]
fn parse_is_pure_on_reparse() {
    let dir = "/var/data";
    let line = "lrwxrwxrwx 12 0 0 9 Jul  1 00:30 link.txt -> target.txt";
    let a = parse_ls_output(dir, line).ok().unwrap();
    let b = parse_ls_output(dir, line).ok().unwrap();
    assert_eq!(a, b);
}

#[test]
fn parses_numeric_owner_and_timestamps() {
    let e = parse_ls_output("/", "-rw-r--r-- 1 1000 100 42 Feb  3 04:05 x").ok().unwrap();
    assert_eq!(e.uid, Some(1000));
    assert_eq!(e.gid, Some(100));
    assert_eq!(
        e.modified,
        Some(LsTime::WithClock { month: 2, day: 3, hour: 4, minute: 5 })
    );
    let e = parse_ls_output("/", "-rw-r--r-- 1 root root 42 Dec 31  1999 x").ok().unwrap();
    assert_eq!(e.uid, None);
    assert_eq!(e.modified, Some(LsTime::WithYear { month: 12, day: 31, year: 1999 }));
    // Unknown month or impossible day: the entry stays, the timestamp goes.
    let e = parse_ls_output("/", "-rw-r--r-- 1 root root 42 giu 13 21:11 x").ok().unwrap();
    assert_eq!(e.modified, None);
    let e = parse_ls_output("/", "-rw-r--r-- 1 root root 42 Apr 99 21:11 x").ok().unwrap();
    assert_eq!(e.modified, None);
}

#[test]
fn rejects_dot_entries_and_strips_directories() {
    assert!(parse_ls_output("/tmp", "drwxr-xr-x 1 root root 512 giu 13 21:11 .").is_err());
    assert!(parse_ls_output("/tmp", "drwxr-xr-x 1 root root 512 giu 13 21:11 ..").is_err());
    let e = parse_ls_output("/tmp", "-rw-r--r-- 1 root root 1 Apr 2 09:31 sub/dir/file.txt")
        .ok()
        .unwrap();
    assert_eq!(e.path, "/tmp/file.txt");
}

#[test]
fn oversized_size_field_defaults_to_zero() {
    let e = parse_ls_output(
        "/",
        "-rw-r--r-- 1 root root 99999999999999999999999999 Apr 2 09:31 big",
    )
    .ok()
    .unwrap();
    assert_eq!(e.size, 0);
    let e = parse_ls_output("/", "-rw-r--r-- 1 root root 18446744073709551615 Apr 2 09:31 big")
        .ok()
        .unwrap();
    assert_eq!(e.size, 18446744073709551615);
}
