use remotefs_kube::errors::ErrorKind;
use remotefs_kube::transfer::{finish_download, prepare_upload};

#[test]
fn archive_round_trip_preserves_the_payload() {
    let data: Vec<u8> = b"test data\n".to_vec();
    let (dir, name, archive) = prepare_upload("/tmp/a.txt", data.len() as u64, &data).unwrap();
    assert_eq!(dir, "/tmp");
    assert_eq!(name, "a.txt");
    // A real single-entry archive, not the payload handed back.
    assert!(archive.len() > data.len());
    let (payload, count) = finish_download(&archive).unwrap();
    assert_eq!(payload, data);
    assert_eq!(count, 10);
}

#[test]
fn upload_needs_a_file_name() {
    let data: Vec<u8> = Vec::new();
    assert_eq!(
        prepare_upload("/", 0, &data).unwrap_err(),
        ErrorKind::NoSuchFileOrDirectory
    );
}

#[test]
fn garbage_bytes_are_no_archive() {
    let garbage: Vec<u8> = vec![1, 2, 3, 4];
    assert!(finish_download(&garbage).is_err());
}

#[test]
fn empty_archive_has_no_entry() {
    let empty: Vec<u8> = Vec::new();
    assert_eq!(
        finish_download(&empty).unwrap_err(),
        ErrorKind::NoSuchFileOrDirectory
    );
}

#[test]
fn upload_refuses_a_name_the_header_cannot_carry() {
    // The plain header field holds at most 100 bytes of entry name.
    let long = "x".repeat(150);
    let path = format!("/tmp/{long}");
    let data: Vec<u8> = Vec::new();
    assert_eq!(
        prepare_upload(&path, 0, &data).unwrap_err(),
        ErrorKind::IoError
    );
}
