//! Bulk file transfer. The transport has no partial-file streaming, so
//! an upload wraps the whole payload into a minimal single-entry
//! archive streamed to a remote unarchive command, and a download runs
//! a remote archive command and unwraps the single entry locally.

use vstd::prelude::*;
use crate::errors::ErrorKind;
use crate::paths::{is_abs, spec_parent, spec_file_name};
use crate::client::{create_file_name, upload_dir};

verus! {

/// The bytes of the single-entry archive that wraps `data` under
/// `name` with a declared size of `size`: a fixed-size header with
/// checksum, followed by the payload. Determined by the arguments
/// alone.
pub uninterp spec fn tar_archive_of(name: Seq<char>, size: u64, data: Seq<u8>) -> Seq<u8>;

/// Whether the archive header can carry `name` as its entry name.
/// Determined by the name alone: writing the header into memory
/// cannot fail, so encoding the name is the one step of wrapping that
/// can.
pub uninterp spec fn tar_wrappable(name: Seq<char>) -> bool;

/// The payload of the first entry of an archive, or nothing exactly
/// when no first entry can be read from it. Determined by the archive
/// bytes alone.
pub uninterp spec fn tar_payload_of(archive: Seq<u8>) -> Option<Seq<u8>>;

/// Relies on tar's GNU header and builder (`set_path`, `set_size`,
/// `set_cksum`, `append`, `into_inner`): wraps `data` as the single
/// entry `name` of an in-memory archive, with `size` declared in the
/// header. The result depends on the arguments alone, and the call
/// succeeds exactly when the header can carry the name (`set_path` is
/// the one fallible step; appending to an in-memory buffer cannot
/// fail).
#[verifier::external_body]
fn tar_wrap(name: &str, size: u64, data: &Vec<u8>) -> (r: Result<Vec<u8>, ErrorKind>)
    ensures
        r is Ok <==> tar_wrappable(name@),
        r is Ok ==> r->Ok_0@ == tar_archive_of(name@, size, data@),
        r is Err ==> r->Err_0 == ErrorKind::IoError,
{
    let mut header = tar::Header::new_gnu();
    if header.set_path(name).is_err() {
        return Err(ErrorKind::IoError);
    }
    header.set_size(size);
    header.set_cksum();
    let mut builder = tar::Builder::new(Vec::new());
    if builder.append(&header, data.as_slice()).is_err() {
        return Err(ErrorKind::IoError);
    }
    builder.into_inner().map_err(|_| ErrorKind::IoError)
}

/// Relies on tar's archive reader over an in-memory byte slice
/// (`entries`, the first entry, `read_to_end`): unwraps the payload
/// of the archive's first entry. The result depends on the archive
/// bytes alone; the call succeeds exactly when the archive has a
/// readable first entry, and a well-formed but empty archive is
/// reported apart from a malformed one.
#[verifier::external_body]
fn tar_first_entry(archive: &Vec<u8>) -> (r: Result<Vec<u8>, ErrorKind>)
    ensures
        r is Ok <==> tar_payload_of(archive@) is Some,
        r is Ok ==> Some(r->Ok_0@) == tar_payload_of(archive@),
        r is Err ==> (r->Err_0 == ErrorKind::IoError || r->Err_0
            == ErrorKind::NoSuchFileOrDirectory),
{
    let mut ar = tar::Archive::new(archive.as_slice());
    let mut entries = match ar.entries() {
        Ok(e) => e,
        Err(_) => return Err(ErrorKind::IoError),
    };
    let mut entry = match entries.next() {
        Some(Ok(e)) => e,
        Some(Err(_)) => return Err(ErrorKind::IoError),
        None => return Err(ErrorKind::NoSuchFileOrDirectory),
    };
    let mut out: Vec<u8> = Vec::new();
    match std::io::Read::read_to_end(&mut entry, &mut out) {
        Ok(_) => Ok(out),
        Err(_) => Err(ErrorKind::IoError),
    }
}

/// The compute half of an upload: the archive to stream to the remote
/// unarchive command, together with the directory to unpack into and
/// the entry name. It succeeds exactly when the destination has a
/// file name and the archive header can carry it; `size` is the size
/// the caller declares for the entry.
pub fn prepare_upload(path_abs: &str, size: u64, data: &Vec<u8>) -> (r: Result<
    (String, String, Vec<u8>),
    ErrorKind,
>)
    requires
        is_abs(path_abs@),
    ensures
        match r {
            Ok(p) => spec_file_name(path_abs@) == Some(p.1@) && tar_wrappable(p.1@)
                && p.0@ == (match spec_parent(path_abs@) {
                    Some(par) => par,
                    None => "/"@,
                }) && p.2@ == tar_archive_of(p.1@, size, data@),
            Err(e) => match spec_file_name(path_abs@) {
                None => e == ErrorKind::NoSuchFileOrDirectory,
                Some(nm) => !tar_wrappable(nm) && e == ErrorKind::IoError,
            },
        },
{
    let name = match create_file_name(true, path_abs) {
        Ok(n) => n,
        Err(e) => {
            return Err(e);
        },
    };
    let dir = upload_dir(path_abs);
    match tar_wrap(name.as_str(), size, data) {
        Ok(archive) => Ok((dir, name, archive)),
        Err(e) => Err(e),
    }
}

/// The compute half of a download: the payload of the single entry of
/// the archive the remote side streamed back, and the number of bytes
/// handed to the destination. It succeeds exactly when the archive
/// has a readable first entry.
pub fn finish_download(archive: &Vec<u8>) -> (r: Result<(Vec<u8>, u64), ErrorKind>)
    ensures
        match r {
            Ok(p) => Some(p.0@) == tar_payload_of(archive@) && p.1 == p.0@.len(),
            Err(e) => tar_payload_of(archive@) is None && (e == ErrorKind::IoError || e
                == ErrorKind::NoSuchFileOrDirectory),
        },
{
    let payload = match tar_first_entry(archive) {
        Ok(p) => p,
        Err(e) => {
            return Err(e);
        },
    };
    let count = payload.len() as u64;
    Ok((payload, count))
}

} // verus!
