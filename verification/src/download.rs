//! The outcome of one download step and its effect on the destination
//! directory.  A download is attempted only when the destination file is
//! absent; re-running a batch therefore never rewrites an existing file.

use vstd::prelude::*;

verus! {

/// What one download attempt reports: the transfer completed and wrote
/// the named file, the transfer failed, or the named file was already
/// present and nothing was fetched.
#[derive(Debug)]
pub enum DownloadStatus {
    Success(String),
    Error,
    FileExists(String),
}

/// The status one download step reports, given whether the destination
/// file was already present and, if not, whether the transfer
/// succeeded.
pub fn download_outcome(filename: &String, already_present: bool, fetched: bool) -> (r:
    DownloadStatus)
    ensures
        already_present ==> (r matches DownloadStatus::FileExists(f) && f@ == filename@),
        !already_present && fetched ==> (r matches DownloadStatus::Success(f) && f@ == filename@),
        !already_present && !fetched ==> r is Error,
{
    if already_present {
        DownloadStatus::FileExists(filename.clone())
    } else if fetched {
        DownloadStatus::Success(filename.clone())
    } else {
        DownloadStatus::Error
    }
}

/// Whether one download step writes its destination file: only when the
/// file is not already present and the transfer succeeds.
pub open spec fn download_writes(files: Set<Seq<char>>, filename: Seq<char>, fetch_ok: bool) -> bool {
    !files.contains(filename) && fetch_ok
}

/// The file names present in the destination directory after one
/// download step.
pub open spec fn dir_after_download(
    files: Set<Seq<char>>,
    filename: Seq<char>,
    fetch_ok: bool,
) -> Set<Seq<char>> {
    if download_writes(files, filename, fetch_ok) {
        files.insert(filename)
    } else {
        files
    }
}

/// Downloading the same file twice writes it exactly once.  Starting
/// from a directory without the file, a successful first step writes it
/// and adds it to the directory; because the file is then present, the
/// second step is reported as `FileExists` by `download_outcome`, writes
/// nothing, and leaves the directory unchanged whatever its transfer
/// would have done.
pub proof fn lemma_download_idempotent(files: Set<Seq<char>>, filename: Seq<char>)
    requires
        !files.contains(filename),
    ensures
        download_writes(files, filename, true),
        ({
            let once = dir_after_download(files, filename, true);
            &&& once == files.insert(filename)
            &&& once.contains(filename)
            &&& !download_writes(once, filename, true)
            &&& forall|fetch_ok: bool| dir_after_download(once, filename, fetch_ok) == once
        }),
{
}

} // verus!
