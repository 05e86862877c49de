//! Declarations and wrappers for the operating-system calls the interpreter
//! relies on: opening redirection targets, rebinding the standard streams,
//! creating pipes, and changing the working directory.
//!
//! Every descriptor that reaches the rest of the crate is an opaque
//! `rustix::fd::OwnedFd`; nothing here or elsewhere inspects one.

use vstd::prelude::*;

verus! {

/// An owned file descriptor, closed when dropped. Opaque to the rest of the
/// crate: it is only ever handed back to the calls below.
#[verifier::external_type_specification]
#[verifier::external_body]
pub struct ExOwnedFd(rustix::fd::OwnedFd);

/// Relies on rustix::fs::open with `O_WRONLY | O_CREAT` and mode `0o700`:
/// opens, creating it if absent, the file named by `path` for writing.
/// Whether it succeeds depends on what is on disk; on failure the raw
/// `errno` value is returned.
#[verifier::external_body]
pub(crate) fn open_descriptor_write(path: &String) -> (r: Result<rustix::fd::OwnedFd, i32>) {
    match rustix::fs::open(
        path.as_str(),
        rustix::fs::OFlags::WRONLY.union(rustix::fs::OFlags::CREATE),
        rustix::fs::Mode::RWXU,
    ) {
        Ok(fd) => Ok(fd),
        Err(e) => Err(e.raw_os_error()),
    }
}

/// Relies on rustix::fs::open with `O_RDONLY`: opens the file named by
/// `path` for reading. Whether it succeeds depends on what is on disk; on
/// failure the raw `errno` value is returned.
#[verifier::external_body]
pub(crate) fn open_descriptor_read(path: &String) -> (r: Result<rustix::fd::OwnedFd, i32>) {
    match rustix::fs::open(
        path.as_str(),
        rustix::fs::OFlags::RDONLY,
        rustix::fs::Mode::RUSR,
    ) {
        Ok(fd) => Ok(fd),
        Err(e) => Err(e.raw_os_error()),
    }
}

/// Relies on rustix::stdio::dup2_stdin: duplicates `fd` onto standard
/// input, consuming `fd`. The outcome depends on the process's descriptor
/// table; on failure the raw `errno` value is returned.
#[verifier::external_body]
pub(crate) fn dup_onto_stdin(fd: rustix::fd::OwnedFd) -> (r: Result<(), i32>) {
    match rustix::stdio::dup2_stdin(fd) {
        Ok(()) => Ok(()),
        Err(e) => Err(e.raw_os_error()),
    }
}

/// Relies on rustix::stdio::dup2_stdout: duplicates `fd` onto standard
/// output, consuming `fd`. The outcome depends on the process's descriptor
/// table; on failure the raw `errno` value is returned.
#[verifier::external_body]
pub(crate) fn dup_onto_stdout(fd: rustix::fd::OwnedFd) -> (r: Result<(), i32>) {
    match rustix::stdio::dup2_stdout(fd) {
        Ok(()) => Ok(()),
        Err(e) => Err(e.raw_os_error()),
    }
}

/// Relies on rustix::pipe::pipe: creates an anonymous pipe and returns
/// `(read_end, write_end)`, in that order, as its documentation states.
/// Success depends on the process's descriptor table; on failure the raw
/// `errno` value is returned.
#[verifier::external_body]
pub(crate) fn make_pipe() -> (r: Result<(rustix::fd::OwnedFd, rustix::fd::OwnedFd), i32>) {
    match rustix::pipe::pipe() {
        Ok(ends) => Ok(ends),
        Err(e) => Err(e.raw_os_error()),
    }
}

/// Relies on rustix::process::chdir: changes the calling process's working
/// directory to `path`. Success depends on what is on disk; on failure the
/// raw `errno` value is returned.
#[verifier::external_body]
pub(crate) fn change_dir(path: &String) -> (r: Result<(), i32>) {
    match rustix::process::chdir(path.as_str()) {
        Ok(()) => Ok(()),
        Err(e) => Err(e.raw_os_error()),
    }
}

} // verus!
