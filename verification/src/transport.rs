//! Rules that connection configurations check on the paths they are given.
//!
//! Looking at the file system is left to the caller, which hands over what it found.

use vstd::prelude::*;

verus! {

/// A path that a connection configuration refuses.
#[derive(Copy, Clone, Debug, PartialEq, Eq, Structural)]
pub enum PathError {
    /// Nothing exists at the path.
    NotFound,
    /// The path exists but is not a file.
    NotAFile,
    /// A file already exists at the path.
    AlreadyExists,
    /// A socket path is already taken.
    AddrInUse,
}

/// A file reader reads an existing file: the path must exist and be a file.
pub fn file_reader_check(exists: bool, is_file: bool) -> (checked: Result<(), PathError>)
    ensures
        !exists ==> checked == Err::<(), PathError>(PathError::NotFound),
        exists && !is_file ==> checked == Err::<(), PathError>(PathError::NotAFile),
        exists && is_file ==> checked is Ok,
{
    if !exists {
        return Err(PathError::NotFound);
    }
    if !is_file {
        return Err(PathError::NotAFile);
    }
    Ok(())
}

/// A file writer creates a new file: nothing may exist at the path yet.
pub fn file_writer_check(exists: bool) -> (checked: Result<(), PathError>)
    ensures
        exists ==> checked == Err::<(), PathError>(PathError::AlreadyExists),
        !exists ==> checked is Ok,
{
    if exists {
        Err(PathError::AlreadyExists)
    } else {
        Ok(())
    }
}

/// A socket client connects to an existing socket: the path must exist.
pub fn sock_client_check(exists: bool) -> (checked: Result<(), PathError>)
    ensures
        !exists ==> checked == Err::<(), PathError>(PathError::NotFound),
        exists ==> checked is Ok,
{
    if !exists {
        Err(PathError::NotFound)
    } else {
        Ok(())
    }
}

/// A socket server creates its socket: nothing may exist at the path yet.
pub fn sock_server_check(exists: bool) -> (checked: Result<(), PathError>)
    ensures
        exists ==> checked == Err::<(), PathError>(PathError::AddrInUse),
        !exists ==> checked is Ok,
{
    if exists {
        Err(PathError::AddrInUse)
    } else {
        Ok(())
    }
}

} // verus!
