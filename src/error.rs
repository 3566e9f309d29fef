use vstd::prelude::*;

verus! {

/// An I/O error reading the payload; carried, never inspected.
#[verifier::external_type_specification]
#[verifier::external_body]
pub struct ExIoError(std::io::Error);

/// Every way loading and running a payload can fail.
#[derive(Debug)]
pub enum ShellcodeRunnerError {
    /// The platform refused an allocation, a thread creation, a resume or a
    /// wait; `code` is the HRESULT it reported.
    WindowsError { code: i32 },
    /// Reading the payload file failed.
    IoError(std::io::Error),
    /// The region handed out is smaller than the load asked for.
    BufferTooSmall { needed: usize, got: usize },
    /// The start offset does not fall inside the payload.
    InvalidOffset { offset: usize, len: usize },
    /// The capacity asked for cannot hold the payload.
    InsufficientCapacity { got: usize, required: usize },
    /// No file exists at the given path.
    InvalidFilePath { path: String },
    /// The given path exists but is not a file.
    NotAFile { path: String },
}

} // verus!
