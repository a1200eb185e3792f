use vstd::prelude::*;
use crate::text::concat_strs;

verus! {

/// Unified error type used throughout the library.
#[derive(Debug)]
pub enum GitwsError {
    /// Git repository related errors
    Git { message: String },
    /// File operation related errors
    Io { message: String },
    /// Configuration file related errors
    Config { message: String },
    /// Workspace related errors
    Workspace { message: String },
    /// TUI related errors
    Tui { message: String },
    /// General errors
    General { message: String },
}

/// Unified Result type used throughout the library.
pub type GitwsResult<T> = Result<T, GitwsError>;

/// The message carried by an error, whatever its kind.
pub open spec fn message_of(e: GitwsError) -> Seq<char> {
    match e {
        GitwsError::Git { message } => message@,
        GitwsError::Io { message } => message@,
        GitwsError::Config { message } => message@,
        GitwsError::Workspace { message } => message@,
        GitwsError::Tui { message } => message@,
        GitwsError::General { message } => message@,
    }
}

/// The one-line rendering of an error: a kind prefix followed by its message.
pub open spec fn display_of(e: GitwsError) -> Seq<char> {
    match e {
        GitwsError::Git { message } => "Git repository error: "@ + message@,
        GitwsError::Io { message } => "File operation error: "@ + message@,
        GitwsError::Config { message } => "Configuration file error: "@ + message@,
        GitwsError::Workspace { message } => "Workspace error: "@ + message@,
        GitwsError::Tui { message } => "TUI error: "@ + message@,
        GitwsError::General { message } => "Error: "@ + message@,
    }
}

impl GitwsError {
    /// Create Git error
    pub fn git(message: &str) -> (r: Self)
        ensures
            r matches GitwsError::Git { message: m } && m@ == message@,
    {
        GitwsError::Git { message: message.to_owned() }
    }

    /// Create file operation error
    pub fn io(message: &str) -> (r: Self)
        ensures
            r matches GitwsError::Io { message: m } && m@ == message@,
    {
        GitwsError::Io { message: message.to_owned() }
    }

    /// Create configuration file error
    pub fn config(message: &str) -> (r: Self)
        ensures
            r matches GitwsError::Config { message: m } && m@ == message@,
    {
        GitwsError::Config { message: message.to_owned() }
    }

    /// Create workspace error
    pub fn workspace(message: &str) -> (r: Self)
        ensures
            r matches GitwsError::Workspace { message: m } && m@ == message@,
    {
        GitwsError::Workspace { message: message.to_owned() }
    }

    /// Create TUI error
    pub fn tui(message: &str) -> (r: Self)
        ensures
            r matches GitwsError::Tui { message: m } && m@ == message@,
    {
        GitwsError::Tui { message: message.to_owned() }
    }

    /// Create general error
    pub fn general(message: &str) -> (r: Self)
        ensures
            r matches GitwsError::General { message: m } && m@ == message@,
    {
        GitwsError::General { message: message.to_owned() }
    }

    /// The one-line rendering of this error: a kind prefix followed by the
    /// message.
    pub fn display_text(&self) -> (r: String)
        ensures
            r@ == display_of(*self),
    {
        match self {
            GitwsError::Git { message } => concat_strs("Git repository error: ", message.as_str()),
            GitwsError::Io { message } => concat_strs("File operation error: ", message.as_str()),
            GitwsError::Config { message } => concat_strs(
                "Configuration file error: ",
                message.as_str(),
            ),
            GitwsError::Workspace { message } => concat_strs(
                "Workspace error: ",
                message.as_str(),
            ),
            GitwsError::Tui { message } => concat_strs("TUI error: ", message.as_str()),
            GitwsError::General { message } => concat_strs("Error: ", message.as_str()),
        }
    }
}

/// The kind of a file-system fault, as plain data, together with the full
/// fault text for kinds that have no fixed message.
#[derive(Debug)]
pub enum IoErrorClass {
    NotFound,
    PermissionDenied,
    ConnectionRefused,
    ConnectionReset,
    ConnectionAborted,
    NotConnected,
    AddrInUse,
    AddrNotAvailable,
    BrokenPipe,
    AlreadyExists,
    WouldBlock,
    InvalidInput,
    InvalidData,
    TimedOut,
    WriteZero,
    Interrupted,
    UnexpectedEof,
    Other { detail: String },
}

/// The fixed message text for each file-system fault kind.
pub open spec fn io_class_message(c: IoErrorClass) -> Seq<char> {
    match c {
        IoErrorClass::NotFound => "File or directory not found"@,
        IoErrorClass::PermissionDenied => "Permission denied"@,
        IoErrorClass::ConnectionRefused => "Connection refused"@,
        IoErrorClass::ConnectionReset => "Connection reset"@,
        IoErrorClass::ConnectionAborted => "Connection aborted"@,
        IoErrorClass::NotConnected => "Not connected"@,
        IoErrorClass::AddrInUse => "Address in use"@,
        IoErrorClass::AddrNotAvailable => "Address not available"@,
        IoErrorClass::BrokenPipe => "Broken pipe"@,
        IoErrorClass::AlreadyExists => "File already exists"@,
        IoErrorClass::WouldBlock => "Operation would block"@,
        IoErrorClass::InvalidInput => "Invalid input"@,
        IoErrorClass::InvalidData => "Invalid data"@,
        IoErrorClass::TimedOut => "Timed out"@,
        IoErrorClass::WriteZero => "Write zero"@,
        IoErrorClass::Interrupted => "Interrupted"@,
        IoErrorClass::UnexpectedEof => "Unexpected end of file"@,
        IoErrorClass::Other { detail } => "I/O error occurred: "@ + detail@,
    }
}

impl GitwsError {
    /// Map a classified file-system fault to the library's error type.
    pub fn from_io_class(c: IoErrorClass) -> (r: GitwsError)
        ensures
            r matches GitwsError::Io { message } && message@ == io_class_message(c),
    {
        let text: String = match c {
            IoErrorClass::NotFound => "File or directory not found".to_owned(),
            IoErrorClass::PermissionDenied => "Permission denied".to_owned(),
            IoErrorClass::ConnectionRefused => "Connection refused".to_owned(),
            IoErrorClass::ConnectionReset => "Connection reset".to_owned(),
            IoErrorClass::ConnectionAborted => "Connection aborted".to_owned(),
            IoErrorClass::NotConnected => "Not connected".to_owned(),
            IoErrorClass::AddrInUse => "Address in use".to_owned(),
            IoErrorClass::AddrNotAvailable => "Address not available".to_owned(),
            IoErrorClass::BrokenPipe => "Broken pipe".to_owned(),
            IoErrorClass::AlreadyExists => "File already exists".to_owned(),
            IoErrorClass::WouldBlock => "Operation would block".to_owned(),
            IoErrorClass::InvalidInput => "Invalid input".to_owned(),
            IoErrorClass::InvalidData => "Invalid data".to_owned(),
            IoErrorClass::TimedOut => "Timed out".to_owned(),
            IoErrorClass::WriteZero => "Write zero".to_owned(),
            IoErrorClass::Interrupted => "Interrupted".to_owned(),
            IoErrorClass::UnexpectedEof => "Unexpected end of file".to_owned(),
            IoErrorClass::Other { detail } => concat_strs(
                "I/O error occurred: ",
                detail.as_str(),
            ),
        };
        GitwsError::Io { message: text }
    }

    /// Map the text of an unreadable configuration file fault to the
    /// library's error type.
    pub fn from_yaml_detail(detail: &str) -> (r: GitwsError)
        ensures
            r matches GitwsError::Config { message } && message@
                == "Failed to parse YAML configuration file: "@ + detail@,
    {
        GitwsError::Config {
            message: concat_strs("Failed to parse YAML configuration file: ", detail),
        }
    }
}

/// The kind of a version-control fault, as plain data, together with the
/// full fault text for kinds that have no fixed message.
#[derive(Debug)]
pub enum GitErrorClass {
    NotFound,
    Exists,
    Ambiguous,
    BufSize,
    User,
    BareRepo,
    UnbornBranch,
    Unmerged,
    NotFastForward,
    InvalidSpec,
    Conflict,
    Locked,
    Modified,
    Auth,
    Certificate,
    Applied,
    Peel,
    Eof,
    Invalid,
    Uncommitted,
    Directory,
    MergeConflict,
    HashsumMismatch,
    IndexDirty,
    ApplyFail,
    Other { detail: String },
}

/// The fixed message text for each version-control fault kind.
pub open spec fn git_class_message(c: GitErrorClass) -> Seq<char> {
    match c {
        GitErrorClass::NotFound => "Specified resource not found"@,
        GitErrorClass::Exists => "Resource already exists"@,
        GitErrorClass::Ambiguous => "Resource specification is ambiguous"@,
        GitErrorClass::BufSize => "Buffer size insufficient"@,
        GitErrorClass::User => "User operation was cancelled"@,
        GitErrorClass::BareRepo => "Cannot execute in bare repository"@,
        GitErrorClass::UnbornBranch => "Branch does not exist"@,
        GitErrorClass::Unmerged => "Unmerged changes exist"@,
        GitErrorClass::NotFastForward => "Cannot fast-forward"@,
        GitErrorClass::InvalidSpec => "Invalid specification"@,
        GitErrorClass::Conflict => "Conflict occurred"@,
        GitErrorClass::Locked => "Resource is locked"@,
        GitErrorClass::Modified => "File has been modified"@,
        GitErrorClass::Auth => "Authentication failed"@,
        GitErrorClass::Certificate => "Certificate error"@,
        GitErrorClass::Applied => "Patch already applied"@,
        GitErrorClass::Peel => "Failed to expand object"@,
        GitErrorClass::Eof => "Reached end of file"@,
        GitErrorClass::Invalid => "Invalid operation"@,
        GitErrorClass::Uncommitted => "Uncommitted changes exist"@,
        GitErrorClass::Directory => "Directory does not exist"@,
        GitErrorClass::MergeConflict => "Merge conflict occurred"@,
        GitErrorClass::HashsumMismatch => "Hashsum mismatch"@,
        GitErrorClass::IndexDirty => "Index has been modified"@,
        GitErrorClass::ApplyFail => "Failed to apply patch"@,
        GitErrorClass::Other { detail } => "Git error occurred: "@ + detail@,
    }
}

impl GitwsError {
    /// Map a classified version-control fault to the library's error type.
    pub fn from_git_class(c: GitErrorClass) -> (r: GitwsError)
        ensures
            r matches GitwsError::Git { message } && message@ == git_class_message(c),
    {
        let text: String = match c {
            GitErrorClass::NotFound => "Specified resource not found".to_owned(),
            GitErrorClass::Exists => "Resource already exists".to_owned(),
            GitErrorClass::Ambiguous => "Resource specification is ambiguous".to_owned(),
            GitErrorClass::BufSize => "Buffer size insufficient".to_owned(),
            GitErrorClass::User => "User operation was cancelled".to_owned(),
            GitErrorClass::BareRepo => "Cannot execute in bare repository".to_owned(),
            GitErrorClass::UnbornBranch => "Branch does not exist".to_owned(),
            GitErrorClass::Unmerged => "Unmerged changes exist".to_owned(),
            GitErrorClass::NotFastForward => "Cannot fast-forward".to_owned(),
            GitErrorClass::InvalidSpec => "Invalid specification".to_owned(),
            GitErrorClass::Conflict => "Conflict occurred".to_owned(),
            GitErrorClass::Locked => "Resource is locked".to_owned(),
            GitErrorClass::Modified => "File has been modified".to_owned(),
            GitErrorClass::Auth => "Authentication failed".to_owned(),
            GitErrorClass::Certificate => "Certificate error".to_owned(),
            GitErrorClass::Applied => "Patch already applied".to_owned(),
            GitErrorClass::Peel => "Failed to expand object".to_owned(),
            GitErrorClass::Eof => "Reached end of file".to_owned(),
            GitErrorClass::Invalid => "Invalid operation".to_owned(),
            GitErrorClass::Uncommitted => "Uncommitted changes exist".to_owned(),
            GitErrorClass::Directory => "Directory does not exist".to_owned(),
            GitErrorClass::MergeConflict => "Merge conflict occurred".to_owned(),
            GitErrorClass::HashsumMismatch => "Hashsum mismatch".to_owned(),
            GitErrorClass::IndexDirty => "Index has been modified".to_owned(),
            GitErrorClass::ApplyFail => "Failed to apply patch".to_owned(),
            GitErrorClass::Other { detail } => concat_strs(
                "Git error occurred: ",
                detail.as_str(),
            ),
        };
        GitwsError::Git { message: text }
    }
}

} // verus!
