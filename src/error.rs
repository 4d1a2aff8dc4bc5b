use vstd::prelude::*;
use vstd::string::StringExecFns;

verus! {

/// The ways an operation can fail.
#[derive(Debug)]
pub enum CommandError {
    /// The external process could not be spawned, reported an error, or
    /// exited with a non-zero code.
    FFmpegError(String),
    /// A file the operation needs could not be written.
    IoError(String),
    /// A request or response payload could not be (de)serialised.
    JsonError(String),
    /// The request was rejected before any work started.
    Validation(String),
}

/// The result of an operation.
pub type CommandResult<T> = Result<T, CommandError>;

pub open spec fn error_prefix(e: CommandError) -> Seq<char> {
    match e {
        CommandError::FFmpegError(_) => "FFmpeg error: "@,
        CommandError::IoError(_) => "IO error: "@,
        CommandError::JsonError(_) => "Serialization error: "@,
        CommandError::Validation(_) => "Validation error: "@,
    }
}

pub open spec fn error_detail(e: CommandError) -> Seq<char> {
    match e {
        CommandError::FFmpegError(m) => m@,
        CommandError::IoError(m) => m@,
        CommandError::JsonError(m) => m@,
        CommandError::Validation(m) => m@,
    }
}

impl CommandError {
    /// The human-readable description handed to the caller.
    pub fn message(&self) -> (r: String)
        ensures
            r@ == error_prefix(*self) + error_detail(*self),
    {
        let (prefix, detail) = match self {
            CommandError::FFmpegError(m) => ("FFmpeg error: ", m),
            CommandError::IoError(m) => ("IO error: ", m),
            CommandError::JsonError(m) => ("Serialization error: ", m),
            CommandError::Validation(m) => ("Validation error: ", m),
        };
        let r = prefix.to_owned();
        r.concat(detail.as_str())
    }
}

} // verus!
