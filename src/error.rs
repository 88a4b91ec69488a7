use vstd::prelude::*;

verus! {

#[verifier::external_type_specification]
#[verifier::external_body]
pub struct ExIoError(std::io::Error);

/// A failure that a synchronous logging call reports.
#[derive(Debug)]
pub enum LogfatherError {
    /// The shared configuration could not be read.
    LoggerAccessError(String),
    /// The log file could not be locked.
    FileAccessError(String),
    /// A directory could not be created, or the file opened or written.
    IoError(std::io::Error),
}

/// The outcome of a synchronous logging call.
pub type LogfatherResult = Result<(), LogfatherError>;

impl LogfatherError {
    /// A one-line description of the failure, naming what could not be
    /// accessed.
    pub fn message(&self) -> (r: String)
        ensures
            self is LoggerAccessError ==> r@ == "Failed to access logger: "@
                + self->LoggerAccessError_0@,
            self is FileAccessError ==> r@ == "Failed to access file: "@
                + self->FileAccessError_0@,
            self is IoError ==> r@.take(11) == "I/O Error: "@,
    {
        proof {
            reveal_strlit("I/O Error: ");
        }
        match self {
            LogfatherError::LoggerAccessError(err) => String::from_str(
                "Failed to access logger: ",
            ).concat(err.as_str()),
            LogfatherError::FileAccessError(err) => String::from_str(
                "Failed to access file: ",
            ).concat(err.as_str()),
            LogfatherError::IoError(err) => {
                let text = err.to_string();
                let r = String::from_str("I/O Error: ").concat(text.as_str());
                assert(r@.take(11) =~= "I/O Error: "@);
                r
            },
        }
    }
}

impl From<std::io::Error> for LogfatherError {
    fn from(value: std::io::Error) -> Self {
        LogfatherError::IoError(value)
    }
}

impl vstd::std_specs::convert::FromSpecImpl<std::io::Error> for LogfatherError {
    open spec fn obeys_from_spec() -> bool {
        true
    }

    open spec fn from_spec(v: std::io::Error) -> Self {
        LogfatherError::IoError(v)
    }
}

} // verus!
