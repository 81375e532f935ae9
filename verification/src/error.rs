use vstd::prelude::*;

verus! {

/// Errors of the library. Where the control library reported a failure
/// through the operating system, the error carries the OS error code that was
/// current right after the failing call.
#[derive(Debug, Clone, PartialEq, Eq)]
pub enum Error {
    Init,
    Provision { pipeline: String, os_error: i32 },
    Context(i32),
    Object { msg: String },
    Key { msg: String },
    Entry { msg: String },
    Crud { op: String, os_error: i32 },
    Subscribe(i32),
    Schema(String),
}

/// The mathematical value of an [`Error`].
pub enum ErrorSpec {
    Init,
    Provision { pipeline: Seq<char>, os_error: i32 },
    Context(i32),
    Object { msg: Seq<char> },
    Key { msg: Seq<char> },
    Entry { msg: Seq<char> },
    Crud { op: Seq<char>, os_error: i32 },
    Subscribe(i32),
    Schema(Seq<char>),
}

impl View for Error {
    type V = ErrorSpec;

    open spec fn view(&self) -> ErrorSpec {
        match self {
            Error::Init => ErrorSpec::Init,
            Error::Provision { pipeline, os_error } => ErrorSpec::Provision {
                pipeline: pipeline@,
                os_error: *os_error,
            },
            Error::Context(e) => ErrorSpec::Context(*e),
            Error::Object { msg } => ErrorSpec::Object { msg: msg@ },
            Error::Key { msg } => ErrorSpec::Key { msg: msg@ },
            Error::Entry { msg } => ErrorSpec::Entry { msg: msg@ },
            Error::Crud { op, os_error } => ErrorSpec::Crud { op: op@, os_error: *os_error },
            Error::Subscribe(e) => ErrorSpec::Subscribe(*e),
            Error::Schema(m) => ErrorSpec::Schema(m@),
        }
    }
}

/// The result of an operation of the library.
pub type Result<T> = std::result::Result<T, Error>;

} // verus!
