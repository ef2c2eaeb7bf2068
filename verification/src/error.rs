use vstd::prelude::*;

verus! {

/// The status code with which every routine of the CEA C library reports success.
pub const CEA_SUCCESS: i32 = 0;

/// What can go wrong when talking to CEA.
#[derive(Debug, Clone)]
pub enum Error {
    /// A CEA routine answered with a status other than success.
    Cea { code: i32, context: String },
    /// A length did not fit the C integer type, or two lengths that must agree did not.
    InvalidLength { context: String },
    /// A name handed to CEA holds a NUL byte.
    Nul { context: String },
    /// An argument of the high-level interface was refused.
    InvalidInput { context: String, message: String },
    /// A worker of a parallel run did not deliver its results.
    ThreadPanic { context: String },
}

/// The mathematical content of an [`Error`]: its kind, its code and its texts.
pub enum ErrorView {
    Cea { code: i32, context: Seq<char> },
    InvalidLength { context: Seq<char> },
    Nul { context: Seq<char> },
    InvalidInput { context: Seq<char>, message: Seq<char> },
    ThreadPanic { context: Seq<char> },
}

impl View for Error {
    type V = ErrorView;

    open spec fn view(&self) -> ErrorView {
        match self {
            Error::Cea { code, context } => ErrorView::Cea { code: *code, context: context@ },
            Error::InvalidLength { context } => ErrorView::InvalidLength { context: context@ },
            Error::Nul { context } => ErrorView::Nul { context: context@ },
            Error::InvalidInput { context, message } => ErrorView::InvalidInput {
                context: context@,
                message: message@,
            },
            Error::ThreadPanic { context } => ErrorView::ThreadPanic { context: context@ },
        }
    }
}

/// The result type of this library.
pub type CeaResult<T> = Result<T, Error>;

/// `r` failed with an error whose content is `e`.
pub open spec fn fails_with<T>(r: CeaResult<T>, e: ErrorView) -> bool {
    r matches Err(x) && x@ == e
}

/// The error that a failed status `code` of the routine named `context` becomes.
pub open spec fn cea_error(code: i32, context: Seq<char>) -> ErrorView {
    ErrorView::Cea { code, context }
}

pub open spec fn length_error(context: Seq<char>) -> ErrorView {
    ErrorView::InvalidLength { context }
}

pub open spec fn nul_error(context: Seq<char>) -> ErrorView {
    ErrorView::Nul { context }
}

pub open spec fn input_error(context: Seq<char>, message: Seq<char>) -> ErrorView {
    ErrorView::InvalidInput { context, message }
}

/// `r` is what a status check of `code` for the routine `context` gives.
pub open spec fn checked(r: CeaResult<()>, code: i32, context: Seq<char>) -> bool {
    if code == CEA_SUCCESS {
        r is Ok
    } else {
        fails_with(r, cea_error(code, context))
    }
}

/// Turns the status of a CEA routine into a result.
pub fn check(code: i32, context: &str) -> (r: CeaResult<()>)
    ensures
        checked(r, code, context@),
{
    if code == CEA_SUCCESS {
        Ok(())
    } else {
        Err(Error::Cea { code, context: context.to_owned() })
    }
}

/// `r` is what a call that answered `reply` (a status and a value) yields for the routine
/// `context`: the value on success, else the CEA error.
pub open spec fn answered<T>(reply: (i32, T), context: Seq<char>, r: CeaResult<T>) -> bool {
    if reply.0 == CEA_SUCCESS {
        r == Ok::<T, Error>(reply.1)
    } else {
        fails_with(r, cea_error(reply.0, context))
    }
}

/// The value that a CEA routine answered with, once its status is checked.
pub fn answer<T>(reply: (i32, T), context: &str) -> (r: CeaResult<T>)
    ensures
        answered(reply, context@, r),
{
    let (code, value) = reply;
    match check(code, context) {
        Ok(()) => Ok(value),
        Err(e) => Err(e),
    }
}

/// The error for a refused argument of the high-level interface.
pub fn invalid_input(context: &str, message: &str) -> (e: Error)
    ensures
        e@ == input_error(context@, message@),
{
    Error::InvalidInput { context: context.to_owned(), message: message.to_owned() }
}

} // verus!
