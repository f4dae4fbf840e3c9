use vstd::prelude::*;
use vstd::string::*;

verus! {

/// Errors raised while turning what a C caller hands over into GreptimeDB requests.
#[derive(Debug)]
pub enum RustError {
    /// A pointer that had to be non-null was null; `detail` names it.
    NullPointer { detail: String },
    /// A C string did not hold valid UTF-8; `detail` names it. Its bytes are
    /// valid up to `valid_up_to`; `error_len` is the length of the invalid
    /// sequence that starts there, `None` when the input ends inside a sequence.
    ConvertUtf8 { detail: String, valid_up_to: usize, error_len: Option<usize> },
    /// The client failed to carry out a request.
    Client,
    /// The task that carried out a request could not be joined.
    TaskJoin,
}

/// What a [`RustError`] says, with its text as a sequence of characters.
pub enum RustErrorView {
    NullPointer(Seq<char>),
    ConvertUtf8(Seq<char>, usize, Option<usize>),
    Client,
    TaskJoin,
}

impl View for RustError {
    type V = RustErrorView;

    open spec fn view(&self) -> RustErrorView {
        match self {
            RustError::NullPointer { detail } => RustErrorView::NullPointer(detail@),
            RustError::ConvertUtf8 { detail, valid_up_to, error_len } => RustErrorView::ConvertUtf8(
                detail@,
                *valid_up_to,
                *error_len,
            ),
            RustError::Client => RustErrorView::Client,
            RustError::TaskJoin => RustErrorView::TaskJoin,
        }
    }
}

impl RustErrorView {
    /// The text by which the error describes itself.
    pub open spec fn message(self) -> Seq<char> {
        match self {
            RustErrorView::NullPointer(detail) => "Raw Pointer is null, detail: "@ + detail,
            RustErrorView::ConvertUtf8(detail, _, _) => "Failed to convert UTF-8, detail: "@ + detail,
            RustErrorView::Client => "Client error"@,
            RustErrorView::TaskJoin => "Join task"@,
        }
    }
}

impl RustError {
    /// The text by which the error describes itself.
    pub fn message(&self) -> (m: String)
        ensures
            m@ == self@.message(),
    {
        match self {
            RustError::NullPointer { detail } => {
                let mut m = String::from_str("Raw Pointer is null, detail: ");
                m.append(detail.as_str());
                m
            },
            RustError::ConvertUtf8 { detail, .. } => {
                let mut m = String::from_str("Failed to convert UTF-8, detail: ");
                m.append(detail.as_str());
                m
            },
            RustError::Client => String::from_str("Client error"),
            RustError::TaskJoin => String::from_str("Join task"),
        }
    }
}

/// The result of every fallible step of the interface.
pub type RustResult<T> = Result<T, RustError>;

/// What each function of the C interface reports to its caller.
#[derive(Debug, Clone, Copy, PartialEq, Eq, Structural)]
pub enum StatusCode {
    Success,
    Error,
}

impl StatusCode {
    /// The number by which C code sees the status.
    pub open spec fn spec_code(self) -> i32 {
        match self {
            StatusCode::Success => 0,
            StatusCode::Error => 1,
        }
    }

    /// The number by which C code sees the status.
    pub fn code(self) -> (c: i32)
        ensures
            c == self.spec_code(),
    {
        match self {
            StatusCode::Success => 0,
            StatusCode::Error => 1,
        }
    }
}

/// The status that reports the outcome `r` of an operation: success exactly
/// when the operation succeeded.
pub fn status_of<T>(r: &RustResult<T>) -> (s: StatusCode)
    ensures
        s == (if r is Ok { StatusCode::Success } else { StatusCode::Error }),
{
    match r {
        Ok(_) => StatusCode::Success,
        Err(_) => StatusCode::Error,
    }
}

} // verus!
