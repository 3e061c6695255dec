//! A client for the W3C WebDriver protocol, written without I/O of its own:
//! every operation is a request to send and a rule for reading the reply.
use vstd::prelude::*;
use vstd::string::*;

pub mod text;
pub mod base64;
pub mod json;
pub mod http;
pub mod driver;
pub mod element;
pub mod shadow;
pub mod actions;
pub mod reply;
pub mod option;
pub mod profile;

pub use actions::Key;
pub use actions::Origin;
pub use driver::By;
pub use driver::TimeoutType;

verus! {

/// What an operation of the client can fail with.
#[derive(Debug)]
pub enum SError {
    /// The local driver process did not start, or ended before a session
    /// existed.
    Driver(String),
    /// Any other failure, by its message.
    Message(String),
    /// The exchange with the endpoint failed: the HTTP status and the raw
    /// body, or the code -1 and the reason where there was no answer.
    Http(i32, String),
    /// The answer came, but its body is no JSON, or not the JSON that was
    /// expected: what was wrong with it.
    Decode(String),
    /// The exchange succeeded, but what came back does not hold what the
    /// caller asked for (no element was found, say).
    Browser(String),
}

/// The mathematical content of an [`SError`].
pub enum SErrorView {
    Driver(Seq<char>),
    Message(Seq<char>),
    Http(int, Seq<char>),
    Decode(Seq<char>),
    Browser(Seq<char>),
}

impl View for SError {
    type V = SErrorView;

    open spec fn view(&self) -> SErrorView {
        match self {
            SError::Driver(m) => SErrorView::Driver(m@),
            SError::Message(m) => SErrorView::Message(m@),
            SError::Http(status, m) => SErrorView::Http(*status as int, m@),
            SError::Decode(m) => SErrorView::Decode(m@),
            SError::Browser(m) => SErrorView::Browser(m@),
        }
    }
}

pub type SResult<T> = Result<T, SError>;

/// The line that describes an error.
pub open spec fn error_line(e: SErrorView) -> Seq<char> {
    match e {
        SErrorView::Driver(m) => "driver:"@ + m,
        SErrorView::Message(m) => "message:"@ + m,
        SErrorView::Http(status, m) => "http:status:"@ + text::signed_decimal(status)
            + ", reason:"@ + m,
        SErrorView::Decode(m) => "decode:"@ + m,
        SErrorView::Browser(m) => "browser:"@ + m,
    }
}

impl SError {
    /// The line that describes this error.
    pub fn to_string(&self) -> (line: String)
        ensures
            line@ == error_line(self@),
    {
        match self {
            SError::Driver(m) => text::concat("driver:", m.as_str()),
            SError::Message(m) => text::concat("message:", m.as_str()),
            SError::Http(status, m) => {
                let mut line = String::from_str("http:status:");
                let digits = text::signed_to_text(*status as i64);
                line.append(digits.as_str());
                line.append(", reason:");
                line.append(m.as_str());
                line
            },
            SError::Decode(m) => text::concat("decode:", m.as_str()),
            SError::Browser(m) => text::concat("browser:", m.as_str()),
        }
    }
}

} // verus!
