use vstd::prelude::*;
use actix_web::error::MultipartError;

verus! {

/// `actix_web::error::MultipartError`, carried as the cause of an error and
/// never looked into.
#[verifier::external_type_specification]
#[verifier::external_body]
pub struct ExMultipartError(MultipartError);

/// `std::io::Error`, carried as the cause of an error and never looked
/// into.
#[verifier::external_type_specification]
#[verifier::external_body]
pub struct ExIoError(std::io::Error);

/// Why decoding stopped.
#[derive(Debug)]
pub enum Error {
    /// The part source itself failed, while yielding items or chunks.
    Multipart(MultipartError),
    /// A part carried no content disposition, or one that is not form data.
    NotFormData,
    /// Temporary storage could not be opened, written or rewound.
    Io(std::io::Error),
}

/// The kinds of error, without their causes.
#[derive(Debug, Clone, Copy, PartialEq, Eq, Structural)]
pub enum ErrorKind {
    Multipart,
    NotFormData,
    Io,
}

/// Status code and body with which an error is answered over HTTP.
#[derive(Debug, Clone, Copy)]
pub struct ErrorResponse {
    pub status: u16,
    pub body: &'static str,
}

impl ErrorKind {
    /// Status code that answers an error of this kind: 400 for what the
    /// client sent, 500 for what failed on this side.
    pub open spec fn status(self) -> u16 {
        match self {
            ErrorKind::Multipart => 400,
            ErrorKind::NotFormData => 400,
            ErrorKind::Io => 500,
        }
    }

    /// Body text that answers an error of this kind.
    pub open spec fn body(self) -> Seq<char> {
        match self {
            ErrorKind::Multipart => "multipart error"@,
            ErrorKind::NotFormData => "not a form data"@,
            ErrorKind::Io => "file error"@,
        }
    }

    /// The HTTP answer for an error of this kind.
    pub fn error_response(self) -> (r: ErrorResponse)
        ensures
            r.status == self.status(),
            r.body@ == self.body(),
    {
        match self {
            ErrorKind::Multipart => ErrorResponse { status: 400, body: "multipart error" },
            ErrorKind::NotFormData => ErrorResponse { status: 400, body: "not a form data" },
            ErrorKind::Io => ErrorResponse { status: 500, body: "file error" },
        }
    }
}

impl Error {
    /// The kind of this error.
    pub open spec fn spec_kind(&self) -> ErrorKind {
        match *self {
            Error::Multipart(_) => ErrorKind::Multipart,
            Error::NotFormData => ErrorKind::NotFormData,
            Error::Io(_) => ErrorKind::Io,
        }
    }

    /// The kind of this error.
    #[verifier::when_used_as_spec(spec_kind)]
    pub fn kind(&self) -> (r: ErrorKind)
        ensures
            r == self.spec_kind(),
    {
        match self {
            Error::Multipart(_) => ErrorKind::Multipart,
            Error::NotFormData => ErrorKind::NotFormData,
            Error::Io(_) => ErrorKind::Io,
        }
    }

    /// The HTTP answer for this error: that of its kind.
    pub fn error_response(&self) -> (r: ErrorResponse)
        ensures
            r.status == self.kind().status(),
            r.body@ == self.kind().body(),
    {
        self.kind().error_response()
    }
}

impl From<MultipartError> for Error {
    fn from(e: MultipartError) -> (r: Error) {
        Error::Multipart(e)
    }
}

impl vstd::std_specs::convert::FromSpecImpl<MultipartError> for Error {
    open spec fn obeys_from_spec() -> bool {
        true
    }

    open spec fn from_spec(e: MultipartError) -> Error {
        Error::Multipart(e)
    }
}

impl From<std::io::Error> for Error {
    fn from(e: std::io::Error) -> (r: Error) {
        Error::Io(e)
    }
}

impl vstd::std_specs::convert::FromSpecImpl<std::io::Error> for Error {
    open spec fn obeys_from_spec() -> bool {
        true
    }

    open spec fn from_spec(e: std::io::Error) -> Error {
        Error::Io(e)
    }
}

} // verus!
