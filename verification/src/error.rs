//! The failure causes of the client and how each is rendered as text.

use vstd::prelude::*;
use vstd::string::*;

verus! {

/// `std::string::FromUtf8Error`, carried as it is: nothing inside it is
/// read here.
#[verifier::external_type_specification]
#[verifier::external_body]
pub struct ExFromUtf8Error(std::string::FromUtf8Error);

/// `std::str::Utf8Error`, the decoding error inside a `FromUtf8Error`: it is
/// only rendered as text.
#[verifier::external_type_specification]
#[verifier::external_body]
pub struct ExUtf8Error(std::str::Utf8Error);

/// `errno::Errno`, a value of the last-error indicator: it is only rendered
/// as text.
#[verifier::external_type_specification]
#[verifier::external_body]
pub struct ExErrno(errno::Errno);

/// `std::io::Error`, carried as it is: nothing inside it is read here.
#[verifier::external_type_specification]
#[verifier::external_body]
pub struct ExIoError(std::io::Error);

/// A string that cannot be handed to the native layer: it holds a
/// terminator byte before its end.
#[derive(Debug, PartialEq, Eq)]
pub struct NulError {
    /// Index of the first terminator byte in `bytes`.
    pub position: usize,
    /// The bytes of the refused string.
    pub bytes: Vec<u8>,
}

impl NulError {
    /// Index of the first terminator byte in the refused string.
    pub fn nul_position(&self) -> (position: usize)
        ensures
            position == self.position,
    {
        self.position
    }

    /// The bytes of the refused string.
    pub fn into_vec(self) -> (bytes: Vec<u8>)
        ensures
            bytes@ == self.bytes@,
    {
        self.bytes
    }
}

/// A native string that is not valid UTF-8 and was asked for as text.
#[derive(Debug, PartialEq, Eq)]
pub struct IntoStringError {
    /// The bytes of the native string, without its terminator.
    pub bytes: Vec<u8>,
}

/// Why an operation of the client failed.
#[derive(Debug)]
pub enum GlusterError {
    /// Bytes that came back from the native layer are not valid UTF-8.
    FromUtf8Error(std::string::FromUtf8Error),
    /// An argument holds an interior terminator byte; nothing was sent.
    NulError(NulError),
    /// The native call answered with a failure; the message is the
    /// rendered last-error indicator.
    Error(String),
    /// A lower-level byte stream failed.
    IoError(std::io::Error),
    /// A native string could not be turned into text.
    IntoStringError(IntoStringError),
}

/// The current value of the last-error indicator, as `errno::errno` reads
/// it. Nothing is claimed of the value: it depends on the state of the
/// process.
#[verifier::external_body]
fn last_error() -> (code: errno::Errno) {
    errno::errno()
}

/// The short description of an `std::io::Error`, as the method
/// `description` of `std::error::Error` gives it. Nothing is claimed of the
/// text.
#[verifier::external_body]
#[allow(deprecated)]
fn io_description(error: &std::io::Error) -> (text: &str) {
    std::error::Error::description(error)
}

/// True of a message that is some value of the last-error indicator as
/// its `Display` renders it.
pub open spec fn renders_last_error(message: String) -> bool {
    exists|code: errno::Errno| #[trigger]
        to_string_from_display_ensures::<errno::Errno>(&code, message)
}

/// True of a text that is some decoding error as its `Display` renders it.
pub open spec fn renders_utf8_error(text: String) -> bool {
    exists|cause: std::str::Utf8Error| #[trigger]
        to_string_from_display_ensures::<std::str::Utf8Error>(&cause, text)
}

/// Text of the last-error indicator as it stands at this moment.
pub(crate) fn get_error() -> (message: String)
    ensures
        renders_last_error(message),
{
    let code = last_error();
    code.to_string()
}

/// The decoding error inside a `FromUtf8Error`, as its method `utf8_error`
/// gives it. Nothing is claimed of it.
#[verifier::external_body]
fn utf8_error(error: &std::string::FromUtf8Error) -> (cause: std::str::Utf8Error) {
    error.utf8_error()
}

impl GlusterError {
    /// A generic operation failure with the given message.
    pub fn new(err: String) -> (error: GlusterError)
        ensures
            error == GlusterError::Error(err),
    {
        GlusterError::Error(err)
    }

    /// True of the failure of a native call whose message is the rendered
    /// last-error indicator.
    pub open spec fn is_native_failure(self) -> bool {
        self matches GlusterError::Error(message) && renders_last_error(message)
    }

    /// The message for each cause that the client itself words.
    pub open spec fn fixed_text(self) -> Option<Seq<char>> {
        match self {
            GlusterError::NulError(_) => Some("nul byte found in data"@),
            GlusterError::Error(message) => Some(message@),
            GlusterError::IntoStringError(_) => Some("C string contained non-utf8 bytes"@),
            GlusterError::FromUtf8Error(_) => None,
            GlusterError::IoError(_) => None,
        }
    }

    /// Renders the failure as text. A generic operation failure renders as
    /// its message, and the two string-marshalling causes have fixed texts.
    /// The remaining two are worded by the standard library: an I/O failure
    /// by its short description, undecodable bytes as the `Display` of the
    /// decoding error inside.
    pub fn to_string(&self) -> (text: String)
        ensures
            self.fixed_text() matches Some(fixed) ==> text@ == fixed,
            *self is FromUtf8Error ==> renders_utf8_error(text),
    {
        match self {
            GlusterError::FromUtf8Error(err) => utf8_error(err).to_string(),
            GlusterError::NulError(_) => "nul byte found in data".to_owned(),
            GlusterError::Error(err) => err.clone(),
            GlusterError::IoError(err) => io_description(err).to_owned(),
            GlusterError::IntoStringError(_) => "C string contained non-utf8 bytes".to_owned(),
        }
    }
}

impl From<NulError> for GlusterError {
    fn from(err: NulError) -> (error: GlusterError) {
        GlusterError::NulError(err)
    }
}

impl vstd::std_specs::convert::FromSpecImpl<NulError> for GlusterError {
    open spec fn obeys_from_spec() -> bool {
        true
    }

    open spec fn from_spec(err: NulError) -> GlusterError {
        GlusterError::NulError(err)
    }
}

impl From<std::string::FromUtf8Error> for GlusterError {
    fn from(err: std::string::FromUtf8Error) -> (error: GlusterError) {
        GlusterError::FromUtf8Error(err)
    }
}

impl vstd::std_specs::convert::FromSpecImpl<std::string::FromUtf8Error> for GlusterError {
    open spec fn obeys_from_spec() -> bool {
        true
    }

    open spec fn from_spec(err: std::string::FromUtf8Error) -> GlusterError {
        GlusterError::FromUtf8Error(err)
    }
}

impl From<IntoStringError> for GlusterError {
    fn from(err: IntoStringError) -> (error: GlusterError) {
        GlusterError::IntoStringError(err)
    }
}

impl vstd::std_specs::convert::FromSpecImpl<IntoStringError> for GlusterError {
    open spec fn obeys_from_spec() -> bool {
        true
    }

    open spec fn from_spec(err: IntoStringError) -> GlusterError {
        GlusterError::IntoStringError(err)
    }
}

impl From<std::io::Error> for GlusterError {
    fn from(err: std::io::Error) -> (error: GlusterError) {
        GlusterError::IoError(err)
    }
}

impl vstd::std_specs::convert::FromSpecImpl<std::io::Error> for GlusterError {
    open spec fn obeys_from_spec() -> bool {
        true
    }

    open spec fn from_spec(err: std::io::Error) -> GlusterError {
        GlusterError::IoError(err)
    }
}

} // verus!
