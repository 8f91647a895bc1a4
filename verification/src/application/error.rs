//! The error type of the application.

use vstd::prelude::*;
use vstd::std_specs::convert::FromSpecImpl;
use vstd::string::StringExecFns;

verus! {

/// An application wide error type.
#[derive(Debug)]
pub enum PhyrexianError {
    /// A generic error.
    GenericError(String),
    /// An input/output error.
    IOError(String),
    /// An error while converting data from one form to another.
    ConversionError(String),
}

impl PhyrexianError {
    /// The text that describes this error.
    pub open spec fn text(&self) -> Seq<char> {
        match self {
            PhyrexianError::GenericError(message) => message@,
            PhyrexianError::IOError(message) => message@,
            PhyrexianError::ConversionError(message) => message@,
        }
    }

    /// The description of this error.
    pub fn message(&self) -> (message: &str)
        ensures
            message@ == self.text(),
    {
        match self {
            PhyrexianError::GenericError(message) => message.as_str(),
            PhyrexianError::IOError(message) => message.as_str(),
            PhyrexianError::ConversionError(message) => message.as_str(),
        }
    }
}

/// An error of `serde_json`.
#[verifier::external_type_specification]
#[verifier::external_body]
pub struct ExJsonError(serde_json::Error);

/// The kinds of errors of `bincode`.
#[verifier::external_type_specification]
#[verifier::external_body]
pub struct ExBincodeErrorKind(bincode::ErrorKind);

/// An error of input or output.
#[verifier::external_type_specification]
#[verifier::external_body]
pub struct ExIoError(std::io::Error);

/// An error of `uuid`.
#[verifier::external_type_specification]
#[verifier::external_body]
pub struct ExUuidError(uuid::Error);

/// An error of `chrono` on reading a date or a time.
#[verifier::external_type_specification]
#[verifier::external_body]
pub struct ExChronoParseError(chrono::ParseError);

/// The description of an error of `serde_json`.
///
/// Trusted: this is the `Display` text of `serde_json::Error`. Nothing is
/// claimed of it.
#[verifier::external_body]
fn describe_json_error(error: &serde_json::Error) -> (text: String) {
    error.to_string()
}

/// The description of an error of `bincode`.
///
/// Trusted: this is the `Display` text of `bincode::ErrorKind`. Nothing is
/// claimed of it.
#[verifier::external_body]
fn describe_bincode_error(error: &bincode::ErrorKind) -> (text: String) {
    error.to_string()
}

/// The description of an error of input or output.
///
/// Trusted: this is the `Display` text of `std::io::Error`. Nothing is
/// claimed of it.
#[verifier::external_body]
fn describe_io_error(error: &std::io::Error) -> (text: String) {
    error.to_string()
}

/// The description of an error of `uuid`.
///
/// Trusted: this is the `Display` text of `uuid::Error`. Nothing is claimed
/// of it.
#[verifier::external_body]
fn describe_uuid_error(error: &uuid::Error) -> (text: String) {
    error.to_string()
}

/// The description of an error of `chrono`.
///
/// Trusted: this is the `Display` text of `chrono::ParseError`. Nothing is
/// claimed of it.
#[verifier::external_body]
fn describe_chrono_error(error: &chrono::ParseError) -> (text: String) {
    error.to_string()
}

impl From<serde_json::Error> for PhyrexianError {
    fn from(error: serde_json::Error) -> (converted: Self)
        ensures
            converted is ConversionError,
    {
        PhyrexianError::ConversionError(describe_json_error(&error))
    }
}

impl FromSpecImpl<serde_json::Error> for PhyrexianError {
    open spec fn obeys_from_spec() -> bool {
        false
    }

    open spec fn from_spec(error: serde_json::Error) -> Self {
        arbitrary()
    }
}

impl From<bincode::ErrorKind> for PhyrexianError {
    fn from(error: bincode::ErrorKind) -> (converted: Self)
        ensures
            converted is ConversionError,
    {
        PhyrexianError::ConversionError(describe_bincode_error(&error))
    }
}

impl FromSpecImpl<bincode::ErrorKind> for PhyrexianError {
    open spec fn obeys_from_spec() -> bool {
        false
    }

    open spec fn from_spec(error: bincode::ErrorKind) -> Self {
        arbitrary()
    }
}

impl From<Box<bincode::ErrorKind>> for PhyrexianError {
    fn from(error: Box<bincode::ErrorKind>) -> (converted: Self)
        ensures
            converted is ConversionError,
    {
        PhyrexianError::ConversionError(describe_bincode_error(&*error))
    }
}

impl FromSpecImpl<Box<bincode::ErrorKind>> for PhyrexianError {
    open spec fn obeys_from_spec() -> bool {
        false
    }

    open spec fn from_spec(error: Box<bincode::ErrorKind>) -> Self {
        arbitrary()
    }
}

impl From<std::io::Error> for PhyrexianError {
    fn from(error: std::io::Error) -> (converted: Self)
        ensures
            converted is IOError,
    {
        PhyrexianError::IOError(describe_io_error(&error))
    }
}

impl FromSpecImpl<std::io::Error> for PhyrexianError {
    open spec fn obeys_from_spec() -> bool {
        false
    }

    open spec fn from_spec(error: std::io::Error) -> Self {
        arbitrary()
    }
}

impl From<uuid::Error> for PhyrexianError {
    fn from(error: uuid::Error) -> (converted: Self)
        ensures
            converted is ConversionError,
    {
        PhyrexianError::ConversionError(describe_uuid_error(&error))
    }
}

impl FromSpecImpl<uuid::Error> for PhyrexianError {
    open spec fn obeys_from_spec() -> bool {
        false
    }

    open spec fn from_spec(error: uuid::Error) -> Self {
        arbitrary()
    }
}

impl From<chrono::ParseError> for PhyrexianError {
    fn from(error: chrono::ParseError) -> (converted: Self)
        ensures
            converted is ConversionError,
    {
        PhyrexianError::ConversionError(describe_chrono_error(&error))
    }
}

impl FromSpecImpl<chrono::ParseError> for PhyrexianError {
    open spec fn obeys_from_spec() -> bool {
        false
    }

    open spec fn from_spec(error: chrono::ParseError) -> Self {
        arbitrary()
    }
}

impl From<String> for PhyrexianError {
    fn from(error: String) -> (converted: Self) {
        PhyrexianError::GenericError(error)
    }
}

impl FromSpecImpl<String> for PhyrexianError {
    open spec fn obeys_from_spec() -> bool {
        true
    }

    open spec fn from_spec(error: String) -> Self {
        PhyrexianError::GenericError(error)
    }
}

impl From<&str> for PhyrexianError {
    fn from(error: &str) -> (converted: Self)
        ensures
            converted is GenericError,
            converted.text() == error@,
    {
        PhyrexianError::GenericError(String::from_str(error))
    }
}

impl FromSpecImpl<&str> for PhyrexianError {
    open spec fn obeys_from_spec() -> bool {
        false
    }

    open spec fn from_spec(error: &str) -> Self {
        arbitrary()
    }
}

} // verus!
