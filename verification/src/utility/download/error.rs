//! The causes for which a download can fail.

use vstd::prelude::*;
use vstd::std_specs::convert::FromSpecImpl;
use vstd::string::StringExecFns;

verus! {

/// The class of a local input/output failure.
#[derive(Clone, Copy, Debug, PartialEq, Eq, Structural, Hash)]
pub enum IoErrorKind {
    /// An entity was not found, often a file.
    NotFound,
    /// The operation lacked the necessary privileges.
    PermissionDenied,
    /// An entity already exists, often a file.
    AlreadyExists,
    /// A parameter was incorrect.
    InvalidInput,
    /// Data was malformed.
    InvalidData,
    /// The operation ran out of time.
    TimedOut,
    /// A write returned without writing anything.
    WriteZero,
    /// The operation was interrupted and can be tried again.
    Interrupted,
    /// The input ended too early.
    UnexpectedEof,
    /// Any other failure.
    Other,
}

/// A failure of the local file system: creating a directory, opening,
/// reading or writing a file.
#[derive(Clone, Debug)]
pub struct IoFailure {
    kind: IoErrorKind,
    message: String,
}

/// What an input/output failure says: its class and its description.
pub struct IoFailureView {
    /// The class of the failure.
    pub kind: IoErrorKind,
    /// The text that describes the failure.
    pub text: Seq<char>,
}

impl View for IoFailure {
    type V = IoFailureView;

    open spec fn view(&self) -> IoFailureView {
        IoFailureView { kind: self.spec_kind(), text: self.text() }
    }
}

impl IoFailure {
    /// The class of this failure.
    pub closed spec fn spec_kind(&self) -> IoErrorKind {
        self.kind
    }

    /// The text that describes this failure.
    pub closed spec fn text(&self) -> Seq<char> {
        self.message@
    }

    /// Creates a failure of the given class with the given description.
    pub fn new(kind: IoErrorKind, message: &str) -> (failure: Self)
        ensures
            failure.spec_kind() == kind,
            failure.text() == message@,
    {
        IoFailure { kind, message: String::from_str(message) }
    }

    /// The class of this failure.
    #[verifier::when_used_as_spec(spec_kind)]
    pub fn kind(&self) -> (kind: IoErrorKind)
        ensures
            kind == self.spec_kind(),
    {
        self.kind
    }

    /// The description of this failure.
    pub fn to_string(&self) -> (text: String)
        ensures
            text@ == self.text(),
    {
        self.message.clone()
    }

    /// Whether the failed operation was merely interrupted, so that trying it
    /// again is in order.
    pub fn is_interrupted(&self) -> (interrupted: bool)
        ensures
            interrupted == (self.spec_kind() == IoErrorKind::Interrupted),
    {
        self.kind == IoErrorKind::Interrupted
    }
}

/// A failure of the transport: a link that is no URL, a connection that
/// could not be made, a request that was not answered.
#[derive(Clone, Debug)]
pub struct TransportFailure {
    message: String,
}

impl TransportFailure {
    /// The text that describes this failure.
    pub closed spec fn text(&self) -> Seq<char> {
        self.message@
    }

    /// Creates a transport failure with the given description.
    pub fn new(message: &str) -> (failure: Self)
        ensures
            failure.text() == message@,
    {
        TransportFailure { message: String::from_str(message) }
    }

    /// The description of this failure.
    pub fn to_string(&self) -> (text: String)
        ensures
            text@ == self.text(),
    {
        self.message.clone()
    }
}

/// All the errors that may occur during a download.
#[derive(Clone, Debug)]
pub enum DownloadError {
    /// A failure while creating or modifying a local file.
    IoError(IoFailure),
    /// A failure related to URL parsing or to the exchange with the server.
    TransportError(TransportFailure),
}

/// What a download error says.
pub enum DownloadErrorView {
    /// A failure of the local file system, with its class and description.
    Io(IoFailureView),
    /// A failure of the transport, with its description.
    Transport(Seq<char>),
}

impl DownloadErrorView {
    /// The text that describes the error: that of the failure.
    pub open spec fn text(self) -> Seq<char> {
        match self {
            DownloadErrorView::Io(failure) => failure.text,
            DownloadErrorView::Transport(text) => text,
        }
    }
}

impl View for DownloadError {
    type V = DownloadErrorView;

    open spec fn view(&self) -> DownloadErrorView {
        match self {
            DownloadError::IoError(failure) => DownloadErrorView::Io(failure@),
            DownloadError::TransportError(failure) => DownloadErrorView::Transport(failure.text()),
        }
    }
}

impl DownloadError {
    /// The text that describes this error: that of the failure it holds.
    pub open spec fn text(&self) -> Seq<char> {
        match self {
            DownloadError::IoError(failure) => failure.text(),
            DownloadError::TransportError(failure) => failure.text(),
        }
    }

    /// Whether this is a failure of the local file system.
    pub fn is_io(&self) -> (io: bool)
        ensures
            io == (self is IoError),
    {
        match self {
            DownloadError::IoError(_) => true,
            DownloadError::TransportError(_) => false,
        }
    }

    /// The description of this error.
    pub fn to_string(&self) -> (text: String)
        ensures
            text@ == self.text(),
            text@ == self@.text(),
    {
        match self {
            DownloadError::IoError(failure) => failure.to_string(),
            DownloadError::TransportError(failure) => failure.to_string(),
        }
    }
}

impl From<IoFailure> for DownloadError {
    fn from(error: IoFailure) -> (wrapped: Self) {
        DownloadError::IoError(error)
    }
}

impl FromSpecImpl<IoFailure> for DownloadError {
    open spec fn obeys_from_spec() -> bool {
        true
    }

    open spec fn from_spec(error: IoFailure) -> Self {
        DownloadError::IoError(error)
    }
}

impl From<TransportFailure> for DownloadError {
    fn from(error: TransportFailure) -> (wrapped: Self) {
        DownloadError::TransportError(error)
    }
}

impl FromSpecImpl<TransportFailure> for DownloadError {
    open spec fn obeys_from_spec() -> bool {
        true
    }

    open spec fn from_spec(error: TransportFailure) -> Self {
        DownloadError::TransportError(error)
    }
}

} // verus!
