//! The decisions of one transfer.
//!
//! A transfer fetches one resource and writes it to one file. The work
//! itself (the request, the file, the clock) is done by a driver outside
//! this library. After each piece of work the driver reports what happened,
//! and the `Transfer` decides what this means for the record of the
//! download and what the driver has to do next.

use vstd::prelude::*;
use vstd::string::StringExecFns;

use crate::utility::download::error::{
    DownloadError,
    DownloadErrorView,
    IoErrorKind,
    IoFailure,
    IoFailureView,
    TransportFailure,
};
use crate::utility::download::state::{
    DownloadUpdate,
    DownloadUpdateView,
    DownloadView,
    SpeedSample,
};
use crate::utility::text::{debug_form, debug_string, decimal, parse_unsigned, push_decimal, unsigned};

verus! {

/// The size of the buffer through which the response is copied to the
/// file, in bytes.
pub const BUFFER_SIZE: usize = 131072;

/// The time over which the download speed is averaged, in nanoseconds.
pub const DOWNLOAD_SPEED_INTERVAL: u128 = 200_000_000;

/// How far a transfer has come.
#[derive(Clone, Copy, Debug, PartialEq, Eq, Structural)]
pub enum TransferStage {
    /// Nothing has been done yet.
    Created,
    /// The link is being turned into a URL.
    ResolvingUrl,
    /// The request is on its way.
    Requesting,
    /// The destination is being looked at.
    InspectingDestination,
    /// The directory of the output file is being created.
    CreatingDirectory,
    /// The output file is being opened.
    OpeningFile,
    /// The clock is being read, before the next chunk.
    Timing,
    /// The next chunk is being read from the response.
    Reading,
    /// A chunk is being written to the output file.
    Writing {
        /// The number of bytes in the chunk.
        length: usize,
    },
    /// The transfer has ended, well or badly.
    Finished,
}

/// What the driver of a transfer reports.
#[derive(Debug)]
pub enum TransferEvent {
    /// A worker has taken up the transfer.
    Started,
    /// The link is a URL.
    UrlResolved,
    /// The link is no URL.
    UrlRejected(TransportFailure),
    /// The server has answered.
    ResponseReceived {
        /// The status code of the response.
        status_code: u16,
        /// The content-length header of the response as text, if there is
        /// one that is text.
        content_length: Option<String>,
    },
    /// The request has failed.
    RequestFailed(TransportFailure),
    /// The destination has been looked at.
    DestinationInspected {
        /// Whether the output path names an existing directory.
        is_directory: bool,
        /// Whether the output path has a parent.
        has_parent: bool,
    },
    /// The directory of the output file exists now.
    DirectoryCreated,
    /// The directory of the output file could not be created.
    DirectoryFailed(IoFailure),
    /// The output file is open.
    FileOpened,
    /// The output file could not be opened.
    OpenFailed(IoFailure),
    /// The clock has been read.
    ClockRead {
        /// The time since the clock was last restarted, in nanoseconds, if
        /// the clock could tell.
        elapsed: Option<u128>,
    },
    /// A chunk has been read; a chunk of no bytes is the end of the
    /// response.
    ChunkRead {
        /// The number of bytes in the chunk.
        length: usize,
    },
    /// Reading from the response has failed.
    ReadFailed(IoFailure),
    /// The chunk is in the output file.
    ChunkWritten,
    /// Writing to the output file has failed.
    WriteFailed(IoFailure),
}

/// What the driver of a transfer has to do next.
#[derive(Clone, Copy, Debug, PartialEq, Eq, Structural)]
pub enum TransferCommand {
    /// Report `Started`.
    Begin,
    /// Turn the link into a URL.
    ResolveUrl,
    /// Send the request and wait for the response.
    SendRequest,
    /// Find out whether the output path names a directory, and whether it
    /// has a parent.
    InspectDestination,
    /// Create the parent directory of the output file, with all of its own
    /// parents.
    CreateParentDirectory,
    /// Open the output file for reading and writing, creating it if it is
    /// not there.
    OpenFile,
    /// Read the time since the clock was last restarted.
    ReadClock,
    /// Read the next chunk from the response, of `BUFFER_SIZE` bytes at
    /// most.
    ReadChunk,
    /// Write the chunk that was read to the output file, all of it.
    WriteChunk {
        /// The number of bytes in the chunk.
        length: usize,
    },
    /// Do nothing more: the transfer has ended.
    Stop,
}

/// The answer of a transfer to an event.
#[derive(Debug)]
pub struct TransferReaction {
    /// The change to make to the record of the download, if any.
    pub update: Option<DownloadUpdate>,
    /// Whether the driver has to restart its clock now.
    pub restart_clock: bool,
    /// What the driver has to do next.
    pub command: TransferCommand,
}

/// What a reaction says, with the cause of a failure given by what it says.
pub struct TransferReactionView {
    /// The change to make to the record of the download, if any.
    pub update: Option<DownloadUpdateView>,
    /// Whether the driver has to restart its clock now.
    pub restart_clock: bool,
    /// What the driver has to do next.
    pub command: TransferCommand,
}

impl View for TransferReaction {
    type V = TransferReactionView;

    open spec fn view(&self) -> TransferReactionView {
        TransferReactionView {
            update: match self.update {
                Some(update) => Some(update@),
                None => None,
            },
            restart_clock: self.restart_clock,
            command: self.command,
        }
    }
}

/// One transfer, as far as it has come.
#[derive(Debug)]
pub struct Transfer {
    output: String,
    stage: TransferStage,
    written: u64,
    sampled: u64,
}

/// What a transfer holds.
pub struct TransferView {
    /// The path of the output file.
    pub output: Seq<char>,
    /// How far the transfer has come.
    pub stage: TransferStage,
    /// The number of bytes written to the output file so far.
    pub written: u64,
    /// The number of bytes that were written when the speed was last
    /// measured.
    pub sampled: u64,
}

/// Whether a response with this status code is a success.
pub open spec fn is_success(status_code: u16) -> bool {
    200 <= status_code < 300
}

/// The failure that ends a transfer whose response is no success.
pub open spec fn status_failure(status_code: u16) -> DownloadErrorView {
    DownloadErrorView::Io(
        IoFailureView {
            kind: IoErrorKind::InvalidInput,
            text: decimal(status_code as nat) + " status code."@,
        },
    )
}

/// The failure that ends a transfer whose output path names a directory.
pub open spec fn directory_failure(output: Seq<char>) -> DownloadErrorView {
    DownloadErrorView::Io(
        IoFailureView {
            kind: IoErrorKind::InvalidInput,
            text: debug_form(output) + " is a folder, not a file."@,
        },
    )
}

/// The failure that ends a transfer whose output path has no parent.
pub open spec fn parent_failure(output: Seq<char>) -> DownloadErrorView {
    DownloadErrorView::Io(
        IoFailureView {
            kind: IoErrorKind::InvalidInput,
            text: debug_form(output) + " has no parent folder."@,
        },
    )
}

/// The failure that ends a transfer whose bytes can no longer be counted.
pub open spec fn size_failure() -> DownloadErrorView {
    DownloadErrorView::Io(
        IoFailureView {
            kind: IoErrorKind::InvalidData,
            text: "The response is too large to be counted."@,
        },
    )
}

impl TransferView {
    /// Whether the counts of the transfer are in order: the speed was last
    /// measured at a number of bytes that has been written, and the chunk
    /// that is being written can still be counted.
    pub open spec fn is_counted(self) -> bool {
        &&& self.sampled <= self.written
        &&& self.stage matches TransferStage::Writing { length } ==> self.written + length
            <= u64::MAX
    }

    /// What the driver has to do while the transfer is at this stage.
    pub open spec fn pending_command(self) -> TransferCommand {
        match self.stage {
            TransferStage::Created => TransferCommand::Begin,
            TransferStage::ResolvingUrl => TransferCommand::ResolveUrl,
            TransferStage::Requesting => TransferCommand::SendRequest,
            TransferStage::InspectingDestination => TransferCommand::InspectDestination,
            TransferStage::CreatingDirectory => TransferCommand::CreateParentDirectory,
            TransferStage::OpeningFile => TransferCommand::OpenFile,
            TransferStage::Timing => TransferCommand::ReadClock,
            TransferStage::Reading => TransferCommand::ReadChunk,
            TransferStage::Writing { length } => TransferCommand::WriteChunk { length },
            TransferStage::Finished => TransferCommand::Stop,
        }
    }

    /// The transfer at the stage `stage`, with the driver sent on to the
    /// work of that stage and the record of the download changed by
    /// `update`.
    pub open spec fn proceed(self, stage: TransferStage, update: Option<DownloadUpdateView>) -> (
        TransferView,
        TransferReactionView,
    ) {
        let next = TransferView { stage, ..self };
        (
            next,
            TransferReactionView { update, restart_clock: false, command: next.pending_command() },
        )
    }

    /// The transfer ended by the failure `cause`.
    pub open spec fn fail(self, cause: DownloadErrorView) -> (TransferView, TransferReactionView) {
        self.proceed(TransferStage::Finished, Some(DownloadUpdateView::Fail(cause)))
    }

    /// The answer to an event for which the transfer does not wait:
    /// nothing changes, and the driver is told again what to do.
    pub open spec fn ignore(self) -> (TransferView, TransferReactionView) {
        self.proceed(self.stage, None)
    }

    /// The transfer after the event `event`, and its answer to the event.
    ///
    /// The stages follow each other as the work does: the URL, the request,
    /// the destination, its directory, the file, and then the clock, a
    /// read and a write in turn until a read brings no bytes. The first
    /// failure ends the transfer, but for an interrupted read or write,
    /// which is tried again. A missing or malformed content-length header
    /// is no failure.
    pub open spec fn step(self, event: TransferEvent) -> (TransferView, TransferReactionView) {
        match self.stage {
            TransferStage::Created => match event {
                TransferEvent::Started => self.proceed(
                    TransferStage::ResolvingUrl,
                    Some(DownloadUpdateView::Start),
                ),
                _ => self.ignore(),
            },
            TransferStage::ResolvingUrl => match event {
                TransferEvent::UrlResolved => self.proceed(TransferStage::Requesting, None),
                TransferEvent::UrlRejected(failure) => self.fail(
                    DownloadErrorView::Transport(failure.text()),
                ),
                _ => self.ignore(),
            },
            TransferStage::Requesting => match event {
                TransferEvent::ResponseReceived { status_code, content_length } => if !is_success(
                    status_code,
                ) {
                    self.fail(status_failure(status_code))
                } else {
                    self.proceed(
                        TransferStage::InspectingDestination,
                        match announced_size(content_length) {
                            Some(total) => Some(DownloadUpdateView::TotalSize(total)),
                            None => None,
                        },
                    )
                },
                TransferEvent::RequestFailed(failure) => self.fail(
                    DownloadErrorView::Transport(failure.text()),
                ),
                _ => self.ignore(),
            },
            TransferStage::InspectingDestination => match event {
                TransferEvent::DestinationInspected { is_directory, has_parent } => if is_directory {
                    self.fail(directory_failure(self.output))
                } else if !has_parent {
                    self.fail(parent_failure(self.output))
                } else {
                    self.proceed(TransferStage::CreatingDirectory, None)
                },
                _ => self.ignore(),
            },
            TransferStage::CreatingDirectory => match event {
                TransferEvent::DirectoryCreated => self.proceed(TransferStage::OpeningFile, None),
                TransferEvent::DirectoryFailed(failure) => self.fail(
                    DownloadErrorView::Io(failure@),
                ),
                _ => self.ignore(),
            },
            TransferStage::OpeningFile => match event {
                TransferEvent::FileOpened => {
                    let next = TransferView { stage: TransferStage::Timing, ..self };
                    (
                        next,
                        TransferReactionView {
                            update: None,
                            restart_clock: true,
                            command: TransferCommand::ReadClock,
                        },
                    )
                },
                TransferEvent::OpenFailed(failure) => self.fail(DownloadErrorView::Io(failure@)),
                _ => self.ignore(),
            },
            TransferStage::Timing => match event {
                TransferEvent::ClockRead { elapsed } => if elapsed is Some && elapsed->0
                    >= DOWNLOAD_SPEED_INTERVAL {
                    (
                        TransferView {
                            stage: TransferStage::Reading,
                            sampled: self.written,
                            ..self
                        },
                        TransferReactionView {
                            update: Some(
                                DownloadUpdateView::Speed(
                                    SpeedSample::measured(
                                        (self.written - self.sampled) as u64,
                                        elapsed->0,
                                    ),
                                ),
                            ),
                            restart_clock: true,
                            command: TransferCommand::ReadChunk,
                        },
                    )
                } else {
                    self.proceed(TransferStage::Reading, None)
                },
                _ => self.ignore(),
            },
            TransferStage::Reading => match event {
                TransferEvent::ChunkRead { length } => if length == 0 {
                    self.proceed(TransferStage::Finished, Some(DownloadUpdateView::Succeed))
                } else if self.written + length > u64::MAX {
                    self.fail(size_failure())
                } else {
                    self.proceed(TransferStage::Writing { length }, None)
                },
                TransferEvent::ReadFailed(failure) => if failure.spec_kind()
                    == IoErrorKind::Interrupted {
                    self.proceed(TransferStage::Timing, None)
                } else {
                    self.fail(DownloadErrorView::Io(failure@))
                },
                _ => self.ignore(),
            },
            TransferStage::Writing { length } => match event {
                TransferEvent::ChunkWritten => {
                    let written = (self.written + length) as u64;
                    (
                        TransferView { stage: TransferStage::Timing, written, ..self },
                        TransferReactionView {
                            update: Some(DownloadUpdateView::Progress(written)),
                            restart_clock: false,
                            command: TransferCommand::ReadClock,
                        },
                    )
                },
                TransferEvent::WriteFailed(failure) => if failure.spec_kind()
                    == IoErrorKind::Interrupted {
                    self.ignore()
                } else {
                    self.fail(DownloadErrorView::Io(failure@))
                },
                _ => self.ignore(),
            },
            TransferStage::Finished => self.ignore(),
        }
    }
}

/// The number of bytes that a content-length header announces: the number
/// that its text denotes, if it denotes one.
pub open spec fn announced_size(content_length: Option<String>) -> Option<u64> {
    match content_length {
        Some(text) => unsigned(text@),
        None => None,
    }
}

impl View for Transfer {
    type V = TransferView;

    closed spec fn view(&self) -> TransferView {
        TransferView {
            output: self.output@,
            stage: self.stage,
            written: self.written,
            sampled: self.sampled,
        }
    }
}

impl Transfer {
    #[verifier::type_invariant]
    closed spec fn counted(self) -> bool {
        self@.is_counted()
    }

    /// Creates the transfer to the output file at the path `output`, with
    /// nothing done yet.
    pub fn new(output: &str) -> (transfer: Self)
        ensures
            transfer@ == (TransferView {
                output: output@,
                stage: TransferStage::Created,
                written: 0,
                sampled: 0,
            }),
            transfer@.is_counted(),
    {
        Transfer {
            output: String::from_str(output),
            stage: TransferStage::Created,
            written: 0,
            sampled: 0,
        }
    }

    /// How far the transfer has come.
    pub fn stage(&self) -> (stage: TransferStage)
        ensures
            stage == self@.stage,
    {
        self.stage
    }

    /// The number of bytes written to the output file so far.
    pub fn written(&self) -> (written: u64)
        ensures
            written == self@.written,
    {
        self.written
    }

    /// Whether the transfer has ended.
    pub fn is_finished(&self) -> (finished: bool)
        ensures
            finished == (self@.stage is Finished),
    {
        match self.stage {
            TransferStage::Finished => true,
            _ => false,
        }
    }

    /// What the driver has to do while the transfer is at its stage.
    pub fn pending_command(&self) -> (command: TransferCommand)
        ensures
            command == self@.pending_command(),
    {
        command_of(self.stage)
    }

    /// Takes in what the driver reports, and answers with the change to
    /// the record of the download and with what the driver has to do next.
    pub fn advance(self, event: TransferEvent) -> (outcome: (Transfer, TransferReaction))
        ensures
            (outcome.0@, outcome.1@) == self@.step(event),
            self@.is_counted(),
            outcome.0@.is_counted(),
    {
        proof {
            use_type_invariant(&self);
        }
        match self.stage {
            TransferStage::Created => match event {
                TransferEvent::Started => self.proceed(
                    TransferStage::ResolvingUrl,
                    Some(DownloadUpdate::Start),
                ),
                _ => self.ignore(),
            },
            TransferStage::ResolvingUrl => match event {
                TransferEvent::UrlResolved => self.proceed(TransferStage::Requesting, None),
                TransferEvent::UrlRejected(failure) => self.fail(
                    DownloadError::TransportError(failure),
                ),
                _ => self.ignore(),
            },
            TransferStage::Requesting => match event {
                TransferEvent::ResponseReceived { status_code, content_length } => {
                    if !(200 <= status_code && status_code < 300) {
                        let mut message = String::new();
                        push_decimal(&mut message, status_code as u64);
                        message.append(" status code.");
                        let failure = IoFailure::new(IoErrorKind::InvalidInput, message.as_str());
                        self.fail(DownloadError::IoError(failure))
                    } else {
                        let update = match read_content_length(&content_length) {
                            Some(total) => Some(DownloadUpdate::TotalSize(total)),
                            None => None,
                        };
                        self.proceed(TransferStage::InspectingDestination, update)
                    }
                },
                TransferEvent::RequestFailed(failure) => self.fail(
                    DownloadError::TransportError(failure),
                ),
                _ => self.ignore(),
            },
            TransferStage::InspectingDestination => match event {
                TransferEvent::DestinationInspected { is_directory, has_parent } => {
                    if is_directory {
                        let mut message = debug_string(self.output.as_str());
                        message.append(" is a folder, not a file.");
                        let failure = IoFailure::new(IoErrorKind::InvalidInput, message.as_str());
                        self.fail(DownloadError::IoError(failure))
                    } else if !has_parent {
                        let mut message = debug_string(self.output.as_str());
                        message.append(" has no parent folder.");
                        let failure = IoFailure::new(IoErrorKind::InvalidInput, message.as_str());
                        self.fail(DownloadError::IoError(failure))
                    } else {
                        self.proceed(TransferStage::CreatingDirectory, None)
                    }
                },
                _ => self.ignore(),
            },
            TransferStage::CreatingDirectory => match event {
                TransferEvent::DirectoryCreated => self.proceed(TransferStage::OpeningFile, None),
                TransferEvent::DirectoryFailed(failure) => self.fail(
                    DownloadError::IoError(failure),
                ),
                _ => self.ignore(),
            },
            TransferStage::OpeningFile => match event {
                TransferEvent::FileOpened => {
                    let next = Transfer {
                        output: self.output,
                        stage: TransferStage::Timing,
                        written: self.written,
                        sampled: self.sampled,
                    };
                    (
                        next,
                        TransferReaction {
                            update: None,
                            restart_clock: true,
                            command: TransferCommand::ReadClock,
                        },
                    )
                },
                TransferEvent::OpenFailed(failure) => self.fail(DownloadError::IoError(failure)),
                _ => self.ignore(),
            },
            TransferStage::Timing => match event {
                TransferEvent::ClockRead { elapsed } => {
                    let sample = match elapsed {
                        Some(time) => if time >= DOWNLOAD_SPEED_INTERVAL {
                            SpeedSample::new(self.written - self.sampled, time)
                        } else {
                            None
                        },
                        None => None,
                    };
                    match sample {
                        Some(speed) => {
                            let next = Transfer {
                                output: self.output,
                                stage: TransferStage::Reading,
                                written: self.written,
                                sampled: self.written,
                            };
                            (
                                next,
                                TransferReaction {
                                    update: Some(DownloadUpdate::Speed(speed)),
                                    restart_clock: true,
                                    command: TransferCommand::ReadChunk,
                                },
                            )
                        },
                        None => self.proceed(TransferStage::Reading, None),
                    }
                },
                _ => self.ignore(),
            },
            TransferStage::Reading => match event {
                TransferEvent::ChunkRead { length } => {
                    if length == 0 {
                        self.proceed(TransferStage::Finished, Some(DownloadUpdate::Succeed))
                    } else if length as u64 > u64::MAX - self.written {
                        let failure = IoFailure::new(
                            IoErrorKind::InvalidData,
                            "The response is too large to be counted.",
                        );
                        self.fail(DownloadError::IoError(failure))
                    } else {
                        self.proceed(TransferStage::Writing { length }, None)
                    }
                },
                TransferEvent::ReadFailed(failure) => {
                    if failure.is_interrupted() {
                        self.proceed(TransferStage::Timing, None)
                    } else {
                        self.fail(DownloadError::IoError(failure))
                    }
                },
                _ => self.ignore(),
            },
            TransferStage::Writing { length } => match event {
                TransferEvent::ChunkWritten => {
                    let written: u64 = self.written + length as u64;
                    let next = Transfer {
                        output: self.output,
                        stage: TransferStage::Timing,
                        written,
                        sampled: self.sampled,
                    };
                    (
                        next,
                        TransferReaction {
                            update: Some(DownloadUpdate::Progress(written)),
                            restart_clock: false,
                            command: TransferCommand::ReadClock,
                        },
                    )
                },
                TransferEvent::WriteFailed(failure) => {
                    if failure.is_interrupted() {
                        self.ignore()
                    } else {
                        self.fail(DownloadError::IoError(failure))
                    }
                },
                _ => self.ignore(),
            },
            TransferStage::Finished => self.ignore(),
        }
    }

    /// Moves on to the stage `stage`, where no chunk is being written.
    fn proceed(self, stage: TransferStage, update: Option<DownloadUpdate>) -> (outcome: (
        Transfer,
        TransferReaction,
    ))
        requires
            stage matches TransferStage::Writing { length } ==> self@.written + length <= u64::MAX,
        ensures
            (outcome.0@, outcome.1@) == self@.proceed(
                stage,
                match update {
                    Some(update) => Some(update@),
                    None => None,
                },
            ),
    {
        proof {
            use_type_invariant(&self);
        }
        let next = Transfer {
            output: self.output,
            stage,
            written: self.written,
            sampled: self.sampled,
        };
        (next, TransferReaction { update, restart_clock: false, command: command_of(stage) })
    }

    /// Ends the transfer with the failure `cause`.
    fn fail(self, cause: DownloadError) -> (outcome: (Transfer, TransferReaction))
        ensures
            (outcome.0@, outcome.1@) == self@.fail(cause@),
    {
        self.proceed(TransferStage::Finished, Some(DownloadUpdate::Fail(cause)))
    }

    /// Leaves the transfer as it is and tells the driver again what to do.
    fn ignore(self) -> (outcome: (Transfer, TransferReaction))
        ensures
            (outcome.0@, outcome.1@) == self@.ignore(),
    {
        proof {
            use_type_invariant(&self);
        }
        let stage = self.stage;
        self.proceed(stage, None)
    }
}

/// What the driver has to do while a transfer is at the stage `stage`.
fn command_of(stage: TransferStage) -> (command: TransferCommand)
    ensures
        command == (TransferView { output: Seq::empty(), stage, written: 0, sampled: 0 })
            .pending_command(),
{
    match stage {
        TransferStage::Created => TransferCommand::Begin,
        TransferStage::ResolvingUrl => TransferCommand::ResolveUrl,
        TransferStage::Requesting => TransferCommand::SendRequest,
        TransferStage::InspectingDestination => TransferCommand::InspectDestination,
        TransferStage::CreatingDirectory => TransferCommand::CreateParentDirectory,
        TransferStage::OpeningFile => TransferCommand::OpenFile,
        TransferStage::Timing => TransferCommand::ReadClock,
        TransferStage::Reading => TransferCommand::ReadChunk,
        TransferStage::Writing { length } => TransferCommand::WriteChunk { length },
        TransferStage::Finished => TransferCommand::Stop,
    }
}

/// Reads the number of bytes that a content-length header announces.
pub fn read_content_length(content_length: &Option<String>) -> (total: Option<u64>)
    ensures
        total == announced_size(*content_length),
{
    match content_length {
        Some(text) => parse_unsigned(text.as_str()),
        None => None,
    }
}

impl TransferView {
    /// The place of the stage in the order of the work: the stages before
    /// the file is open are counted one by one, the stages of the copying
    /// loop count as one, and the end comes last.
    pub open spec fn stage_index(self) -> nat {
        match self.stage {
            TransferStage::Created => 0,
            TransferStage::ResolvingUrl => 1,
            TransferStage::Requesting => 2,
            TransferStage::InspectingDestination => 3,
            TransferStage::CreatingDirectory => 4,
            TransferStage::OpeningFile => 5,
            TransferStage::Timing => 6,
            TransferStage::Reading => 6,
            TransferStage::Writing { .. } => 6,
            TransferStage::Finished => 7,
        }
    }

    /// Whether the record `download` is the one that this transfer has
    /// brought about so far: it waits as long as nothing was done, it has
    /// ended when the transfer has, and in between it runs and counts the
    /// bytes that the transfer has written. A download that succeeded
    /// counts them too.
    pub open spec fn tracks(self, download: DownloadView) -> bool {
        match self.stage {
            TransferStage::Created => download.status is Pending && download.downloaded_size == 0
                && self.written == 0 && download.total_size is None,
            TransferStage::Finished => download.status.is_terminal() && (download.status
                is Successful ==> download.downloaded_size == self.written),
            _ => download.status is Running && download.downloaded_size == self.written && (
            self.stage_index() <= 2 ==> download.total_size is None),
        }
    }

    /// The transfer and the record of its download after the events
    /// `events`, each answered in turn and each answer's change made to the
    /// record.
    pub open spec fn run(self, download: DownloadView, events: Seq<TransferEvent>) -> (
        TransferView,
        DownloadView,
    )
        decreases events.len(),
    {
        if events.len() == 0 {
            (self, download)
        } else {
            let (next, reaction) = self.step(events[0]);
            next.run(download.after_any(reaction.update), events.drop_first())
        }
    }

    /// The answers of the transfer to the events `events`, in order.
    pub open spec fn answers(self, events: Seq<TransferEvent>) -> Seq<TransferReactionView>
        decreases events.len(),
    {
        if events.len() == 0 {
            Seq::empty()
        } else {
            let (next, reaction) = self.step(events[0]);
            seq![reaction] + next.answers(events.drop_first())
        }
    }

    /// The number of bytes that the events `events` confirm as written:
    /// the lengths of the chunks whose writing was awaited and reported.
    pub open spec fn confirmed(self, events: Seq<TransferEvent>) -> nat
        decreases events.len(),
    {
        if events.len() == 0 {
            0
        } else {
            let here: nat = match (self.stage, events[0]) {
                (TransferStage::Writing { length }, TransferEvent::ChunkWritten) => length as nat,
                _ => 0,
            };
            here + self.step(events[0]).0.confirmed(events.drop_first())
        }
    }
}

/// One step of a transfer keeps the record in line with it, and moves the
/// status of the download by one step of the order `Pending`, `Running`,
/// then `Successful` or `Failed`, or not at all. The status leaves
/// `Pending` with the first event, and becomes terminal exactly when the
/// transfer ends.
pub proof fn lemma_step_follows_status_order(
    transfer: TransferView,
    download: DownloadView,
    event: TransferEvent,
)
    requires
        transfer.is_counted(),
        transfer.tracks(download),
    ensures
        ({
            let (next, reaction) = transfer.step(event);
            let after = download.after_any(reaction.update);
            &&& next.is_counted()
            &&& next.tracks(after)
            &&& after.status == download.status || download.status.steps_to(after.status)
            &&& after.status.is_terminal() <==> next.stage is Finished
            &&& after.status is Pending <==> next.stage is Created
        }),
{
}

/// However the events come, the record stays in line with the transfer and
/// the status of the download only moves forward in the order `Pending`,
/// `Running`, then `Successful` or `Failed`.
pub proof fn lemma_run_follows_status_order(
    transfer: TransferView,
    download: DownloadView,
    events: Seq<TransferEvent>,
)
    requires
        transfer.is_counted(),
        transfer.tracks(download),
    ensures
        ({
            let (last, after) = transfer.run(download, events);
            &&& last.is_counted()
            &&& last.tracks(after)
            &&& download.status.leads_to(after.status)
        }),
    decreases events.len(),
{
    if events.len() > 0 {
        let (next, reaction) = transfer.step(events[0]);
        lemma_step_follows_status_order(transfer, download, events[0]);
        lemma_run_follows_status_order(
            next,
            download.after_any(reaction.update),
            events.drop_first(),
        );
    }
}

/// The answer of a transfer always sends the driver to the work of the
/// stage that the transfer has reached, and the stages never go back.
pub proof fn lemma_step_moves_forward(transfer: TransferView, event: TransferEvent)
    requires
        transfer.is_counted(),
    ensures
        ({
            let (next, reaction) = transfer.step(event);
            &&& next.is_counted()
            &&& reaction.command == next.pending_command()
            &&& transfer.stage_index() <= next.stage_index()
            &&& next.output == transfer.output
            &&& transfer.written <= next.written
        }),
{
}

/// A transfer that has ended stays as it is: it asks for no change to the
/// record and tells its driver to stop, whatever is reported.
pub proof fn lemma_finished_is_final(transfer: TransferView, event: TransferEvent)
    requires
        transfer.stage is Finished,
    ensures
        transfer.step(event).0 == transfer,
        transfer.step(event).1 == (TransferReactionView {
            update: None,
            restart_clock: false,
            command: TransferCommand::Stop,
        }),
{
}

/// A transfer asks for exactly one terminal change to the record: with the
/// step that ends it.
pub proof fn lemma_failure_is_set_once(transfer: TransferView, event: TransferEvent)
    ensures
        ({
            let (next, reaction) = transfer.step(event);
            let ends = !(transfer.stage is Finished) && next.stage is Finished;
            ends <==> (reaction.update matches Some(update) && (update is Succeed || update
                is Fail))
        }),
{
}

/// A destination that is an existing directory ends the transfer with an
/// input/output failure.
pub proof fn lemma_directory_destination_fails(transfer: TransferView, has_parent: bool)
    requires
        transfer.stage is InspectingDestination,
    ensures
        ({
            let (next, reaction) = transfer.step(
                TransferEvent::DestinationInspected { is_directory: true, has_parent },
            );
            &&& next.stage is Finished
            &&& reaction.command == TransferCommand::Stop
            &&& reaction.update == Some(
                DownloadUpdateView::Fail(directory_failure(transfer.output)),
            )
            &&& directory_failure(transfer.output) is Io
        }),
{
}

/// A transfer answers each event once.
pub proof fn lemma_one_answer_per_event(transfer: TransferView, events: Seq<TransferEvent>)
    ensures
        transfer.answers(events).len() == events.len(),
    decreases events.len(),
{
    if events.len() > 0 {
        lemma_one_answer_per_event(transfer.step(events[0]).0, events.drop_first());
    }
}

/// As long as a transfer has not come to opening the file, its driver was
/// never told to open the file or to write to it. So a transfer that ends
/// on finding a directory at its destination has written nothing.
pub proof fn lemma_nothing_written_before_the_file(
    transfer: TransferView,
    events: Seq<TransferEvent>,
    position: int,
)
    requires
        transfer.is_counted(),
        0 <= position < events.len(),
        transfer.run(DownloadView::pending(), events.take(position + 1)).0.stage_index() < 5
            || (transfer.run(DownloadView::pending(), events.take(position)).0.stage_index() < 5
            && transfer.run(DownloadView::pending(), events.take(position + 1)).0.stage
            is Finished),
    ensures
        transfer.answers(events).len() == events.len(),
        !(transfer.answers(events)[position].command is OpenFile),
        !(transfer.answers(events)[position].command is WriteChunk),
    decreases position,
{
    let (next, reaction) = transfer.step(events[0]);
    let download = DownloadView::pending();
    let rest = events.drop_first();
    lemma_one_answer_per_event(transfer, events);
    lemma_one_answer_per_event(next, rest);
    lemma_step_moves_forward(transfer, events[0]);
    assert(transfer.answers(events) == seq![reaction] + next.answers(rest));
    if position == 0 {
        assert(events.take(1).drop_first() =~= Seq::<TransferEvent>::empty());
        assert(events.take(0) =~= Seq::<TransferEvent>::empty());
        assert(events.take(1)[0] == events[0]);
        assert(next.run(download.after_any(reaction.update), Seq::<TransferEvent>::empty()).0
            == next);
        assert(transfer.run(download, events.take(1)) == next.run(
            download.after_any(reaction.update),
            events.take(1).drop_first(),
        ));
        assert(transfer.run(download, events.take(0)).0 == transfer);
        assert(transfer.answers(events)[0] == reaction);
    } else {
        assert(events.take(position + 1).drop_first() =~= rest.take(position));
        assert(events.take(position + 1)[0] == events[0]);
        assert(events.take(position).drop_first() =~= rest.take(position - 1));
        assert(events.take(position)[0] == events[0]);
        assert(transfer.run(download, events.take(position + 1)) == next.run(
            download.after_any(reaction.update),
            rest.take(position),
        ));
        assert(transfer.run(download, events.take(position)) == next.run(
            download.after_any(reaction.update),
            rest.take(position - 1),
        ));
        lemma_run_forgets_the_record(
            next,
            download.after_any(reaction.update),
            download,
            rest.take(position),
        );
        lemma_run_forgets_the_record(
            next,
            download.after_any(reaction.update),
            download,
            rest.take(position - 1),
        );
        lemma_nothing_written_before_the_file(next, rest, position - 1);
        assert(transfer.answers(events)[position] == next.answers(rest)[position - 1]);
    }
}

/// Where a transfer gets to does not depend on the record of its download.
pub proof fn lemma_run_forgets_the_record(
    transfer: TransferView,
    first: DownloadView,
    second: DownloadView,
    events: Seq<TransferEvent>,
)
    ensures
        transfer.run(first, events).0 == transfer.run(second, events).0,
    decreases events.len(),
{
    if events.len() > 0 {
        let (next, reaction) = transfer.step(events[0]);
        lemma_run_forgets_the_record(
            next,
            first.after_any(reaction.update),
            second.after_any(reaction.update),
            events.drop_first(),
        );
    }
}

/// Whether an event reports a response whose status code is a success.
pub open spec fn is_successful_response(event: TransferEvent) -> bool {
    match event {
        TransferEvent::ResponseReceived { status_code, .. } => is_success(status_code),
        _ => false,
    }
}

/// The number of bytes that an event announces: that of the content-length
/// header of a response.
pub open spec fn announced_by(event: TransferEvent) -> Option<u64> {
    match event {
        TransferEvent::ResponseReceived { content_length, .. } => announced_size(content_length),
        _ => None,
    }
}

/// A response without a content-length header, or with one that is no
/// number, is no failure: the transfer goes on, and the total size of the
/// download is left as it is. Only a response that announces its size sets
/// the total size.
pub proof fn lemma_total_size_comes_from_the_header(transfer: TransferView, event: TransferEvent)
    ensures
        ({
            let (next, reaction) = transfer.step(event);
            &&& reaction.update matches Some(DownloadUpdateView::TotalSize(total)) ==> (
            transfer.stage is Requesting && is_successful_response(event) && announced_by(event)
                == Some(total))
            &&& (transfer.stage is Requesting && is_successful_response(event) && announced_by(
                event,
            ) is None) ==> (next.stage is InspectingDestination && reaction.update is None)
        }),
{
}

/// The number of bytes that a transfer counts as written grows by exactly
/// the bytes that its events confirm as written. With the record in line,
/// a download that has succeeded therefore shows exactly the number of
/// bytes that were written to its file.
pub proof fn lemma_written_bytes_are_counted(
    transfer: TransferView,
    download: DownloadView,
    events: Seq<TransferEvent>,
)
    requires
        transfer.is_counted(),
        transfer.tracks(download),
    ensures
        ({
            let (last, after) = transfer.run(download, events);
            &&& last.written == transfer.written + transfer.confirmed(events)
            &&& after.status is Successful && !(download.status is Successful)
                ==> after.downloaded_size == transfer.written + transfer.confirmed(events)
        }),
    decreases events.len(),
{
    if events.len() > 0 {
        let (next, reaction) = transfer.step(events[0]);
        lemma_step_follows_status_order(transfer, download, events[0]);
        lemma_written_bytes_are_counted(
            next,
            download.after_any(reaction.update),
            events.drop_first(),
        );
        lemma_run_follows_status_order(
            next,
            download.after_any(reaction.update),
            events.drop_first(),
        );
    }
}

/// An interrupted read ends nothing: the transfer asks for no change to
/// the record, keeps its count of bytes, and sends its driver back to the
/// clock and from there to the same read. With a clock that has nothing to
/// report the transfer is then exactly where it was before the
/// interruption, so whatever follows goes as it would have gone without.
pub proof fn lemma_interrupted_read_is_retried(
    transfer: TransferView,
    failure: IoFailure,
    events: Seq<TransferEvent>,
    download: DownloadView,
)
    requires
        transfer.stage is Reading,
        failure.spec_kind() == IoErrorKind::Interrupted,
    ensures
        ({
            let (paused, reaction) = transfer.step(TransferEvent::ReadFailed(failure));
            let (resumed, second) = paused.step(TransferEvent::ClockRead { elapsed: None });
            &&& reaction.update is None
            &&& reaction.command == TransferCommand::ReadClock
            &&& paused == (TransferView { stage: TransferStage::Timing, ..transfer })
            &&& second.update is None
            &&& second.command == TransferCommand::ReadChunk
            &&& resumed == transfer
        }),
        transfer.run(
            download,
            seq![TransferEvent::ReadFailed(failure), TransferEvent::ClockRead { elapsed: None }]
                + events,
        ) == transfer.run(download, events),
{
    let interruption = seq![
        TransferEvent::ReadFailed(failure),
        TransferEvent::ClockRead { elapsed: None },
    ];
    let all = interruption + events;
    let (paused, reaction) = transfer.step(TransferEvent::ReadFailed(failure));
    assert(all[0] == TransferEvent::ReadFailed(failure));
    assert(all.drop_first()[0] == (TransferEvent::ClockRead { elapsed: None }));
    assert(all.drop_first().drop_first() =~= events);
    assert(transfer.run(download, all) == paused.run(download, all.drop_first()));
    assert(paused.run(download, all.drop_first()) == transfer.run(download, events));
}

} // verus!
