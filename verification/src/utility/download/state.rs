//! The record of one download: its status, how much has arrived, how much
//! is expected and how fast it goes.

use std::sync::Arc;
use vstd::prelude::*;
use vstd::string::StringExecFns;

use crate::utility::download::error::{DownloadError, DownloadErrorView};
use crate::utility::download::status::{DownloadStatus, DownloadStatusView};
use crate::utility::text::{decimal, push_decimal, push_wide_decimal};

verus! {

/// The number of nanoseconds in a second.
pub const NANOSECONDS_PER_SECOND: u128 = 1_000_000_000;

/// A measurement of the transfer speed: so many bytes arrived within so many
/// nanoseconds. The time is never zero.
#[derive(Clone, Copy, Debug, PartialEq, Eq, Structural)]
pub struct SpeedSample {
    bytes: u64,
    nanoseconds: u128,
}

impl SpeedSample {
    #[verifier::type_invariant]
    closed spec fn timed(self) -> bool {
        self.nanoseconds > 0
    }

    /// The number of bytes that arrived during the measurement.
    pub closed spec fn spec_bytes(self) -> u64 {
        self.bytes
    }

    /// The duration of the measurement in nanoseconds.
    pub closed spec fn spec_nanoseconds(self) -> u128 {
        self.nanoseconds
    }

    /// The measured speed in whole bytes per second, rounded down.
    pub open spec fn rate(self) -> int {
        (self.spec_bytes() * NANOSECONDS_PER_SECOND) / (self.spec_nanoseconds() as int)
    }

    /// The measurement of a transfer that has not moved yet: no byte in one
    /// nanosecond.
    pub closed spec fn spec_idle() -> SpeedSample {
        SpeedSample { bytes: 0, nanoseconds: 1 }
    }

    /// The measurement of a transfer that has not moved yet: no byte in one
    /// nanosecond.
    #[verifier::when_used_as_spec(spec_idle)]
    pub fn idle() -> (sample: Self)
        ensures
            sample == Self::spec_idle(),
            sample.spec_bytes() == 0,
            sample.spec_nanoseconds() == 1,
    {
        SpeedSample { bytes: 0, nanoseconds: 1 }
    }

    /// The measurement of `bytes` bytes within `nanoseconds` nanoseconds.
    pub closed spec fn measured(bytes: u64, nanoseconds: u128) -> SpeedSample {
        SpeedSample { bytes, nanoseconds }
    }

    /// Creates a measurement. There is none over no time at all: for
    /// `nanoseconds == 0` the result is `None`.
    pub fn new(bytes: u64, nanoseconds: u128) -> (sample: Option<Self>)
        ensures
            sample == (if nanoseconds > 0 {
                Some(Self::measured(bytes, nanoseconds))
            } else {
                None
            }),
            sample matches Some(s) ==> s.spec_bytes() == bytes && s.spec_nanoseconds()
                == nanoseconds,
    {
        if nanoseconds > 0 {
            Some(SpeedSample { bytes, nanoseconds })
        } else {
            None
        }
    }

    /// The number of bytes that arrived during the measurement.
    #[verifier::when_used_as_spec(spec_bytes)]
    pub fn bytes(self) -> (bytes: u64)
        ensures
            bytes == self.spec_bytes(),
    {
        self.bytes
    }

    /// The duration of the measurement in nanoseconds.
    #[verifier::when_used_as_spec(spec_nanoseconds)]
    pub fn nanoseconds(self) -> (nanoseconds: u128)
        ensures
            nanoseconds == self.spec_nanoseconds(),
            nanoseconds > 0,
    {
        proof {
            use_type_invariant(&self);
        }
        self.nanoseconds
    }

    /// The measured speed in whole bytes per second, rounded down.
    pub fn bytes_per_second(self) -> (speed: u128)
        ensures
            speed == self.rate(),
    {
        proof {
            use_type_invariant(&self);
        }
        let scaled: u128 = (self.bytes as u128) * NANOSECONDS_PER_SECOND;
        scaled / self.nanoseconds
    }
}

/// One change that the worker of a download makes to its record.
#[derive(Debug)]
pub enum DownloadUpdate {
    /// The worker has taken up the download.
    Start,
    /// The server has announced how many bytes it will send.
    TotalSize(u64),
    /// So many bytes have been written to the output file so far.
    Progress(u64),
    /// The speed has been measured anew.
    Speed(SpeedSample),
    /// The transfer has ended and every byte is on disk.
    Succeed,
    /// The transfer has ended with an error.
    Fail(DownloadError),
}

/// What a change says, with the cause of a failure given by what it says.
pub enum DownloadUpdateView {
    /// The worker has taken up the download.
    Start,
    /// The server has announced how many bytes it will send.
    TotalSize(u64),
    /// So many bytes have been written to the output file so far.
    Progress(u64),
    /// The speed has been measured anew.
    Speed(SpeedSample),
    /// The transfer has ended and every byte is on disk.
    Succeed,
    /// The transfer has ended with an error.
    Fail(DownloadErrorView),
}

impl View for DownloadUpdate {
    type V = DownloadUpdateView;

    open spec fn view(&self) -> DownloadUpdateView {
        match self {
            DownloadUpdate::Start => DownloadUpdateView::Start,
            DownloadUpdate::TotalSize(total) => DownloadUpdateView::TotalSize(*total),
            DownloadUpdate::Progress(bytes) => DownloadUpdateView::Progress(*bytes),
            DownloadUpdate::Speed(sample) => DownloadUpdateView::Speed(*sample),
            DownloadUpdate::Succeed => DownloadUpdateView::Succeed,
            DownloadUpdate::Fail(error) => DownloadUpdateView::Fail(error@),
        }
    }
}

/// The record of one requested transfer.
#[derive(Debug)]
pub struct Download {
    status: DownloadStatus,
    downloaded_size: u64,
    total_size: Option<u64>,
    speed: SpeedSample,
}

/// What an observer can tell of a download: the fields of its record.
pub struct DownloadView {
    /// The status of the download.
    pub status: DownloadStatusView,
    /// The number of bytes written so far.
    pub downloaded_size: u64,
    /// The number of bytes that the server announced, if it did.
    pub total_size: Option<u64>,
    /// The speed as it was last measured.
    pub speed: SpeedSample,
}

/// The text of a size that may be unknown, as it is written for debugging:
/// `Some(5)` for five bytes and `None` for an unknown size.
pub open spec fn size_text(size: Option<u64>) -> Seq<char> {
    match size {
        Some(bytes) => "Some("@ + decimal(bytes as nat) + ")"@,
        None => "None"@,
    }
}

impl DownloadView {
    /// Whether the fields of the record fit together: a download that
    /// still waits has nothing to show, no byte, no total size and no
    /// speed.
    pub open spec fn is_sound(self) -> bool {
        self.status is Pending ==> self.downloaded_size == 0 && self.total_size is None
            && self.speed == SpeedSample::spec_idle()
    }

    /// The text of the record: the status, for a running download the
    /// speed in whole bytes per second, and the bytes that have arrived out
    /// of those that are expected.
    pub open spec fn text(self) -> Seq<char> {
        if self.status is Running {
            self.status.text() + " ("@ + decimal(self.speed.rate() as nat) + " byte/sec): "@
                + decimal(self.downloaded_size as nat) + "/"@ + size_text(self.total_size)
                + " byte"@
        } else {
            self.status.text() + ": "@ + decimal(self.downloaded_size as nat) + "/"@ + size_text(
                self.total_size,
            ) + " byte"@
        }
    }

    /// The record after the worker has made the change `update` to it.
    ///
    /// A change takes effect only where the order of the statuses allows
    /// it. `Start` turns a waiting download into a running one. `Succeed`
    /// ends a running download. `Fail` ends a waiting or a running
    /// download. The total size is set once, while the download runs. The
    /// number of bytes written never goes down, and it and the speed change
    /// only while the download runs. Nothing changes a download that has
    /// ended.
    pub open spec fn after(self, update: DownloadUpdateView) -> DownloadView {
        match update {
            DownloadUpdateView::Start => if self.status is Pending {
                DownloadView { status: DownloadStatusView::Running, ..self }
            } else {
                self
            },
            DownloadUpdateView::TotalSize(total) => if self.status is Running && self.total_size
                is None {
                DownloadView { total_size: Some(total), ..self }
            } else {
                self
            },
            DownloadUpdateView::Progress(bytes) => if self.status is Running && bytes
                >= self.downloaded_size {
                DownloadView { downloaded_size: bytes, ..self }
            } else {
                self
            },
            DownloadUpdateView::Speed(sample) => if self.status is Running {
                DownloadView { speed: sample, ..self }
            } else {
                self
            },
            DownloadUpdateView::Succeed => if self.status is Running {
                DownloadView { status: DownloadStatusView::Successful, ..self }
            } else {
                self
            },
            DownloadUpdateView::Fail(cause) => if self.status.is_terminal() {
                self
            } else {
                DownloadView { status: DownloadStatusView::Failed(cause), ..self }
            },
        }
    }

    /// The record after the worker has made the change `update` to it, if
    /// there is one.
    pub open spec fn after_any(self, update: Option<DownloadUpdateView>) -> DownloadView {
        match update {
            Some(update) => self.after(update),
            None => self,
        }
    }

    /// The record after the worker has made the changes `updates` to it,
    /// one after the other.
    pub open spec fn after_all(self, updates: Seq<DownloadUpdateView>) -> DownloadView
        decreases updates.len(),
    {
        if updates.len() == 0 {
            self
        } else {
            self.after(updates[0]).after_all(updates.drop_first())
        }
    }

    /// The record of a download that waits to be started.
    pub open spec fn pending() -> DownloadView {
        DownloadView {
            status: DownloadStatusView::Pending,
            downloaded_size: 0,
            total_size: None,
            speed: SpeedSample::spec_idle(),
        }
    }
}

impl View for Download {
    type V = DownloadView;

    closed spec fn view(&self) -> DownloadView {
        DownloadView {
            status: self.status@,
            downloaded_size: self.downloaded_size,
            total_size: self.total_size,
            speed: self.speed,
        }
    }
}

impl Download {
    #[verifier::type_invariant]
    closed spec fn sound(self) -> bool {
        self@.is_sound()
    }

    /// Creates the record of a download that waits to be started.
    pub fn pending() -> (download: Self)
        ensures
            download@ == DownloadView::pending(),
    {
        Download {
            status: DownloadStatus::Pending,
            downloaded_size: 0,
            total_size: None,
            speed: SpeedSample::idle(),
        }
    }

    /// Creates the record of a download with the given status, of which
    /// nothing has arrived yet.
    pub fn with_status(status: DownloadStatus) -> (download: Self)
        ensures
            download@ == (DownloadView { status: status@, ..DownloadView::pending() }),
    {
        Download { status, downloaded_size: 0, total_size: None, speed: SpeedSample::idle() }
    }

    /// The status of the download.
    pub fn status(&self) -> (status: &DownloadStatus)
        ensures
            status@ == self@.status,
    {
        &self.status
    }

    /// Returns the number of bytes written so far.
    pub fn get_downloaded_size(&self) -> (bytes: u64)
        ensures
            bytes == self@.downloaded_size,
    {
        self.downloaded_size
    }

    /// Returns the number of bytes that the server announced, if it did.
    pub fn get_total_size(&self) -> (total: Option<u64>)
        ensures
            total == self@.total_size,
    {
        self.total_size
    }

    /// Returns the speed as it was last measured, if the download is
    /// running.
    pub fn get_download_speed(&self) -> (speed: Option<SpeedSample>)
        ensures
            speed == (if self@.status is Running {
                Some(self@.speed)
            } else {
                None
            }),
    {
        match &self.status {
            DownloadStatus::Running => Some(self.speed),
            _ => None,
        }
    }

    /// Writes this record as text.
    pub fn to_string(&self) -> (text: String)
        ensures
            text@ == self@.text(),
    {
        let mut text = self.status.to_string();
        match &self.status {
            DownloadStatus::Running => {
                text.append(" (");
                push_wide_decimal(&mut text, self.speed.bytes_per_second());
                text.append(" byte/sec): ");
            },
            _ => {
                text.append(": ");
            },
        }
        push_decimal(&mut text, self.downloaded_size);
        text.append("/");
        match self.total_size {
            Some(bytes) => {
                text.append("Some(");
                push_decimal(&mut text, bytes);
                text.append(")");
            },
            None => {
                text.append("None");
            },
        }
        text.append(" byte");
        assert(text@ =~= self@.text());
        text
    }

    /// A copy of this record. A failed download shares its cause with the
    /// copy.
    pub fn duplicate(&self) -> (copy: Self)
        ensures
            copy@ == self@,
            copy@.is_sound(),
    {
        proof {
            use_type_invariant(self);
        }
        Download {
            status: self.status.duplicate(),
            downloaded_size: self.downloaded_size,
            total_size: self.total_size,
            speed: self.speed,
        }
    }

    /// Makes the change `update` to this record, as far as the order of the
    /// statuses allows it.
    pub fn apply(&mut self, update: DownloadUpdate)
        ensures
            final(self)@ == old(self)@.after(update@),
    {
        match update {
            DownloadUpdate::Start => {
                if self.status.is_pending() {
                    self.status = DownloadStatus::Running;
                }
            },
            DownloadUpdate::TotalSize(total) => {
                if self.status.is_running() && self.total_size.is_none() {
                    self.total_size = Some(total);
                }
            },
            DownloadUpdate::Progress(bytes) => {
                if self.status.is_running() && bytes >= self.downloaded_size {
                    self.downloaded_size = bytes;
                }
            },
            DownloadUpdate::Speed(sample) => {
                if self.status.is_running() {
                    self.speed = sample;
                }
            },
            DownloadUpdate::Succeed => {
                if self.status.is_running() {
                    self.status = DownloadStatus::Successful;
                }
            },
            DownloadUpdate::Fail(error) => {
                if self.status.is_active() {
                    self.status = DownloadStatus::Failed(Arc::new(error));
                }
            },
        }
    }
}

/// Whatever the worker does to a record whose fields fit together, they
/// still fit together afterwards.
pub proof fn lemma_update_keeps_sound(before: DownloadView, update: DownloadUpdateView)
    requires
        before.is_sound(),
    ensures
        before.after(update).is_sound(),
{
}

/// A download that still waits has nothing to show: no byte, no total size
/// and no speed. This holds of a new record and stays true whatever the
/// worker does to it.
pub proof fn lemma_pending_has_nothing(updates: Seq<DownloadUpdateView>)
    ensures
        DownloadView::pending().after_all(updates).status is Pending
            ==> DownloadView::pending().after_all(updates) == DownloadView::pending(),
{
    lemma_pending_stays(DownloadView::pending(), updates);
}

/// A record that waits after a run of changes is the record from before
/// the run.
proof fn lemma_pending_stays(before: DownloadView, updates: Seq<DownloadUpdateView>)
    ensures
        before.after_all(updates).status is Pending ==> before.after_all(updates) == before,
    decreases updates.len(),
{
    if updates.len() > 0 {
        lemma_pending_stays(before.after(updates[0]), updates.drop_first());
        lemma_updates_move_forward(before.after(updates[0]), updates.drop_first());
    }
}

/// Whatever the worker does to a record, its status only moves forward:
/// either it stays, or it takes one step in the order
/// `Pending`, `Running`, then `Successful` or `Failed`.
pub proof fn lemma_update_moves_forward(before: DownloadView, update: DownloadUpdateView)
    ensures
        before.after(update).status == before.status || before.status.steps_to(
            before.after(update).status,
        ),
        before.status.leads_to(before.after(update).status),
{
}

/// Nothing changes a download that has ended.
pub proof fn lemma_terminal_is_final(before: DownloadView, updates: Seq<DownloadUpdateView>)
    requires
        before.status.is_terminal(),
    ensures
        before.after_all(updates) == before,
    decreases updates.len(),
{
    if updates.len() > 0 {
        lemma_terminal_is_final(before.after(updates[0]), updates.drop_first());
    }
}

/// Over any run of changes the status only moves forward, the number of
/// bytes written never goes down, and a total size that was set stays.
pub proof fn lemma_updates_move_forward(before: DownloadView, updates: Seq<DownloadUpdateView>)
    ensures
        before.status.leads_to(before.after_all(updates).status),
        before.downloaded_size <= before.after_all(updates).downloaded_size,
        before.total_size is Some ==> before.after_all(updates).total_size == before.total_size,
    decreases updates.len(),
{
    if updates.len() > 0 {
        lemma_update_moves_forward(before, updates[0]);
        lemma_updates_move_forward(before.after(updates[0]), updates.drop_first());
    }
}

} // verus!
