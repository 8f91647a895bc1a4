//! The cell through which the worker of a download and its observers meet.
//!
//! The record of a download lives behind a lock. Its worker changes it, any
//! number of observers read it, and each of them holds the lock only for
//! the one read or the one change. What is behind the lock can change
//! between any two visits, so nothing here promises what a read finds.

use std::sync::Arc;
use vstd::prelude::*;

use crate::utility::download::error::DownloadError;
use crate::utility::download::state::{Download, DownloadUpdate, DownloadView, SpeedSample};
use crate::utility::download::status::share;

verus! {

/// The mutual-exclusion lock of `parking_lot`.
#[verifier::external_type_specification]
#[verifier::external_body]
#[verifier::reject_recursive_types(R)]
#[verifier::reject_recursive_types(T)]
pub struct ExMutex<R, T: ?Sized>(parking_lot::lock_api::Mutex<R, T>);

/// The raw lock inside the `Mutex` of `parking_lot`.
#[verifier::external_type_specification]
#[verifier::external_body]
pub struct ExRawMutex(parking_lot::RawMutex);

/// A record of a download whose lock is held. The lock is given back when
/// this value goes out of scope.
///
/// Trusted: this holds the `MutexGuard` of `parking_lot`, a type that
/// cannot be declared by itself because it is bounded by a trait of that
/// crate.
#[verifier::external_body]
struct LockedDownload<'a> {
    guard: parking_lot::MutexGuard<'a, Download>,
}

/// The record that a lock was made with. What is behind the lock later is
/// another matter.
pub uninterp spec fn first_record(cell: parking_lot::Mutex<Download>) -> DownloadView;

/// Puts a record behind a new lock.
///
/// Trusted: this is `Mutex::new` of `parking_lot`, which makes an unlocked
/// lock around the value that it is given.
#[verifier::external_body]
fn new_cell(record: Download) -> (cell: parking_lot::Mutex<Download>)
    ensures
        first_record(cell) == record@,
{
    parking_lot::Mutex::new(record)
}

/// Waits for the lock of a record and takes it.
///
/// Trusted: this is `Mutex::lock` of `parking_lot`. Nothing is claimed of
/// what is found behind the lock.
#[verifier::external_body]
fn lock<'a>(cell: &'a parking_lot::Mutex<Download>) -> (locked: LockedDownload<'a>) {
    LockedDownload { guard: cell.lock() }
}

/// The record whose lock is held.
///
/// Trusted: this dereferences the `MutexGuard` of `parking_lot`. Nothing is
/// claimed of the record.
#[verifier::external_body]
fn locked_record<'a, 'b>(locked: &'b LockedDownload<'a>) -> (record: &'b Download) {
    &*locked.guard
}

/// Puts a new record in the place of the one whose lock is held.
///
/// Trusted: this assigns through the `MutexGuard` of `parking_lot`.
#[verifier::external_body]
fn put_record<'a>(locked: &mut LockedDownload<'a>, record: Download) {
    *locked.guard = record;
}

/// The record of one download, shared between its worker and its
/// observers.
#[derive(Debug)]
pub struct SharedDownload {
    cell: Arc<parking_lot::Mutex<Download>>,
}

impl SharedDownload {
    /// The record that this cell was made with. It is what every observer
    /// finds until the worker makes its first change.
    pub closed spec fn made_with(&self) -> DownloadView {
        first_record(*self.cell)
    }

    /// Puts the record `download` into a cell of its own.
    pub fn new(download: Download) -> (shared: Self)
        ensures
            shared.made_with() == download@,
    {
        SharedDownload { cell: Arc::new(new_cell(download)) }
    }

    /// Another handle to the same cell.
    pub fn share(&self) -> (shared: Self)
        ensures
            shared == *self,
    {
        SharedDownload { cell: share(&self.cell) }
    }

    /// A copy of the record as it is at the moment of the call, taken under
    /// the lock. Whatever the moment, the fields of the record fit together.
    pub fn snapshot(&self) -> (record: Download)
        ensures
            record@.is_sound(),
    {
        let locked = lock(&self.cell);
        locked_record(&locked).duplicate()
    }

    /// Makes the change `update` to the record, as far as the order of the
    /// statuses allows it. The record is read, changed and put back while
    /// the lock is held, so no other change can come in between.
    pub fn update(&self, update: DownloadUpdate) {
        let mut locked = lock(&self.cell);
        let mut record = locked_record(&locked).duplicate();
        record.apply(update);
        put_record(&mut locked, record);
    }

    /// A handle for observers of this download.
    pub fn proxy(&self) -> (proxy: DownloadProxy)
        ensures
            proxy.source() == *self,
    {
        DownloadProxy { download: self.share() }
    }
}

/// Ends the download behind `download` with the error `failure`, unless it
/// has ended already.
pub fn fail_download(failure: DownloadError, download: &SharedDownload) {
    download.update(DownloadUpdate::Fail(failure));
}

/// A handle through which the record of a download can be read and not
/// changed.
#[derive(Debug)]
pub struct DownloadProxy {
    download: SharedDownload,
}

impl DownloadProxy {
    /// The cell that this handle reads.
    pub closed spec fn source(&self) -> SharedDownload {
        self.download
    }

    /// A copy of the record as it is at the moment of the call. All of its
    /// fields were read under one hold of the lock, so they fit together.
    pub fn snapshot(&self) -> (record: Download)
        ensures
            record@.is_sound(),
    {
        self.download.snapshot()
    }

    /// Writes the record as it is at the moment of the call: the text of a
    /// record whose fields fit together.
    pub fn to_string(&self) -> (text: String)
        ensures
            exists|record: DownloadView| record.is_sound() && text@ == #[trigger] record.text(),
    {
        let record = self.download.snapshot();
        record.to_string()
    }

    /// Returns `true` if the download is waiting to be started.
    pub fn is_pending(&self) -> (pending: bool) {
        self.download.snapshot().status().is_pending()
    }

    /// Returns `true` if the download is currently performed.
    pub fn is_running(&self) -> (running: bool) {
        self.download.snapshot().status().is_running()
    }

    /// Returns `true` if the download was completed without errors.
    pub fn is_successful(&self) -> (successful: bool) {
        self.download.snapshot().status().is_successful()
    }

    /// Returns `true` if the download did fail due to an error.
    pub fn is_failed(&self) -> (failed: bool) {
        self.download.snapshot().status().is_failed()
    }

    /// Returns the error that ended the download, if any.
    pub fn get_error(&self) -> (error: Option<Arc<DownloadError>>) {
        self.download.snapshot().status().get_error()
    }

    /// Returns the number of bytes written so far.
    pub fn get_downloaded_size(&self) -> (bytes: u64) {
        self.download.snapshot().get_downloaded_size()
    }

    /// Returns the number of bytes that the server announced, if it did.
    pub fn get_total_size(&self) -> (total: Option<u64>) {
        self.download.snapshot().get_total_size()
    }

    /// Returns the speed as it was last measured, if the download is
    /// running.
    pub fn get_download_speed(&self) -> (speed: Option<SpeedSample>) {
        self.download.snapshot().get_download_speed()
    }
}

} // verus!
