//! The status of a download and the order in which statuses follow each
//! other.

use std::sync::Arc;
use vstd::prelude::*;
use vstd::std_specs::convert::FromSpecImpl;
use vstd::string::StringExecFns;

use crate::utility::download::error::{
    DownloadError,
    DownloadErrorView,
    IoFailure,
    TransportFailure,
};

verus! {

/// The current status of a download.
#[derive(Debug)]
pub enum DownloadStatus {
    /// The download was completed without errors.
    Successful,
    /// The download failed due to the specified error.
    Failed(Arc<DownloadError>),
    /// The download is currently waiting to be started.
    Pending,
    /// The download is currently running.
    Running,
}

/// Hands out a second pointer to the value that `source` points to.
///
/// Trusted: this is `Arc::clone`, which makes another pointer to the same
/// allocation, so both point to the same value.
#[verifier::external_body]
pub(crate) fn share<T>(source: &Arc<T>) -> (shared: Arc<T>)
    ensures
        shared == *source,
{
    Arc::clone(source)
}

/// What a status says, with the cause of a failure given by what it says.
pub enum DownloadStatusView {
    /// The download was completed without errors.
    Successful,
    /// The download failed due to the specified error.
    Failed(DownloadErrorView),
    /// The download is currently waiting to be started.
    Pending,
    /// The download is currently running.
    Running,
}

impl DownloadStatusView {
    /// How far a download with this status has come: `0` while it waits,
    /// `1` while it runs, `2` once it has ended.
    pub open spec fn rank(self) -> nat {
        match self {
            DownloadStatusView::Pending => 0,
            DownloadStatusView::Running => 1,
            DownloadStatusView::Successful => 2,
            DownloadStatusView::Failed(_) => 2,
        }
    }

    /// A terminal status is one that a download never leaves: `Successful`
    /// or `Failed`.
    pub open spec fn is_terminal(self) -> bool {
        self is Successful || self is Failed
    }

    /// Whether a download with this status may take the status `next` in
    /// one step: a waiting download starts running or fails, a running one
    /// succeeds or fails, and nothing follows a terminal status.
    pub open spec fn steps_to(self, next: DownloadStatusView) -> bool {
        match self {
            DownloadStatusView::Pending => next is Running || next is Failed,
            DownloadStatusView::Running => next is Successful || next is Failed,
            DownloadStatusView::Successful => false,
            DownloadStatusView::Failed(_) => false,
        }
    }

    /// Whether a download with this status may later be seen with the
    /// status `later`: either nothing changed, or it has moved forward.
    pub open spec fn leads_to(self, later: DownloadStatusView) -> bool {
        self == later || (!self.is_terminal() && self.rank() < later.rank())
    }
}

impl DownloadStatusView {
    /// The text of the status: its name, and for a failed download the
    /// description of the cause in brackets behind it.
    pub open spec fn text(self) -> Seq<char> {
        match self {
            DownloadStatusView::Successful => "Successful"@,
            DownloadStatusView::Failed(cause) => "Failed("@ + cause.text() + ")"@,
            DownloadStatusView::Pending => "Pending"@,
            DownloadStatusView::Running => "Running"@,
        }
    }
}

impl View for DownloadStatus {
    type V = DownloadStatusView;

    open spec fn view(&self) -> DownloadStatusView {
        match self {
            DownloadStatus::Successful => DownloadStatusView::Successful,
            DownloadStatus::Failed(cause) => DownloadStatusView::Failed(cause@),
            DownloadStatus::Pending => DownloadStatusView::Pending,
            DownloadStatus::Running => DownloadStatusView::Running,
        }
    }
}

impl DownloadStatus {
    /// Returns `true` if the status is `Pending`.
    pub fn is_pending(&self) -> (pending: bool)
        ensures
            pending == (self is Pending),
    {
        match self {
            DownloadStatus::Pending => true,
            _ => false,
        }
    }

    /// Returns `true` if the status is `Running`.
    pub fn is_running(&self) -> (running: bool)
        ensures
            running == (self is Running),
    {
        match self {
            DownloadStatus::Running => true,
            _ => false,
        }
    }

    /// Returns `true` if the status is `Successful`.
    pub fn is_successful(&self) -> (successful: bool)
        ensures
            successful == (self is Successful),
    {
        match self {
            DownloadStatus::Successful => true,
            _ => false,
        }
    }

    /// Returns `true` if the status is `Failed`.
    pub fn is_failed(&self) -> (failed: bool)
        ensures
            failed == (self is Failed),
    {
        match self {
            DownloadStatus::Failed(_) => true,
            _ => false,
        }
    }

    /// Returns `true` if the download waits or runs.
    pub fn is_active(&self) -> (active: bool)
        ensures
            active == (self is Pending || self is Running),
            active == !self@.is_terminal(),
    {
        match self {
            DownloadStatus::Pending => true,
            DownloadStatus::Running => true,
            _ => false,
        }
    }

    /// Returns the cause of a failed download, and `None` if the download
    /// did not fail.
    pub fn get_error(&self) -> (error: Option<Arc<DownloadError>>)
        ensures
            error is Some <==> self is Failed,
            self matches DownloadStatus::Failed(cause) ==> error == Some(*cause),
    {
        match self {
            DownloadStatus::Failed(cause) => Some(share(cause)),
            _ => None,
        }
    }

    /// Writes this status as text.
    pub fn to_string(&self) -> (text: String)
        ensures
            text@ == self@.text(),
    {
        match self {
            DownloadStatus::Successful => String::from_str("Successful"),
            DownloadStatus::Failed(cause) => {
                let mut text = String::from_str("Failed(");
                let description = cause.to_string();
                text.append(description.as_str());
                text.append(")");
                assert(text@ =~= self@.text());
                text
            },
            DownloadStatus::Pending => String::from_str("Pending"),
            DownloadStatus::Running => String::from_str("Running"),
        }
    }

    /// A copy of this status. A failed status shares its cause with the
    /// copy.
    pub fn duplicate(&self) -> (copy: Self)
        ensures
            copy == *self,
    {
        match self {
            DownloadStatus::Successful => DownloadStatus::Successful,
            DownloadStatus::Failed(cause) => DownloadStatus::Failed(share(cause)),
            DownloadStatus::Pending => DownloadStatus::Pending,
            DownloadStatus::Running => DownloadStatus::Running,
        }
    }
}

impl From<IoFailure> for DownloadStatus {
    fn from(error: IoFailure) -> (status: Self) {
        DownloadStatus::Failed(Arc::new(DownloadError::IoError(error)))
    }
}

impl FromSpecImpl<IoFailure> for DownloadStatus {
    open spec fn obeys_from_spec() -> bool {
        true
    }

    open spec fn from_spec(error: IoFailure) -> Self {
        DownloadStatus::Failed(Arc::new(DownloadError::IoError(error)))
    }
}

impl From<TransportFailure> for DownloadStatus {
    fn from(error: TransportFailure) -> (status: Self) {
        DownloadStatus::Failed(Arc::new(DownloadError::TransportError(error)))
    }
}

impl FromSpecImpl<TransportFailure> for DownloadStatus {
    open spec fn obeys_from_spec() -> bool {
        true
    }

    open spec fn from_spec(error: TransportFailure) -> Self {
        DownloadStatus::Failed(Arc::new(DownloadError::TransportError(error)))
    }
}

/// A status never leads back: whatever can be seen later has at least the
/// rank of what was seen before, and a terminal status leads only to itself.
pub proof fn lemma_leads_to_is_forward(earlier: DownloadStatusView, later: DownloadStatusView)
    requires
        earlier.leads_to(later),
    ensures
        earlier.rank() <= later.rank(),
        earlier.is_terminal() ==> later == earlier,
{
}

/// One step is a move forward, and moves forward can be chained.
pub proof fn lemma_leads_to_is_a_preorder(
    a: DownloadStatusView,
    b: DownloadStatusView,
    c: DownloadStatusView,
)
    ensures
        a.leads_to(a),
        a.steps_to(b) ==> a.leads_to(b),
        a.leads_to(b) && b.leads_to(c) ==> a.leads_to(c),
{
}

} // verus!
