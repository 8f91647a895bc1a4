//! The download manager: a bounded pool of workers and the registry of the
//! downloads that were handed to it.

use vstd::prelude::*;
use vstd::string::StringExecFns;

use crate::utility::download::shared::{DownloadProxy, SharedDownload};
use crate::utility::download::state::{Download, DownloadView};
use crate::utility::download::status::DownloadStatus;
use crate::utility::text::same_text;

verus! {

/// The number of workers that a manager has unless told otherwise. This is
/// the largest number of downloads that it performs at a time.
pub const DOWNLOAD_MANAGER_NUMBER_OF_THREADS: usize = 4;

/// The pool of worker threads of `rayon`.
#[verifier::external_type_specification]
#[verifier::external_body]
pub struct ExThreadPool(rayon::ThreadPool);

/// The error with which `rayon` reports that a pool could not be built.
#[verifier::external_type_specification]
#[verifier::external_body]
pub struct ExThreadPoolBuildError(rayon::ThreadPoolBuildError);

/// Builds a pool of `workers` worker threads; with `0`, of as many as
/// `rayon` chooses by itself.
///
/// Trusted: this is `ThreadPoolBuilder::build` of `rayon`, after
/// `num_threads`. Whether it succeeds depends on the machine, so nothing is
/// claimed of the result.
#[verifier::external_body]
fn build_pool(workers: usize) -> (pool: Result<rayon::ThreadPool, rayon::ThreadPoolBuildError>) {
    rayon::ThreadPoolBuilder::new().num_threads(workers).build()
}

/// Hands `routine`, to be called with `job`, to the pool. The call returns
/// at once; the routine runs as soon as a worker is free.
///
/// Trusted: this is `ThreadPool::spawn` of `rayon`.
#[verifier::external_body]
fn spawn<F>(pool: &rayon::ThreadPool, routine: F, job: TransferJob) where
    F: FnOnce(TransferJob) + Send + 'static,

    requires
        routine.requires((job,)),
{
    pool.spawn(move || perform(routine, job));
}

/// Performs a job: calls the routine with it.
pub fn perform<F>(routine: F, job: TransferJob) where F: FnOnce(TransferJob)
    requires
        routine.requires((job,)),
    ensures
        routine.ensures((job,), ()),
{
    routine(job)
}

/// What a worker needs to perform one download.
#[derive(Debug)]
pub struct TransferJob {
    /// The link to the resource.
    pub link: String,
    /// The path of the output file.
    pub output: String,
    /// The record of the download, to be changed by the worker.
    pub download: SharedDownload,
}

/// One entry of the registry.
#[derive(Debug)]
struct Registration {
    path: String,
    download: SharedDownload,
}

/// What an entry of the registry says: the path of an output file and the
/// cell of the download that writes to it.
pub struct RegistrationView {
    /// The path of the output file.
    pub path: Seq<char>,
    /// The cell of the download.
    pub download: SharedDownload,
}

/// Whether the registry has an entry for the path.
pub open spec fn holds(registry: Seq<RegistrationView>, path: Seq<char>) -> bool {
    exists|i: int| 0 <= i < registry.len() && #[trigger] registry[i].path == path
}

/// The place of the entry for the path, in a registry that has one.
pub open spec fn index_of(registry: Seq<RegistrationView>, path: Seq<char>) -> int {
    choose|i: int| 0 <= i < registry.len() && #[trigger] registry[i].path == path
}

/// The cell that is registered for the path, if there is one.
pub open spec fn lookup(registry: Seq<RegistrationView>, path: Seq<char>) -> Option<
    SharedDownload,
> {
    if holds(registry, path) {
        Some(registry[index_of(registry, path)].download)
    } else {
        None
    }
}

/// Whether no path has two entries.
pub open spec fn distinct(registry: Seq<RegistrationView>) -> bool {
    forall|i: int, j: int|
        0 <= i < j < registry.len() ==> #[trigger] registry[i].path != #[trigger] registry[j].path
}

/// The registry after `download` was registered for `path`: in the place
/// of the entry for that path if there was one, and else as a new entry at
/// the end.
pub open spec fn registered(
    registry: Seq<RegistrationView>,
    path: Seq<char>,
    download: SharedDownload,
) -> Seq<RegistrationView> {
    if holds(registry, path) {
        registry.update(index_of(registry, path), RegistrationView { path, download })
    } else {
        registry.push(RegistrationView { path, download })
    }
}

/// Whether the entry at `position` is marked in `marks`. An entry beyond
/// the end of the marks is not marked.
pub open spec fn marked(marks: Seq<bool>, position: int) -> bool {
    0 <= position < marks.len() && marks[position]
}

/// The entries of the registry that are not marked, in their order.
pub open spec fn kept(registry: Seq<RegistrationView>, marks: Seq<bool>) -> Seq<RegistrationView>
    decreases registry.len(),
{
    if registry.len() == 0 {
        Seq::empty()
    } else if marked(marks, registry.len() - 1) {
        kept(registry.drop_last(), marks)
    } else {
        kept(registry.drop_last(), marks).push(registry.last())
    }
}

/// The cells of the entries of the registry that are marked, in their
/// order.
pub open spec fn removed(registry: Seq<RegistrationView>, marks: Seq<bool>) -> Seq<SharedDownload>
    decreases registry.len(),
{
    if registry.len() == 0 {
        Seq::empty()
    } else if marked(marks, registry.len() - 1) {
        removed(registry.drop_last(), marks).push(registry.last().download)
    } else {
        removed(registry.drop_last(), marks)
    }
}

/// The cells that a list of handles reads, in order.
pub open spec fn sources(proxies: Seq<DownloadProxy>) -> Seq<SharedDownload> {
    Seq::new(proxies.len(), |i: int| proxies[i].source())
}

/// Whether one of the statuses is `Pending` or `Running`.
pub open spec fn some_active(statuses: Seq<DownloadStatus>) -> bool {
    exists|i: int|
        0 <= i < statuses.len() && ((#[trigger] statuses[i]) is Pending || statuses[i] is Running)
}

/// For each status, whether it is `Failed`.
pub open spec fn failures(statuses: Seq<DownloadStatus>) -> Seq<bool> {
    Seq::new(statuses.len(), |i: int| statuses[i] is Failed)
}

/// Every entry of a registry is either kept or removed.
pub proof fn lemma_kept_or_removed(registry: Seq<RegistrationView>, marks: Seq<bool>)
    ensures
        kept(registry, marks).len() + removed(registry, marks).len() == registry.len(),
    decreases registry.len(),
{
    if registry.len() > 0 {
        lemma_kept_or_removed(registry.drop_last(), marks);
    }
}

/// An entry that is kept was there before, with its cell, and was not
/// marked.
pub proof fn lemma_kept_was_there(registry: Seq<RegistrationView>, marks: Seq<bool>, i: int)
    requires
        0 <= i < kept(registry, marks).len(),
    ensures
        exists|j: int|
            0 <= j < registry.len() && !marked(marks, j) && #[trigger] registry[j] == kept(
                registry,
                marks,
            )[i],
    decreases registry.len(),
{
    let shorter = registry.drop_last();
    let before = kept(shorter, marks);
    if i < before.len() {
        lemma_kept_was_there(shorter, marks, i);
        let j = choose|j: int|
            0 <= j < shorter.len() && !marked(marks, j) && #[trigger] shorter[j] == before[i];
        assert(registry[j] == shorter[j]);
    } else {
        assert(registry[registry.len() - 1] == kept(registry, marks)[i]);
    }
}

/// An entry that was not marked is kept, with its cell.
pub proof fn lemma_unmarked_is_kept(registry: Seq<RegistrationView>, marks: Seq<bool>, j: int)
    requires
        0 <= j < registry.len(),
        !marked(marks, j),
    ensures
        exists|i: int|
            0 <= i < kept(registry, marks).len() && #[trigger] kept(registry, marks)[i]
                == registry[j],
    decreases registry.len(),
{
    let shorter = registry.drop_last();
    let before = kept(shorter, marks);
    let all = kept(registry, marks);
    if j < shorter.len() {
        lemma_unmarked_is_kept(shorter, marks, j);
        let i = choose|i: int| 0 <= i < before.len() && #[trigger] before[i] == shorter[j];
        assert(all[i] == registry[j]);
    } else {
        assert(all[all.len() - 1] == registry[j]);
    }
}

/// A cell that is handed out as removed belongs to an entry that was
/// there before and was marked.
pub proof fn lemma_removed_was_marked(registry: Seq<RegistrationView>, marks: Seq<bool>, i: int)
    requires
        0 <= i < removed(registry, marks).len(),
    ensures
        exists|j: int|
            0 <= j < registry.len() && marked(marks, j) && (#[trigger] registry[j]).download
                == removed(registry, marks)[i],
    decreases registry.len(),
{
    let shorter = registry.drop_last();
    let before = removed(shorter, marks);
    if i < before.len() {
        lemma_removed_was_marked(shorter, marks, i);
        let j = choose|j: int|
            0 <= j < shorter.len() && marked(marks, j) && (#[trigger] shorter[j]).download
                == before[i];
        assert(registry[j] == shorter[j]);
    } else {
        assert(registry[registry.len() - 1].download == removed(registry, marks)[i]);
    }
}

/// The cell of an entry that was marked is handed out as removed, and the
/// entry is not kept.
pub proof fn lemma_marked_is_removed(registry: Seq<RegistrationView>, marks: Seq<bool>, j: int)
    requires
        0 <= j < registry.len(),
        marked(marks, j),
        distinct(registry),
    ensures
        exists|i: int|
            0 <= i < removed(registry, marks).len() && #[trigger] removed(registry, marks)[i]
                == registry[j].download,
        !holds(kept(registry, marks), registry[j].path),
    decreases registry.len(),
{
    let shorter = registry.drop_last();
    let before = removed(shorter, marks);
    let all = removed(registry, marks);
    if j < shorter.len() {
        assert(distinct(shorter)) by {
            assert forall|a: int, b: int| 0 <= a < b < shorter.len() implies #[trigger] shorter[a].path
                != #[trigger] shorter[b].path by {
                assert(registry[a].path != registry[b].path);
            }
        }
        lemma_marked_is_removed(shorter, marks, j);
        let i = choose|i: int| 0 <= i < before.len() && #[trigger] before[i] == shorter[j].download;
        assert(all[i] == registry[j].download);
    } else {
        assert(all[all.len() - 1] == registry[j].download);
    }
    let stay = kept(registry, marks);
    if holds(stay, registry[j].path) {
        let k = index_of(stay, registry[j].path);
        lemma_kept_was_there(registry, marks, k);
        let m = choose|m: int|
            0 <= m < registry.len() && !marked(marks, m) && #[trigger] registry[m] == stay[k];
        if m < j {
            assert(registry[m].path != registry[j].path);
        }
        if j < m {
            assert(registry[j].path != registry[m].path);
        }
    }
}

/// Removing entries leaves no path with two entries, where none had two
/// before.
pub proof fn lemma_kept_is_distinct(registry: Seq<RegistrationView>, marks: Seq<bool>)
    requires
        distinct(registry),
    ensures
        distinct(kept(registry, marks)),
    decreases registry.len(),
{
    if registry.len() > 0 {
        let shorter = registry.drop_last();
        let before = kept(shorter, marks);
        let all = kept(registry, marks);
        assert(distinct(shorter)) by {
            assert forall|i: int, j: int| 0 <= i < j < shorter.len() implies #[trigger] shorter[i].path
                != #[trigger] shorter[j].path by {
                assert(registry[i].path != registry[j].path);
            }
        }
        lemma_kept_is_distinct(shorter, marks);
        assert forall|i: int, j: int| 0 <= i < j < all.len() implies #[trigger] all[i].path
            != #[trigger] all[j].path by {
            if j < before.len() {
                assert(before[i].path != before[j].path);
            } else {
                lemma_kept_was_there(shorter, marks, i);
                let k = choose|k: int|
                    0 <= k < shorter.len() && !marked(marks, k) && #[trigger] shorter[k]
                        == before[i];
                assert(registry[k].path != registry[registry.len() - 1].path);
            }
        }
    }
}

/// A manager for downloads of files over HTTP and HTTPS, which performs a
/// bounded number of them at a time.
#[derive(Debug)]
pub struct DownloadManager {
    pool: rayon::ThreadPool,
    entries: Vec<Registration>,
}

impl View for DownloadManager {
    type V = Seq<RegistrationView>;

    closed spec fn view(&self) -> Seq<RegistrationView> {
        Seq::new(
            self.entries@.len(),
            |i: int|
                RegistrationView {
                    path: self.entries@[i].path@,
                    download: self.entries@[i].download,
                },
        )
    }
}

impl DownloadManager {
    #[verifier::type_invariant]
    closed spec fn unique_paths(self) -> bool {
        distinct(self@)
    }

    /// The pool of workers on which this manager runs its downloads.
    pub closed spec fn workers(&self) -> rayon::ThreadPool {
        self.pool
    }

    /// Creates a manager with `pool_size` workers and an empty registry.
    /// With a `pool_size` of `0` the pool chooses the number of its workers
    /// by itself.
    ///
    /// # Errors
    /// Returns an error if creation of the underlying thread pool failed.
    pub fn new(pool_size: usize) -> (manager: Result<DownloadManager, rayon::ThreadPoolBuildError>)
        ensures
            manager matches Ok(m) ==> m@.len() == 0 && distinct(m@),
    {
        match build_pool(pool_size) {
            Ok(pool) => Ok(DownloadManager::with_pool(pool)),
            Err(error) => Err(error),
        }
    }

    /// Creates a manager with the given pool of workers and an empty
    /// registry.
    pub fn with_pool(pool: rayon::ThreadPool) -> (manager: DownloadManager)
        ensures
            manager.workers() == pool,
            manager@.len() == 0,
            distinct(manager@),
    {
        DownloadManager { pool, entries: Vec::new() }
    }

    /// Returns the number of downloads in this manager, whatever their
    /// status.
    pub fn size(&self) -> (size: usize)
        ensures
            size == self@.len(),
            distinct(self@),
    {
        proof {
            use_type_invariant(self);
        }
        self.entries.len()
    }

    /// The place of the entry for `path`, if there is one.
    fn find(&self, path: &str) -> (position: Option<usize>)
        ensures
            distinct(self@),
            position is Some <==> holds(self@, path@),
            position matches Some(i) ==> i < self@.len() && i == index_of(self@, path@)
                && self@[i as int].path == path@,
    {
        proof {
            use_type_invariant(self);
        }
        let mut i: usize = 0;
        while i < self.entries.len()
            invariant
                i <= self.entries.len(),
                distinct(self@),
                forall|j: int| 0 <= j < i ==> (#[trigger] self@[j]).path != path@,
            decreases self.entries.len() - i,
        {
            if same_text(self.entries[i].path.as_str(), path) {
                assert(self@[i as int].path == path@);
                return Some(i);
            }
            i = i + 1;
        }
        None
    }

    /// Returns a handle to the download that is registered for the output
    /// file `path_to_output_file`, and `None` if there is none.
    pub fn get_download(&self, path_to_output_file: &str) -> (proxy: Option<DownloadProxy>)
        ensures
            match proxy {
                Some(proxy) => lookup(self@, path_to_output_file@) == Some(proxy.source()),
                None => lookup(self@, path_to_output_file@) is None,
            },
    {
        match self.find(path_to_output_file) {
            Some(i) => Some(self.entries[i].download.proxy()),
            None => None,
        }
    }

    /// Registers the record `download` for the output file `path`, in the
    /// place of the one that was registered for it before, if any. Handles
    /// to that earlier download stay valid; the manager knows it no more.
    /// Returns the cell that now holds the record.
    pub fn register(&mut self, path: &str, download: Download) -> (shared: SharedDownload)
        ensures
            shared.made_with() == download@,
            final(self)@ == registered(old(self)@, path@, shared),
            final(self).workers() == old(self).workers(),
            distinct(final(self)@),
            lookup(final(self)@, path@) == Some(shared),
    {
        let shared = SharedDownload::new(download);
        let entry = Registration { path: String::from_str(path), download: shared.share() };
        let found = self.find(path);
        let ghost before = self@;
        let ghost entry_view = RegistrationView { path: path@, download: shared };
        let mut entries: Vec<Registration> = Vec::new();
        std::mem::swap(&mut self.entries, &mut entries);
        match found {
            Some(i) => {
                entries.set(i, entry);
            },
            None => {
                entries.push(entry);
            },
        }
        proof {
            lemma_registered_is_found(before, path@, shared);
            assert(Seq::new(
                entries@.len(),
                |i: int|
                    RegistrationView { path: entries@[i].path@, download: entries@[i].download },
            ) =~= registered(before, path@, shared));
        }
        std::mem::swap(&mut self.entries, &mut entries);
        proof {
            lemma_registered_is_found(before, path@, shared);
        }
        shared
    }

    /// Downloads a file via HTTP or HTTPS. The download is registered as
    /// pending for the output file `output`, in the place of an earlier one
    /// for that file, and `routine` is handed to the pool together with the
    /// link, the path and the cell of the download. The call returns at
    /// once; the routine runs as soon as a worker is free.
    pub fn download<F>(&mut self, link: &str, output: &str, routine: F) where
        F: FnOnce(TransferJob) + Send + 'static,

        requires
            forall|job: TransferJob| #[trigger] routine.requires((job,)),
        ensures
            exists|shared: SharedDownload|
                final(self)@ == #[trigger] registered(old(self)@, output@, shared)
                    && shared.made_with() == DownloadView::pending(),
            final(self).workers() == old(self).workers(),
            distinct(final(self)@),
            lookup(final(self)@, output@) matches Some(shared) && shared.made_with()
                == DownloadView::pending(),
            forall|path: Seq<char>|
                path != output@ ==> lookup(final(self)@, path) == lookup(old(self)@, path),
            final(self)@.len() == old(self)@.len() + (if holds(old(self)@, output@) {
                0int
            } else {
                1int
            }),
    {
        proof {
            use_type_invariant(&*self);
        }
        let ghost before = self@;
        let shared = self.register(output, Download::pending());
        proof {
            lemma_registered_is_found(before, output@, shared);
        }
        let job = TransferJob {
            link: String::from_str(link),
            output: String::from_str(output),
            download: shared,
        };
        spawn(&self.pool, routine, job);
    }

    /// The status of each registered download as it is at the moment of the
    /// call, in the order of the registry. Each is read under the lock of
    /// its own download; the statuses are not read at one moment.
    pub fn statuses(&self) -> (statuses: Vec<DownloadStatus>)
        ensures
            statuses.len() == self@.len(),
    {
        let mut statuses: Vec<DownloadStatus> = Vec::new();
        let mut i: usize = 0;
        while i < self.entries.len()
            invariant
                i <= self.entries.len(),
                statuses.len() == i,
            decreases self.entries.len() - i,
        {
            statuses.push(self.entries[i].download.snapshot().status().duplicate());
            i = i + 1;
        }
        statuses
    }

    /// Returns `true` if pending or running downloads are present, and
    /// `false` if every download has ended, well or badly.
    pub fn has_active(&self) -> (active: bool)
        ensures
            exists|statuses: Seq<DownloadStatus>|
                statuses.len() == self@.len() && active == #[trigger] some_active(statuses),
            active ==> self@.len() > 0,
    {
        let statuses = self.statuses();
        let active = any_active(&statuses);
        proof {
            if active {
                let i = choose|i: int|
                    0 <= i < statuses@.len() && ((#[trigger] statuses@[i]) is Pending
                        || statuses@[i] is Running);
            }
        }
        active
    }

    /// Removes the entries that are marked in `marks` from the registry,
    /// and returns a handle to the download of each. The other entries stay
    /// as they are and in their order.
    pub fn remove_marked(&mut self, marks: &Vec<bool>) -> (taken: Vec<DownloadProxy>)
        ensures
            final(self)@ == kept(old(self)@, marks@),
            final(self).workers() == old(self).workers(),
            sources(taken@) == removed(old(self)@, marks@),
            taken.len() + final(self)@.len() == old(self)@.len(),
            distinct(final(self)@),
    {
        proof {
            use_type_invariant(&*self);
        }
        let ghost before = self@;
        let mut stay: Vec<Registration> = Vec::new();
        let mut taken: Vec<DownloadProxy> = Vec::new();
        let mut i: usize = 0;
        while i < self.entries.len()
            invariant
                i <= self.entries.len(),
                self@ == before,
                Seq::new(
                    stay@.len(),
                    |k: int| RegistrationView { path: stay@[k].path@, download: stay@[k].download },
                ) == kept(before.take(i as int), marks@),
                sources(taken@) == removed(before.take(i as int), marks@),
            decreases self.entries.len() - i,
        {
            let ghost shorter = before.take(i as int);
            let ghost longer = before.take(i + 1);
            assert(longer.drop_last() =~= shorter);
            assert(longer.last() == before[i as int]);
            if i < marks.len() && marks[i] {
                taken.push(self.entries[i].download.proxy());
                assert(sources(taken@) =~= removed(longer, marks@));
            } else {
                stay.push(
                    Registration {
                        path: self.entries[i].path.clone(),
                        download: self.entries[i].download.share(),
                    },
                );
                assert(Seq::new(
                    stay@.len(),
                    |k: int| RegistrationView { path: stay@[k].path@, download: stay@[k].download },
                ) =~= kept(longer, marks@));
            }
            i = i + 1;
        }
        proof {
            assert(before.take(i as int) =~= before);
            lemma_kept_or_removed(before, marks@);
            lemma_kept_is_distinct(before, marks@);
            assert(sources(taken@).len() == taken@.len());
        }
        self.entries = stay;
        assert(self@ =~= kept(before, marks@));
        taken
    }

    /// Removes all failed downloads from the manager and returns a handle
    /// to each of them. The status of each download is read once, under its
    /// lock, and an entry leaves the registry exactly if its download was
    /// found failed at that moment.
    pub fn remove_failed(&mut self) -> (failed: Vec<DownloadProxy>)
        ensures
            exists|statuses: Seq<DownloadStatus>|
                statuses.len() == old(self)@.len() && final(self)@ == #[trigger] kept(
                    old(self)@,
                    failures(statuses),
                ) && sources(failed@) == removed(old(self)@, failures(statuses)),
            failed.len() + final(self)@.len() == old(self)@.len(),
            final(self).workers() == old(self).workers(),
            distinct(final(self)@),
    {
        let statuses = self.statuses();
        let marks = failed_marks(&statuses);
        self.remove_marked(&marks)
    }
}

/// After a download was registered for a path, it is the one that is found
/// there, and what is found at any other path is what was found before.
/// The registry has grown by one entry if the path was new, and not at all
/// if it was known.
pub proof fn lemma_registered_is_found(
    registry: Seq<RegistrationView>,
    path: Seq<char>,
    download: SharedDownload,
)
    requires
        distinct(registry),
    ensures
        distinct(registered(registry, path, download)),
        lookup(registered(registry, path, download), path) == Some(download),
        forall|other: Seq<char>|
            other != path ==> lookup(registered(registry, path, download), other) == lookup(
                registry,
                other,
            ),
        registered(registry, path, download).len() == registry.len() + (if holds(registry, path) {
            0int
        } else {
            1int
        }),
{
    let after = registered(registry, path, download);
    let entry = RegistrationView { path, download };
    let place = if holds(registry, path) {
        index_of(registry, path)
    } else {
        registry.len() as int
    };
    assert(after[place].path == path);
    assert forall|i: int, j: int| 0 <= i < j < after.len() implies #[trigger] after[i].path
        != #[trigger] after[j].path by {
        if holds(registry, path) {
            assert(registry[i].path != registry[j].path);
            if i == place {
                assert(registry[place].path == path);
            }
            if j == place {
                assert(registry[place].path == path);
            }
        } else {
            if j < registry.len() {
                assert(registry[i].path != registry[j].path);
            } else {
                assert(registry[i].path != path);
            }
        }
    }
    assert(holds(after, path));
    assert(index_of(after, path) == place) by {
        let k = index_of(after, path);
        if k < place {
            assert(after[k].path != after[place].path);
        }
        if place < k {
            assert(after[place].path != after[k].path);
        }
    }
    assert forall|other: Seq<char>| other != path implies lookup(after, other) == lookup(
        registry,
        other,
    ) by {
        if holds(registry, other) {
            let k = index_of(registry, other);
            assert(after[k].path == other);
            let m = index_of(after, other);
            if m < k {
                assert(after[m].path != after[k].path);
            }
            if k < m {
                assert(after[k].path != after[m].path);
            }
        } else {
            if holds(after, other) {
                let m = index_of(after, other);
                if m < registry.len() {
                    assert(registry[m].path == other);
                }
            }
        }
    }
}

/// Tells whether one of the statuses is `Pending` or `Running`.
pub fn any_active(statuses: &Vec<DownloadStatus>) -> (active: bool)
    ensures
        active == some_active(statuses@),
{
    let mut i: usize = 0;
    while i < statuses.len()
        invariant
            i <= statuses.len(),
            forall|j: int| 0 <= j < i ==> !((#[trigger] statuses@[j]) is Pending || statuses@[j] is Running),
        decreases statuses.len() - i,
    {
        if statuses[i].is_active() {
            return true;
        }
        i = i + 1;
    }
    false
}

/// Tells for each status whether it is `Failed`.
pub fn failed_marks(statuses: &Vec<DownloadStatus>) -> (marks: Vec<bool>)
    ensures
        marks@ == failures(statuses@),
{
    let mut marks: Vec<bool> = Vec::new();
    let mut i: usize = 0;
    while i < statuses.len()
        invariant
            i <= statuses.len(),
            marks@ == failures(statuses@.take(i as int)),
        decreases statuses.len() - i,
    {
        marks.push(statuses[i].is_failed());
        assert(marks@ =~= failures(statuses@.take(i + 1)));
        i = i + 1;
    }
    assert(statuses@.take(i as int) =~= statuses@);
    marks
}

} // verus!
