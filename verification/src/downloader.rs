use vstd::prelude::*;

use crate::installer::{
    deletion_post, deletion_step, extraction_batch_clean, extraction_failure, extraction_post,
    extraction_step, BatchReturn, FsAction, ZipFileHandler,
};
use crate::numtext::{decimal_string, spec_i32_decimal};
use crate::zipio::{zip_entry_err, zip_entry_ok, zip_open, zip_parse_err, zip_parse_ok, zip_parsed};

verus! {

/// Configuration applied to every future batch.
#[derive(Debug, Clone, Copy, PartialEq, Eq, Structural)]
pub struct DownloadOptions {
    pub batch_size: usize,
}

/// Where the engine stands. Absence of an active installer and of an owned
/// request means idle, which `NoDownload` names.
#[derive(Debug, Clone, PartialEq, Eq)]
pub enum DownloadStatus {
    NoDownload,
    Downloading,
    CleaningDestination,
    Extracting,
    Failed(String),
}

/// The outcome slot of a request: written exactly once, by the engine, on
/// the request's terminal path.
#[derive(Debug, Clone, PartialEq, Eq)]
pub enum TaskStatus {
    InProgress,
    Success(Option<String>),
    Failure(String),
}

/// One caller-submitted unit of work: what to fetch, where to install it,
/// an optional batch-size override, and the result slot.
#[derive(Debug, Clone)]
pub struct Task {
    pub url: String,
    pub folder: String,
    pub batch_size: Option<u64>,
    pub status: TaskStatus,
}

/// The phase a progress event reports. The wire encoding numbers the phases
/// in this order, starting at zero.
#[derive(Debug, Clone, Copy, PartialEq, Eq, Structural)]
pub enum DownloadPhase {
    Downloading,
    CleaningDestination,
    Extracting,
}

impl DownloadPhase {
    /// The numeric code the progress event carries for this phase.
    pub fn code(&self) -> (r: u8)
        ensures
            self is Downloading ==> r == 0,
            self is CleaningDestination ==> r == 1,
            self is Extracting ==> r == 2,
    {
        match self {
            DownloadPhase::Downloading => 0,
            DownloadPhase::CleaningDestination => 1,
            DownloadPhase::Extracting => 2,
        }
    }
}

/// One outbound progress event: only the fields that concern the current
/// phase are populated, the others stay empty.
#[derive(Debug, Clone)]
pub struct ProgressUpdate {
    pub phase: DownloadPhase,
    pub deleted: Option<usize>,
    pub total_to_unzip: Option<usize>,
    pub unzipped: Option<usize>,
}

/// The progress event a freshly accepted request emits.
pub open spec fn initial_progress() -> ProgressUpdate {
    ProgressUpdate {
        phase: DownloadPhase::Downloading,
        deleted: None,
        total_to_unzip: None,
        unzipped: None,
    }
}

/// What a submission asks its host to do next.
pub enum DownloadAction {
    /// An installation was already active; the new request is handed back
    /// untouched and nothing was recorded.
    Dropped { task: Task },
    /// The request was recorded but refused before any network work; its
    /// failure is reported on the next tick.
    Rejected { progress: ProgressUpdate },
    /// The request was recorded; the host should fetch `url` and hand the
    /// outcome to `on_fetch_complete` together with `folder`.
    StartFetch { progress: ProgressUpdate, url: String, folder: String },
}

/// What one tick asks its host to do.
pub enum TickOutput {
    /// Nothing to do.
    Noop,
    /// Report progress and perform the batch's destination actions, in order.
    Progress { update: ProgressUpdate, actions: Vec<FsAction> },
    /// The active request reached its terminal outcome; deliver it.
    Resolved { task: Task },
}

/// The download-and-install engine: owns at most one active installation,
/// decides every transition, and leaves network and filesystem work to the
/// host through the values its methods return.
pub struct NavdataDownloader {
    pub zip_handler: Option<ZipFileHandler>,
    pub download_status: DownloadStatus,
    pub options: DownloadOptions,
    pub task: Option<Task>,
}

/// The stored batch size a configuration value `b` leads to: at least one,
/// at most the machine's limit.
pub open spec fn clamped_batch(b: u64) -> usize {
    if b == 0 {
        1usize
    } else if b > usize::MAX as u64 {
        usize::MAX
    } else {
        b as usize
    }
}

/// Every configuration value, zero included, stores a batch size of at
/// least one; together with the well-formedness bound, the installer is
/// never driven with zero.
pub proof fn lemma_configured_batch_positive(b: u64)
    ensures
        clamped_batch(b) >= 1,
{
}

impl NavdataDownloader {
    /// An installation is in flight: a fetch was issued or batches are being
    /// driven.
    pub open spec fn installation_active(self) -> bool {
        ||| self.download_status is Downloading
        ||| self.download_status is CleaningDestination
        ||| self.download_status is Extracting
    }

    /// Nothing owned, nothing in flight.
    pub open spec fn is_idle(self) -> bool {
        &&& self.download_status is NoDownload
        &&& self.zip_handler is None
        &&& self.task is None
    }

    pub open spec fn wf(self) -> bool {
        &&& self.options.batch_size >= 1
        &&& (self.zip_handler matches Some(h) ==> h.wf())
        &&& (self.zip_handler is Some ==> self.installation_active())
        &&& ((self.download_status is CleaningDestination || self.download_status is Extracting)
            ==> self.zip_handler is Some)
        &&& (self.task is Some <==> !(self.download_status is NoDownload))
        &&& (self.task matches Some(t) ==> t.status is InProgress)
    }

    pub fn new() -> (r: NavdataDownloader)
        ensures
            r.wf(),
            r.is_idle(),
            r.options.batch_size == 10,
    {
        NavdataDownloader {
            zip_handler: None,
            download_status: DownloadStatus::NoDownload,
            options: DownloadOptions { batch_size: 10 },  // default batch size
            task: None,
        }
    }

    /// Applies a batch-size value carried by a configuring request to all
    /// future batches, clamped to at least one; a request without a usable
    /// value changes nothing. Either way the request is handed back marked
    /// succeeded.
    pub fn set_download_options(&mut self, task: Task) -> (r: Task)
        requires
            old(self).wf(),
        ensures
            final(self).wf(),
            final(self).download_status == old(self).download_status,
            final(self).zip_handler == old(self).zip_handler,
            final(self).task == old(self).task,
            task.batch_size matches Some(b) ==> final(self).options.batch_size == clamped_batch(b),
            task.batch_size is None ==> final(self).options == old(self).options,
            r.status matches TaskStatus::Success(p) && p is None,
            r.url == task.url,
            r.folder == task.folder,
            r.batch_size == task.batch_size,
    {
        let mut task = task;
        match task.batch_size {
            Some(b) => {
                let bs: usize = if b == 0 {
                    1
                } else if b > usize::MAX as u64 {
                    usize::MAX
                } else {
                    b as usize
                };
                self.options.batch_size = bs;
            },
            None => {},
        }
        task.status = TaskStatus::Success(None);
        task
    }

    /// Accepts a request when no installation is active: records it,
    /// reports the initial progress, and either refuses it at once (missing
    /// url or folder) or asks the host to start the fetch. While an
    /// installation is active the new request is dropped, silently and
    /// untouched; deliberately, the same happens while a failed one still
    /// owes its report to the next tick, so that report is never lost.
    pub fn download(&mut self, task: Task) -> (r: DownloadAction)
        requires
            old(self).wf(),
        ensures
            final(self).wf(),
            final(self).options == old(self).options,
            !(old(self).download_status is NoDownload) ==> (r matches DownloadAction::Dropped {
                task: t } && t == task && *final(self) == *old(self)),
            old(self).download_status is NoDownload && (task.url@.len() == 0 || task.folder@.len()
                == 0) ==> {
                &&& r matches DownloadAction::Rejected { progress } && progress == initial_progress()
                &&& final(self).download_status matches DownloadStatus::Failed(m) && m@
                    == "No url or folder provided"@
                &&& final(self).zip_handler is None
                &&& stored_task_matches(*final(self), task)
            },
            old(self).download_status is NoDownload && task.url@.len() > 0 && task.folder@.len()
                > 0 ==> {
                &&& r matches DownloadAction::StartFetch { progress, url, folder } && progress
                    == initial_progress() && url == task.url && folder == task.folder
                &&& final(self).download_status is Downloading
                &&& final(self).zip_handler is None
                &&& stored_task_matches(*final(self), task)
            },
    {
        match self.download_status {
            DownloadStatus::NoDownload => {},
            _ => {
                return DownloadAction::Dropped { task };
            },
        }
        self.download_status = DownloadStatus::Downloading;
        let progress = ProgressUpdate {
            phase: DownloadPhase::Downloading,
            deleted: None,
            total_to_unzip: None,
            unzipped: None,
        };
        let url = task.url.clone();
        let folder = task.folder.clone();
        self.task = Some(
            Task {
                url: task.url,
                folder: task.folder,
                batch_size: task.batch_size,
                status: TaskStatus::InProgress,
            },
        );
        if url.as_str().is_empty() || folder.as_str().is_empty() {
            self.download_status = DownloadStatus::Failed(
                String::from_str("No url or folder provided"),
            );
            return DownloadAction::Rejected { progress };
        }
        DownloadAction::StartFetch { progress, url, folder }
    }

    /// A fetch was issued and its completion callback has not arrived yet.
    pub open spec fn awaiting_fetch(self) -> bool {
        self.download_status is Downloading && self.zip_handler is None
    }

    /// Consumes the outcome of the one fetch the active request issued:
    /// a transport failure or an empty body fails the installation; a body
    /// that parses as an archive becomes the active installer over exactly
    /// its entries, bound to the destination for `folder` and to the
    /// destination entries the host found there, which installation will
    /// delete first; a body that does not parse fails it with the decoder's
    /// text. The phase moves on at the next tick, not here. A call that no
    /// issued fetch is waiting for changes nothing.
    pub fn on_fetch_complete(
        &mut self,
        status_code: i32,
        data: Option<Vec<u8>>,
        folder: String,
        existing_files: Vec<Vec<u8>>,
    )
        requires
            old(self).wf(),
        ensures
            final(self).wf(),
            final(self).options == old(self).options,
            !old(self).awaiting_fetch() ==> *final(self) == *old(self),
            old(self).awaiting_fetch() ==> final(self).task == old(self).task,
            old(self).awaiting_fetch() && status_code != 200 ==> {
                &&& final(self).zip_handler is None
                &&& final(self).download_status matches DownloadStatus::Failed(m) && m@
                    == "Failed to download file. Status code: "@ + spec_i32_decimal(
                    status_code as int,
                )
            },
            old(self).awaiting_fetch() && status_code == 200 && body_empty(data) ==> {
                &&& final(self).zip_handler is None
                &&& final(self).download_status matches DownloadStatus::Failed(m) && m@
                    == "No data received"@
            },
            old(self).awaiting_fetch() && status_code == 200 ==> (data matches Some(d)
                ==> (d@.len() > 0 ==> {
                &&& (zip_parse_ok(d@) ==> {
                    &&& final(self).download_status is Downloading
                    &&& final(self).zip_handler matches Some(h)
                    &&& h.entries() == zip_parsed(d@)
                    &&& h.zip_file_count == zip_parsed(d@).len()
                    &&& h.destination@ == work_dest(folder@)
                    &&& h.current_file_index == 0
                    &&& h.deleted == 0
                    &&& h.pending_deletions == existing_files
                })
                &&& (!zip_parse_ok(d@) ==> {
                    &&& final(self).zip_handler is None
                    &&& final(self).download_status matches DownloadStatus::Failed(m) && m@
                        == "Failed to create zip archive: "@ + zip_parse_err(d@)
                })
            })),
    {
        if !(matches!(self.download_status, DownloadStatus::Downloading)
            && self.zip_handler.is_none()) {
            return ;
        }
        if status_code != 200 {
            let mut m = String::from_str("Failed to download file. Status code: ");
            let code_text = decimal_string(status_code);
            m.append(code_text.as_str());
            self.download_status = DownloadStatus::Failed(m);
            return ;
        }
        let bytes = match data {
            Some(d) => {
                if d.len() == 0 {
                    self.download_status = DownloadStatus::Failed(
                        String::from_str("No data received"),
                    );
                    return ;
                }
                d
            },
            None => {
                self.download_status = DownloadStatus::Failed(
                    String::from_str("No data received"),
                );
                return ;
            },
        };
        match zip_open(bytes) {
            Ok(archive) => {
                let dest = work_path(folder.as_str());
                let handler = ZipFileHandler::new(archive, dest, existing_files);
                self.zip_handler = Some(handler);
            },
            Err(e) => {
                let mut m = String::from_str("Failed to create zip archive: ");
                m.append(e.as_str());
                self.download_status = DownloadStatus::Failed(m);
            },
        }
    }
}

/// The fetch handed back no usable body.
pub open spec fn body_empty(data: Option<Vec<u8>>) -> bool {
    match data {
        None => true,
        Some(d) => d@.len() == 0,
    }
}

/// One tick hands back the request `t`, resolved with outcome `st`.
pub open spec fn resolves(r: TickOutput, t: Task, st: TaskStatus) -> bool {
    r matches TickOutput::Resolved { task } && task.url == t.url && task.folder == t.folder
        && task.batch_size == t.batch_size && task.status == st
}

impl NavdataDownloader {
    /// One bounded slice of work, meant to be driven at the host's cadence.
    /// A failure owed from any earlier step is reported first and the engine
    /// returns to idle. With no installer there is nothing to do. An
    /// installer with work left runs one batch: a deletion batch reports the
    /// cleaning phase, an extraction batch the extracting phase with its
    /// counts, and a batch error resolves the request as failed with the
    /// batch's message. The batch that finishes the installation still
    /// reports progress and keeps the installer, so the host can carry out
    /// its actions and report a failure among them; only a tick that finds
    /// the installer with no work left resolves the request as succeeded.
    pub fn on_update(&mut self) -> (r: TickOutput)
        requires
            old(self).wf(),
        ensures
            final(self).wf(),
            final(self).options == old(self).options,
            old(self).download_status matches DownloadStatus::Failed(m)
                ==> (old(self).task matches Some(t)
                ==> (resolves(r, t, TaskStatus::Failure(m)) && final(self).is_idle())),
            !(old(self).download_status is Failed) && old(self).zip_handler is None ==> (r
                is Noop && *final(self) == *old(self)),
            old(self).zip_handler matches Some(h) ==> (old(self).task matches Some(t) ==> ((!(
            old(self).download_status is Failed) && !h.spec_has_work()) ==> (resolves(
                r,
                t,
                TaskStatus::Success(None),
            ) && final(self).is_idle()))),
            old(self).zip_handler matches Some(h) ==> ((!(old(self).download_status is Failed)
                && h.pending_deletions@.len() > 0) ==> (r matches TickOutput::Progress {
                update,
                actions,
            } && final(self).zip_handler matches Some(h2) && {
                &&& deletion_step(h, h2, old(self).options.batch_size as int, actions@)
                &&& h2.entries() == h.entries()
                &&& h2.destination == h.destination
                &&& h2.zip_file_count == h.zip_file_count
                &&& (forall|j: int| #[trigger] zip_entry_ok(h2.archive, j) == zip_entry_ok(
                    h.archive,
                    j,
                ))
                &&& (forall|j: int| #[trigger] zip_entry_err(h2.archive, j) == zip_entry_err(
                    h.archive,
                    j,
                ))
                &&& update.phase is CleaningDestination
                &&& update.deleted == Some(h2.deleted)
                &&& update.total_to_unzip is None
                &&& update.unzipped is None
                &&& final(self).download_status is CleaningDestination
                &&& final(self).task == old(self).task
            })),
            old(self).zip_handler matches Some(h) ==> (old(self).task matches Some(t) ==> ((!(
            old(self).download_status is Failed) && h.pending_deletions@.len() == 0
                && h.current_file_index < h.zip_file_count) ==> ({
                let batch = old(self).options.batch_size as int;
                &&& (extraction_batch_clean(h, batch) ==> (r matches TickOutput::Progress {
                    update,
                    actions,
                } && final(self).zip_handler matches Some(h2) && {
                    &&& extraction_step(h, h2, batch, actions@)
                    &&& h2.entries() == h.entries()
                    &&& h2.destination == h.destination
                    &&& h2.zip_file_count == h.zip_file_count
                    &&& (forall|j: int| #[trigger] zip_entry_ok(h2.archive, j) == zip_entry_ok(
                        h.archive,
                        j,
                    ))
                    &&& (forall|j: int| #[trigger] zip_entry_err(h2.archive, j) == zip_entry_err(
                        h.archive,
                        j,
                    ))
                    &&& update.phase is Extracting
                    &&& update.deleted is None
                    &&& update.total_to_unzip == Some(h.zip_file_count)
                    &&& update.unzipped == Some(h2.current_file_index)
                    &&& final(self).download_status is Extracting
                    &&& final(self).task == old(self).task
                }))
                &&& (!extraction_batch_clean(h, batch) ==> (r matches TickOutput::Resolved {
                    task,
                } && {
                    &&& task.url == t.url
                    &&& task.folder == t.folder
                    &&& task.batch_size == t.batch_size
                    &&& task.status matches TaskStatus::Failure(fm) && extraction_failure(
                        h,
                        batch,
                        fm@,
                    )
                    &&& final(self).is_idle()
                }))
            }))),
    {
        let failed_message: Option<String> = match &self.download_status {
            DownloadStatus::Failed(m) => Some(m.clone()),
            _ => None,
        };
        if let Some(message) = failed_message {
            let taken = self.task.take();
            self.zip_handler = None;
            self.download_status = DownloadStatus::NoDownload;
            match taken {
                Some(task) => {
                    let mut task = task;
                    task.status = TaskStatus::Failure(message);
                    return TickOutput::Resolved { task };
                },
                None => {
                    proof {
                        assert(false);
                    }
                    return TickOutput::Noop;
                },
            }
        }
        let has_work: bool;
        let had_deletions: bool;
        match &self.zip_handler {
            None => {
                return TickOutput::Noop;
            },
            Some(h) => {
                has_work = h.has_work();
                had_deletions = h.pending_deletions.len() > 0;
            },
        }
        if !has_work {
            let taken = self.task.take();
            self.zip_handler = None;
            self.download_status = DownloadStatus::NoDownload;
            match taken {
                Some(task) => {
                    let mut task = task;
                    task.status = TaskStatus::Success(None);
                    return TickOutput::Resolved { task };
                },
                None => {
                    proof {
                        assert(false);
                    }
                    return TickOutput::Noop;
                },
            }
        }
        let batch = self.options.batch_size;
        let res = match &mut self.zip_handler {
            Some(h) => h.unzip_batch(batch),
            None => {
                proof {
                    assert(false);
                }
                return TickOutput::Noop;
            },
        };
        match res {
            Ok((_ret, actions)) => {
                if had_deletions {
                    self.download_status = DownloadStatus::CleaningDestination;
                    let deleted = match &self.zip_handler {
                        Some(h) => h.deleted,
                        None => {
                            proof {
                                assert(false);
                            }
                            0
                        },
                    };
                    TickOutput::Progress {
                        update: ProgressUpdate {
                            phase: DownloadPhase::CleaningDestination,
                            deleted: Some(deleted),
                            total_to_unzip: None,
                            unzipped: None,
                        },
                        actions,
                    }
                } else {
                    self.download_status = DownloadStatus::Extracting;
                    let total: usize;
                    let unzipped: usize;
                    match &self.zip_handler {
                        Some(h) => {
                            total = h.zip_file_count;
                            unzipped = h.current_file_index;
                        },
                        None => {
                            proof {
                                assert(false);
                            }
                            total = 0;
                            unzipped = 0;
                        },
                    }
                    TickOutput::Progress {
                        update: ProgressUpdate {
                            phase: DownloadPhase::Extracting,
                            deleted: None,
                            total_to_unzip: Some(total),
                            unzipped: Some(unzipped),
                        },
                        actions,
                    }
                }
            },
            Err(e) => {
                let taken = self.task.take();
                self.zip_handler = None;
                self.download_status = DownloadStatus::NoDownload;
                match taken {
                    Some(task) => {
                        let mut task = task;
                        task.status = TaskStatus::Failure(e);
                        TickOutput::Resolved { task }
                    },
                    None => {
                        proof {
                            assert(false);
                        }
                        TickOutput::Noop
                    },
                }
            },
        }
    }

    /// Runs one batch of the active installation with the given size,
    /// clamped to at least one; without an active installer it reports that
    /// no handler exists. The raw entry point `on_update` drives; it never
    /// touches the status or the owned request.
    pub fn unzip_batch(&mut self, batch_size: usize) -> (r: Result<
        (BatchReturn, Vec<FsAction>),
        String,
    >)
        requires
            old(self).wf(),
        ensures
            final(self).wf(),
            final(self).download_status == old(self).download_status,
            final(self).task == old(self).task,
            final(self).options == old(self).options,
            old(self).zip_handler is None ==> (r matches Err(m) && m@ == "Zip handler not found"@
                && *final(self) == *old(self)),
            old(self).zip_handler matches Some(h) ==> (final(self).zip_handler matches Some(h2)
                && {
                let eff = if batch_size == 0 {
                    1int
                } else {
                    batch_size as int
                };
                &&& h2.entries() == h.entries()
                &&& h2.destination == h.destination
                &&& h2.zip_file_count == h.zip_file_count
                &&& (forall|j: int| #[trigger] zip_entry_ok(h2.archive, j) == zip_entry_ok(
                    h.archive,
                    j,
                ))
                &&& (forall|j: int| #[trigger] zip_entry_err(h2.archive, j) == zip_entry_err(
                    h.archive,
                    j,
                ))
                &&& (h.pending_deletions@.len() > 0 ==> deletion_post(h, h2, eff, r))
                &&& (h.pending_deletions@.len() == 0 ==> extraction_post(h, h2, eff, r))
                &&& (r matches Ok(p) ==> (p.0 is Finished <==> h2.current_file_index
                    == h2.zip_file_count && h2.pending_deletions@.len() == 0))
            }),
    {
        let eff: usize = if batch_size == 0 {
            1
        } else {
            batch_size
        };
        match &mut self.zip_handler {
            Some(h) => h.unzip_batch(eff),
            None => Err(String::from_str("Zip handler not found")),
        }
    }

    /// Records that the host could not even create the network request a
    /// submission asked for; the failure is held until the next tick reports
    /// it. A call while no issued fetch is waiting changes nothing.
    pub fn report_fetch_not_created(&mut self)
        requires
            old(self).wf(),
        ensures
            final(self).wf(),
            final(self).options == old(self).options,
            old(self).awaiting_fetch() ==> {
                &&& final(self).download_status matches DownloadStatus::Failed(m) && m@
                    == "Failed to create request"@
                &&& final(self).zip_handler is None
                &&& final(self).task == old(self).task
            },
            !old(self).awaiting_fetch() ==> *final(self) == *old(self),
    {
        if matches!(self.download_status, DownloadStatus::Downloading) && self.zip_handler.is_none() {
            self.download_status = DownloadStatus::Failed(
                String::from_str("Failed to create request"),
            );
        }
    }

    /// Records that the host could not perform a destination action of the
    /// active installation: the installer is discarded, the failure is held
    /// until the next tick reports it to the owning request. Without an
    /// active installer the call changes nothing.
    pub fn report_install_failure(&mut self, message: String)
        requires
            old(self).wf(),
        ensures
            final(self).wf(),
            final(self).options == old(self).options,
            old(self).zip_handler is Some ==> {
                &&& final(self).download_status matches DownloadStatus::Failed(m) && m == message
                &&& final(self).zip_handler is None
                &&& final(self).task == old(self).task
            },
            old(self).zip_handler is None ==> *final(self) == *old(self),
    {
        if self.zip_handler.is_some() {
            self.zip_handler = None;
            self.download_status = DownloadStatus::Failed(message);
        }
    }

    /// Unconditionally discards the installer and the owned request, so a
    /// later submission is never blocked by stale state. The status returns
    /// to idle with them, deliberately: once the request is gone, nobody is
    /// left to receive a report the status would otherwise still owe, and
    /// the engine never claims an installation it no longer holds.
    pub fn reset_download(&mut self)
        requires
            old(self).wf(),
        ensures
            final(self).wf(),
            final(self).is_idle(),
            final(self).options == old(self).options,
    {
        self.zip_handler = None;
        self.task = None;
        self.download_status = DownloadStatus::NoDownload;
    }
}

/// The engine owns a still-unresolved copy of the request.
pub open spec fn stored_task_matches(d: NavdataDownloader, task: Task) -> bool {
    d.task matches Some(t) && t.url == task.url && t.folder == task.folder && t.batch_size
        == task.batch_size && t.status is InProgress
}

/// The bytes of the fixed work directory every installation lands under.
pub open spec fn work_root() -> Seq<u8> {
    seq![92u8, 119u8, 111u8, 114u8, 107u8, 47u8]
}

/// The destination root for a caller-supplied folder name: the work
/// directory, then the folder's bytes.
pub open spec fn work_dest(folder: Seq<char>) -> Seq<u8> {
    work_root() + vstd::utf8::encode_utf8(folder)
}

/// Builds `work_dest(folder@)` as a concrete byte vector.
fn work_path(folder: &str) -> (r: Vec<u8>)
    ensures
        r@ == work_dest(folder@),
{
    let mut v: Vec<u8> = Vec::new();
    v.push(92);
    v.push(119);
    v.push(111);
    v.push(114);
    v.push(107);
    v.push(47);
    let mut fb = folder.as_bytes_vec();
    v.append(&mut fb);
    assert(v@ =~= work_dest(folder@));
    v
}

} // verus!
