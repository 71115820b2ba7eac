use vstd::prelude::*;

use crate::paths::{
    check_dir_name, check_entry_name, entry_name_safe, is_dir_name, join_path, joined_path,
    lemma_join_stays_within, stays_within,
};
use crate::zipio::{zip_entries, zip_entry, zip_entry_err, zip_entry_ok, zip_len};

verus! {

/// What one batch call found left to do after it ran.
#[derive(Debug, Clone, Copy, PartialEq, Eq, Structural)]
pub enum BatchReturn {
    MoreFilesToDelete,
    MoreFilesToUnzip,
    Finished,
}

/// One unit of destination work that a batch asks its host to perform.
#[derive(Debug)]
pub enum FsAction {
    DeleteFile { path: Vec<u8> },
    EnsureDir { path: Vec<u8> },
    WriteFile { path: Vec<u8>, data: Vec<u8> },
}

/// The path an action touches.
pub open spec fn action_path(a: FsAction) -> Seq<u8> {
    match a {
        FsAction::DeleteFile { path } => path@,
        FsAction::EnsureDir { path } => path@,
        FsAction::WriteFile { path, data } => path@,
    }
}

/// The action the extraction phase owes entry `e` under `root`: ensure the
/// directory for a directory entry, write name and contents for a file.
pub open spec fn extract_action_for(a: FsAction, root: Seq<u8>, e: (Seq<u8>, Seq<u8>)) -> bool {
    if is_dir_name(e.0) {
        a matches FsAction::EnsureDir { path } && path@ == joined_path(root, e.0)
    } else {
        a matches FsAction::WriteFile { path, data } && path@ == joined_path(root, e.0) && data@
            == e.1
    }
}

/// Drains an in-memory archive into a destination directory in bounded
/// batches: first deleting the pre-existing destination entries it was given,
/// then extracting archive entries, never both in one call.
pub struct ZipFileHandler {
    pub archive: zip::ZipArchive<std::io::Cursor<Vec<u8>>>,
    pub destination: Vec<u8>,
    pub zip_file_count: usize,
    pub current_file_index: usize,
    pub deleted: usize,
    pub pending_deletions: Vec<Vec<u8>>,
}

impl ZipFileHandler {
    /// The archive's entries, as the handler sees them.
    pub open spec fn entries(self) -> Seq<(Seq<u8>, Seq<u8>)> {
        zip_entries(self.archive)
    }

    pub open spec fn wf(self) -> bool {
        &&& self.zip_file_count == self.entries().len()
        &&& self.current_file_index <= self.zip_file_count
        &&& self.deleted + self.pending_deletions@.len() <= usize::MAX
    }

    /// Work remains: entries still slated for deletion, or archive entries
    /// not yet extracted.
    pub open spec fn spec_has_work(self) -> bool {
        self.pending_deletions@.len() > 0 || self.current_file_index < self.zip_file_count
    }

    pub fn has_work(&self) -> (r: bool)
        ensures
            r == self.spec_has_work(),
    {
        self.pending_deletions.len() > 0 || self.current_file_index < self.zip_file_count
    }

    pub fn new(
        archive: zip::ZipArchive<std::io::Cursor<Vec<u8>>>,
        destination: Vec<u8>,
        pending_deletions: Vec<Vec<u8>>,
    ) -> (r: ZipFileHandler)
        ensures
            r.wf(),
            r.entries() == zip_entries(archive),
            r.zip_file_count == zip_entries(archive).len(),
            r.current_file_index == 0,
            r.deleted == 0,
            r.destination == destination,
            r.pending_deletions == pending_deletions,
    {
        let zip_file_count = zip_len(&archive);
        // The length call puts the machine bound on the deletion list in scope.
        let n_pending = pending_deletions.len();
        ZipFileHandler {
            archive,
            destination,
            zip_file_count,
            current_file_index: 0,
            deleted: 0,
            pending_deletions,
        }
    }

    /// One bounded slice of installation work: while entries slated for
    /// deletion remain, removes up to `batch_size` of them and asks the host
    /// to delete them; only once that list is empty does it extract up to
    /// `batch_size` archive entries, refusing the whole batch when an entry
    /// name could escape the destination. A single call never performs both
    /// kinds of work.
    pub fn unzip_batch(&mut self, batch_size: usize) -> (r: Result<
        (BatchReturn, Vec<FsAction>),
        String,
    >)
        requires
            old(self).wf(),
            batch_size >= 1,
        ensures
            final(self).wf(),
            final(self).destination == old(self).destination,
            final(self).entries() == old(self).entries(),
            final(self).zip_file_count == old(self).zip_file_count,
            forall|j: int| #[trigger] zip_entry_ok(final(self).archive, j) == zip_entry_ok(
                old(self).archive,
                j,
            ),
            forall|j: int| #[trigger] zip_entry_err(final(self).archive, j) == zip_entry_err(
                old(self).archive,
                j,
            ),
            final(self).current_file_index >= old(self).current_file_index,
            final(self).deleted >= old(self).deleted,
            final(self).pending_deletions@.len() <= old(self).pending_deletions@.len(),
            old(self).pending_deletions@.len() > 0 ==> deletion_post(
                *old(self),
                *final(self),
                batch_size as int,
                r,
            ),
            old(self).pending_deletions@.len() == 0 ==> extraction_post(
                *old(self),
                *final(self),
                batch_size as int,
                r,
            ),
            r matches Ok(p) ==> (p.0 is Finished <==> final(self).current_file_index == final(self).zip_file_count
                && final(self).pending_deletions@.len() == 0),
    {
        if self.pending_deletions.len() > 0 {
            let ghost pre = *self;
            let n = self.pending_deletions.len();
            let k = if batch_size <= n {
                batch_size
            } else {
                n
            };
            let mut acts: Vec<FsAction> = Vec::new();
            let mut i: usize = 0;
            while i < k
                invariant
                    pre == *old(self),
                    pre.pending_deletions@.len() > 0,
                    pre.wf(),
                    k <= n == pre.pending_deletions@.len(),
                    0 <= i <= k,
                    self.archive == pre.archive,
                    self.destination == pre.destination,
                    self.zip_file_count == pre.zip_file_count,
                    self.current_file_index == pre.current_file_index,
                    self.pending_deletions@ == pre.pending_deletions@.take(n - i),
                    self.deleted == pre.deleted + i,
                    acts@.len() == i,
                    forall|j: int|
                        #![trigger acts@[j]]
                        0 <= j < i ==> (acts@[j] matches FsAction::DeleteFile { path } && path@
                            == pre.pending_deletions@[n - 1 - j]@),
                decreases k - i,
            {
                let p = match self.pending_deletions.pop() {
                    Some(p) => p,
                    None => {
                        proof {
                            assert(false);
                        }
                        return Err(String::new());
                    },
                };
                assert(self.pending_deletions@ =~= pre.pending_deletions@.take(n - i - 1));
                acts.push(FsAction::DeleteFile { path: p });
                self.deleted = self.deleted + 1;
                i += 1;
            }
            let ret = if self.pending_deletions.len() == 0 && self.current_file_index
                == self.zip_file_count {
                BatchReturn::Finished
            } else {
                BatchReturn::MoreFilesToDelete
            };
            return Ok((ret, acts));
        }
        let ghost pre = *self;
        let n = self.current_file_index;
        let c = self.zip_file_count;
        let rem = c - n;
        let k = if batch_size <= rem {
            batch_size
        } else {
            rem
        };
        let mut acts: Vec<FsAction> = Vec::new();
        let mut j: usize = 0;
        while j < k
            invariant
                pre == *old(self),
                pre.pending_deletions@.len() == 0,
                pre.wf(),
                n == pre.current_file_index,
                c == pre.zip_file_count,
                k <= c - n,
                k as int == (if batch_size as int <= c as int - n as int {
                    batch_size as int
                } else {
                    c as int - n as int
                }),
                0 <= j <= k,
                self.entries() == pre.entries(),
                self.destination == pre.destination,
                self.zip_file_count == pre.zip_file_count,
                self.current_file_index == pre.current_file_index,
                self.deleted == pre.deleted,
                self.pending_deletions == pre.pending_deletions,
                forall|t: int| #[trigger] zip_entry_ok(self.archive, t) == zip_entry_ok(
                    pre.archive,
                    t,
                ),
                forall|t: int| #[trigger] zip_entry_err(self.archive, t) == zip_entry_err(
                    pre.archive,
                    t,
                ),
                forall|t: int| n <= t < n + j ==> #[trigger] zip_entry_ok(pre.archive, t),
                acts@.len() == j,
                forall|t: int| n <= t < n + j ==> entry_name_safe(#[trigger] pre.entries()[t].0),
                forall|t: int|
                    0 <= t < j ==> extract_action_for(
                        acts@[t],
                        pre.destination@,
                        pre.entries()[n + t],
                    ),
                forall|t: int| 0 <= t < j ==> stays_within(pre.destination@, action_path(acts@[t])),
            decreases k - j,
        {
            let idx = n + j;
            let ghost before = self.archive;
            match zip_entry(&mut self.archive, idx) {
                Ok(entry) => {
                    let (name, data) = entry;
                    if !check_entry_name(&name) {
                        let m = String::from_str(
                            "Archive entry path escapes the destination folder",
                        );
                        proof {
                            assert(zip_entry_ok(pre.archive, idx as int));
                            assert(!entry_name_safe(pre.entries()[idx as int].0));
                            assert forall|t: int| n <= t < idx as int implies #[trigger] zip_entry_ok(
                                pre.archive,
                                t,
                            ) && entry_name_safe(pre.entries()[t].0) by {}
                            assert((n as int) <= (idx as int) < (n as int) + (k as int));
                            assert(extraction_failure(pre, batch_size as int, m@));
                        }
                        return Err(m);
                    }
                    let path = join_path(&self.destination, &name);
                    proof {
                        lemma_join_stays_within(self.destination@, name@);
                    }
                    if check_dir_name(&name) {
                        acts.push(FsAction::EnsureDir { path });
                    } else {
                        acts.push(FsAction::WriteFile { path, data });
                    }
                },
                Err(e) => {
                    proof {
                        assert(!zip_entry_ok(pre.archive, idx as int));
                        assert(e@ == zip_entry_err(pre.archive, idx as int));
                        assert forall|t: int| n <= t < idx as int implies #[trigger] zip_entry_ok(
                            pre.archive,
                            t,
                        ) && entry_name_safe(pre.entries()[t].0) by {}
                        assert((n as int) <= (idx as int) < (n as int) + (k as int));
                        assert(extraction_failure(pre, batch_size as int, e@));
                    }
                    return Err(e);
                },
            }
            j += 1;
        }
        self.current_file_index = n + k;
        if n + k == c {
            Ok((BatchReturn::Finished, acts))
        } else {
            Ok((BatchReturn::MoreFilesToUnzip, acts))
        }
    }
}

/// One batch never mixes the two kinds of work: a deletion batch consists
/// of delete actions only, an extraction batch of directory and write
/// actions only.
pub proof fn lemma_batches_never_mix(
    pre: ZipFileHandler,
    post: ZipFileHandler,
    batch_size: int,
    acts: Seq<FsAction>,
)
    ensures
        deletion_actions(pre, batch_size, acts) ==> forall|i: int|
            0 <= i < acts.len() ==> (#[trigger] acts[i]) is DeleteFile,
        extraction_actions(pre, batch_size, acts) ==> forall|i: int|
            0 <= i < acts.len() ==> !((#[trigger] acts[i]) is DeleteFile),
{
    if extraction_actions(pre, batch_size, acts) {
        let n = pre.current_file_index as int;
        assert forall|i: int| 0 <= i < acts.len() implies !((#[trigger] acts[i]) is DeleteFile) by {
            assert(extract_action_for(acts[i], pre.destination@, pre.entries()[n + i]));
        }
    }
}

/// While entries slated for deletion remain, a batch only deletes: it
/// removes at most `batch_size` of them, leaves the entry index alone, and
/// reports more deletions whenever any remain afterwards.
pub proof fn lemma_deletions_drain_first(
    pre: ZipFileHandler,
    post: ZipFileHandler,
    batch_size: int,
    r: Result<(BatchReturn, Vec<FsAction>), String>,
)
    requires
        batch_size >= 1,
        pre.pending_deletions@.len() > 0,
        deletion_post(pre, post, batch_size, r),
    ensures
        r matches Ok((ret, acts)) && {
            &&& forall|i: int| 0 <= i < acts@.len() ==> (#[trigger] acts@[i]) is DeleteFile
            &&& pre.pending_deletions@.len() - post.pending_deletions@.len() <= batch_size
            &&& post.current_file_index == pre.current_file_index
            &&& (post.pending_deletions@.len() > 0 ==> ret is MoreFilesToDelete)
        },
{
    match r {
        Ok((ret, acts)) => {
            lemma_batches_never_mix(pre, post, batch_size, acts@);
        },
        Err(_) => {
            assert(false);
        },
    }
}

/// The delete actions one deletion batch owes: up to `batch_size` of them,
/// taken from the back of the pending list.
pub open spec fn deletion_actions(
    pre: ZipFileHandler,
    batch_size: int,
    acts: Seq<FsAction>,
) -> bool {
    let n = pre.pending_deletions@.len() as int;
    let k = if batch_size <= n {
        batch_size
    } else {
        n
    };
    &&& acts.len() == k
    &&& forall|i: int|
        #![trigger acts[i]]
        0 <= i < k ==> (acts[i] matches FsAction::DeleteFile { path } && path@
            == pre.pending_deletions@[n - 1 - i]@)
}

/// One deletion batch: its delete actions, the pending list shortened by as
/// many, the count raised by as many; no extraction work.
pub open spec fn deletion_step(
    pre: ZipFileHandler,
    post: ZipFileHandler,
    batch_size: int,
    acts: Seq<FsAction>,
) -> bool {
    let n = pre.pending_deletions@.len() as int;
    let k = if batch_size <= n {
        batch_size
    } else {
        n
    };
    &&& deletion_actions(pre, batch_size, acts)
    &&& post.pending_deletions@ == pre.pending_deletions@.take(n - k)
    &&& post.deleted == pre.deleted + k
    &&& post.current_file_index == pre.current_file_index
}

/// The extraction actions one batch owes: one per entry from the current
/// index, up to `batch_size`, every one with a safe name and a path that
/// stays inside the destination.
pub open spec fn extraction_actions(
    pre: ZipFileHandler,
    batch_size: int,
    acts: Seq<FsAction>,
) -> bool {
    let n = pre.current_file_index as int;
    let c = pre.zip_file_count as int;
    let k = if batch_size <= c - n {
        batch_size
    } else {
        c - n
    };
    &&& acts.len() == k
    &&& (forall|i: int| 0 <= i < k ==> entry_name_safe(#[trigger] pre.entries()[n + i].0))
    &&& (forall|i: int|
        0 <= i < k ==> extract_action_for(acts[i], pre.destination@, pre.entries()[n + i]))
    &&& (forall|i: int| 0 <= i < k ==> stays_within(pre.destination@, action_path(acts[i])))
}

/// One extraction batch: its actions, the index advanced past them, no
/// deletion work.
pub open spec fn extraction_step(
    pre: ZipFileHandler,
    post: ZipFileHandler,
    batch_size: int,
    acts: Seq<FsAction>,
) -> bool {
    let n = pre.current_file_index as int;
    let c = pre.zip_file_count as int;
    let k = if batch_size <= c - n {
        batch_size
    } else {
        c - n
    };
    &&& extraction_actions(pre, batch_size, acts)
    &&& post.deleted == pre.deleted
    &&& post.pending_deletions@ == pre.pending_deletions@
    &&& post.current_file_index == n + k
}

/// Every entry of the coming extraction batch reads back and bears a safe
/// name.
pub open spec fn extraction_batch_clean(pre: ZipFileHandler, batch_size: int) -> bool {
    let n = pre.current_file_index as int;
    let c = pre.zip_file_count as int;
    let k = if batch_size <= c - n {
        batch_size
    } else {
        c - n
    };
    forall|i: int|
        n <= i < n + k ==> #[trigger] zip_entry_ok(pre.archive, i) && entry_name_safe(
            pre.entries()[i].0,
        )
}

/// The message an extraction batch fails with: the error text of the first
/// entry in the batch that does not read back, or the fixed refusal for the
/// first readable one whose name could escape.
pub open spec fn extraction_failure(pre: ZipFileHandler, batch_size: int, m: Seq<char>) -> bool {
    let n = pre.current_file_index as int;
    let c = pre.zip_file_count as int;
    let k = if batch_size <= c - n {
        batch_size
    } else {
        c - n
    };
    exists|j: int|
        #![trigger zip_entry_ok(pre.archive, j)]
        n <= j < n + k && (forall|i: int|
            n <= i < j ==> #[trigger] zip_entry_ok(pre.archive, i) && entry_name_safe(
                pre.entries()[i].0,
            )) && if !zip_entry_ok(pre.archive, j) {
            m == zip_entry_err(pre.archive, j)
        } else {
            !entry_name_safe(pre.entries()[j].0) && m
                == "Archive entry path escapes the destination folder"@
        }
}

/// After a call that found entries slated for deletion: one deletion batch
/// ran, and the call reports `Finished` exactly when it drained the list
/// with no entries left to extract.
pub open spec fn deletion_post(
    pre: ZipFileHandler,
    post: ZipFileHandler,
    batch_size: int,
    r: Result<(BatchReturn, Vec<FsAction>), String>,
) -> bool {
    r matches Ok((ret, acts)) && deletion_step(pre, post, batch_size, acts@) && (ret is Finished
        <==> post.pending_deletions@.len() == 0 && post.current_file_index
        == post.zip_file_count) && (ret is Finished || ret is MoreFilesToDelete)
}

/// After a call that found no deletions left: when every entry of the batch
/// reads back under a safe name, one extraction batch ran and the call
/// reports `Finished` exactly when the index has reached the entry count;
/// otherwise the call fails with the first offending entry's message and
/// leaves the handler where it was.
pub open spec fn extraction_post(
    pre: ZipFileHandler,
    post: ZipFileHandler,
    batch_size: int,
    r: Result<(BatchReturn, Vec<FsAction>), String>,
) -> bool {
    &&& (extraction_batch_clean(pre, batch_size) ==> (r matches Ok((ret, acts)) && {
        &&& extraction_step(pre, post, batch_size, acts@)
        &&& (ret is Finished <==> post.current_file_index == pre.zip_file_count)
        &&& (ret is Finished || ret is MoreFilesToUnzip)
    }))
    &&& (!extraction_batch_clean(pre, batch_size) ==> (r matches Err(m) && extraction_failure(
        pre,
        batch_size,
        m@,
    )))
    &&& (r is Err ==> post.current_file_index == pre.current_file_index && post.deleted
        == pre.deleted && post.pending_deletions@ == pre.pending_deletions@)
}

} // verus!
