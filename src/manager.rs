use vstd::prelude::*;
use vstd::string::StringExecFns;

use crate::models::LauncherError;
use crate::downloader::{
    backoff_delay_secs, id_prefix, is_fresh_task, is_snapshot, two_pow, DownloadProgress,
    DownloadStatus, DownloadTask, DEFAULT_MAX_CONCURRENT, MAX_RETRIES,
};

verus! {

/// Whether some task of `s` has the id `id`.
pub open spec fn has_id(s: Seq<DownloadTask>, id: Seq<char>) -> bool {
    exists|i: int| 0 <= i < s.len() && (#[trigger] s[i]).id@ == id
}

/// No two tasks of `s` share an id.
pub open spec fn unique_ids(s: Seq<DownloadTask>) -> bool {
    forall|i: int, j: int|
        0 <= i < s.len() && 0 <= j < s.len() && i != j ==> (#[trigger] s[i]).id@ != (#[trigger] s[j]).id@
}

/// Position of the task with id `id` in `s`, or -1.
pub open spec fn index_of(s: Seq<DownloadTask>, id: Seq<char>) -> int {
    if has_id(s, id) {
        choose|i: int| 0 <= i < s.len() && (#[trigger] s[i]).id@ == id
    } else {
        -1
    }
}

/// `s` without the task whose id is `id` (unchanged when there is none).
pub open spec fn without(s: Seq<DownloadTask>, id: Seq<char>) -> Seq<DownloadTask> {
    if has_id(s, id) {
        s.remove(index_of(s, id))
    } else {
        s
    }
}

/// Longest id among the tasks of `s`.
pub open spec fn max_id_len(s: Seq<DownloadTask>) -> nat
    decreases s.len(),
{
    if s.len() == 0 {
        0
    } else {
        let m = max_id_len(s.drop_last());
        if s.last().id@.len() > m {
            s.last().id@.len()
        } else {
            m
        }
    }
}

/// A task as admission leaves it: transferring, started at `now_ms`.
pub open spec fn started(t: DownloadTask, now_ms: u64) -> DownloadTask {
    DownloadTask { status: DownloadStatus::Downloading, started_at: Some(now_ms), ..t }
}

/// A task put back in the queue by a pause.
pub open spec fn requeued(t: DownloadTask) -> DownloadTask {
    DownloadTask { status: DownloadStatus::Pending, ..t }
}

/// A task with its size set to `total`.
pub open spec fn with_total(t: DownloadTask, total: u64) -> DownloadTask {
    DownloadTask { total_bytes: total, ..t }
}

/// A task after a progress report of `bytes`: the count never goes down.
pub open spec fn with_progress(t: DownloadTask, bytes: u64) -> DownloadTask {
    DownloadTask {
        downloaded_bytes: if bytes > t.downloaded_bytes { bytes } else { t.downloaded_bytes },
        ..t
    }
}

/// A task whose transfer completed at `now_ms` with `bytes` written.
pub open spec fn completed(t: DownloadTask, bytes: u64, now_ms: u64) -> DownloadTask {
    DownloadTask {
        status: DownloadStatus::Completed,
        downloaded_bytes: bytes,
        completed_at: Some(now_ms),
        ..t
    }
}

/// A task given up with `reason` after `retry_count` counted failures.
pub open spec fn failed(t: DownloadTask, reason: String, retry_count: u32) -> DownloadTask {
    DownloadTask { status: DownloadStatus::Failed(reason), retry_count: retry_count, ..t }
}

/// What the transfer of an admitted task needs: its id, source and destination.
#[derive(Clone, Debug)]
pub struct TransferOrder {
    pub id: String,
    pub url: String,
    pub destination: String,
}

/// Whether `o` is the order for transferring `t`.
pub open spec fn is_order_for(o: TransferOrder, t: DownloadTask) -> bool {
    &&& o.id@ == t.id@
    &&& o.url@ == t.url@
    &&& o.destination@ == t.destination@
}

/// What a transfer does after a failed attempt.
#[derive(Clone, Copy, Debug, PartialEq, Eq, Structural)]
pub enum TransferStep {
    /// Wait this many seconds, then try again.
    Retry { delay_secs: u64 },
    /// Give up: the task is failed, or no longer transferring.
    Stop,
}

/// The bookkeeping of a manager: transferring tasks in order of admission,
/// waiting tasks in order of arrival, and finished tasks kept until removed.
pub struct ManagerView {
    pub active: Seq<DownloadTask>,
    pub queue: Seq<DownloadTask>,
    pub finished: Seq<DownloadTask>,
    pub max_concurrent: nat,
}

impl ManagerView {
    /// Whether any of the three collections holds a task with this id.
    pub open spec fn tracks(self, id: Seq<char>) -> bool {
        has_id(self.active, id) || has_id(self.queue, id) || has_id(self.finished, id)
    }

    /// Number of tasks that admission moves from the queue now.
    pub open spec fn admissible(self) -> nat {
        let free = if self.active.len() < self.max_concurrent {
            (self.max_concurrent - self.active.len()) as nat
        } else {
            0
        };
        if free < self.queue.len() {
            free
        } else {
            self.queue.len()
        }
    }

    /// The task with id `id`, looked for among the transferring tasks, then
    /// the waiting ones, then the finished ones.
    pub open spec fn lookup(self, id: Seq<char>) -> DownloadTask
        recommends
            self.tracks(id),
    {
        if has_id(self.active, id) {
            self.active[index_of(self.active, id)]
        } else if has_id(self.queue, id) {
            self.queue[index_of(self.queue, id)]
        } else {
            self.finished[index_of(self.finished, id)]
        }
    }

    /// All tasks, transferring first, then waiting, then finished.
    pub open spec fn all_tasks(self) -> Seq<DownloadTask> {
        self.active + self.queue + self.finished
    }

    pub open spec fn wf(self) -> bool {
        &&& self.active.len() <= self.max_concurrent
        &&& unique_ids(self.active)
        &&& unique_ids(self.queue)
        &&& unique_ids(self.finished)
        &&& forall|id: Seq<char>|
            #[trigger] has_id(self.active, id) ==> !has_id(self.queue, id) && !has_id(
                self.finished,
                id,
            )
        &&& forall|id: Seq<char>| #[trigger] has_id(self.queue, id) ==> !has_id(self.finished, id)
        &&& forall|i: int|
            0 <= i < self.active.len() ==> {
                &&& (#[trigger] self.active[i]).status == DownloadStatus::Downloading
                &&& self.active[i].started_at.is_some()
                &&& self.active[i].retry_count < self.active[i].max_retries
                &&& self.active[i].max_retries == MAX_RETRIES
            }
        &&& forall|i: int|
            0 <= i < self.queue.len() ==> {
                &&& (#[trigger] self.queue[i]).status == DownloadStatus::Pending
                &&& self.queue[i].retry_count < self.queue[i].max_retries
                &&& self.queue[i].max_retries == MAX_RETRIES
            }
        &&& forall|i: int|
            0 <= i < self.finished.len() ==> {
                ||| (#[trigger] self.finished[i]).status == DownloadStatus::Completed
                ||| self.finished[i].status is Failed
            }
    }

    /// The bookkeeping after a cancel of the task with id `id`: purged from
    /// the queue and the active set; finished tasks are kept.
    pub open spec fn cancelled(self, id: Seq<char>) -> ManagerView {
        ManagerView {
            active: without(self.active, id),
            queue: without(self.queue, id),
            finished: self.finished,
            max_concurrent: self.max_concurrent,
        }
    }

    /// The bookkeeping after the task with id `id` is purged from it.
    pub open spec fn removed(self, id: Seq<char>) -> ManagerView {
        ManagerView {
            active: without(self.active, id),
            queue: without(self.queue, id),
            finished: without(self.finished, id),
            max_concurrent: self.max_concurrent,
        }
    }
}

pub proof fn lemma_index_of(s: Seq<DownloadTask>, k: int)
    requires
        unique_ids(s),
        0 <= k < s.len(),
    ensures
        has_id(s, s[k].id@),
        index_of(s, s[k].id@) == k,
{
    assert(has_id(s, s[k].id@));
}

pub proof fn lemma_max_id_len(s: Seq<DownloadTask>, id: Seq<char>)
    requires
        has_id(s, id),
    ensures
        id.len() <= max_id_len(s),
    decreases s.len(),
{
    let i = choose|i: int| 0 <= i < s.len() && (#[trigger] s[i]).id@ == id;
    if i < s.len() - 1 {
        assert(s.drop_last()[i] == s[i]);
        lemma_max_id_len(s.drop_last(), id);
    }
}

pub proof fn lemma_remove_ids(s: Seq<DownloadTask>, k: int)
    requires
        unique_ids(s),
        0 <= k < s.len(),
    ensures
        unique_ids(s.remove(k)),
        forall|id: Seq<char>| #[trigger]
            has_id(s.remove(k), id) <==> (has_id(s, id) && id != s[k].id@),
{
    let r = s.remove(k);
    assert forall|i: int, j: int|
        0 <= i < r.len() && 0 <= j < r.len() && i != j implies (#[trigger] r[i]).id@ != (
        #[trigger] r[j]).id@ by {
        let a = if i < k { i } else { i + 1 };
        let b = if j < k { j } else { j + 1 };
        assert(r[i] == s[a] && r[j] == s[b]);
    }
    assert forall|id: Seq<char>| #[trigger]
        has_id(r, id) <==> (has_id(s, id) && id != s[k].id@) by {
        if has_id(r, id) {
            let i = choose|i: int| 0 <= i < r.len() && (#[trigger] r[i]).id@ == id;
            let a = if i < k { i } else { i + 1 };
            assert(r[i] == s[a]);
        }
        if has_id(s, id) && id != s[k].id@ {
            let a = choose|a: int| 0 <= a < s.len() && (#[trigger] s[a]).id@ == id;
            let i = if a < k { a } else { a - 1 };
            assert(r[i] == s[a]);
        }
    }
}

pub proof fn lemma_push_ids(s: Seq<DownloadTask>, t: DownloadTask)
    ensures
        forall|id: Seq<char>| #[trigger] has_id(s.push(t), id) <==> (has_id(s, id) || id == t.id@),
        unique_ids(s) && !has_id(s, t.id@) ==> unique_ids(s.push(t)),
{
    let r = s.push(t);
    assert forall|id: Seq<char>| #[trigger] has_id(r, id) <==> (has_id(s, id) || id == t.id@) by {
        if has_id(r, id) {
            let i = choose|i: int| 0 <= i < r.len() && (#[trigger] r[i]).id@ == id;
            if i < s.len() {
                assert(r[i] == s[i]);
            }
        }
        if has_id(s, id) {
            let a = choose|a: int| 0 <= a < s.len() && (#[trigger] s[a]).id@ == id;
            assert(r[a] == s[a]);
        }
        if id == t.id@ {
            assert(r[s.len() as int] == t);
        }
    }
    if unique_ids(s) && !has_id(s, t.id@) {
        assert forall|i: int, j: int|
            0 <= i < r.len() && 0 <= j < r.len() && i != j implies (#[trigger] r[i]).id@ != (
            #[trigger] r[j]).id@ by {
            if i < s.len() && j < s.len() {
                assert(r[i] == s[i] && r[j] == s[j]);
            } else if i < s.len() {
                assert(r[i] == s[i]);
            } else if j < s.len() {
                assert(r[j] == s[j]);
            }
        }
    }
}

pub proof fn lemma_update_ids(s: Seq<DownloadTask>, k: int, t: DownloadTask)
    requires
        0 <= k < s.len(),
        t.id@ == s[k].id@,
    ensures
        forall|id: Seq<char>| #[trigger] has_id(s.update(k, t), id) <==> has_id(s, id),
        unique_ids(s) ==> unique_ids(s.update(k, t)),
{
    let r = s.update(k, t);
    assert forall|id: Seq<char>| #[trigger] has_id(r, id) <==> has_id(s, id) by {
        if has_id(r, id) {
            let i = choose|i: int| 0 <= i < r.len() && (#[trigger] r[i]).id@ == id;
            assert(s[i].id@ == id);
        }
        if has_id(s, id) {
            let a = choose|a: int| 0 <= a < s.len() && (#[trigger] s[a]).id@ == id;
            assert(r[a].id@ == id);
        }
    }
    if unique_ids(s) {
        assert forall|i: int, j: int|
            0 <= i < r.len() && 0 <= j < r.len() && i != j implies (#[trigger] r[i]).id@ != (
            #[trigger] r[j]).id@ by {
            assert(r[i].id@ == s[i].id@ && r[j].id@ == s[j].id@);
        }
    }
}

pub proof fn lemma_without_ids(s: Seq<DownloadTask>, id: Seq<char>)
    requires
        unique_ids(s),
    ensures
        unique_ids(without(s, id)),
        !has_id(without(s, id), id),
        forall|x: Seq<char>| #[trigger] has_id(without(s, id), x) ==> has_id(s, x),
{
    if has_id(s, id) {
        let k = index_of(s, id);
        lemma_remove_ids(s, k);
    }
}

/// Purging an id from a sequence of tasks with distinct ids a second time
/// changes nothing.
pub proof fn lemma_without_idempotent(s: Seq<DownloadTask>, id: Seq<char>)
    requires
        unique_ids(s),
    ensures
        without(without(s, id), id) == without(s, id),
{
    lemma_without_ids(s, id);
}

/// The concurrency budget holds in every reachable state: the number of
/// transferring tasks never exceeds `max_concurrent`.
pub proof fn lemma_active_within_budget(m: ManagerView)
    requires
        m.wf(),
    ensures
        m.active.len() <= m.max_concurrent,
{
}

/// Admission is first in, first out: of two waiting tasks, the one queued
/// earlier is admitted no later than the other, ahead of it in the order of
/// admission; when neither is admitted both stay queued in the same order.
pub proof fn lemma_fifo_admission(m: ManagerView, now_ms: u64, i: int, j: int)
    requires
        m.wf(),
        0 <= i < j < m.queue.len(),
    ensures
        ({
            let k = m.admissible() as int;
            let admitted = m.queue.subrange(0, k).map_values(|t: DownloadTask| started(t, now_ms));
            let rest = m.queue.subrange(k, m.queue.len() as int);
            &&& j < k ==> i < k && admitted[i].id@ == m.queue[i].id@ && admitted[j].id@
                == m.queue[j].id@
            &&& i >= k ==> rest[i - k] == m.queue[i] && rest[j - k] == m.queue[j] && i - k < j - k
        }),
{
}

/// Cancelling the same id twice: the second call changes nothing and hands
/// back no file to delete.
pub proof fn lemma_cancel_idempotent(m: ManagerView, id: Seq<char>)
    requires
        m.wf(),
    ensures
        m.cancelled(id).cancelled(id) == m.cancelled(id),
        !has_id(m.cancelled(id).active, id),
{
    lemma_without_ids(m.active, id);
    lemma_without_ids(m.queue, id);
}

/// Removing the same id twice: the second call changes nothing.
pub proof fn lemma_remove_idempotent(m: ManagerView, id: Seq<char>)
    requires
        m.wf(),
    ensures
        m.removed(id).removed(id) == m.removed(id),
{
    lemma_without_ids(m.active, id);
    lemma_without_ids(m.queue, id);
    lemma_without_ids(m.finished, id);
}

/// While a task transfers, none of the updates it receives (its size, a
/// progress report, a retry) lowers its downloaded byte count.
pub proof fn lemma_progress_monotone(t: DownloadTask, total: u64, bytes: u64, retry_count: u32)
    ensures
        with_total(t, total).downloaded_bytes == t.downloaded_bytes,
        with_progress(t, bytes).downloaded_bytes >= t.downloaded_bytes,
        (DownloadTask { retry_count: retry_count, ..t }).downloaded_bytes == t.downloaded_bytes,
{
}

/// Position of the task with id `key` in `v`.
fn find_task(v: &Vec<DownloadTask>, key: &String) -> (r: Option<usize>)
    ensures
        match r {
            Some(k) => k < v@.len() && v@[k as int].id@ == key@,
            None => !has_id(v@, key@),
        },
{
    let mut i: usize = 0;
    while i < v.len()
        invariant
            i <= v@.len(),
            forall|j: int| 0 <= j < i ==> (#[trigger] v@[j]).id@ != key@,
        decreases v@.len() - i,
    {
        if v[i].id == *key {
            return Some(i);
        }
        i = i + 1;
    }
    None
}

/// Appends to `out` the snapshots at `now_ms` of the tasks of `v`, in order.
fn append_snapshots(out: &mut Vec<DownloadProgress>, v: &Vec<DownloadTask>, now_ms: u64)
    ensures
        final(out)@.len() == old(out)@.len() + v@.len(),
        forall|i: int| 0 <= i < old(out)@.len() ==> final(out)@[i] == old(out)@[i],
        forall|i: int|
            0 <= i < v@.len() ==> is_snapshot(
                #[trigger] final(out)@[old(out)@.len() + i],
                v@[i],
                now_ms,
            ),
{
    let mut i: usize = 0;
    while i < v.len()
        invariant
            i <= v@.len(),
            out@.len() == old(out)@.len() + i,
            forall|j: int| 0 <= j < old(out)@.len() ==> out@[j] == old(out)@[j],
            forall|j: int| 0 <= j < i ==> is_snapshot(#[trigger] out@[old(out)@.len() + j], v@[j], now_ms),
        decreases v@.len() - i,
    {
        out.push(v[i].progress(now_ms));
        i = i + 1;
    }
}

/// Bounded-concurrency download scheduler: a FIFO queue of waiting tasks, a
/// set of transferring tasks no larger than the concurrency budget, and the
/// finished tasks, kept until they are removed.
pub struct DownloadManager {
    active: Vec<DownloadTask>,
    queue: Vec<DownloadTask>,
    finished: Vec<DownloadTask>,
    max_concurrent: usize,
}

impl View for DownloadManager {
    type V = ManagerView;

    closed spec fn view(&self) -> ManagerView {
        ManagerView {
            active: self.active@,
            queue: self.queue@,
            finished: self.finished@,
            max_concurrent: self.max_concurrent as nat,
        }
    }
}

impl DownloadManager {
    pub open spec fn wf(&self) -> bool {
        self@.wf()
    }

    /// An empty manager that runs up to three transfers at once.
    pub fn new() -> (r: DownloadManager)
        ensures
            r.wf(),
            r@.active == Seq::<DownloadTask>::empty(),
            r@.queue == Seq::<DownloadTask>::empty(),
            r@.finished == Seq::<DownloadTask>::empty(),
            r@.max_concurrent == DEFAULT_MAX_CONCURRENT,
    {
        DownloadManager {
            active: Vec::new(),
            queue: Vec::new(),
            finished: Vec::new(),
            max_concurrent: DEFAULT_MAX_CONCURRENT,
        }
    }

    /// Number of tasks transferring now.
    pub fn active_count(&self) -> (r: usize)
        ensures
            r == self@.active.len(),
    {
        self.active.len()
    }

    /// The concurrency budget.
    pub fn max_concurrent(&self) -> (r: usize)
        ensures
            r == self@.max_concurrent,
    {
        self.max_concurrent
    }

    /// Whether any task, waiting, transferring or finished, has id `key`.
    fn tracks(&self, key: &String) -> (r: bool)
        ensures
            r == self@.tracks(key@),
    {
        find_task(&self.active, key).is_some() || find_task(&self.queue, key).is_some()
            || find_task(&self.finished, key).is_some()
    }

    /// Queues a new download and returns its id, which no task tracked so far has.
    pub fn start_download(&mut self, name: String, url: String, destination: String, now_ms: u64) -> (r: String)
        requires
            old(self).wf(),
        ensures
            final(self).wf(),
            !old(self)@.tracks(r@),
            r@.len() >= 9,
            r@.subrange(0, 9) == id_prefix(),
            final(self)@.active == old(self)@.active,
            final(self)@.finished == old(self)@.finished,
            final(self)@.max_concurrent == old(self)@.max_concurrent,
            final(self)@.queue.len() == old(self)@.queue.len() + 1,
            final(self)@.queue.drop_last() == old(self)@.queue,
            final(self)@.queue.last().id@ == r@,
            is_fresh_task(final(self)@.queue.last(), name@, url@, destination@, now_ms),
    {
        let mut task = DownloadTask::new(name, url, destination, now_ms);
        let ghost bound = max_id_len(self.active@) + max_id_len(self.queue@) + max_id_len(
            self.finished@,
        );
        while self.tracks(&task.id)
            invariant
                self.wf(),
                task.id@.len() >= 9,
                task.id@.subrange(0, 9) == id_prefix(),
                is_fresh_task(task, name@, url@, destination@, now_ms),
                bound == max_id_len(self.active@) + max_id_len(self.queue@) + max_id_len(
                    self.finished@,
                ),
            decreases bound + 1 - task.id@.len(),
        {
            proof {
                if has_id(self.active@, task.id@) {
                    lemma_max_id_len(self.active@, task.id@);
                } else if has_id(self.queue@, task.id@) {
                    lemma_max_id_len(self.queue@, task.id@);
                } else {
                    lemma_max_id_len(self.finished@, task.id@);
                }
            }
            assert(task.id@.len() <= bound);
            let ghost before = task.id@;
            proof {
                reveal_strlit("-");
            }
            assert("-"@.len() == 1);
            task.id.append("-");
            assert(task.id@.len() == before.len() + 1);
            assert(task.id@.subrange(0, 9) =~= before.subrange(0, 9));
        }
        let id = task.id.clone();
        proof {
            lemma_push_ids(self.queue@, task);
        }
        self.queue.push(task);
        id
    }

    /// Sets the concurrency budget. It never drops below the number of tasks
    /// already transferring.
    pub fn set_max_concurrent(&mut self, max: usize)
        requires
            old(self).wf(),
        ensures
            final(self).wf(),
            final(self)@.max_concurrent == if max >= old(self)@.active.len() {
                max as nat
            } else {
                old(self)@.active.len()
            },
            final(self)@.active == old(self)@.active,
            final(self)@.queue == old(self)@.queue,
            final(self)@.finished == old(self)@.finished,
    {
        if max >= self.active.len() {
            self.max_concurrent = max;
        } else {
            self.max_concurrent = self.active.len();
        }
    }

    /// Admits the task at the front of the queue when a slot is free: it
    /// starts transferring at `now_ms` and its order is returned.
    pub fn admit_next(&mut self, now_ms: u64) -> (r: Option<TransferOrder>)
        requires
            old(self).wf(),
        ensures
            final(self).wf(),
            final(self)@.finished == old(self)@.finished,
            final(self)@.max_concurrent == old(self)@.max_concurrent,
            match r {
                Some(o) => {
                    &&& old(self)@.active.len() < old(self)@.max_concurrent
                    &&& old(self)@.queue.len() > 0
                    &&& is_order_for(o, old(self)@.queue[0])
                    &&& final(self)@.queue == old(self)@.queue.drop_first()
                    &&& final(self)@.active == old(self)@.active.push(
                        started(old(self)@.queue[0], now_ms),
                    )
                },
                None => {
                    &&& !(old(self)@.active.len() < old(self)@.max_concurrent
                        && old(self)@.queue.len() > 0)
                    &&& final(self)@ == old(self)@
                },
            },
    {
        if self.active.len() >= self.max_concurrent || self.queue.len() == 0 {
            return None;
        }
        let ghost q0 = self.queue@[0];
        proof {
            lemma_remove_ids(self.queue@, 0);
            lemma_index_of(self.queue@, 0);
        }
        let mut t = self.queue.remove(0);
        assert(self.queue@ == old(self)@.queue.drop_first());
        t.status = DownloadStatus::Downloading;
        t.started_at = Some(now_ms);
        assert(t == started(q0, now_ms));
        let order = TransferOrder {
            id: t.id.clone(),
            url: t.url.clone(),
            destination: t.destination.clone(),
        };
        proof {
            lemma_push_ids(self.active@, t);
        }
        self.active.push(t);
        Some(order)
    }

    /// Admits tasks from the front of the queue, in order, while slots are
    /// free, and returns their orders.
    pub fn try_start_next_download(&mut self, now_ms: u64) -> (r: Vec<TransferOrder>)
        requires
            old(self).wf(),
        ensures
            final(self).wf(),
            r@.len() == old(self)@.admissible(),
            final(self)@.queue == old(self)@.queue.subrange(
                old(self)@.admissible() as int,
                old(self)@.queue.len() as int,
            ),
            final(self)@.active == old(self)@.active + old(self)@.queue.subrange(
                0,
                old(self)@.admissible() as int,
            ).map_values(|t: DownloadTask| started(t, now_ms)),
            forall|i: int| 0 <= i < r@.len() ==> is_order_for(#[trigger] r@[i], old(self)@.queue[i]),
            final(self)@.finished == old(self)@.finished,
            final(self)@.max_concurrent == old(self)@.max_concurrent,
    {
        let ghost q = self.queue@;
        let ghost a = self.active@;
        let ghost k = self@.admissible();
        let mut orders: Vec<TransferOrder> = Vec::new();
        loop
            invariant
                self.wf(),
                orders@.len() <= k,
                k == old(self)@.admissible(),
                q == old(self)@.queue,
                a == old(self)@.active,
                self@.queue == q.subrange(orders@.len() as int, q.len() as int),
                self@.active == a + q.subrange(0, orders@.len() as int).map_values(
                    |t: DownloadTask| started(t, now_ms),
                ),
                forall|i: int| 0 <= i < orders@.len() ==> is_order_for(#[trigger] orders@[i], q[i]),
                self@.finished == old(self)@.finished,
                self@.max_concurrent == old(self)@.max_concurrent,
            ensures
                orders@.len() == k,
                self@.queue == q.subrange(orders@.len() as int, q.len() as int),
                self@.active == a + q.subrange(0, orders@.len() as int).map_values(
                    |t: DownloadTask| started(t, now_ms),
                ),
                forall|i: int| 0 <= i < orders@.len() ==> is_order_for(#[trigger] orders@[i], q[i]),
                self@.finished == old(self)@.finished,
                self@.max_concurrent == old(self)@.max_concurrent,
            decreases k - orders@.len(),
        {
            let ghost n: int = orders@.len() as int;
            match self.admit_next(now_ms) {
                Some(o) => {
                    assert(q.subrange(0, n + 1).map_values(|t: DownloadTask| started(t, now_ms))
                        =~= q.subrange(0, n).map_values(
                        |t: DownloadTask| started(t, now_ms),
                    ).push(started(q[n], now_ms)));
                    assert(q.subrange(n + 1, q.len() as int) =~= q.subrange(
                        n as int,
                        q.len() as int,
                    ).drop_first());
                    orders.push(o);
                },
                None => {
                    break ;
                },
            }
        }
        orders
    }

    /// Records the size announced for a transferring task. Returns whether the
    /// task is still transferring; a transfer whose task is not should stop.
    pub fn record_total(&mut self, id: &str, total: u64) -> (r: bool)
        requires
            old(self).wf(),
        ensures
            final(self).wf(),
            r == has_id(old(self)@.active, id@),
            r ==> final(self)@.active == old(self)@.active.update(
                index_of(old(self)@.active, id@),
                with_total(old(self)@.active[index_of(old(self)@.active, id@)], total),
            ),
            !r ==> final(self)@.active == old(self)@.active,
            final(self)@.queue == old(self)@.queue,
            final(self)@.finished == old(self)@.finished,
            final(self)@.max_concurrent == old(self)@.max_concurrent,
    {
        let key = String::from_str(id);
        match find_task(&self.active, &key) {
            Some(k) => {
                proof {
                    lemma_index_of(self.active@, k as int);
                    lemma_update_ids(
                        self.active@,
                        k as int,
                        with_total(self.active@[k as int], total),
                    );
                }
                self.active[k].total_bytes = total;
                assert(self.active@ =~= old(self)@.active.update(
                    k as int,
                    with_total(old(self)@.active[k as int], total),
                ));
                true
            },
            None => false,
        }
    }

    /// Publishes the byte count of a transferring task; the published count
    /// never goes down. Returns whether the task is still transferring.
    pub fn record_progress(&mut self, id: &str, bytes: u64) -> (r: bool)
        requires
            old(self).wf(),
        ensures
            final(self).wf(),
            r == has_id(old(self)@.active, id@),
            r ==> final(self)@.active == old(self)@.active.update(
                index_of(old(self)@.active, id@),
                with_progress(old(self)@.active[index_of(old(self)@.active, id@)], bytes),
            ),
            !r ==> final(self)@.active == old(self)@.active,
            final(self)@.queue == old(self)@.queue,
            final(self)@.finished == old(self)@.finished,
            final(self)@.max_concurrent == old(self)@.max_concurrent,
    {
        let key = String::from_str(id);
        match find_task(&self.active, &key) {
            Some(k) => {
                proof {
                    lemma_index_of(self.active@, k as int);
                    lemma_update_ids(
                        self.active@,
                        k as int,
                        with_progress(self.active@[k as int], bytes),
                    );
                }
                if bytes > self.active[k].downloaded_bytes {
                    self.active[k].downloaded_bytes = bytes;
                }
                assert(self.active@ =~= old(self)@.active.update(
                    k as int,
                    with_progress(old(self)@.active[k as int], bytes),
                ));
                true
            },
            None => false,
        }
    }

    /// Moves the active task at `k`, changed into `t`, to the finished tasks.
    fn finish_active(&mut self, k: usize, t: DownloadTask)
        requires
            old(self).wf(),
            k < old(self)@.active.len(),
            t.id@ == old(self)@.active[k as int].id@,
            t.status == DownloadStatus::Completed || t.status is Failed,
        ensures
            final(self).wf(),
            final(self)@.active == without(old(self)@.active, t.id@),
            final(self)@.finished == old(self)@.finished.push(t),
            final(self)@.queue == old(self)@.queue,
            final(self)@.max_concurrent == old(self)@.max_concurrent,
    {
        proof {
            lemma_index_of(self.active@, k as int);
            lemma_remove_ids(self.active@, k as int);
            lemma_push_ids(self.finished@, t);
        }
        self.active.remove(k);
        self.finished.push(t);
    }

    /// Records that the transfer of a task finished at `now_ms` with `bytes`
    /// written: it leaves the active set, freeing its slot, and is kept as
    /// completed. Returns whether the task was transferring; if not, nothing changes.
    pub fn complete_transfer(&mut self, id: &str, bytes: u64, now_ms: u64) -> (r: bool)
        requires
            old(self).wf(),
        ensures
            final(self).wf(),
            r == has_id(old(self)@.active, id@),
            r ==> final(self)@.active == without(old(self)@.active, id@),
            r ==> final(self)@.finished == old(self)@.finished.push(
                completed(old(self)@.active[index_of(old(self)@.active, id@)], bytes, now_ms),
            ),
            !r ==> final(self)@ == old(self)@,
            final(self)@.queue == old(self)@.queue,
            final(self)@.max_concurrent == old(self)@.max_concurrent,
    {
        let key = String::from_str(id);
        match find_task(&self.active, &key) {
            Some(k) => {
                proof {
                    lemma_index_of(self.active@, k as int);
                }
                let mut t = self.active[k].clone_task();
                t.status = DownloadStatus::Completed;
                t.downloaded_bytes = bytes;
                t.completed_at = Some(now_ms);
                self.finish_active(k, t);
                true
            },
            None => false,
        }
    }

    /// Records a failed attempt of a transferring task. A retryable failure
    /// (network, HTTP status, stream) counts against the task's retries: while
    /// some are left the task stays active and the caller waits
    /// `2^(retry_count - 1)` seconds before the next attempt; once they are
    /// spent, and at once for a failure that is not retryable (file system),
    /// the task leaves the active set as failed with `reason`.
    pub fn fail_attempt(&mut self, id: &str, reason: String, retryable: bool) -> (r: TransferStep)
        requires
            old(self).wf(),
        ensures
            final(self).wf(),
            final(self)@.queue == old(self)@.queue,
            final(self)@.max_concurrent == old(self)@.max_concurrent,
            !has_id(old(self)@.active, id@) ==> r == TransferStep::Stop && final(self)@ == old(
                self,
            )@,
            has_id(old(self)@.active, id@) ==> {
                let k = index_of(old(self)@.active, id@);
                let t = old(self)@.active[k];
                let n = (t.retry_count + 1) as u32;
                if retryable && n < t.max_retries {
                    &&& r matches TransferStep::Retry { delay_secs }
                    &&& delay_secs == two_pow((n - 1) as nat)
                    &&& final(self)@.active == old(self)@.active.update(
                        k,
                        DownloadTask { retry_count: n, ..t },
                    )
                    &&& final(self)@.finished == old(self)@.finished
                } else {
                    &&& r == TransferStep::Stop
                    &&& final(self)@.active == without(old(self)@.active, id@)
                    &&& final(self)@.finished == old(self)@.finished.push(
                        failed(t, reason, if retryable { n } else { t.retry_count }),
                    )
                }
            },
    {
        let key = String::from_str(id);
        match find_task(&self.active, &key) {
            Some(k) => {
                proof {
                    lemma_index_of(self.active@, k as int);
                }
                let count = self.active[k].retry_count + 1;
                if retryable && count < self.active[k].max_retries {
                    proof {
                        let t = self.active@[k as int];
                        lemma_update_ids(self.active@, k as int, DownloadTask { retry_count: count, ..t });
                    }
                    self.active[k].retry_count = count;
                    TransferStep::Retry { delay_secs: backoff_delay_secs(count) }
                } else {
                    let mut t = self.active[k].clone_task();
                    if retryable {
                        t.retry_count = count;
                    }
                    t.status = DownloadStatus::Failed(reason);
                    self.finish_active(k, t);
                    TransferStep::Stop
                }
            },
            None => TransferStep::Stop,
        }
    }

    /// Pauses a transferring task: it leaves the active set, freeing its
    /// slot, and goes to the back of the queue as pending. No effect on
    /// waiting, finished or unknown tasks.
    pub fn pause_download(&mut self, id: &str)
        requires
            old(self).wf(),
        ensures
            final(self).wf(),
            final(self)@.finished == old(self)@.finished,
            final(self)@.max_concurrent == old(self)@.max_concurrent,
            has_id(old(self)@.active, id@) ==> {
                &&& final(self)@.active == without(old(self)@.active, id@)
                &&& final(self)@.queue == old(self)@.queue.push(
                    requeued(old(self)@.active[index_of(old(self)@.active, id@)]),
                )
            },
            !has_id(old(self)@.active, id@) ==> final(self)@ == old(self)@,
    {
        let key = String::from_str(id);
        if let Some(k) = find_task(&self.active, &key) {
            proof {
                lemma_index_of(self.active@, k as int);
                lemma_remove_ids(self.active@, k as int);
            }
            let mut t = self.active.remove(k);
            t.status = DownloadStatus::Pending;
            proof {
                lemma_push_ids(self.queue@, t);
            }
            self.queue.push(t);
        }
    }

    /// Moves a waiting task to the back of the queue, as pending. No effect on
    /// transferring, finished or unknown tasks.
    pub fn resume_download(&mut self, id: &str)
        requires
            old(self).wf(),
        ensures
            final(self).wf(),
            final(self)@.active == old(self)@.active,
            final(self)@.finished == old(self)@.finished,
            final(self)@.max_concurrent == old(self)@.max_concurrent,
            has_id(old(self)@.queue, id@) ==> final(self)@.queue == without(
                old(self)@.queue,
                id@,
            ).push(old(self)@.queue[index_of(old(self)@.queue, id@)]),
            !has_id(old(self)@.queue, id@) ==> final(self)@.queue == old(self)@.queue,
    {
        let key = String::from_str(id);
        if let Some(k) = find_task(&self.queue, &key) {
            proof {
                lemma_index_of(self.queue@, k as int);
                lemma_remove_ids(self.queue@, k as int);
            }
            let mut t = self.queue.remove(k);
            t.status = DownloadStatus::Pending;
            proof {
                lemma_push_ids(self.queue@, t);
            }
            self.queue.push(t);
        }
    }

    /// Cancels a waiting or transferring task: it is purged from the queue or
    /// the active set (freeing its slot). For a transferring task the
    /// destination of its partly written file is returned, for the caller to
    /// delete. Finished and unknown tasks are left as they are.
    pub fn cancel_download(&mut self, id: &str) -> (r: Option<String>)
        requires
            old(self).wf(),
        ensures
            final(self).wf(),
            final(self)@ == old(self)@.cancelled(id@),
            match r {
                Some(d) => has_id(old(self)@.active, id@) && d@ == old(self)@.active[index_of(
                    old(self)@.active,
                    id@,
                )].destination@,
                None => !has_id(old(self)@.active, id@),
            },
    {
        let key = String::from_str(id);
        if let Some(k) = find_task(&self.active, &key) {
            proof {
                lemma_index_of(self.active@, k as int);
                lemma_remove_ids(self.active@, k as int);
            }
            let t = self.active.remove(k);
            assert(!has_id(self.queue@, id@));
            return Some(t.destination);
        }
        if let Some(k) = find_task(&self.queue, &key) {
            proof {
                lemma_index_of(self.queue@, k as int);
                lemma_remove_ids(self.queue@, k as int);
            }
            self.queue.remove(k);
        }
        None
    }

    /// Purges the task with id `id` from all bookkeeping, whatever its state.
    pub fn remove_download(&mut self, id: &str)
        requires
            old(self).wf(),
        ensures
            final(self).wf(),
            final(self)@ == old(self)@.removed(id@),
    {
        let key = String::from_str(id);
        if let Some(k) = find_task(&self.active, &key) {
            proof {
                lemma_index_of(self.active@, k as int);
                lemma_remove_ids(self.active@, k as int);
            }
            self.active.remove(k);
        }
        if let Some(k) = find_task(&self.queue, &key) {
            proof {
                lemma_index_of(self.queue@, k as int);
                lemma_remove_ids(self.queue@, k as int);
            }
            self.queue.remove(k);
        }
        if let Some(k) = find_task(&self.finished, &key) {
            proof {
                lemma_index_of(self.finished@, k as int);
                lemma_remove_ids(self.finished@, k as int);
            }
            self.finished.remove(k);
        }
    }

    /// Snapshot at `now_ms` of the task with id `id`, looked for among the
    /// transferring tasks, then the waiting ones, then the finished ones.
    pub fn get_progress(&self, id: &str, now_ms: u64) -> (r: Option<DownloadProgress>)
        requires
            self.wf(),
        ensures
            match r {
                Some(p) => self@.tracks(id@) && is_snapshot(p, self@.lookup(id@), now_ms),
                None => !self@.tracks(id@),
            },
    {
        let key = String::from_str(id);
        if let Some(k) = find_task(&self.active, &key) {
            proof {
                lemma_index_of(self.active@, k as int);
            }
            return Some(self.active[k].progress(now_ms));
        }
        if let Some(k) = find_task(&self.queue, &key) {
            proof {
                lemma_index_of(self.queue@, k as int);
            }
            return Some(self.queue[k].progress(now_ms));
        }
        if let Some(k) = find_task(&self.finished, &key) {
            proof {
                lemma_index_of(self.finished@, k as int);
            }
            return Some(self.finished[k].progress(now_ms));
        }
        None
    }

    /// The full record of the task with id `id`, looked up as `get_progress` does.
    pub fn get_task(&self, id: &str) -> (r: Option<DownloadTask>)
        requires
            self.wf(),
        ensures
            match r {
                Some(t) => self@.tracks(id@) && t == self@.lookup(id@),
                None => !self@.tracks(id@),
            },
    {
        let key = String::from_str(id);
        if let Some(k) = find_task(&self.active, &key) {
            proof {
                lemma_index_of(self.active@, k as int);
            }
            return Some(self.active[k].clone_task());
        }
        if let Some(k) = find_task(&self.queue, &key) {
            proof {
                lemma_index_of(self.queue@, k as int);
            }
            return Some(self.queue[k].clone_task());
        }
        if let Some(k) = find_task(&self.finished, &key) {
            proof {
                lemma_index_of(self.finished@, k as int);
            }
            return Some(self.finished[k].clone_task());
        }
        None
    }

    /// Snapshots at `now_ms` of every task: transferring ones in order of
    /// admission, then waiting ones in queue order, then finished ones.
    pub fn get_all_downloads(&self, now_ms: u64) -> (r: Vec<DownloadProgress>)
        requires
            self.wf(),
        ensures
            r@.len() == self@.all_tasks().len(),
            forall|i: int|
                0 <= i < r@.len() ==> is_snapshot(#[trigger] r@[i], self@.all_tasks()[i], now_ms),
    {
        let mut out: Vec<DownloadProgress> = Vec::new();
        append_snapshots(&mut out, &self.active, now_ms);
        let ghost first = out@;
        append_snapshots(&mut out, &self.queue, now_ms);
        let ghost second = out@;
        append_snapshots(&mut out, &self.finished, now_ms);
        let ghost all = self@.all_tasks();
        let ghost na = self.active@.len() as int;
        let ghost nq = self.queue@.len() as int;
        assert(all =~= self.active@ + self.queue@ + self.finished@);
        assert forall|i: int| 0 <= i < out@.len() implies is_snapshot(
            #[trigger] out@[i],
            all[i],
            now_ms,
        ) by {
            if i < na {
                assert(out@[i] == second[i] && second[i] == first[i]);
                assert(first[0 + i] == first[i]);
            } else if i < na + nq {
                assert(out@[i] == second[i]);
                assert(second[na + (i - na)] == second[i]);
            } else {
                assert(out@[na + nq + (i - na - nq)] == out@[i]);
            }
        }
        out
    }
}

impl Default for DownloadManager {
    fn default() -> (r: DownloadManager)
        ensures
            r.wf(),
            r@.active == Seq::<DownloadTask>::empty(),
            r@.queue == Seq::<DownloadTask>::empty(),
            r@.finished == Seq::<DownloadTask>::empty(),
            r@.max_concurrent == DEFAULT_MAX_CONCURRENT,
    {
        DownloadManager::new()
    }
}

/// Largest concurrency budget that a user may ask for.
pub const MAX_CONCURRENT_LIMIT: usize = 10;

/// Sets the concurrency budget at a user's request. A request outside
/// `1..=MAX_CONCURRENT_LIMIT` is refused with an invalid-configuration error
/// and changes nothing.
pub fn set_max_concurrent_downloads(manager: &mut DownloadManager, max_concurrent: usize) -> (r:
    Result<(), LauncherError>)
    requires
        old(manager).wf(),
    ensures
        final(manager).wf(),
        r is Ok <==> 1 <= max_concurrent <= MAX_CONCURRENT_LIMIT,
        r matches Err(e) ==> e is InvalidConfig && final(manager)@ == old(manager)@,
        r is Ok ==> final(manager)@.max_concurrent == if max_concurrent >= old(
            manager,
        )@.active.len() {
            max_concurrent as nat
        } else {
            old(manager)@.active.len()
        },
        final(manager)@.active == old(manager)@.active,
        final(manager)@.queue == old(manager)@.queue,
        final(manager)@.finished == old(manager)@.finished,
{
    if max_concurrent == 0 || max_concurrent > MAX_CONCURRENT_LIMIT {
        return Err(
            LauncherError::InvalidConfig(
                String::from_str("Maximum concurrent downloads must be between 1 and 10"),
            ),
        );
    }
    manager.set_max_concurrent(max_concurrent);
    Ok(())
}

} // verus!
