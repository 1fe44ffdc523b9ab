use vstd::prelude::*;
use vstd::string::StringExecFns;

use crate::ids::new_uuid_text;

verus! {

/// Number of attempts a transfer makes before it is marked failed.
pub const MAX_RETRIES: u32 = 3;

/// Least number of milliseconds between two progress publications of one transfer.
pub const PROGRESS_INTERVAL_MS: u64 = 100;

/// Number of transfers that a fresh manager runs side by side.
pub const DEFAULT_MAX_CONCURRENT: usize = 3;

/// Where a download stands.
#[derive(Clone, Debug)]
pub enum DownloadStatus {
    Pending,
    Downloading,
    Paused,
    Completed,
    Failed(String),
    Cancelled,
}

impl DownloadStatus {
    pub open spec fn is_terminal(self) -> bool {
        match self {
            DownloadStatus::Completed | DownloadStatus::Failed(_) | DownloadStatus::Cancelled => true,
            _ => false,
        }
    }

    pub open spec fn same_as(self, o: DownloadStatus) -> bool {
        match (self, o) {
            (DownloadStatus::Pending, DownloadStatus::Pending) => true,
            (DownloadStatus::Downloading, DownloadStatus::Downloading) => true,
            (DownloadStatus::Paused, DownloadStatus::Paused) => true,
            (DownloadStatus::Completed, DownloadStatus::Completed) => true,
            (DownloadStatus::Failed(a), DownloadStatus::Failed(b)) => a@ == b@,
            (DownloadStatus::Cancelled, DownloadStatus::Cancelled) => true,
            _ => false,
        }
    }

    /// A copy of this status.
    pub fn duplicate(&self) -> (r: DownloadStatus)
        ensures
            r == *self,
    {
        match self {
            DownloadStatus::Pending => DownloadStatus::Pending,
            DownloadStatus::Downloading => DownloadStatus::Downloading,
            DownloadStatus::Paused => DownloadStatus::Paused,
            DownloadStatus::Completed => DownloadStatus::Completed,
            DownloadStatus::Failed(reason) => DownloadStatus::Failed(reason.clone()),
            DownloadStatus::Cancelled => DownloadStatus::Cancelled,
        }
    }

    /// Whether the status can no longer change (completed, failed or cancelled).
    pub fn is_finished(&self) -> (r: bool)
        ensures
            r == self.is_terminal(),
    {
        match self {
            DownloadStatus::Completed | DownloadStatus::Failed(_) | DownloadStatus::Cancelled => true,
            _ => false,
        }
    }
}

impl PartialEq for DownloadStatus {
    fn eq(&self, o: &DownloadStatus) -> (r: bool)
        ensures
            r == self.same_as(*o),
    {
        match (self, o) {
            (DownloadStatus::Pending, DownloadStatus::Pending) => true,
            (DownloadStatus::Downloading, DownloadStatus::Downloading) => true,
            (DownloadStatus::Paused, DownloadStatus::Paused) => true,
            (DownloadStatus::Completed, DownloadStatus::Completed) => true,
            (DownloadStatus::Failed(a), DownloadStatus::Failed(b)) => *a == *b,
            (DownloadStatus::Cancelled, DownloadStatus::Cancelled) => true,
            _ => false,
        }
    }
}

impl vstd::std_specs::cmp::PartialEqSpecImpl for DownloadStatus {
    open spec fn obeys_eq_spec() -> bool {
        true
    }

    open spec fn eq_spec(&self, o: &DownloadStatus) -> bool {
        self.same_as(*o)
    }
}

/// One requested transfer: what to fetch, where to, and how far it got.
/// Times are milliseconds on the caller's monotonic clock.
#[derive(Clone, Debug)]
pub struct DownloadTask {
    pub id: String,
    pub name: String,
    pub url: String,
    pub destination: String,
    pub total_bytes: u64,
    pub downloaded_bytes: u64,
    pub status: DownloadStatus,
    pub created_at: u64,
    pub started_at: Option<u64>,
    pub completed_at: Option<u64>,
    pub retry_count: u32,
    pub max_retries: u32,
}

/// Whether `t` is a task just made from these values, not yet admitted.
pub open spec fn is_fresh_task(
    t: DownloadTask,
    name: Seq<char>,
    url: Seq<char>,
    destination: Seq<char>,
    now_ms: u64,
) -> bool {
    &&& t.name@ == name
    &&& t.url@ == url
    &&& t.destination@ == destination
    &&& t.total_bytes == 0
    &&& t.downloaded_bytes == 0
    &&& t.status == DownloadStatus::Pending
    &&& t.created_at == now_ms
    &&& t.started_at == None::<u64>
    &&& t.completed_at == None::<u64>
    &&& t.retry_count == 0
    &&& t.max_retries == MAX_RETRIES
}

/// The first nine characters of every task id.
pub open spec fn id_prefix() -> Seq<char> {
    seq!['d', 'o', 'w', 'n', 'l', 'o', 'a', 'd', '-']
}

/// Transfer speed in bytes per second: what was downloaded over the time since
/// the start, capped at `u64::MAX`; 0 before the start or when no time passed.
pub open spec fn speed_of(downloaded: u64, started_at: Option<u64>, now_ms: u64) -> nat {
    match started_at {
        Some(s) => if now_ms > s {
            let v = (downloaded as nat * 1000) / ((now_ms - s) as nat);
            if v > u64::MAX as nat { u64::MAX as nat } else { v }
        } else {
            0
        },
        None => 0,
    }
}

/// Point-in-time copy of a task's progress for callers that poll.
#[derive(Clone, Debug)]
pub struct DownloadProgress {
    pub id: String,
    pub name: String,
    pub downloaded_bytes: u64,
    pub total_bytes: u64,
    pub speed_bps: u64,
    pub status: DownloadStatus,
}

/// Whether `p` is the snapshot of `t` taken at `now_ms`.
pub open spec fn is_snapshot(p: DownloadProgress, t: DownloadTask, now_ms: u64) -> bool {
    &&& p.id@ == t.id@
    &&& p.name@ == t.name@
    &&& p.downloaded_bytes == t.downloaded_bytes
    &&& p.total_bytes == t.total_bytes
    &&& p.speed_bps as nat == speed_of(t.downloaded_bytes, t.started_at, now_ms)
    &&& p.status == t.status
}

/// `2^n`.
pub open spec fn two_pow(n: nat) -> nat
    decreases n,
{
    if n == 0 {
        1
    } else {
        2 * two_pow((n - 1) as nat)
    }
}

proof fn lemma_two_pow_bound(n: nat)
    requires
        n <= 61,
    ensures
        two_pow(n) <= 0x2000_0000_0000_0000,
{
    lemma_two_pow_monotone(n, 61);
    lemma_two_pow_61();
}

proof fn lemma_two_pow_monotone(a: nat, b: nat)
    requires
        a <= b,
    ensures
        two_pow(a) <= two_pow(b),
    decreases b,
{
    if a < b {
        lemma_two_pow_monotone(a, (b - 1) as nat);
    }
}

proof fn lemma_two_pow_61()
    ensures
        two_pow(61) == 0x2000_0000_0000_0000,
{
    reveal_with_fuel(two_pow, 62);
}

/// Seconds to wait after the `retry_count`-th failed attempt: 1, 2, 4, ...
pub fn backoff_delay_secs(retry_count: u32) -> (r: u64)
    requires
        1 <= retry_count <= 63,
    ensures
        r as nat == two_pow((retry_count - 1) as nat),
{
    let mut d: u64 = 1;
    let mut i: u32 = 1;
    while i < retry_count
        invariant
            1 <= i <= retry_count,
            retry_count <= 63,
            d as nat == two_pow((i - 1) as nat),
        decreases retry_count - i,
    {
        proof {
            lemma_two_pow_bound((i - 1) as nat);
        }
        d = d * 2;
        i = i + 1;
    }
    d
}

/// Whether an HTTP status code reports success (the 2xx class).
pub fn is_success_status(code: u16) -> (r: bool)
    ensures
        r == (200 <= code && code < 300),
{
    200 <= code && code < 300
}

/// Whether progress read at `now_ms` is due for publication, the last one
/// having been at `last_ms`.
pub fn should_publish(last_ms: u64, now_ms: u64) -> (r: bool)
    ensures
        r == (now_ms >= last_ms && now_ms - last_ms >= PROGRESS_INTERVAL_MS),
{
    now_ms >= last_ms && now_ms - last_ms >= PROGRESS_INTERVAL_MS
}

impl DownloadTask {
    /// A new pending task with an id of the form `download-<random uuid>`.
    pub fn new(name: String, url: String, destination: String, now_ms: u64) -> (r: DownloadTask)
        ensures
            is_fresh_task(r, name@, url@, destination@, now_ms),
            r.id@.len() >= 9,
            r.id@.subrange(0, 9) == id_prefix(),
    {
        let mut id = String::from_str("download-");
        proof {
            reveal_strlit("download-");
        }
        let u = new_uuid_text();
        id.append(u.as_str());
        assert(id@.subrange(0, 9) =~= id_prefix());
        DownloadTask {
            id,
            name,
            url,
            destination,
            total_bytes: 0,
            downloaded_bytes: 0,
            status: DownloadStatus::Pending,
            created_at: now_ms,
            started_at: None,
            completed_at: None,
            retry_count: 0,
            max_retries: MAX_RETRIES,
        }
    }

    /// Share of the transfer done, as a fraction `(done, whole)`; `(0, 0)`
    /// while the size is unknown.
    pub fn progress_fraction(&self) -> (r: (u64, u64))
        ensures
            self.total_bytes == 0 ==> r == (0u64, 0u64),
            self.total_bytes != 0 ==> r == (self.downloaded_bytes, self.total_bytes),
    {
        if self.total_bytes == 0 {
            (0, 0)
        } else {
            (self.downloaded_bytes, self.total_bytes)
        }
    }

    /// Milliseconds since the transfer started, 0 if it has not started.
    pub fn elapsed_time(&self, now_ms: u64) -> (r: u64)
        ensures
            r == match self.started_at {
                Some(s) => if now_ms > s { (now_ms - s) as u64 } else { 0 },
                None => 0,
            },
    {
        match self.started_at {
            Some(s) => if now_ms > s { now_ms - s } else { 0 },
            None => 0,
        }
    }

    /// Bytes per second since the transfer started.
    pub fn speed_bps(&self, now_ms: u64) -> (r: u64)
        ensures
            r as nat == speed_of(self.downloaded_bytes, self.started_at, now_ms),
    {
        let elapsed = self.elapsed_time(now_ms);
        if elapsed == 0 {
            return 0;
        }
        let v: u128 = (self.downloaded_bytes as u128 * 1000) / (elapsed as u128);
        if v > u64::MAX as u128 {
            u64::MAX
        } else {
            v as u64
        }
    }

    /// Snapshot at `now_ms` of the task.
    pub fn progress(&self, now_ms: u64) -> (r: DownloadProgress)
        ensures
            is_snapshot(r, *self, now_ms),
    {
        DownloadProgress {
            id: self.id.clone(),
            name: self.name.clone(),
            downloaded_bytes: self.downloaded_bytes,
            total_bytes: self.total_bytes,
            speed_bps: self.speed_bps(now_ms),
            status: self.status.duplicate(),
        }
    }

    /// A field-by-field duplicate of the task.
    pub fn clone_task(&self) -> (r: DownloadTask)
        ensures
            r == *self,
    {
        DownloadTask {
            id: self.id.clone(),
            name: self.name.clone(),
            url: self.url.clone(),
            destination: self.destination.clone(),
            total_bytes: self.total_bytes,
            downloaded_bytes: self.downloaded_bytes,
            status: self.status.duplicate(),
            created_at: self.created_at,
            started_at: self.started_at,
            completed_at: self.completed_at,
            retry_count: self.retry_count,
            max_retries: self.max_retries,
        }
    }
}

} // verus!
