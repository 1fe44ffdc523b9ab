use theboys_launcher::downloader::{
    backoff_delay_secs, is_success_status, should_publish, DownloadStatus, DownloadTask,
};
use theboys_launcher::manager::{DownloadManager, TransferStep};

fn s(v: &str) -> String {
    v.to_string()
}

fn enqueue(m: &mut DownloadManager, name: &str, now: u64) -> String {
    m.start_download(s(name), format!("http://mock/{}", name), format!("tmp/{}.bin", name), now)
}

fn ids_of(m: &DownloadManager, now: u64) -> Vec<String> {
    m.get_all_downloads(now).into_iter().map(|p| p.id).collect()
}

#[test]
fn new_task_is_pending_with_prefixed_id() {
    let t = DownloadTask::new(s("x"), s("http://mock/100KB"), s("tmp/out.bin"), 5);
    assert!(t.id.starts_with("download-"));
    assert!(t.id.len() > "download-".len());
    assert_eq!(t.status, DownloadStatus::Pending);
    assert_eq!(t.downloaded_bytes, 0);
    assert_eq!(t.total_bytes, 0);
    assert_eq!(t.created_at, 5);
    assert_eq!(t.started_at, None);
    assert_eq!(t.retry_count, 0);
    assert_eq!(t.max_retries, 3);
}

#[test]
fn task_ids_differ() {
    let mut m = DownloadManager::new();
    let a = enqueue(&mut m, "a", 0);
    let b = enqueue(&mut m, "b", 0);
    assert_ne!(a, b);
}

#[test]
fn speed_and_fraction() {
    let mut t = DownloadTask::new(s("x"), s("u"), s("d"), 0);
    assert_eq!(t.speed_bps(1000), 0);
    assert_eq!(t.progress_fraction(), (0, 0));
    t.started_at = Some(1000);
    t.downloaded_bytes = 5000;
    t.total_bytes = 10000;
    assert_eq!(t.elapsed_time(3000), 2000);
    assert_eq!(t.speed_bps(3000), 2500);
    assert_eq!(t.speed_bps(1000), 0);
    assert_eq!(t.speed_bps(500), 0);
    assert_eq!(t.progress_fraction(), (5000, 10000));
    t.downloaded_bytes = u64::MAX;
    assert_eq!(t.speed_bps(1001), u64::MAX);
}

#[test]
fn backoff_doubles() {
    assert_eq!(backoff_delay_secs(1), 1);
    assert_eq!(backoff_delay_secs(2), 2);
    assert_eq!(backoff_delay_secs(3), 4);
    assert_eq!(backoff_delay_secs(63), 1u64 << 62);
}

#[test]
fn success_statuses() {
    assert!(is_success_status(200));
    assert!(is_success_status(299));
    assert!(!is_success_status(199));
    assert!(!is_success_status(300));
    assert!(!is_success_status(500));
    assert!(!is_success_status(503));
}

#[test]
fn publication_throttle() {
    assert!(!should_publish(1000, 1099));
    assert!(should_publish(1000, 1100));
    assert!(!should_publish(1000, 900));
}

#[test]
fn active_count_never_exceeds_budget() {
    let mut m = DownloadManager::new();
    for i in 0..6 {
        enqueue(&mut m, &format!("t{}", i), 0);
    }
    let orders = m.try_start_next_download(10);
    assert_eq!(orders.len(), 3);
    assert_eq!(m.active_count(), 3);
    assert!(m.admit_next(11).is_none());
    assert_eq!(m.active_count(), 3);
    let first = orders[0].id.clone();
    assert!(m.complete_transfer(&first, 1, 20));
    assert_eq!(m.active_count(), 2);
    let more = m.try_start_next_download(21);
    assert_eq!(more.len(), 1);
    assert_eq!(m.active_count(), 3);
    assert!(m.active_count() <= m.max_concurrent());
}

#[test]
fn admission_is_fifo() {
    let mut m = DownloadManager::new();
    m.set_max_concurrent(1);
    let a = enqueue(&mut m, "a", 0);
    let b = enqueue(&mut m, "b", 1);
    let first = m.admit_next(2).unwrap();
    assert_eq!(first.id, a);
    assert_eq!(first.url, "http://mock/a");
    assert_eq!(first.destination, "tmp/a.bin");
    assert!(m.admit_next(3).is_none());
    assert!(m.complete_transfer(&a, 10, 4));
    let second = m.admit_next(5).unwrap();
    assert_eq!(second.id, b);
}

#[test]
fn remove_and_cancel_twice() {
    let mut m = DownloadManager::new();
    let a = enqueue(&mut m, "a", 0);
    let b = enqueue(&mut m, "b", 0);
    let c = enqueue(&mut m, "c", 0);
    m.try_start_next_download(1);
    assert_eq!(m.cancel_download(&a), Some(s("tmp/a.bin")));
    assert_eq!(m.active_count(), 2);
    assert_eq!(m.cancel_download(&a), None);
    assert_eq!(m.active_count(), 2);
    m.remove_download(&b);
    let after_first = ids_of(&m, 2);
    m.remove_download(&b);
    assert_eq!(ids_of(&m, 2), after_first);
    assert_eq!(after_first, vec![c.clone()]);
    assert!(m.get_progress(&a, 2).is_none());
    assert!(m.get_progress(&b, 2).is_none());
}

#[test]
fn unknown_ids_are_ignored() {
    let mut m = DownloadManager::new();
    let a = enqueue(&mut m, "a", 0);
    assert_eq!(m.cancel_download("nope"), None);
    m.pause_download("nope");
    m.resume_download("nope");
    m.remove_download("nope");
    assert!(m.get_progress("nope", 0).is_none());
    assert!(!m.record_progress("nope", 5));
    assert!(!m.record_total("nope", 5));
    assert!(!m.complete_transfer("nope", 5, 1));
    assert_eq!(m.fail_attempt("nope", s("boom"), true), TransferStep::Stop);
    assert_eq!(ids_of(&m, 0), vec![a]);
}

#[test]
fn empty_manager_reports_nothing() {
    let m = DownloadManager::new();
    assert!(m.get_all_downloads(0).is_empty());
    assert!(m.get_progress("download-x", 0).is_none());
    assert_eq!(m.max_concurrent(), 3);
}

#[test]
fn retry_then_complete() {
    let mut m = DownloadManager::new();
    let id = enqueue(&mut m, "x", 0);
    m.try_start_next_download(0);
    assert_eq!(m.fail_attempt(&id, s("HTTP 500"), true), TransferStep::Retry { delay_secs: 1 });
    assert_eq!(m.fail_attempt(&id, s("HTTP 500"), true), TransferStep::Retry { delay_secs: 2 });
    assert!(m.record_total(&id, 10));
    assert!(m.complete_transfer(&id, 10, 5000));
    let p = m.get_progress(&id, 5000).unwrap();
    assert_eq!(p.status, DownloadStatus::Completed);
    assert_eq!(m.active_count(), 0);
    let t = m.get_task(&id).unwrap();
    assert_eq!(t.retry_count, 2);
    assert_eq!(t.status, DownloadStatus::Completed);
    assert_eq!(t.completed_at, Some(5000));
    assert_eq!(t.started_at, Some(0));
    let all = m.get_all_downloads(5000);
    assert_eq!(all.len(), 1);
    assert_eq!(all[0].id, id);
}

#[test]
fn progress_never_decreases() {
    let mut m = DownloadManager::new();
    let id = enqueue(&mut m, "x", 0);
    m.try_start_next_download(0);
    let mut last = 0;
    for reported in [100u64, 300, 200, 300, 50, 900] {
        assert!(m.record_progress(&id, reported));
        let now = m.get_progress(&id, 1).unwrap().downloaded_bytes;
        assert!(now >= last);
        last = now;
    }
    assert_eq!(last, 900);
    assert_eq!(m.fail_attempt(&id, s("reset"), true), TransferStep::Retry { delay_secs: 1 });
    assert!(m.record_progress(&id, 10));
    assert_eq!(m.get_progress(&id, 1).unwrap().downloaded_bytes, 900);
}

#[test]
fn round_trip_of_100kb() {
    let mut m = DownloadManager::new();
    let id = m.start_download(s("x"), s("http://mock/100KB"), s("tmp/out.bin"), 0);
    let orders = m.try_start_next_download(0);
    assert_eq!(orders.len(), 1);
    assert_eq!(orders[0].url, "http://mock/100KB");
    assert_eq!(orders[0].destination, "tmp/out.bin");
    assert!(m.record_total(&id, 102400));
    let mut done = 0u64;
    for _ in 0..25 {
        done += 4096;
        assert!(m.record_progress(&id, done));
    }
    assert!(m.complete_transfer(&id, done, 2000));
    let p = m.get_progress(&id, 2000).unwrap();
    assert_eq!(p.status, DownloadStatus::Completed);
    assert_eq!(p.downloaded_bytes, 102400);
    assert_eq!(p.total_bytes, 102400);
    assert_eq!(p.downloaded_bytes as f64 / p.total_bytes as f64 * 100.0, 100.0);
    assert_eq!(p.speed_bps, 51200);
}

#[test]
fn exhausted_retries_fail_the_task() {
    let mut m = DownloadManager::new();
    let id = enqueue(&mut m, "x", 0);
    m.try_start_next_download(0);
    assert_eq!(m.active_count(), 1);
    assert_eq!(m.fail_attempt(&id, s("HTTP 503"), true), TransferStep::Retry { delay_secs: 1 });
    assert_eq!(m.fail_attempt(&id, s("HTTP 503"), true), TransferStep::Retry { delay_secs: 2 });
    assert_eq!(m.fail_attempt(&id, s("HTTP 503"), true), TransferStep::Stop);
    assert_eq!(m.active_count(), 0);
    let p = m.get_progress(&id, 1).unwrap();
    assert_eq!(p.status, DownloadStatus::Failed(s("HTTP 503")));
    assert_eq!(m.get_task(&id).unwrap().retry_count, 3);
    assert_eq!(m.fail_attempt(&id, s("HTTP 503"), true), TransferStep::Stop);
    assert!(!m.record_progress(&id, 1));
}

#[test]
fn file_system_failure_is_not_retried() {
    let mut m = DownloadManager::new();
    let id = enqueue(&mut m, "x", 0);
    m.try_start_next_download(0);
    assert_eq!(m.fail_attempt(&id, s("disk full"), false), TransferStep::Stop);
    assert_eq!(m.active_count(), 0);
    let p = m.get_progress(&id, 0).unwrap();
    assert_eq!(p.status, DownloadStatus::Failed(s("disk full")));
}

#[test]
fn cancel_while_queued() {
    let mut m = DownloadManager::new();
    m.set_max_concurrent(1);
    let ids: Vec<String> = (0..5).map(|i| enqueue(&mut m, &format!("t{}", i), 0)).collect();
    let orders = m.try_start_next_download(0);
    assert_eq!(orders.len(), 1);
    assert_eq!(m.get_all_downloads(0).len(), 5);
    assert_eq!(m.cancel_download(&ids[2]), None);
    let left = ids_of(&m, 0);
    assert_eq!(left, vec![ids[0].clone(), ids[1].clone(), ids[3].clone(), ids[4].clone()]);
    assert_eq!(m.active_count(), 1);
}

#[test]
fn pause_requeues_and_resume_moves_to_back() {
    let mut m = DownloadManager::new();
    m.set_max_concurrent(1);
    let a = enqueue(&mut m, "a", 0);
    let b = enqueue(&mut m, "b", 0);
    let c = enqueue(&mut m, "c", 0);
    m.try_start_next_download(0);
    m.record_progress(&a, 42);
    m.pause_download(&a);
    assert_eq!(m.active_count(), 0);
    assert_eq!(ids_of(&m, 0), vec![b.clone(), c.clone(), a.clone()]);
    let p = m.get_progress(&a, 0).unwrap();
    assert_eq!(p.status, DownloadStatus::Pending);
    assert_eq!(p.downloaded_bytes, 42);
    m.resume_download(&b);
    assert_eq!(ids_of(&m, 0), vec![c.clone(), a.clone(), b.clone()]);
    let next = m.admit_next(1).unwrap();
    assert_eq!(next.id, c);
    m.pause_download(&b);
    assert_eq!(ids_of(&m, 0), vec![c, a, b]);
}

#[test]
fn budget_is_not_lowered_below_running_transfers() {
    let mut m = DownloadManager::new();
    for i in 0..3 {
        enqueue(&mut m, &format!("t{}", i), 0);
    }
    m.try_start_next_download(0);
    m.set_max_concurrent(1);
    assert_eq!(m.max_concurrent(), 3);
    m.set_max_concurrent(5);
    assert_eq!(m.max_concurrent(), 5);
}
