use theboys_launcher::manager::{set_max_concurrent_downloads, DownloadManager};
use theboys_launcher::models::LauncherError;

#[test]
fn test_get_download_progress_nonexistent() {
    let manager = DownloadManager::new();
    let result = manager.get_progress("nonexistent_download_id", 0);
    assert!(result.is_none());
}

#[test]
fn test_get_all_downloads_empty() {
    let manager = DownloadManager::new();
    assert!(manager.get_all_downloads(0).is_empty());
}

#[test]
fn test_set_max_concurrent_downloads_valid() {
    let test_cases = vec![1, 3, 5, 10];
    for max_concurrent in test_cases {
        let mut manager = DownloadManager::new();
        let result = set_max_concurrent_downloads(&mut manager, max_concurrent);
        assert!(result.is_ok(), "Should be valid: {}", max_concurrent);
        assert_eq!(manager.max_concurrent(), max_concurrent);
    }
}

#[test]
fn test_set_max_concurrent_downloads_invalid() {
    let test_cases = vec![0, 11, 50];
    for max_concurrent in test_cases {
        let mut manager = DownloadManager::new();
        let result = set_max_concurrent_downloads(&mut manager, max_concurrent);
        assert!(result.is_err(), "Should be invalid: {}", max_concurrent);
        match result.unwrap_err() {
            LauncherError::InvalidConfig(_) => {}
            other => panic!("Expected InvalidConfig error, got: {:?}", other),
        }
        assert_eq!(manager.max_concurrent(), 3);
    }
}

#[test]
fn test_cancel_download_nonexistent() {
    let mut manager = DownloadManager::new();
    assert_eq!(manager.cancel_download("nonexistent_download_id"), None);
    assert!(manager.get_all_downloads(0).is_empty());
}

#[test]
fn test_pause_download_nonexistent() {
    let mut manager = DownloadManager::new();
    manager.pause_download("nonexistent_download_id");
    assert!(manager.get_all_downloads(0).is_empty());
}

#[test]
fn test_resume_download_nonexistent() {
    let mut manager = DownloadManager::new();
    manager.resume_download("nonexistent_download_id");
    assert!(manager.get_all_downloads(0).is_empty());
}

#[test]
fn test_remove_download_nonexistent() {
    let mut manager = DownloadManager::new();
    manager.remove_download("nonexistent_download_id");
    assert!(manager.get_all_downloads(0).is_empty());
}
