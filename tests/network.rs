use theboys_launcher::models::LauncherError;
use theboys_launcher::network::{get_user_agent, validate_url};

#[test]
fn test_get_user_agent() {
    let user_agent = get_user_agent();
    assert!(user_agent.starts_with("TheBoys-Launcher/"));
    assert!(user_agent.contains("1.1.0"));
}

#[test]
fn test_validate_url_valid_urls() {
    let valid_urls = vec![
        "https://www.example.com",
        "http://localhost:8080",
        "https://api.github.com/repos/user/repo",
        "ftp://files.example.com/path",
        "https://example.com:443/path?query=value#fragment",
    ];
    for url in valid_urls {
        let result = validate_url(url);
        assert!(result.is_ok(), "URL should be valid: {}", url);
    }
}

#[test]
fn invalid_urls_are_refused() {
    for url in ["not-a-url", "://missing-protocol", "http://", "https://", "", " ", "ht tp://invalid-spaces.com"] {
        match validate_url(url) {
            Err(LauncherError::InvalidConfig(m)) => assert!(m.starts_with("Invalid URL: "), "{}", m),
            other => panic!("Expected InvalidConfig error for URL: {:?}, got: {:?}", url, other),
        }
    }
}
