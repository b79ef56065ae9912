use reapclone::client::github::{api_base_url, GithubClient};
use reapclone::client::page::{
    check_status, page_from_body, request_from_parsed, DEFAULT_PAGE, DEFAULT_PER_PAGE,
};
use reapclone::client::github_error::{ApiError, GitHubError, GitHubErrorKind};
use reapclone::client::models::{Repo, ShortBranch};
use reapclone::config_error::{ValidationError, ValidationErrorKind};

#[test]
fn public_api_is_the_default_host() {
    assert_eq!(api_base_url(None, None), "https://api.github.com");
}

#[test]
fn another_host_is_an_enterprise_installation() {
    assert_eq!(api_base_url(Some("ghe.example.com"), None), "https://ghe.example.com/api/v3");
}

#[test]
fn port_follows_the_host() {
    assert_eq!(
        api_base_url(Some("ghe.example.com"), Some("8443")),
        "https://ghe.example.com:8443/api/v3"
    );
    assert_eq!(api_base_url(None, Some("8443")), "https://api.github.com:8443");
}

#[test]
fn client_without_credential() {
    let client = GithubClient::new(None, "reapclone/0.1.0", None, None).unwrap();
    assert_eq!(client.base_url, "https://api.github.com");
    assert_eq!(client.user_agent, "reapclone/0.1.0");
    assert_eq!(client.authorization, None);
}

#[test]
fn client_with_credential() {
    let client =
        GithubClient::new(Some("abc123"), "reapclone/0.1.0", Some("ghe.example.com"), None)
            .unwrap();
    assert_eq!(client.base_url, "https://ghe.example.com/api/v3");
    assert_eq!(client.authorization, Some(String::from("token abc123")));
}

#[test]
fn credential_with_a_line_break_is_refused() {
    assert_eq!(
        GithubClient::new(Some("abc\n123"), "reapclone/0.1.0", None, None),
        Err(ApiError::Transport(String::from("failed to parse header value")))
    );
}

#[test]
fn credential_with_a_control_character_is_refused() {
    assert!(GithubClient::new(Some("abc\u{7f}"), "reapclone/0.1.0", None, None).is_err());
    assert!(GithubClient::new(Some("\u{0}"), "reapclone/0.1.0", None, None).is_err());
    assert!(GithubClient::new(Some("a\u{1f}b"), "reapclone/0.1.0", None, None).is_err());
}

#[test]
fn credential_with_a_tab_or_beyond_ascii_is_accepted() {
    assert!(GithubClient::new(Some("a\tb"), "reapclone/0.1.0", None, None).is_ok());
    assert!(GithubClient::new(Some("caf\u{e9}"), "reapclone/0.1.0", None, None).is_ok());
    assert!(GithubClient::new(Some("~ !"), "reapclone/0.1.0", None, None).is_ok());
    assert!(GithubClient::new(Some(""), "reapclone/0.1.0", None, None).is_ok());
}

#[test]
fn page_defaults() {
    assert_eq!(DEFAULT_PAGE, 1);
    assert_eq!(DEFAULT_PER_PAGE, 30);
}

#[test]
fn success_statuses_pass() {
    assert_eq!(check_status(200), Ok(()));
    assert_eq!(check_status(204), Ok(()));
    assert_eq!(check_status(299), Ok(()));
}

#[test]
fn status_404_is_not_found() {
    assert_eq!(check_status(404), Err(ApiError::NotFound));
}

#[test]
fn status_401_and_403_are_unauthorized() {
    assert_eq!(check_status(401), Err(ApiError::Unauthorized));
    assert_eq!(check_status(403), Err(ApiError::Unauthorized));
}

#[test]
fn other_statuses_are_transport_failures() {
    assert_eq!(
        check_status(500),
        Err(ApiError::Transport(String::from("unexpected status 500")))
    );
    assert_eq!(
        check_status(199),
        Err(ApiError::Transport(String::from("unexpected status 199")))
    );
    assert_eq!(
        check_status(300),
        Err(ApiError::Transport(String::from("unexpected status 300")))
    );
    assert_eq!(check_status(0), Err(ApiError::Transport(String::from("unexpected status 0"))));
    assert_eq!(
        check_status(400),
        Err(ApiError::Transport(String::from("unexpected status 400")))
    );
}

#[test]
fn every_status_is_judged() {
    for status in 0..=u16::MAX {
        let result = check_status(status);
        if (200..300).contains(&status) {
            assert_eq!(result, Ok(()));
        } else if status == 404 {
            assert_eq!(result, Err(ApiError::NotFound));
        } else if status == 401 || status == 403 {
            assert_eq!(result, Err(ApiError::Unauthorized));
        } else {
            assert_eq!(
                result,
                Err(ApiError::Transport(format!("unexpected status {}", status)))
            );
        }
    }
}

#[test]
fn read_body_is_the_page() {
    let page = vec![ShortBranch { name: String::from("main") }];
    assert_eq!(page_from_body(Ok(page.clone())), Ok(page));
}

#[test]
fn empty_body_is_an_empty_page() {
    assert_eq!(page_from_body::<Repo>(Ok(Vec::new())), Ok(Vec::new()));
}

#[test]
fn unreadable_body_is_a_transport_failure() {
    assert_eq!(
        page_from_body::<Repo>(Err(String::from("expected a sequence"))),
        Err(ApiError::Transport(String::from("expected a sequence")))
    );
}

#[test]
fn parsed_address_is_the_request() {
    assert_eq!(request_from_parsed(Ok(String::from("https://h/"))), Ok(String::from("https://h/")));
    assert_eq!(
        request_from_parsed(Err(String::from("empty host"))),
        Err(ApiError::Transport(String::from("empty host")))
    );
}

#[test]
fn error_kinds_in_words() {
    assert_eq!(GitHubErrorKind::Unauthorized.as_str(), "unauthorized");
    assert_eq!(GitHubErrorKind::NotFound.as_str(), "not found");
}

#[test]
fn github_error_message() {
    let e = GitHubError::new(GitHubErrorKind::NotFound);
    assert_eq!(e.kind, GitHubErrorKind::NotFound);
    assert_eq!(e.message(), "GitHubError: not found");
    assert_eq!(
        GitHubError::new(GitHubErrorKind::Unauthorized).message(),
        "GitHubError: unauthorized"
    );
}

#[test]
fn api_error_kind_and_message() {
    assert_eq!(ApiError::NotFound.kind(), Some(GitHubErrorKind::NotFound));
    assert_eq!(ApiError::Unauthorized.kind(), Some(GitHubErrorKind::Unauthorized));
    assert_eq!(ApiError::Transport(String::from("timed out")).kind(), None);
    assert_eq!(ApiError::NotFound.message(), "GitHubError: not found");
    assert_eq!(ApiError::Unauthorized.message(), "GitHubError: unauthorized");
    assert_eq!(ApiError::Transport(String::from("timed out")).message(), "timed out");
}

#[test]
fn api_error_from_github_error() {
    assert_eq!(ApiError::from(GitHubError::new(GitHubErrorKind::NotFound)), ApiError::NotFound);
    assert_eq!(
        ApiError::from(GitHubError::new(GitHubErrorKind::Unauthorized)),
        ApiError::Unauthorized
    );
}

#[test]
fn validation_error_in_words() {
    assert_eq!(
        ValidationErrorKind::BothOrgAndUserSet.as_str(),
        "cannot set both organisation and user flags"
    );
    assert_eq!(
        ValidationErrorKind::BothOrgAndUserNotSet.as_str(),
        "please specify a user or organisation to clone"
    );
    let e = ValidationError::new(ValidationErrorKind::BothOrgAndUserNotSet);
    assert_eq!(e.kind, ValidationErrorKind::BothOrgAndUserNotSet);
    assert_eq!(e.message(), "ValidationError: please specify a user or organisation to clone");
}
