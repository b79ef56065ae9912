use reapclone::client::github::{
    ApiEndpoints, GitHubUserType, GithubClient, PathParams, PathParamsBuilder,
};
use reapclone::client::github_error::ApiError;
use reapclone::client::listing::{ListAll, ListStep, UNBOUNDED_PAGES};
use reapclone::client::models::Repo;
use reapclone::client::url::RoutingError;

fn params() -> PathParams {
    PathParamsBuilder::new()
        .base_url("https://api.github.com")
        .owner("octo-org")
        .user_type(GitHubUserType::Organisation)
        .build()
}

fn listing<T>(max_pages: Option<u32>) -> ListAll<T> {
    ListAll::new(ApiEndpoints::ListRepos, params(), max_pages)
}

fn repo(name: &str) -> Repo {
    Repo {
        ssh_url: format!("git@github.com:octo-org/{}.git", name),
        name: String::from(name),
        archived: false,
    }
}

/// Walks a listing whose pages are `pages`, each asked for once at most,
/// and after them `after`. Hands back the outcome and the pages asked for.
fn walk<T: Clone>(
    max_pages: Option<u32>,
    pages: &[Result<Vec<T>, ApiError>],
    after: Result<Vec<T>, ApiError>,
) -> (Result<Vec<T>, ApiError>, Vec<u32>) {
    let mut listing: ListAll<T> = listing(max_pages);
    let mut asked = Vec::new();
    loop {
        match listing.next() {
            ListStep::Fetch { page, request, listing: waiting } => {
                assert_eq!(
                    request,
                    format!("https://api.github.com/orgs/octo-org/repos?page={}&per_page=30", page)
                );
                asked.push(page);
                let answer = pages.get(asked.len() - 1).cloned().unwrap_or(after.clone());
                listing = waiting.receive(answer);
            }
            ListStep::Done(outcome) => return (outcome, asked),
        }
    }
}

#[test]
fn two_pages_then_an_empty_one() {
    let pages = [Ok(vec![repo("one")]), Ok(vec![repo("two")])];
    let (outcome, asked) = walk(None, &pages, Ok(Vec::new()));
    assert_eq!(outcome, Ok(vec![repo("one"), repo("two")]));
    assert_eq!(asked, vec![1, 2, 3]);
}

#[test]
fn pages_are_concatenated_in_order() {
    let pages = [Ok(vec![1, 2, 3]), Ok(vec![4]), Ok(vec![5, 6]), Ok(vec![7, 8, 9, 10])];
    let (outcome, asked) = walk(None, &pages, Ok(Vec::new()));
    assert_eq!(outcome, Ok(vec![1, 2, 3, 4, 5, 6, 7, 8, 9, 10]));
    assert_eq!(asked, vec![1, 2, 3, 4, 5]);
}

#[test]
fn empty_listing_takes_one_request() {
    let (outcome, asked) = walk::<u8>(None, &[], Ok(Vec::new()));
    assert_eq!(outcome, Ok(Vec::new()));
    assert_eq!(asked, vec![1]);
}

#[test]
fn nothing_is_fetched_after_an_empty_page() {
    let pages = [Ok(vec![1]), Ok(Vec::new()), Ok(vec![2])];
    let (outcome, asked) = walk(None, &pages, Ok(vec![3]));
    assert_eq!(outcome, Ok(vec![1]));
    assert_eq!(asked, vec![1, 2]);
}

#[test]
fn limit_bounds_the_requests_when_every_page_is_full() {
    for k in 0..20u32 {
        let (outcome, asked) = walk(Some(k), &[], Ok(vec![7u8]));
        assert!(asked.len() as u32 <= k);
        assert_eq!(asked.len() as u32, k.saturating_sub(1));
        assert_eq!(outcome, Ok(vec![7u8; asked.len()]));
        assert_eq!(asked, (1..k.max(1)).collect::<Vec<u32>>());
    }
}

#[test]
fn limit_of_zero_or_one_fetches_nothing() {
    assert_eq!(walk(Some(0), &[], Ok(vec![1])), (Ok(Vec::new()), Vec::new()));
    assert_eq!(walk(Some(1), &[], Ok(vec![1])), (Ok(Vec::new()), Vec::new()));
}

#[test]
fn limit_of_three_fetches_two_pages() {
    let pages = [Ok(vec![1]), Ok(vec![2]), Ok(vec![3]), Ok(vec![4])];
    let (outcome, asked) = walk(Some(3), &pages, Ok(Vec::new()));
    assert_eq!(outcome, Ok(vec![1, 2]));
    assert_eq!(asked, vec![1, 2]);
}

#[test]
fn walk_without_a_limit_still_ends() {
    let (outcome, asked) = walk(None, &[], Ok(vec![0u8]));
    assert_eq!(UNBOUNDED_PAGES, 65535);
    assert_eq!(asked.len(), 65534);
    assert_eq!(asked.last(), Some(&65534));
    assert_eq!(outcome.map(|items| items.len()), Ok(65534));
}

#[test]
fn first_failure_ends_the_walk_and_discards_the_items() {
    let pages = [Ok(vec![1]), Ok(vec![2]), Err(ApiError::Unauthorized), Ok(vec![4])];
    let (outcome, asked) = walk(None, &pages, Ok(Vec::new()));
    assert_eq!(outcome, Err(ApiError::Unauthorized));
    assert_eq!(asked, vec![1, 2, 3]);
}

#[test]
fn failure_of_the_first_page() {
    let pages = [Err(ApiError::Transport(String::from("connection refused")))];
    let (outcome, asked) = walk::<Repo>(None, &pages, Ok(Vec::new()));
    assert_eq!(outcome, Err(ApiError::Transport(String::from("connection refused"))));
    assert_eq!(asked, vec![1]);
}

#[test]
fn answer_that_was_not_asked_for_is_dropped() {
    let listing: ListAll<u8> = listing(None);
    let listing = listing.receive(Ok(vec![1]));
    let listing = listing.receive(Ok(Vec::new()));
    let listing = listing.receive(Ok(vec![2]));
    let listing = listing.receive(Err(ApiError::NotFound));
    match listing.next() {
        ListStep::Done(outcome) => assert_eq!(outcome, Ok(vec![1])),
        ListStep::Fetch { .. } => panic!("the listing had ended"),
    }
}

#[test]
fn client_starts_a_walk_at_the_first_page() {
    let client = GithubClient::new(None, "reapclone/0.1.0", None, None).unwrap();
    let params =
        PathParamsBuilder::new().base_url(&client.base_url).owner("acme").repo("tool").build();
    match client.generic_list_all_api::<Repo>(&ApiEndpoints::ListCommits, &params, Some(5)).next()
    {
        ListStep::Fetch { page, request, .. } => {
            assert_eq!(page, 1);
            assert_eq!(request, "https://api.github.com/repos/acme/tool/commits?page=1&per_page=30");
        }
        ListStep::Done(_) => panic!("the listing had not begun"),
    }
}

#[test]
fn every_page_goes_to_the_same_listing() {
    let params =
        PathParamsBuilder::new().base_url("https://ghe.example.com/api/v3").owner("acme").repo("tool").build();
    let mut listing: ListAll<u8> = ListAll::new(ApiEndpoints::ListBranches, params, Some(4));
    let mut requests = Vec::new();
    loop {
        match listing.next() {
            ListStep::Fetch { request, listing: waiting, .. } => {
                requests.push(request);
                listing = waiting.receive(Ok(vec![0]));
            }
            ListStep::Done(_) => break,
        }
    }
    assert_eq!(
        requests,
        vec![
            "https://ghe.example.com/api/v3/repos/acme/tool/branches?page=1&per_page=30",
            "https://ghe.example.com/api/v3/repos/acme/tool/branches?page=2&per_page=30",
            "https://ghe.example.com/api/v3/repos/acme/tool/branches?page=3&per_page=30",
        ]
    );
}

#[test]
fn walk_without_a_parameter_ends_with_the_routing_error() {
    let params = PathParamsBuilder::new().base_url("https://api.github.com").owner("acme").build();
    let listing: ListAll<Repo> = ListAll::new(ApiEndpoints::ListRepos, params, None);
    match listing.next() {
        ListStep::Done(outcome) => {
            assert_eq!(outcome, Err(ApiError::Routing(RoutingError::MissingParameter)))
        }
        ListStep::Fetch { .. } => panic!("no request can be formed"),
    }
}

#[test]
fn walk_with_an_unparsable_address_ends_with_the_parser_words() {
    let params = PathParamsBuilder::new().base_url("").owner("acme").repo("tool").build();
    let listing: ListAll<Repo> = ListAll::new(ApiEndpoints::ListCommits, params, None);
    match listing.next() {
        ListStep::Done(outcome) => assert_eq!(
            outcome,
            Err(ApiError::Transport(String::from("relative URL without a base")))
        ),
        ListStep::Fetch { .. } => panic!("no request can be formed"),
    }
}

#[test]
fn walk_without_a_parameter_fetches_nothing_even_without_room() {
    let params = PathParamsBuilder::new().base_url("https://api.github.com").build();
    let listing: ListAll<Repo> = ListAll::new(ApiEndpoints::ListBranches, params, Some(1));
    match listing.next() {
        ListStep::Done(outcome) => assert_eq!(outcome, Ok(Vec::new())),
        ListStep::Fetch { .. } => panic!("the limit leaves no page"),
    }
}
