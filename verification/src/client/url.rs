//! The endpoint router: from an endpoint and its parameters to the address
//! of the request.

use crate::client::github::{ApiEndpoints, GitHubUserType, PathField, PathParams, PathParamsView};
use vstd::prelude::*;
use vstd::string::*;

verus! {

/// Why no address could be formed.
#[derive(Clone, Copy, Debug, PartialEq, Eq, Structural)]
pub enum RoutingError {
    /// The endpoint needs a parameter that has no value.
    MissingParameter,
}

impl RoutingError {
    /// The words that describe this error to a user.
    pub open spec fn text(self) -> Seq<char> {
        match self {
            RoutingError::MissingParameter => "missing parameter"@,
        }
    }

    pub fn as_str(&self) -> (s: &'static str)
        ensures
            s@ == self.text(),
    {
        match *self {
            RoutingError::MissingParameter => "missing parameter",
        }
    }
}

/// Whether some field that `endpoint` needs has no value in `params`.
pub open spec fn missing_parameter(endpoint: ApiEndpoints, params: PathParamsView) -> bool {
    exists|field: PathField| #[trigger] endpoint.requires_field(field) && !params.has_field(field)
}

/// Spells out, endpoint by endpoint, which absent fields make a parameter
/// missing.
pub proof fn lemma_missing_parameter(endpoint: ApiEndpoints, params: PathParamsView)
    ensures
        missing_parameter(endpoint, params) <==> match endpoint {
            ApiEndpoints::ListRepos => params.user_type.is_none() || params.owner.is_none(),
            ApiEndpoints::ListCommits => params.owner.is_none() || params.repo.is_none(),
            ApiEndpoints::ListBranches => params.owner.is_none() || params.repo.is_none(),
        },
{
    if params.owner.is_none() {
        assert(endpoint.requires_field(PathField::Owner) && !params.has_field(PathField::Owner));
    }
    if params.repo.is_none() && endpoint != ApiEndpoints::ListRepos {
        assert(endpoint.requires_field(PathField::Repo) && !params.has_field(PathField::Repo));
    }
    if params.user_type.is_none() && endpoint == ApiEndpoints::ListRepos {
        assert(endpoint.requires_field(PathField::UserType) && !params.has_field(
            PathField::UserType,
        ));
    }
}

/// The text of an optional value, and the empty text where there is none.
pub open spec fn text_or_empty(s: Option<Seq<char>>) -> Seq<char> {
    match s {
        Some(s) => s,
        None => Seq::<char>::empty(),
    }
}

/// The address of `endpoint` for `params`, where no parameter is missing.
pub open spec fn url_text(endpoint: ApiEndpoints, params: PathParamsView) -> Seq<char> {
    let owner = text_or_empty(params.owner);
    let repo = text_or_empty(params.repo);
    match endpoint {
        ApiEndpoints::ListCommits => params.base_url + "/repos/"@ + owner + "/"@ + repo
            + "/commits"@,
        ApiEndpoints::ListRepos => match params.user_type {
            Some(GitHubUserType::Organisation) => params.base_url + "/orgs/"@ + owner + "/repos"@,
            _ => params.base_url + "/users/"@ + owner + "/repos"@,
        },
        ApiEndpoints::ListBranches => params.base_url + "/repos/"@ + owner + "/"@ + repo
            + "/branches"@,
    }
}

/// The address of `endpoint` for `params`. Fails, and forms no address, if
/// and only if a parameter that the endpoint needs is missing.
pub fn build_url(endpoint: &ApiEndpoints, params: &PathParams) -> (r: Result<String, RoutingError>)
    ensures
        r is Err <==> missing_parameter(*endpoint, params@),
        r matches Ok(url) ==> url@ == url_text(*endpoint, params@),
        r matches Err(e) ==> e == RoutingError::MissingParameter,
{
    proof {
        lemma_missing_parameter(*endpoint, params@);
    }
    match *endpoint {
        ApiEndpoints::ListCommits => {
            repo_url(params, "/commits")
        },
        ApiEndpoints::ListRepos => {
            let user_type = match &params.user_type {
                Some(t) => t,
                None => {
                    return Err(RoutingError::MissingParameter);
                },
            };
            let owner = match &params.owner {
                Some(o) => o,
                None => {
                    return Err(RoutingError::MissingParameter);
                },
            };
            let mut url = params.base_url.clone();
            match user_type {
                GitHubUserType::User => url.append("/users/"),
                GitHubUserType::Organisation => url.append("/orgs/"),
            }
            url.append(owner.as_str());
            url.append("/repos");
            Ok(url)
        },
        ApiEndpoints::ListBranches => {
            repo_url(params, "/branches")
        },
    }
}

/// The address of a listing that belongs to one repository: the base URL,
/// `/repos/`, the owner, the repository and `tail`.
fn repo_url(params: &PathParams, tail: &str) -> (r: Result<String, RoutingError>)
    ensures
        r is Err <==> params.owner.is_none() || params.repo.is_none(),
        r matches Ok(url) ==> url@ == params.base_url@ + "/repos/"@ + text_or_empty(
            params@.owner,
        ) + "/"@ + text_or_empty(params@.repo) + tail@,
        r matches Err(e) ==> e == RoutingError::MissingParameter,
{
    let owner = match &params.owner {
        Some(o) => o,
        None => {
            return Err(RoutingError::MissingParameter);
        },
    };
    let repo = match &params.repo {
        Some(r) => r,
        None => {
            return Err(RoutingError::MissingParameter);
        },
    };
    let mut url = params.base_url.clone();
    url.append("/repos/");
    url.append(owner.as_str());
    url.append("/");
    url.append(repo.as_str());
    url.append(tail);
    Ok(url)
}

/// The character of one decimal digit.
pub open spec fn digit_char(d: nat) -> char {
    if d == 0 {
        '0'
    } else if d == 1 {
        '1'
    } else if d == 2 {
        '2'
    } else if d == 3 {
        '3'
    } else if d == 4 {
        '4'
    } else if d == 5 {
        '5'
    } else if d == 6 {
        '6'
    } else if d == 7 {
        '7'
    } else if d == 8 {
        '8'
    } else {
        '9'
    }
}

/// A number in decimal, without sign or leading zeros.
pub open spec fn decimal_text(n: nat) -> Seq<char>
    decreases n,
{
    if n < 10 {
        seq![digit_char(n)]
    } else {
        decimal_text(n / 10).push(digit_char(n % 10))
    }
}

fn digit_str(d: u32) -> (s: &'static str)
    requires
        d < 10,
    ensures
        s@ == seq![digit_char(d as nat)],
{
    proof {
        reveal_strlit("0");
        reveal_strlit("1");
        reveal_strlit("2");
        reveal_strlit("3");
        reveal_strlit("4");
        reveal_strlit("5");
        reveal_strlit("6");
        reveal_strlit("7");
        reveal_strlit("8");
        reveal_strlit("9");
    }
    let s = match d {
        0 => "0",
        1 => "1",
        2 => "2",
        3 => "3",
        4 => "4",
        5 => "5",
        6 => "6",
        7 => "7",
        8 => "8",
        _ => "9",
    };
    assert(s@ =~= seq![digit_char(d as nat)]);
    s
}

/// `n` in decimal.
pub fn decimal(n: u32) -> (s: String)
    ensures
        s@ == decimal_text(n as nat),
    decreases n,
{
    if n < 10 {
        String::from_str(digit_str(n))
    } else {
        let mut s = decimal(n / 10);
        let last = digit_str(n % 10);
        s.append(last);
        assert(s@ =~= decimal_text((n / 10) as nat).push(digit_char((n % 10) as nat)));
        s
    }
}

/// The longest address, in characters, that is handed to the URL parser.
/// The parser keeps its offsets into a URL in 32 bits; texts of this length
/// stay far below what those can hold, whatever the parser makes of them.
pub const MAX_ADDRESS_LEN: usize = 1_048_576;

/// The largest number of query pairs that is handed to the URL parser.
pub const MAX_QUERY_PAIRS: usize = 16;

/// What `url::Url::parse_with_params` makes of an address and a list of
/// query pairs: the text of the URL it parsed, with the pairs added to its
/// query, or the words of its parse error.
pub uninterp spec fn parsed_with_params(
    input: Seq<char>,
    pairs: Seq<(Seq<char>, Seq<char>)>,
) -> Result<Seq<char>, Seq<char>>;

/// A result that holds strings, as the texts it holds.
pub open spec fn result_text(r: Result<String, String>) -> Result<Seq<char>, Seq<char>> {
    match r {
        Ok(s) => Ok(s@),
        Err(s) => Err(s@),
    }
}

/// Whether an address and its query pairs are short enough for the URL
/// parser.
pub open spec fn fits_parser(input: Seq<char>, pairs: Seq<(Seq<char>, Seq<char>)>) -> bool {
    &&& input.len() <= MAX_ADDRESS_LEN
    &&& pairs.len() <= MAX_QUERY_PAIRS
    &&& forall|i: int|
        0 <= i < pairs.len() ==> (#[trigger] pairs[i]).0.len() <= MAX_ADDRESS_LEN
            && pairs[i].1.len() <= MAX_ADDRESS_LEN
}

/// Calls `url::Url::parse_with_params` and hands back the URL as text, or
/// the parse error in its own words. Nothing is proved of the parser: the
/// contract only gives its result the name `parsed_with_params`. The parser
/// stops on a URL beyond four gigabytes when it adds the pairs, so the call
/// is made on short texts only.
#[verifier::external_body]
fn parse_with_params(input: &str, pairs: &Vec<(String, String)>) -> (r: Result<String, String>)
    requires
        fits_parser(input@, pairs.deep_view()),
    ensures
        result_text(r) == parsed_with_params(input@, pairs.deep_view()),
{
    match ::url::Url::parse_with_params(input, pairs) {
        Ok(url) => Ok(String::from(url)),
        Err(e) => Err(e.to_string()),
    }
}

/// The query pairs that select one page of a listing.
pub open spec fn page_query(page: nat, per_page: nat) -> Seq<(Seq<char>, Seq<char>)> {
    seq![("page"@, decimal_text(page)), ("per_page"@, decimal_text(per_page))]
}

/// The address of one page of a listing: what the URL parser makes of the
/// address `base` and the query that selects the page. An address beyond
/// `MAX_ADDRESS_LEN` is refused without asking the parser.
pub open spec fn page_address(base: Seq<char>, page: nat, per_page: nat) -> Result<
    Seq<char>,
    Seq<char>,
> {
    if base.len() > MAX_ADDRESS_LEN {
        Err("address too long"@)
    } else {
        parsed_with_params(base, page_query(page, per_page))
    }
}

/// Ten to the power of `k`.
pub open spec fn pow10(k: nat) -> nat
    decreases k,
{
    if k == 0 {
        1
    } else {
        10 * pow10((k - 1) as nat)
    }
}

/// A number below ten to the power of `k` has at most `k` digits.
pub proof fn lemma_decimal_len(n: nat, k: nat)
    requires
        k >= 1,
        n < pow10(k),
    ensures
        1 <= decimal_text(n).len() <= k,
    decreases k,
{
    if n >= 10 {
        if k == 1 {
            assert(pow10(1) == 10) by {
                reveal_with_fuel(pow10, 2);
            }
        } else {
            lemma_decimal_len(n / 10, (k - 1) as nat);
        }
    }
}

/// A 32-bit number has at most ten digits.
pub proof fn lemma_decimal_len_u32(n: u32)
    ensures
        1 <= decimal_text(n as nat).len() <= 10,
{
    assert(pow10(10) == 10_000_000_000) by {
        reveal_with_fuel(pow10, 11);
    }
    lemma_decimal_len(n as nat, 10);
}

/// Adds the query that selects page `page`, of `per_page` items, to the
/// address `base`. See `page_address`.
pub fn page_url(base: &str, page: u32, per_page: u32) -> (r: Result<String, String>)
    ensures
        result_text(r) == page_address(base@, page as nat, per_page as nat),
{
    if base.unicode_len() > MAX_ADDRESS_LEN {
        return Err(String::from_str("address too long"));
    }
    let mut pairs: Vec<(String, String)> = Vec::new();
    pairs.push((String::from_str("page"), decimal(page)));
    pairs.push((String::from_str("per_page"), decimal(per_page)));
    proof {
        reveal_strlit("page");
        reveal_strlit("per_page");
        lemma_decimal_len_u32(page);
        lemma_decimal_len_u32(per_page);
        assert(pairs.deep_view() =~= page_query(page as nat, per_page as nat));
    }
    parse_with_params(base, &pairs)
}

} // verus!
