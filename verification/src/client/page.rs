//! One page of a listing: the address to ask for it, and what to make of
//! the response.

use crate::client::github::{ApiEndpoints, PathParams, PathParamsView};
use crate::client::github_error::{ApiError, ApiErrorView};
use crate::client::url::{
    build_url, decimal, decimal_text, missing_parameter, page_address, page_url, result_text,
    url_text, RoutingError,
};
use vstd::prelude::*;
use vstd::string::*;

verus! {

/// The page that is asked for where none is named.
pub const DEFAULT_PAGE: u32 = 1;

/// The number of items on a page where none is named.
pub const DEFAULT_PER_PAGE: u32 = 30;

/// An address or a failure, as plain values.
pub open spec fn request_view(r: Result<String, ApiError>) -> Result<Seq<char>, ApiErrorView> {
    match r {
        Ok(url) => Ok(url@),
        Err(e) => Err(e@),
    }
}

/// What becomes of the URL parser's answer: its URL is the address; its
/// refusal is a failure that holds the parser's words.
pub open spec fn request_of_parsed(parsed: Result<Seq<char>, Seq<char>>) -> Result<
    Seq<char>,
    ApiErrorView,
> {
    match parsed {
        Ok(url) => Ok(url),
        Err(words) => Err(ApiErrorView::Transport(words)),
    }
}

/// The address to send for one page of a listing, or why there is none.
/// The page defaults to the first and its size to `DEFAULT_PER_PAGE`. Where
/// the endpoint lacks a parameter, the routing error comes back as it is;
/// where the address cannot be parsed, the failure holds the words of the
/// refusal.
pub open spec fn page_request(
    endpoint: ApiEndpoints,
    params: PathParamsView,
    page: Option<u32>,
    per_page: Option<u32>,
) -> Result<Seq<char>, ApiErrorView> {
    let page_number = match page {
        Some(n) => n,
        None => DEFAULT_PAGE,
    };
    let per_page = match per_page {
        Some(n) => n,
        None => DEFAULT_PER_PAGE,
    };
    if missing_parameter(endpoint, params) {
        Err(ApiErrorView::Routing(RoutingError::MissingParameter))
    } else {
        request_of_parsed(
            page_address(url_text(endpoint, params), page_number as nat, per_page as nat),
        )
    }
}

/// What becomes of the URL parser's answer. See `request_of_parsed`.
pub fn request_from_parsed(parsed: Result<String, String>) -> (r: Result<String, ApiError>)
    ensures
        request_view(r) == request_of_parsed(result_text(parsed)),
{
    match parsed {
        Ok(url) => Ok(url),
        Err(words) => Err(ApiError::Transport(words)),
    }
}

/// The address to send for one page of a listing, or why there is none.
/// See `page_request`. Nothing is sent.
pub fn request_page(
    api_endpoint: &ApiEndpoints,
    params: &PathParams,
    page: Option<u32>,
    per_page: Option<u32>,
) -> (r: Result<String, ApiError>)
    ensures
        request_view(r) == page_request(*api_endpoint, params@, page, per_page),
{
    let page_number = match page {
        Some(n) => n,
        None => DEFAULT_PAGE,
    };
    let per_page = match per_page {
        Some(n) => n,
        None => DEFAULT_PER_PAGE,
    };
    match build_url(api_endpoint, params) {
        Ok(url_base) => request_from_parsed(page_url(url_base.as_str(), page_number, per_page)),
        Err(e) => Err(ApiError::Routing(e)),
    }
}

/// The failure that a response status stands for, if any. A status from
/// 200 to 299 is a success. Of the others, 404 says that the resource is
/// not there and 401 and 403 that the credential will not do; any other is
/// reported with its number.
pub open spec fn status_error(status: u16) -> Option<ApiErrorView> {
    if 200 <= status < 300 {
        None
    } else if status == 404 {
        Some(ApiErrorView::NotFound)
    } else if status == 401 || status == 403 {
        Some(ApiErrorView::Unauthorized)
    } else {
        Some(ApiErrorView::Transport("unexpected status "@ + decimal_text(status as nat)))
    }
}

/// A failure or none, as plain values.
pub open spec fn failure_view(r: Result<(), ApiError>) -> Option<ApiErrorView> {
    match r {
        Ok(_) => None,
        Err(e) => Some(e@),
    }
}

/// Judges a response by its status alone, before anything is made of its
/// body. See `status_error`.
pub fn check_status(status: u16) -> (r: Result<(), ApiError>)
    ensures
        failure_view(r) == status_error(status),
{
    if 200 <= status && status < 300 {
        Ok(())
    } else if status == 404 {
        Err(ApiError::NotFound)
    } else if status == 401 || status == 403 {
        Err(ApiError::Unauthorized)
    } else {
        let mut words = String::from_str("unexpected status ");
        let number = decimal(status as u32);
        words.append(number.as_str());
        Err(ApiError::Transport(words))
    }
}

/// The page that the body of a successful response holds. A body that was
/// read as a sequence of items is the page, an empty one too; one that
/// could not be read is a failure that holds the reader's words.
pub fn page_from_body<T>(parsed: Result<Vec<T>, String>) -> (r: Result<Vec<T>, ApiError>)
    ensures
        match parsed {
            Ok(items) => r == Ok::<Vec<T>, ApiError>(items),
            Err(words) => r == Err::<Vec<T>, ApiError>(ApiError::Transport(words)),
        },
{
    match parsed {
        Ok(items) => Ok(items),
        Err(words) => Err(ApiError::Transport(words)),
    }
}

} // verus!
