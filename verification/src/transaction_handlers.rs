//! The endpoints that pass a question on to the payment service: the address
//! that each one asks, and the answer it makes of what comes back.

use crate::auth_handlers::unauthorized;
use crate::jwt::Claims;
use crate::messages::Step;
use crate::models::text_view;
use crate::response::{plain_response, Body, BodyView, Response, ResponseView, Status};
use crate::text::{integer_text, integer_to_text, natural_text, natural_to_text};
use vstd::prelude::*;
use vstd::string::StringExecFns;

verus! {

/// A question to the payment service.
#[derive(Debug, Clone, PartialEq, Eq)]
pub struct UpstreamRequest {
    /// The address to get.
    pub url: String,
    /// The token to present as a bearer, where the service asks for one.
    pub bearer: Option<String>,
}

/// What came back from the payment service.
#[derive(Debug, Clone, PartialEq, Eq)]
pub enum Upstream {
    /// A success whose body is this JSON text.
    Answered(String),
    /// A success whose body is not JSON.
    Unreadable,
    /// Another status, with the body where it could be read.
    Refused { status: u16, body: Option<String> },
    /// Nothing: the request failed, for this reason.
    Unsent(String),
}

/// The mathematical value of an [`Upstream`].
pub enum UpstreamView {
    Answered(Seq<char>),
    Unreadable,
    Refused { status: u16, body: Option<Seq<char>> },
    Unsent(Seq<char>),
}

impl View for Upstream {
    type V = UpstreamView;

    open spec fn view(&self) -> UpstreamView {
        match self {
            Upstream::Answered(text) => UpstreamView::Answered(text@),
            Upstream::Unreadable => UpstreamView::Unreadable,
            Upstream::Refused { status, body } => UpstreamView::Refused {
                status: *status,
                body: text_view(*body),
            },
            Upstream::Unsent(reason) => UpstreamView::Unsent(reason@),
        }
    }
}

/// The address of the transactions of a customer.
pub open spec fn buy_lists_address(customer: i32) -> Seq<char> {
    "https://api.moonpay.com/v1/transactions?externalCustomerId="@ + integer_text(customer as int)
}

/// The address of a quote for an amount of a currency.
pub open spec fn buy_quote_address(
    crypto_code: Seq<char>,
    crypto_amount: u32,
    fiat_code: Seq<char>,
    api_key: Seq<char>,
) -> Seq<char> {
    "https://api.moonpay.com/v3/currencies/"@ + crypto_code + "/buy_quote?quoteCurrencyAmount="@
        + natural_text(crypto_amount as nat) + "&baseCurrencyCode="@ + fiat_code + "&apiKey="@
        + api_key
}

/// The address of a transaction.
pub open spec fn buy_information_address(transaction_id: Seq<char>, api_key: Seq<char>) -> Seq<char> {
    "https://api.moonpay.com/v1/transactions/"@ + transaction_id + "?apiKey="@ + api_key
}

/// The address of a swap.
pub open spec fn swap_transaction_address(transaction_id: Seq<char>, api_key: Seq<char>) -> Seq<char> {
    "https://api.moonpay.com/v4/swap/transaction/"@ + transaction_id + "?apiKey="@ + api_key
}

/// An answer that reports an error of the payment service.
pub open spec fn upstream_error(
    status: Status,
    error: Seq<char>,
    code: Option<u16>,
    details: Option<Seq<char>>,
) -> ResponseView {
    plain_response(status, BodyView::UpstreamError { error, status: code, details })
}

/// The details of a refusal: its body, or a note that the body could not be
/// read.
pub open spec fn refusal_details(body: Option<Seq<char>>) -> Seq<char> {
    match body {
        Some(body) => body,
        None => "failed to read error response body"@,
    }
}

/// The answer that is made of what came back: a JSON body is handed on; a
/// body that is not JSON is an internal error; a refusal is a bad request
/// that names the status and, where `with_details` is set, the refusal's
/// body; a request that failed is an internal error with the reason.
pub open spec fn relayed(
    upstream: UpstreamView,
    refused: Seq<char>,
    unsent: Seq<char>,
    with_details: bool,
) -> ResponseView {
    match upstream {
        UpstreamView::Answered(text) => plain_response(Status::Success, BodyView::Upstream(text)),
        UpstreamView::Unreadable => upstream_error(
            Status::InternalServerError,
            "failed to parse response"@,
            None,
            None,
        ),
        UpstreamView::Refused { status, body } => upstream_error(
            Status::BadRequest,
            refused,
            Some(status),
            if with_details {
                Some(refusal_details(body))
            } else {
                None
            },
        ),
        UpstreamView::Unsent(reason) => upstream_error(
            Status::InternalServerError,
            unsent,
            None,
            Some(reason),
        ),
    }
}

/// The answer that is made of what came back.
pub fn relay(upstream: Upstream, refused: &str, unsent: &str, with_details: bool) -> (response: Response)
    ensures
        response@ == relayed(upstream@, refused@, unsent@, with_details),
{
    match upstream {
        Upstream::Answered(text) => Response::plain(Status::Success, Body::Upstream(text)),
        Upstream::Unreadable => Response::plain(
            Status::InternalServerError,
            Body::UpstreamError {
                error: "failed to parse response".to_owned(),
                status: None,
                details: None,
            },
        ),
        Upstream::Refused { status, body } => {
            let details = if with_details {
                match body {
                    Some(body) => Some(body),
                    None => Some("failed to read error response body".to_owned()),
                }
            } else {
                None
            };
            Response::plain(
                Status::BadRequest,
                Body::UpstreamError { error: refused.to_owned(), status: Some(status), details },
            )
        },
        Upstream::Unsent(reason) => Response::plain(
            Status::InternalServerError,
            Body::UpstreamError { error: unsent.to_owned(), status: None, details: Some(reason) },
        ),
    }
}

/// The question for the transactions of the user of the claims, presented
/// with the user's own token for the payment service. Without claims the
/// request is turned away.
pub fn get_buy_lists(claims: Option<&Claims>, moonpay_token: String) -> (step: Step<UpstreamRequest>)
    ensures
        match step {
            Step::Send(request) => claims matches Some(claims) && request.url@
                == buy_lists_address(claims.id) && text_view(request.bearer) == Some(
                moonpay_token@,
            ),
            Step::Respond(response) => claims is None && response@ == unauthorized(),
        },
{
    match claims {
        Some(claims) => {
            let mut url = String::from_str(
                "https://api.moonpay.com/v1/transactions?externalCustomerId=",
            );
            let customer = integer_to_text(claims.id as i64);
            url.append(customer.as_str());
            Step::Send(UpstreamRequest { url, bearer: Some(moonpay_token) })
        },
        None => Step::Respond(Response::message(Status::Unauthorized, "unauthorized access")),
    }
}

/// The answer to a question for transactions.
pub fn get_buy_lists_reply(upstream: Upstream) -> (response: Response)
    ensures
        response@ == relayed(
            upstream@,
            "failed to fetch transaction info"@,
            "request error"@,
            false,
        ),
{
    relay(upstream, "failed to fetch transaction info", "request error", false)
}

/// The question for a quote.
pub fn get_buy_quote(crypto_code: &str, fiat_code: &str, crypto_amount: u32, api_key: &str) -> (request:
    UpstreamRequest)
    ensures
        request.url@ == buy_quote_address(crypto_code@, crypto_amount, fiat_code@, api_key@),
        request.bearer is None,
{
    let mut url = String::from_str("https://api.moonpay.com/v3/currencies/");
    url.append(crypto_code);
    url.append("/buy_quote?quoteCurrencyAmount=");
    let amount = natural_to_text(crypto_amount as u64);
    url.append(amount.as_str());
    url.append("&baseCurrencyCode=");
    url.append(fiat_code);
    url.append("&apiKey=");
    url.append(api_key);
    assert(url@ =~= buy_quote_address(crypto_code@, crypto_amount, fiat_code@, api_key@));
    UpstreamRequest { url, bearer: None }
}

/// The answer to a question for a quote.
pub fn get_buy_quote_reply(upstream: Upstream) -> (response: Response)
    ensures
        response@ == relayed(
            upstream@,
            "failed to fetch buy quote info"@,
            "request error"@,
            false,
        ),
{
    relay(upstream, "failed to fetch buy quote info", "request error", false)
}

/// The question for a transaction.
pub fn get_buy_information(transaction_id: &str, api_key: &str) -> (request: UpstreamRequest)
    ensures
        request.url@ == buy_information_address(transaction_id@, api_key@),
        request.bearer is None,
{
    let mut url = String::from_str("https://api.moonpay.com/v1/transactions/");
    url.append(transaction_id);
    url.append("?apiKey=");
    url.append(api_key);
    assert(url@ =~= buy_information_address(transaction_id@, api_key@));
    UpstreamRequest { url, bearer: None }
}

/// The answer to a question for a transaction.
pub fn get_buy_information_reply(upstream: Upstream) -> (response: Response)
    ensures
        response@ == relayed(upstream@, "failed to fetch buy info"@, "Request error"@, true),
{
    relay(upstream, "failed to fetch buy info", "Request error", true)
}

/// The question for a swap, presented with the user's own token for the
/// payment service.
pub fn get_swap_transaction(moonpay_token: String, transaction_id: &str, api_key: &str) -> (request:
    UpstreamRequest)
    ensures
        request.url@ == swap_transaction_address(transaction_id@, api_key@),
        text_view(request.bearer) == Some(moonpay_token@),
{
    let mut url = String::from_str("https://api.moonpay.com/v4/swap/transaction/");
    url.append(transaction_id);
    url.append("?apiKey=");
    url.append(api_key);
    assert(url@ =~= swap_transaction_address(transaction_id@, api_key@));
    UpstreamRequest { url, bearer: Some(moonpay_token) }
}

/// The answer to a question for a swap.
pub fn get_swap_transaction_reply(upstream: Upstream) -> (response: Response)
    ensures
        response@ == relayed(
            upstream@,
            "failed to fetch buy quote info"@,
            "request error"@,
            true,
        ),
{
    relay(upstream, "failed to fetch buy quote info", "request error", true)
}

} // verus!
