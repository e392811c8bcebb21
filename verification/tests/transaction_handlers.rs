use note_api::jwt::Claims;
use note_api::messages::Step;
use note_api::response::{Body, Response, Status};
use note_api::transaction_handlers::{
    get_buy_information, get_buy_information_reply, get_buy_lists, get_buy_lists_reply,
    get_buy_quote, get_buy_quote_reply, get_swap_transaction, get_swap_transaction_reply, relay,
    Upstream, UpstreamRequest,
};

fn claims(id: i32) -> Claims {
    Claims { exp: 2, iat: 1, email: "alice@example.com".to_string(), id, role: "user".to_string() }
}

fn error(status: Status, text: &str, code: Option<u16>, details: Option<&str>) -> Response {
    Response {
        status,
        body: Body::UpstreamError {
            error: text.to_string(),
            status: code,
            details: details.map(|d| d.to_string()),
        },
        cookie: None,
    }
}

#[test]
fn get_buy_lists_asks_for_the_transactions_of_the_user() {
    assert_eq!(
        get_buy_lists(Some(&claims(42)), "tok".to_string()),
        Step::Send(UpstreamRequest {
            url: "https://api.moonpay.com/v1/transactions?externalCustomerId=42".to_string(),
            bearer: Some("tok".to_string()),
        })
    );
    assert_eq!(
        get_buy_lists(Some(&claims(-5)), "tok".to_string()),
        Step::Send(UpstreamRequest {
            url: "https://api.moonpay.com/v1/transactions?externalCustomerId=-5".to_string(),
            bearer: Some("tok".to_string()),
        })
    );
}

#[test]
fn get_buy_lists_wants_claims() {
    assert_eq!(
        get_buy_lists(None, "tok".to_string()),
        Step::Respond(Response {
            status: Status::Unauthorized,
            body: Body::Message { message: "unauthorized access".to_string() },
            cookie: None,
        })
    );
}

#[test]
fn get_buy_quote_asks_for_a_quote() {
    assert_eq!(
        get_buy_quote("btc", "usd", 3, "pk_test"),
        UpstreamRequest {
            url: "https://api.moonpay.com/v3/currencies/btc/buy_quote?quoteCurrencyAmount=3&baseCurrencyCode=usd&apiKey=pk_test"
                .to_string(),
            bearer: None,
        }
    );
    assert!(get_buy_quote("eth", "eur", u32::MAX, "k")
        .url
        .contains("quoteCurrencyAmount=4294967295&"));
    assert!(get_buy_quote("eth", "eur", 0, "k").url.contains("quoteCurrencyAmount=0&"));
}

#[test]
fn get_buy_information_asks_for_a_transaction() {
    assert_eq!(
        get_buy_information("tx-1", "pk_test"),
        UpstreamRequest {
            url: "https://api.moonpay.com/v1/transactions/tx-1?apiKey=pk_test".to_string(),
            bearer: None,
        }
    );
}

#[test]
fn get_swap_transaction_asks_for_a_swap() {
    assert_eq!(
        get_swap_transaction("tok".to_string(), "tx-1", "pk_test"),
        UpstreamRequest {
            url: "https://api.moonpay.com/v4/swap/transaction/tx-1?apiKey=pk_test".to_string(),
            bearer: Some("tok".to_string()),
        }
    );
}

#[test]
fn an_answer_is_handed_on() {
    let answered = || Upstream::Answered("{\"a\":1}".to_string());
    let expected = Response {
        status: Status::Success,
        body: Body::Upstream("{\"a\":1}".to_string()),
        cookie: None,
    };
    assert_eq!(get_buy_lists_reply(answered()), expected);
    assert_eq!(get_buy_quote_reply(answered()), expected);
    assert_eq!(get_buy_information_reply(answered()), expected);
    assert_eq!(get_swap_transaction_reply(answered()), expected);
}

#[test]
fn an_unreadable_answer_is_an_internal_error() {
    let expected = error(Status::InternalServerError, "failed to parse response", None, None);
    assert_eq!(get_buy_lists_reply(Upstream::Unreadable), expected);
    assert_eq!(get_buy_quote_reply(Upstream::Unreadable), expected);
    assert_eq!(get_buy_information_reply(Upstream::Unreadable), expected);
    assert_eq!(get_swap_transaction_reply(Upstream::Unreadable), expected);
}

#[test]
fn a_refusal_is_a_bad_request_that_names_the_status() {
    let refused = || Upstream::Refused { status: 404, body: Some("gone".to_string()) };
    assert_eq!(
        get_buy_lists_reply(refused()),
        error(Status::BadRequest, "failed to fetch transaction info", Some(404), None)
    );
    assert_eq!(
        get_buy_quote_reply(refused()),
        error(Status::BadRequest, "failed to fetch buy quote info", Some(404), None)
    );
    assert_eq!(
        get_buy_information_reply(refused()),
        error(Status::BadRequest, "failed to fetch buy info", Some(404), Some("gone"))
    );
    assert_eq!(
        get_swap_transaction_reply(refused()),
        error(Status::BadRequest, "failed to fetch buy quote info", Some(404), Some("gone"))
    );
}

#[test]
fn a_refusal_whose_body_cannot_be_read_says_so() {
    let refused = || Upstream::Refused { status: 502, body: None };
    assert_eq!(
        get_buy_information_reply(refused()),
        error(
            Status::BadRequest,
            "failed to fetch buy info",
            Some(502),
            Some("failed to read error response body")
        )
    );
    assert_eq!(
        get_buy_lists_reply(refused()),
        error(Status::BadRequest, "failed to fetch transaction info", Some(502), None)
    );
}

#[test]
fn a_request_that_failed_is_an_internal_error_with_the_reason() {
    let unsent = || Upstream::Unsent("timed out".to_string());
    assert_eq!(
        get_buy_lists_reply(unsent()),
        error(Status::InternalServerError, "request error", None, Some("timed out"))
    );
    assert_eq!(
        get_buy_information_reply(unsent()),
        error(Status::InternalServerError, "Request error", None, Some("timed out"))
    );
    assert_eq!(
        get_swap_transaction_reply(unsent()),
        error(Status::InternalServerError, "request error", None, Some("timed out"))
    );
    assert_eq!(
        get_buy_quote_reply(unsent()),
        error(Status::InternalServerError, "request error", None, Some("timed out"))
    );
}

#[test]
fn relay_takes_its_words_from_the_caller() {
    assert_eq!(
        relay(Upstream::Refused { status: 500, body: None }, "refused", "unsent", false),
        error(Status::BadRequest, "refused", Some(500), None)
    );
    assert_eq!(
        relay(Upstream::Unsent("why".to_string()), "refused", "unsent", true),
        error(Status::InternalServerError, "unsent", None, Some("why"))
    );
}
