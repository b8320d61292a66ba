use hi_think_financial::endpoint::{attach_query, request_url, Endpoint, API_KEY_HEADER, DEFAULT_URL};
use hi_think_financial::query::query_string;
use hi_think_financial::response::{ApiError, ApiResponse};
use hi_think_financial::types::TickerListRequest;

fn envelope(code: i64, data: Option<u32>) -> ApiResponse<u32> {
    ApiResponse {
        code,
        message: if code == 0 { "success".to_string() } else { "missing parameter".to_string() },
        request_id: "request-id".to_string(),
        data,
    }
}

#[test]
fn business_errors_carry_the_call_context() {
    let path = Endpoint::TickerList.path();
    let error = envelope(1001, Some(7)).into_data(path).unwrap_err();
    match &error {
        ApiError::Business { path, code, message, request_id } => {
            assert_eq!(path, "api/meta/tickers/list");
            assert_eq!(*code, 1001);
            assert_eq!(message, "missing parameter");
            assert_eq!(request_id, "request-id");
        }
        other => panic!("unexpected error {:?}", other),
    }
    let message = error.message();
    assert_eq!(
        message,
        "API request failed: path=api/meta/tickers/list, code=1001, message=missing parameter, request_id=request-id"
    );
    assert!(message.contains("path=api/meta/tickers/list"));
    assert!(message.contains("code=1001"));
    assert!(message.contains("request_id=request-id"));
}

#[test]
fn negative_business_codes_are_reported_in_decimal() {
    let error = envelope(-42, None).into_data("api/x").unwrap_err();
    assert_eq!(
        error.message(),
        "API request failed: path=api/x, code=-42, message=missing parameter, request_id=request-id"
    );
}

#[test]
fn success_without_data_is_rejected() {
    let error = envelope(0, None).into_data(Endpoint::TickerList.path()).unwrap_err();
    assert!(matches!(&error, ApiError::MissingData { path } if path == "api/meta/tickers/list"));
    assert_eq!(error.message(), "API response missing data: path=api/meta/tickers/list");
}

#[test]
fn success_with_data_yields_the_data() {
    assert_eq!(envelope(0, Some(7)).into_data("api/meta/tickers/list").unwrap(), 7);
}

#[test]
fn endpoint_paths_are_the_documented_ones() {
    assert_eq!(Endpoint::TickerSearch.path(), "api/meta/tickers/search");
    assert_eq!(Endpoint::AShareValuationsSnapshot.path(), "api/a-share/valuations/snapshot");
    assert_eq!(
        Endpoint::MarketDumpDailyK10dDownloadUrl.path(),
        "api/dump/market-dumps/daily-k-10d/download-url"
    );
    assert_eq!(Endpoint::CashFlowStatements.path(), "api/a-share/financials/cash-flow-statements");
    assert_eq!(Endpoint::DragonTigerList.path(), "api/a-share/special-data/dragon-tiger-list");
    assert_eq!(DEFAULT_URL, "https://fuyao.aicubes.cn");
    assert_eq!(API_KEY_HEADER, "X-api-key");
}

#[test]
fn request_url_joins_the_path_and_sets_the_query() {
    let request = TickerListRequest { asset_type: None, limit: Some(25), offset: Some(50) };
    let url = request_url(DEFAULT_URL, Endpoint::TickerList.path(), &query_string(&request)).unwrap();
    assert_eq!(url, "https://fuyao.aicubes.cn/api/meta/tickers/list?limit=25&offset=50");

    let url = request_url("http://127.0.0.1:8080/", "api/a-share/valuations/snapshot", "thscodes=600519.SH%2C000001.SZ").unwrap();
    assert_eq!(url, "http://127.0.0.1:8080/api/a-share/valuations/snapshot?thscodes=600519.SH%2C000001.SZ");
}

#[test]
fn request_url_without_parameters_has_no_query() {
    let request = TickerListRequest { asset_type: None, limit: None, offset: None };
    let url = request_url("http://127.0.0.1:8080/", Endpoint::TickerList.path(), &query_string(&request)).unwrap();
    assert_eq!(url, "http://127.0.0.1:8080/api/meta/tickers/list");
    assert!(!url.contains('?'));
}

#[test]
fn request_url_reports_an_unusable_base() {
    let error = request_url("not a url", "api/meta/tickers/list", "").unwrap_err();
    assert!(matches!(&error, ApiError::InvalidUrl(_)));
    assert_eq!(error.message(), "relative URL without a base");
}

#[test]
fn attach_query_replaces_an_existing_query() {
    assert_eq!(attach_query("http://h/p?old=1".to_string(), "").unwrap(), "http://h/p?old=1");
    assert_eq!(attach_query("http://h/p?old=1".to_string(), "new=2").unwrap(), "http://h/p?new=2");
}
