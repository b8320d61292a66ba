//! Where a call is sent: the base URL, the path of each call, and the URL
//! that joins them with the query text.
use vstd::prelude::*;

use crate::query::{law_empty_query_iff_no_params, query_text, QueryParams};
use crate::response::{ApiError, ApiErrorView};

verus! {

/// The base URL the client connects to by default.
pub const DEFAULT_URL: &'static str = "https://fuyao.aicubes.cn";

/// The header every request carries the API key in.
pub const API_KEY_HEADER: &'static str = "X-api-key";

/// The calls the API offers; each is a `GET` of its own path.
#[derive(Clone, Copy, Debug, Eq, PartialEq)]
pub enum Endpoint {
    /// Ticker search by thscode, ticker or name.
    TickerSearch,
    /// Paged ticker catalogue by asset class.
    TickerList,
    /// Profile of one fund.
    FundProfileDetail,
    /// Disclosed top stock holdings of a fund.
    FundPortfolioHoldings,
    /// Unit and adjusted net asset values of a fund.
    FundPerformanceNav,
    /// Period returns of a fund.
    FundPerformanceReturns,
    /// Holder structure of a fund.
    FundHoldersDetail,
    /// Latest price snapshot of one ETF.
    FundMarketSnapshot,
    /// Daily bars of one ETF.
    FundMarketHistorical,
    /// Latest A-share price snapshots.
    ASharePricesSnapshot,
    /// Latest A-share valuation snapshots.
    AShareValuationsSnapshot,
    /// Daily bars of one A share.
    ASharePricesHistorical,
    /// Download link of ten years of unadjusted daily bars.
    MarketDumpDailyKDownloadUrl,
    /// Download link of the last ten trading days of unadjusted daily bars.
    MarketDumpDailyK10dDownloadUrl,
    /// Download link of the market's adjustment factors.
    MarketDumpAdjustmentFactorsDownloadUrl,
    /// Dividend and bonus adjustment events of one A share.
    AdjustmentFactors,
    /// Consolidated income statements of one A share.
    IncomeStatements,
    /// Consolidated balance sheets of one A share.
    BalanceSheets,
    /// Consolidated cash flow statements of one A share.
    CashFlowStatements,
    /// Financial indicators of one A share for one period.
    FinancialIndicators,
    /// A-share trading days of the last year.
    TradingDays,
    /// THS index catalogue by tag.
    ThsIndexList,
    /// Current constituents of an index.
    ThsIndexConstituents,
    /// Latest index price snapshots.
    IndexPricesSnapshot,
    /// Daily bars of one index.
    IndexPricesHistorical,
    /// Limit-up pool of a trading day.
    LimitUpPool,
    /// Consecutive limit-up ladder of the last thirty trading days.
    LimitUpLadder,
    /// Skyrocket list of hot rankings.
    SkyrocketList,
    /// Hot stock list.
    HotStockList,
    /// Hot stock list of a past day.
    HotStockListHistory,
    /// Hot rank trend of one stock.
    HotStockRankTrend,
    /// Today's stock anomaly reasons, by tag.
    AnomalyAnalysisList,
    /// Today's anomaly reasons of given stocks.
    AnomalyAnalysisStock,
    /// Dragon-tiger list.
    DragonTigerList,
}

impl Endpoint {
    /// The path of the call, relative to the base URL.
    pub open spec fn path_text(self) -> Seq<char> {
        match self {
            Endpoint::TickerSearch => "api/meta/tickers/search"@,
            Endpoint::TickerList => "api/meta/tickers/list"@,
            Endpoint::FundProfileDetail => "api/fund/profile/detail"@,
            Endpoint::FundPortfolioHoldings => "api/fund/portfolio/holdings"@,
            Endpoint::FundPerformanceNav => "api/fund/performance/nav"@,
            Endpoint::FundPerformanceReturns => "api/fund/performance/returns"@,
            Endpoint::FundHoldersDetail => "api/fund/holders/detail"@,
            Endpoint::FundMarketSnapshot => "api/fund/market/snapshot"@,
            Endpoint::FundMarketHistorical => "api/fund/market/historical"@,
            Endpoint::ASharePricesSnapshot => "api/a-share/prices/snapshot"@,
            Endpoint::AShareValuationsSnapshot => "api/a-share/valuations/snapshot"@,
            Endpoint::ASharePricesHistorical => "api/a-share/prices/historical"@,
            Endpoint::MarketDumpDailyKDownloadUrl => "api/dump/market-dumps/daily-k/download-url"@,
            Endpoint::MarketDumpDailyK10dDownloadUrl => "api/dump/market-dumps/daily-k-10d/download-url"@,
            Endpoint::MarketDumpAdjustmentFactorsDownloadUrl => "api/dump/market-dumps/adjustment-factors/download-url"@,
            Endpoint::AdjustmentFactors => "api/a-share/corporate-actions/adjustment-factors"@,
            Endpoint::IncomeStatements => "api/a-share/financials/income-statements"@,
            Endpoint::BalanceSheets => "api/a-share/financials/balance-sheets"@,
            Endpoint::CashFlowStatements => "api/a-share/financials/cash-flow-statements"@,
            Endpoint::FinancialIndicators => "api/a-share/financials/indicators"@,
            Endpoint::TradingDays => "api/a-share/calendar/trading-days"@,
            Endpoint::ThsIndexList => "api/a-share-index/catalog/ths-index-list"@,
            Endpoint::ThsIndexConstituents => "api/a-share-index/constituents/ths-stock-list"@,
            Endpoint::IndexPricesSnapshot => "api/a-share-index/prices/snapshot"@,
            Endpoint::IndexPricesHistorical => "api/a-share-index/prices/historical"@,
            Endpoint::LimitUpPool => "api/a-share/special-data/limit-up-pool"@,
            Endpoint::LimitUpLadder => "api/a-share/special-data/limit-up-ladder"@,
            Endpoint::SkyrocketList => "api/a-share/special-data/skyrocket-list"@,
            Endpoint::HotStockList => "api/a-share/special-data/hot-stock-list"@,
            Endpoint::HotStockListHistory => "api/a-share/special-data/hot-stock-list-history"@,
            Endpoint::HotStockRankTrend => "api/a-share/special-data/hot-stock-rank-trend"@,
            Endpoint::AnomalyAnalysisList => "api/a-share/special-data/anomaly-analysis-list"@,
            Endpoint::AnomalyAnalysisStock => "api/a-share/special-data/anomaly-analysis-stock"@,
            Endpoint::DragonTigerList => "api/a-share/special-data/dragon-tiger-list"@,
        }
    }

    /// The path of the call, relative to the base URL.
    pub fn path(&self) -> (r: &'static str)
        ensures
            r@ == self.path_text(),
    {
        match self {
            Endpoint::TickerSearch => "api/meta/tickers/search",
            Endpoint::TickerList => "api/meta/tickers/list",
            Endpoint::FundProfileDetail => "api/fund/profile/detail",
            Endpoint::FundPortfolioHoldings => "api/fund/portfolio/holdings",
            Endpoint::FundPerformanceNav => "api/fund/performance/nav",
            Endpoint::FundPerformanceReturns => "api/fund/performance/returns",
            Endpoint::FundHoldersDetail => "api/fund/holders/detail",
            Endpoint::FundMarketSnapshot => "api/fund/market/snapshot",
            Endpoint::FundMarketHistorical => "api/fund/market/historical",
            Endpoint::ASharePricesSnapshot => "api/a-share/prices/snapshot",
            Endpoint::AShareValuationsSnapshot => "api/a-share/valuations/snapshot",
            Endpoint::ASharePricesHistorical => "api/a-share/prices/historical",
            Endpoint::MarketDumpDailyKDownloadUrl => "api/dump/market-dumps/daily-k/download-url",
            Endpoint::MarketDumpDailyK10dDownloadUrl => "api/dump/market-dumps/daily-k-10d/download-url",
            Endpoint::MarketDumpAdjustmentFactorsDownloadUrl => "api/dump/market-dumps/adjustment-factors/download-url",
            Endpoint::AdjustmentFactors => "api/a-share/corporate-actions/adjustment-factors",
            Endpoint::IncomeStatements => "api/a-share/financials/income-statements",
            Endpoint::BalanceSheets => "api/a-share/financials/balance-sheets",
            Endpoint::CashFlowStatements => "api/a-share/financials/cash-flow-statements",
            Endpoint::FinancialIndicators => "api/a-share/financials/indicators",
            Endpoint::TradingDays => "api/a-share/calendar/trading-days",
            Endpoint::ThsIndexList => "api/a-share-index/catalog/ths-index-list",
            Endpoint::ThsIndexConstituents => "api/a-share-index/constituents/ths-stock-list",
            Endpoint::IndexPricesSnapshot => "api/a-share-index/prices/snapshot",
            Endpoint::IndexPricesHistorical => "api/a-share-index/prices/historical",
            Endpoint::LimitUpPool => "api/a-share/special-data/limit-up-pool",
            Endpoint::LimitUpLadder => "api/a-share/special-data/limit-up-ladder",
            Endpoint::SkyrocketList => "api/a-share/special-data/skyrocket-list",
            Endpoint::HotStockList => "api/a-share/special-data/hot-stock-list",
            Endpoint::HotStockListHistory => "api/a-share/special-data/hot-stock-list-history",
            Endpoint::HotStockRankTrend => "api/a-share/special-data/hot-stock-rank-trend",
            Endpoint::AnomalyAnalysisList => "api/a-share/special-data/anomaly-analysis-list",
            Endpoint::AnomalyAnalysisStock => "api/a-share/special-data/anomaly-analysis-stock",
            Endpoint::DragonTigerList => "api/a-share/special-data/dragon-tiger-list",
        }
    }
}

/// Each call is sent to the path documented for it: every endpoint's path is
/// exactly the one its call names.
pub proof fn law_endpoint_paths()
    ensures
        Endpoint::TickerSearch.path_text() == "api/meta/tickers/search"@,
        Endpoint::TickerList.path_text() == "api/meta/tickers/list"@,
        Endpoint::FundProfileDetail.path_text() == "api/fund/profile/detail"@,
        Endpoint::FundPortfolioHoldings.path_text() == "api/fund/portfolio/holdings"@,
        Endpoint::FundPerformanceNav.path_text() == "api/fund/performance/nav"@,
        Endpoint::FundPerformanceReturns.path_text() == "api/fund/performance/returns"@,
        Endpoint::FundHoldersDetail.path_text() == "api/fund/holders/detail"@,
        Endpoint::FundMarketSnapshot.path_text() == "api/fund/market/snapshot"@,
        Endpoint::FundMarketHistorical.path_text() == "api/fund/market/historical"@,
        Endpoint::ASharePricesSnapshot.path_text() == "api/a-share/prices/snapshot"@,
        Endpoint::AShareValuationsSnapshot.path_text() == "api/a-share/valuations/snapshot"@,
        Endpoint::ASharePricesHistorical.path_text() == "api/a-share/prices/historical"@,
        Endpoint::MarketDumpDailyKDownloadUrl.path_text() == "api/dump/market-dumps/daily-k/download-url"@,
        Endpoint::MarketDumpDailyK10dDownloadUrl.path_text() == "api/dump/market-dumps/daily-k-10d/download-url"@,
        Endpoint::MarketDumpAdjustmentFactorsDownloadUrl.path_text() == "api/dump/market-dumps/adjustment-factors/download-url"@,
        Endpoint::AdjustmentFactors.path_text() == "api/a-share/corporate-actions/adjustment-factors"@,
        Endpoint::IncomeStatements.path_text() == "api/a-share/financials/income-statements"@,
        Endpoint::BalanceSheets.path_text() == "api/a-share/financials/balance-sheets"@,
        Endpoint::CashFlowStatements.path_text() == "api/a-share/financials/cash-flow-statements"@,
        Endpoint::FinancialIndicators.path_text() == "api/a-share/financials/indicators"@,
        Endpoint::TradingDays.path_text() == "api/a-share/calendar/trading-days"@,
        Endpoint::ThsIndexList.path_text() == "api/a-share-index/catalog/ths-index-list"@,
        Endpoint::ThsIndexConstituents.path_text() == "api/a-share-index/constituents/ths-stock-list"@,
        Endpoint::IndexPricesSnapshot.path_text() == "api/a-share-index/prices/snapshot"@,
        Endpoint::IndexPricesHistorical.path_text() == "api/a-share-index/prices/historical"@,
        Endpoint::LimitUpPool.path_text() == "api/a-share/special-data/limit-up-pool"@,
        Endpoint::LimitUpLadder.path_text() == "api/a-share/special-data/limit-up-ladder"@,
        Endpoint::SkyrocketList.path_text() == "api/a-share/special-data/skyrocket-list"@,
        Endpoint::HotStockList.path_text() == "api/a-share/special-data/hot-stock-list"@,
        Endpoint::HotStockListHistory.path_text() == "api/a-share/special-data/hot-stock-list-history"@,
        Endpoint::HotStockRankTrend.path_text() == "api/a-share/special-data/hot-stock-rank-trend"@,
        Endpoint::AnomalyAnalysisList.path_text() == "api/a-share/special-data/anomaly-analysis-list"@,
        Endpoint::AnomalyAnalysisStock.path_text() == "api/a-share/special-data/anomaly-analysis-stock"@,
        Endpoint::DragonTigerList.path_text() == "api/a-share/special-data/dragon-tiger-list"@,
{
}

/// Names what `reqwest::Url::join` gives for `path` on the URL that
/// `reqwest::Url::parse` reads from `base`: the serialized URL, or the
/// parser's error message.
pub uninterp spec fn joined_url(base: Seq<char>, path: Seq<char>) -> Result<Seq<char>, Seq<char>>;

/// Names what `reqwest::Url::set_query` with `Some(query)` gives on the URL
/// that `reqwest::Url::parse` reads from `url`: the serialized URL, or the
/// parser's error message.
pub uninterp spec fn url_with_query(url: Seq<char>, query: Seq<char>) -> Result<
    Seq<char>,
    Seq<char>,
>;

/// Calls `reqwest::Url::parse` on `base` and `reqwest::Url::join` with
/// `path` on its result, and gives the joined URL's text or the error's
/// message. Claimed of it: that the outcome is a function of the two texts
/// alone, named `joined_url`; nothing is stated of what that function is.
#[verifier::external_body]
fn url_join(base: &str, path: &str) -> (r: Result<String, String>)
    ensures
        match joined_url(base@, path@) {
            Ok(u) => r matches Ok(s) && s@ == u,
            Err(m) => r matches Err(e) && e@ == m,
        },
{
    match reqwest::Url::parse(base) {
        Ok(url) => match url.join(path) {
            Ok(joined) => Ok(joined.into()),
            Err(e) => Err(e.to_string()),
        },
        Err(e) => Err(e.to_string()),
    }
}

/// Calls `reqwest::Url::parse` on `url` and `reqwest::Url::set_query` with
/// `Some(query)` on its result, and gives the new URL's text or the error's
/// message. Claimed of it: that the outcome is a function of the two texts
/// alone, named `url_with_query`; nothing is stated of what that function is.
#[verifier::external_body]
fn url_set_query(url: &str, query: &str) -> (r: Result<String, String>)
    ensures
        match url_with_query(url@, query@) {
            Ok(u) => r matches Ok(s) && s@ == u,
            Err(m) => r matches Err(e) && e@ == m,
        },
{
    match reqwest::Url::parse(url) {
        Ok(mut parsed) => {
            parsed.set_query(Some(query));
            Ok(parsed.into())
        },
        Err(e) => Err(e.to_string()),
    }
}

/// The URL a call goes to: `path` joined onto `base`, with the query text
/// set as its query unless the text is empty, in which case the joined URL
/// is used as it is; or the message of the URL error.
pub open spec fn target_url(base: Seq<char>, path: Seq<char>, query: Seq<char>) -> Result<
    Seq<char>,
    Seq<char>,
> {
    match joined_url(base, path) {
        Err(m) => Err(m),
        Ok(u) => query_attached(u, query),
    }
}

/// A joined URL with the query text set, unless the text is empty.
pub open spec fn query_attached(url: Seq<char>, query: Seq<char>) -> Result<Seq<char>, Seq<char>> {
    if query.len() == 0 {
        Ok(url)
    } else {
        url_with_query(url, query)
    }
}

/// A URL outcome as the library reports it.
pub open spec fn url_outcome_matches(r: Result<String, ApiError>, expected: Result<Seq<char>, Seq<char>>) -> bool {
    match expected {
        Ok(u) => r matches Ok(s) && s@ == u,
        Err(m) => r matches Err(e) && e@ == ApiErrorView::InvalidUrl(m),
    }
}

/// Sets the query text on a joined URL; an empty text leaves the URL as it is.
pub fn attach_query(url: String, query: &str) -> (r: Result<String, ApiError>)
    ensures
        url_outcome_matches(r, query_attached(url@, query@)),
{
    if query.is_empty() {
        Ok(url)
    } else {
        match url_set_query(url.as_str(), query) {
            Ok(with_query) => Ok(with_query),
            Err(message) => Err(ApiError::InvalidUrl(message)),
        }
    }
}

/// The URL a call at `path` is sent to, from the client's base URL and the
/// query text of the request.
pub fn request_url(base_url: &str, path: &str, query: &str) -> (r: Result<String, ApiError>)
    ensures
        url_outcome_matches(r, target_url(base_url@, path@, query@)),
{
    match url_join(base_url, path) {
        Ok(joined) => attach_query(joined, query),
        Err(message) => Err(ApiError::InvalidUrl(message)),
    }
}

/// A request without parameters goes to the joined URL as it is, with no
/// query; a request with parameters goes to the joined URL with its query
/// text set.
pub proof fn law_query_set_iff_params<Q: QueryParams>(base: Seq<char>, path: Seq<char>, req: &Q)
    ensures
        req.query().len() == 0 ==> target_url(base, path, query_text(req)) == joined_url(base, path),
        req.query().len() > 0 ==> match joined_url(base, path) {
            Ok(u) => target_url(base, path, query_text(req)) == url_with_query(u, query_text(req)),
            Err(m) => target_url(base, path, query_text(req)) == Err::<Seq<char>, Seq<char>>(m),
        },
{
    law_empty_query_iff_no_params(req);
}

} // verus!
