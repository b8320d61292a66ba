use hi_think_financial::query::{query_string, QueryParams};
use hi_think_financial::types::{
    ASharePricesHistoricalRequest, ASharePricesSnapshotRequest, AShareValuationsSnapshotRequest,
    AdjustmentFactorsRequest, AnomalyAnalysisListRequest, AnomalyAnalysisStockRequest,
    DragonTigerBoardType, DragonTigerListRequest, FinancialIndicatorsRequest, FinancialPeriod,
    FinancialStatementsRequest, FundHoldersDetailRequest, FundMarketHistoricalRequest,
    FundMarketSnapshotRequest, FundMergeScope, FundNavRange, FundNavType,
    FundPerformanceNavRequest, FundPerformanceReturnsRequest, FundPortfolioHoldingsRequest,
    FundProfileDetailRequest, FundType, HotRankingRequest, HotStockListHistoryRequest,
    HotStockRankTrendRequest, IndexPricesHistoricalRequest, IndexPricesSnapshotRequest,
    LimitUpPoolRequest, LimitUpSortField, PriceAdjust, PriceInterval, RankingPeriod,
    SortDirection, ThsIndexConstituentsRequest, ThsIndexListRequest, ThsIndexTag,
    TickerAssetType, TickerListRequest, TickerSearchRequest,
};

#[test]
fn serializes_only_required_search_parameters() {
    let request = TickerSearchRequest::new("中国平安");

    assert_eq!(query_string(&request), "q=%E4%B8%AD%E5%9B%BD%E5%B9%B3%E5%AE%89");
}

#[test]
fn serializes_optional_search_parameters() {
    let request = TickerSearchRequest {
        q: "000001".to_string(),
        asset_type: Some(TickerAssetType::AShareIndex),
        limit: Some(50),
    };

    assert_eq!(query_string(&request), "q=000001&asset_type=a-share-index&limit=50");
}

#[test]
fn serializes_fund_requests() {
    let nav = FundPerformanceNavRequest {
        fund_type: FundType::Exchange,
        thscode: "510300.SH".to_string(),
        range: None,
        nav_type: Some(FundNavType::Both),
    };
    assert_eq!(query_string(&nav), "fund_type=exchange&thscode=510300.SH&nav_type=unit%2Cadj");

    let historical = FundMarketHistoricalRequest {
        thscode: "510300.SH".to_string(),
        interval: Some(PriceInterval::Day1),
        start: 1_626_451_200_000,
        end: 1_784_217_600_000,
    };
    assert_eq!(
        query_string(&historical),
        "thscode=510300.SH&interval=1d&start=1626451200000&end=1784217600000"
    );
}

#[test]
fn serializes_documented_enum_values() {
    let historical = ASharePricesHistoricalRequest {
        thscode: "600519.SH".to_string(),
        interval: PriceInterval::Day1,
        start: 1_716_105_600_000,
        end: 1_747_648_000_000,
        adjust: Some(PriceAdjust::Forward),
        offset: Some(20),
    };

    assert_eq!(
        query_string(&historical),
        "thscode=600519.SH&interval=1d&start=1716105600000&end=1747648000000&adjust=forward&offset=20"
    );

    let index_list = ThsIndexListRequest { tag: Some(ThsIndexTag::CnConcept) };
    assert_eq!(query_string(&index_list), "tag=cn_concept");
}

#[test]
fn serializes_pagination_financial_and_special_data_parameters() {
    let ticker_list = TickerListRequest {
        asset_type: Some(TickerAssetType::AShare),
        limit: Some(1_000),
        offset: Some(2_000),
    };
    assert_eq!(query_string(&ticker_list), "asset_type=a-share&limit=1000&offset=2000");

    let snapshot = ASharePricesSnapshotRequest {
        thscodes: Some("600519.SH,000001.SZ".to_string()),
        limit: Some(100),
        offset: Some(50),
    };
    assert_eq!(
        query_string(&snapshot),
        "thscodes=600519.SH%2C000001.SZ&limit=100&offset=50"
    );

    let financials = FinancialStatementsRequest {
        thscode: "600519.SH".to_string(),
        period: FinancialPeriod::Annual,
        limit: None,
        start: Some(1_577_808_000_000),
        end: Some(1_735_574_400_000),
    };
    assert_eq!(
        query_string(&financials),
        "thscode=600519.SH&period=annual&start=1577808000000&end=1735574400000"
    );

    let limit_up = LimitUpPoolRequest {
        date_ms: Some(1_748_102_400_000),
        page: Some(2),
        size: Some(100),
        sort_field: Some(LimitUpSortField::LimitUpTime),
        sort_dir: Some(SortDirection::Desc),
    };
    assert_eq!(
        query_string(&limit_up),
        "date_ms=1748102400000&page=2&size=100&sort_field=limit_up_time&sort_dir=desc"
    );

    let dragon_tiger = DragonTigerListRequest {
        board_type: Some(DragonTigerBoardType::HotMoney),
        date: Some("2026-07-01".to_string()),
    };
    assert_eq!(query_string(&dragon_tiger), "board_type=hot_money&date=2026-07-01");
}

#[test]
fn ticker_list_query_matches_documented_request_line() {
    let request = TickerListRequest {
        asset_type: Some(TickerAssetType::AShare),
        limit: Some(25),
        offset: Some(50),
    };
    assert_eq!(query_string(&request), "asset_type=a-share&limit=25&offset=50");
}

#[test]
fn valuation_snapshot_query_escapes_commas() {
    let request = AShareValuationsSnapshotRequest { thscodes: "600519.SH,000001.SZ".to_string() };
    assert_eq!(query_string(&request), "thscodes=600519.SH%2C000001.SZ");
}

#[test]
fn absent_parameters_leave_the_query_empty() {
    let request = TickerListRequest { asset_type: None, limit: None, offset: None };
    assert!(request.query_pairs().is_empty());
    assert_eq!(query_string(&request), "");
    assert_eq!(query_string(&()), "");
    assert_eq!(query_string(&ThsIndexListRequest { tag: None }), "");
    assert_eq!(query_string(&HotRankingRequest { period: None }), "");
    assert_eq!(query_string(&AnomalyAnalysisListRequest { tag_codes: None }), "");
    assert_eq!(query_string(&DragonTigerListRequest { board_type: None, date: None }), "");
}

#[test]
fn new_search_request_sends_only_the_keyword() {
    let request = TickerSearchRequest::new(String::from("平安 银行"));
    assert_eq!(request.asset_type, None);
    assert_eq!(request.limit, None);
    assert_eq!(
        request.query_pairs(),
        vec![("q".to_string(), "平安 银行".to_string())]
    );
    assert_eq!(query_string(&request), "q=%E5%B9%B3%E5%AE%89+%E9%93%B6%E8%A1%8C");
}

#[test]
fn every_request_sends_its_fields_in_declaration_order() {
    let r = AdjustmentFactorsRequest {
        thscode: "600519.SH".to_string(),
        from: Some("2020-01-01".to_string()),
        to: None,
    };
    assert_eq!(query_string(&r), "thscode=600519.SH&from=2020-01-01");

    let r = FinancialIndicatorsRequest { thscode: "300033.SZ".to_string(), report: "2025-1".to_string() };
    assert_eq!(query_string(&r), "thscode=300033.SZ&report=2025-1");

    let r = ThsIndexConstituentsRequest { thscode: "885338.TI".to_string() };
    assert_eq!(query_string(&r), "thscode=885338.TI");

    let r = IndexPricesSnapshotRequest { thscodes: "000001.SH".to_string(), limit: Some(5), offset: None };
    assert_eq!(query_string(&r), "thscodes=000001.SH&limit=5");

    let r = IndexPricesHistoricalRequest {
        thscode: "000300.SH".to_string(),
        interval: PriceInterval::Day1,
        start: -5,
        end: 0,
    };
    assert_eq!(query_string(&r), "thscode=000300.SH&interval=1d&start=-5&end=0");

    let r = HotRankingRequest { period: Some(RankingPeriod::Hour) };
    assert_eq!(query_string(&r), "period=hour");

    let r = HotStockListHistoryRequest { date: "2025-06-20".to_string() };
    assert_eq!(query_string(&r), "date=2025-06-20");

    let r = HotStockRankTrendRequest {
        thscode: "600519.SH".to_string(),
        start_date: "2025-06-01".to_string(),
        end_date: "2025-06-20".to_string(),
    };
    assert_eq!(query_string(&r), "thscode=600519.SH&start_date=2025-06-01&end_date=2025-06-20");

    let r = AnomalyAnalysisListRequest { tag_codes: Some("LIMIT_UP,SHARP_RISE".to_string()) };
    assert_eq!(query_string(&r), "tag_codes=LIMIT_UP%2CSHARP_RISE");

    let r = AnomalyAnalysisStockRequest { thscodes: "600519.SH".to_string() };
    assert_eq!(query_string(&r), "thscodes=600519.SH");

    let r = FundHoldersDetailRequest {
        fund_type: FundType::Otc,
        thscode: "025480.OF".to_string(),
        merge_scope: Some(FundMergeScope::Separate),
    };
    assert_eq!(query_string(&r), "fund_type=otc&thscode=025480.OF&merge_scope=separate");

    let r = FundPortfolioHoldingsRequest { fund_type: FundType::Reits, thscode: "508000.SH".to_string() };
    assert_eq!(query_string(&r), "fund_type=reits&thscode=508000.SH");

    let r = FundMarketSnapshotRequest { thscode: "510300.SH".to_string() };
    assert_eq!(query_string(&r), "thscode=510300.SH");

    let r = FundPerformanceNavRequest {
        fund_type: FundType::Otc,
        thscode: "025480.OF".to_string(),
        range: Some(FundNavRange::Twoyear),
        nav_type: Some(FundNavType::Adjusted),
    };
    assert_eq!(query_string(&r), "fund_type=otc&thscode=025480.OF&range=twoyear&nav_type=adj");

    let r = FundPerformanceReturnsRequest { fund_type: FundType::Exchange, thscode: "510300.SH".to_string() };
    assert_eq!(query_string(&r), "fund_type=exchange&thscode=510300.SH");

    let r = FundProfileDetailRequest { fund_type: FundType::Otc, thscode: "025480.OF".to_string() };
    assert_eq!(query_string(&r), "fund_type=otc&thscode=025480.OF");

    let r = ASharePricesSnapshotRequest { thscodes: None, limit: None, offset: Some(u64::MAX) };
    assert_eq!(query_string(&r), "offset=18446744073709551615");
}
