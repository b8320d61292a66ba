//! What each request sends: every field under its own name, the required
//! ones always, the optional ones exactly when they are given.
use vstd::prelude::*;

use crate::form::{decimal, signed_decimal};
use crate::query::{
    count_if, lacks_name, lemma_absent_name_not_sent, lemma_present_count,
    lemma_present_field_sent, named_present, present_count, present_params, FieldParam,
    QueryParams,
};
use crate::types::{
    TickerSearchRequest,
    TickerListRequest,
    ASharePricesSnapshotRequest,
    AShareValuationsSnapshotRequest,
    ASharePricesHistoricalRequest,
    AdjustmentFactorsRequest,
    FinancialStatementsRequest,
    FinancialIndicatorsRequest,
    ThsIndexListRequest,
    ThsIndexConstituentsRequest,
    IndexPricesSnapshotRequest,
    IndexPricesHistoricalRequest,
    LimitUpPoolRequest,
    HotRankingRequest,
    HotStockListHistoryRequest,
    HotStockRankTrendRequest,
    AnomalyAnalysisListRequest,
    AnomalyAnalysisStockRequest,
    DragonTigerListRequest,
    FundHoldersDetailRequest,
    FundPortfolioHoldingsRequest,
    FundMarketSnapshotRequest,
    FundMarketHistoricalRequest,
    FundPerformanceNavRequest,
    FundPerformanceReturnsRequest,
    FundProfileDetailRequest,
};

verus! {

/// What a `TickerSearchRequest` sends, in its fields' order: `q` always, `asset_type`
/// and `limit` exactly when given; each once, under the field's own name and holding
/// the field's value; and nothing else.
pub proof fn law_ticker_search_request_params(req: TickerSearchRequest)
    ensures
        req.query() == present_params(
            seq![
                (true, "q"@, req.q@),
                (req.asset_type is Some, "asset_type"@, (req.asset_type->0).wire_name()),
                (req.limit is Some, "limit"@, decimal((req.limit->0) as nat)),
            ],
        ),
        req.query().len() == 1 + count_if(req.asset_type is Some) + count_if(req.limit is Some),
        req.query().contains(("q"@, req.q@)),
        req.asset_type matches Some(v) ==> req.query().contains(("asset_type"@, v.wire_name())),
        req.asset_type is None ==> lacks_name(req.query(), "asset_type"@),
        req.limit matches Some(v) ==> req.query().contains(("limit"@, decimal(v as nat))),
        req.limit is None ==> lacks_name(req.query(), "limit"@),
{
    reveal_strlit("q");
    reveal_strlit("asset_type");
    reveal_strlit("limit");
    let fields = seq![
        (true, "q"@, req.q@),
        (req.asset_type is Some, "asset_type"@, (req.asset_type->0).wire_name()),
        (req.limit is Some, "limit"@, decimal((req.limit->0) as nat)),
    ];
    assert(fields.drop_last() =~= seq![fields[0], fields[1]]);
    assert(fields.drop_last().drop_last() =~= seq![fields[0]]);
    assert(fields.drop_last().drop_last().drop_last() =~= Seq::<FieldParam>::empty());
    reveal_with_fuel(present_params, 4);
    reveal_with_fuel(present_count, 4);
    reveal_with_fuel(named_present, 4);
    assert(req.query() =~= present_params(fields));
    lemma_present_count(fields);
    lemma_present_field_sent(fields, 0);
    if req.asset_type is Some {
        lemma_present_field_sent(fields, 1);
    } else {
        assert("q"@.len() != "asset_type"@.len());
        assert("limit"@.len() != "asset_type"@.len());
        assert(!named_present(fields, "asset_type"@));
        lemma_absent_name_not_sent(fields, "asset_type"@);
    }
    if req.limit is Some {
        lemma_present_field_sent(fields, 2);
    } else {
        assert("q"@.len() != "limit"@.len());
        assert("asset_type"@.len() != "limit"@.len());
        assert(!named_present(fields, "limit"@));
        lemma_absent_name_not_sent(fields, "limit"@);
    }
}

/// What a `TickerListRequest` sends, in its fields' order: `asset_type`, `limit` and
/// `offset` exactly when given; each once, under the field's own name and holding the
/// field's value; and nothing else.
pub proof fn law_ticker_list_request_params(req: TickerListRequest)
    ensures
        req.query() == present_params(
            seq![
                (req.asset_type is Some, "asset_type"@, (req.asset_type->0).wire_name()),
                (req.limit is Some, "limit"@, decimal((req.limit->0) as nat)),
                (req.offset is Some, "offset"@, decimal((req.offset->0) as nat)),
            ],
        ),
        req.query().len() == 0
            + count_if(req.asset_type is Some)
            + count_if(req.limit is Some)
            + count_if(req.offset is Some),
        req.asset_type matches Some(v) ==> req.query().contains(("asset_type"@, v.wire_name())),
        req.asset_type is None ==> lacks_name(req.query(), "asset_type"@),
        req.limit matches Some(v) ==> req.query().contains(("limit"@, decimal(v as nat))),
        req.limit is None ==> lacks_name(req.query(), "limit"@),
        req.offset matches Some(v) ==> req.query().contains(("offset"@, decimal(v as nat))),
        req.offset is None ==> lacks_name(req.query(), "offset"@),
{
    reveal_strlit("asset_type");
    reveal_strlit("limit");
    reveal_strlit("offset");
    let fields = seq![
        (req.asset_type is Some, "asset_type"@, (req.asset_type->0).wire_name()),
        (req.limit is Some, "limit"@, decimal((req.limit->0) as nat)),
        (req.offset is Some, "offset"@, decimal((req.offset->0) as nat)),
    ];
    assert(fields.drop_last() =~= seq![fields[0], fields[1]]);
    assert(fields.drop_last().drop_last() =~= seq![fields[0]]);
    assert(fields.drop_last().drop_last().drop_last() =~= Seq::<FieldParam>::empty());
    reveal_with_fuel(present_params, 4);
    reveal_with_fuel(present_count, 4);
    reveal_with_fuel(named_present, 4);
    assert(req.query() =~= present_params(fields));
    lemma_present_count(fields);
    if req.asset_type is Some {
        lemma_present_field_sent(fields, 0);
    } else {
        assert("limit"@.len() != "asset_type"@.len());
        assert("offset"@.len() != "asset_type"@.len());
        assert(!named_present(fields, "asset_type"@));
        lemma_absent_name_not_sent(fields, "asset_type"@);
    }
    if req.limit is Some {
        lemma_present_field_sent(fields, 1);
    } else {
        assert("asset_type"@.len() != "limit"@.len());
        assert("offset"@.len() != "limit"@.len());
        assert(!named_present(fields, "limit"@));
        lemma_absent_name_not_sent(fields, "limit"@);
    }
    if req.offset is Some {
        lemma_present_field_sent(fields, 2);
    } else {
        assert("asset_type"@.len() != "offset"@.len());
        assert("limit"@.len() != "offset"@.len());
        assert(!named_present(fields, "offset"@));
        lemma_absent_name_not_sent(fields, "offset"@);
    }
}

/// What an `ASharePricesSnapshotRequest` sends, in its fields' order: `thscodes`,
/// `limit` and `offset` exactly when given; each once, under the field's own name and
/// holding the field's value; and nothing else.
pub proof fn law_a_share_prices_snapshot_request_params(req: ASharePricesSnapshotRequest)
    ensures
        req.query() == present_params(
            seq![
                (req.thscodes is Some, "thscodes"@, (req.thscodes->0)@),
                (req.limit is Some, "limit"@, decimal((req.limit->0) as nat)),
                (req.offset is Some, "offset"@, decimal((req.offset->0) as nat)),
            ],
        ),
        req.query().len() == 0
            + count_if(req.thscodes is Some)
            + count_if(req.limit is Some)
            + count_if(req.offset is Some),
        req.thscodes matches Some(v) ==> req.query().contains(("thscodes"@, v@)),
        req.thscodes is None ==> lacks_name(req.query(), "thscodes"@),
        req.limit matches Some(v) ==> req.query().contains(("limit"@, decimal(v as nat))),
        req.limit is None ==> lacks_name(req.query(), "limit"@),
        req.offset matches Some(v) ==> req.query().contains(("offset"@, decimal(v as nat))),
        req.offset is None ==> lacks_name(req.query(), "offset"@),
{
    reveal_strlit("thscodes");
    reveal_strlit("limit");
    reveal_strlit("offset");
    let fields = seq![
        (req.thscodes is Some, "thscodes"@, (req.thscodes->0)@),
        (req.limit is Some, "limit"@, decimal((req.limit->0) as nat)),
        (req.offset is Some, "offset"@, decimal((req.offset->0) as nat)),
    ];
    assert(fields.drop_last() =~= seq![fields[0], fields[1]]);
    assert(fields.drop_last().drop_last() =~= seq![fields[0]]);
    assert(fields.drop_last().drop_last().drop_last() =~= Seq::<FieldParam>::empty());
    reveal_with_fuel(present_params, 4);
    reveal_with_fuel(present_count, 4);
    reveal_with_fuel(named_present, 4);
    assert(req.query() =~= present_params(fields));
    lemma_present_count(fields);
    if req.thscodes is Some {
        lemma_present_field_sent(fields, 0);
    } else {
        assert("limit"@.len() != "thscodes"@.len());
        assert("offset"@.len() != "thscodes"@.len());
        assert(!named_present(fields, "thscodes"@));
        lemma_absent_name_not_sent(fields, "thscodes"@);
    }
    if req.limit is Some {
        lemma_present_field_sent(fields, 1);
    } else {
        assert("thscodes"@.len() != "limit"@.len());
        assert("offset"@.len() != "limit"@.len());
        assert(!named_present(fields, "limit"@));
        lemma_absent_name_not_sent(fields, "limit"@);
    }
    if req.offset is Some {
        lemma_present_field_sent(fields, 2);
    } else {
        assert("thscodes"@.len() != "offset"@.len());
        assert("limit"@.len() != "offset"@.len());
        assert(!named_present(fields, "offset"@));
        lemma_absent_name_not_sent(fields, "offset"@);
    }
}

/// What an `AShareValuationsSnapshotRequest` sends, in its fields' order: `thscodes`
/// always; each once, under the field's own name and holding the field's value; and
/// nothing else.
pub proof fn law_a_share_valuations_snapshot_request_params(req: AShareValuationsSnapshotRequest)
    ensures
        req.query() == present_params(
            seq![
                (true, "thscodes"@, req.thscodes@),
            ],
        ),
        req.query().len() == 1,
        req.query().contains(("thscodes"@, req.thscodes@)),
{
    reveal_strlit("thscodes");
    let fields = seq![
        (true, "thscodes"@, req.thscodes@),
    ];
    assert(fields.drop_last() =~= Seq::<FieldParam>::empty());
    reveal_with_fuel(present_params, 2);
    reveal_with_fuel(present_count, 2);
    reveal_with_fuel(named_present, 2);
    assert(req.query() =~= present_params(fields));
    lemma_present_count(fields);
    lemma_present_field_sent(fields, 0);
}

/// What an `ASharePricesHistoricalRequest` sends, in its fields' order: `thscode`,
/// `interval`, `start` and `end` always, `adjust` and `offset` exactly when given; each
/// once, under the field's own name and holding the field's value; and nothing else.
pub proof fn law_a_share_prices_historical_request_params(req: ASharePricesHistoricalRequest)
    ensures
        req.query() == present_params(
            seq![
                (true, "thscode"@, req.thscode@),
                (true, "interval"@, req.interval.wire_name()),
                (true, "start"@, signed_decimal(req.start as int)),
                (true, "end"@, signed_decimal(req.end as int)),
                (req.adjust is Some, "adjust"@, (req.adjust->0).wire_name()),
                (req.offset is Some, "offset"@, decimal((req.offset->0) as nat)),
            ],
        ),
        req.query().len() == 4 + count_if(req.adjust is Some) + count_if(req.offset is Some),
        req.query().contains(("thscode"@, req.thscode@)),
        req.query().contains(("interval"@, req.interval.wire_name())),
        req.query().contains(("start"@, signed_decimal(req.start as int))),
        req.query().contains(("end"@, signed_decimal(req.end as int))),
        req.adjust matches Some(v) ==> req.query().contains(("adjust"@, v.wire_name())),
        req.adjust is None ==> lacks_name(req.query(), "adjust"@),
        req.offset matches Some(v) ==> req.query().contains(("offset"@, decimal(v as nat))),
        req.offset is None ==> lacks_name(req.query(), "offset"@),
{
    reveal_strlit("thscode");
    reveal_strlit("interval");
    reveal_strlit("start");
    reveal_strlit("end");
    reveal_strlit("adjust");
    reveal_strlit("offset");
    let fields = seq![
        (true, "thscode"@, req.thscode@),
        (true, "interval"@, req.interval.wire_name()),
        (true, "start"@, signed_decimal(req.start as int)),
        (true, "end"@, signed_decimal(req.end as int)),
        (req.adjust is Some, "adjust"@, (req.adjust->0).wire_name()),
        (req.offset is Some, "offset"@, decimal((req.offset->0) as nat)),
    ];
    assert(fields.drop_last() =~= seq![fields[0], fields[1], fields[2], fields[3], fields[4]]);
    assert(fields.drop_last().drop_last() =~= seq![fields[0], fields[1], fields[2], fields[3]]);
    assert(fields.drop_last().drop_last().drop_last() =~= seq![fields[0], fields[1], fields[2]]);
    assert(fields.drop_last().drop_last().drop_last().drop_last() =~= seq![fields[0], fields[1]]);
    assert(fields.drop_last().drop_last().drop_last().drop_last().drop_last() =~= seq![fields[0]]);
    assert(fields.drop_last().drop_last().drop_last().drop_last().drop_last().drop_last() =~= Seq::<FieldParam>::empty());
    reveal_with_fuel(present_params, 7);
    reveal_with_fuel(present_count, 7);
    reveal_with_fuel(named_present, 7);
    assert(req.query() =~= present_params(fields));
    lemma_present_count(fields);
    lemma_present_field_sent(fields, 0);
    lemma_present_field_sent(fields, 1);
    lemma_present_field_sent(fields, 2);
    lemma_present_field_sent(fields, 3);
    if req.adjust is Some {
        lemma_present_field_sent(fields, 4);
    } else {
        assert("thscode"@.len() != "adjust"@.len());
        assert("interval"@.len() != "adjust"@.len());
        assert("start"@.len() != "adjust"@.len());
        assert("end"@.len() != "adjust"@.len());
        assert("offset"@[0] != "adjust"@[0]);
        assert(!named_present(fields, "adjust"@));
        lemma_absent_name_not_sent(fields, "adjust"@);
    }
    if req.offset is Some {
        lemma_present_field_sent(fields, 5);
    } else {
        assert("thscode"@.len() != "offset"@.len());
        assert("interval"@.len() != "offset"@.len());
        assert("start"@.len() != "offset"@.len());
        assert("end"@.len() != "offset"@.len());
        assert("adjust"@[0] != "offset"@[0]);
        assert(!named_present(fields, "offset"@));
        lemma_absent_name_not_sent(fields, "offset"@);
    }
}

/// What an `AdjustmentFactorsRequest` sends, in its fields' order: `thscode` always,
/// `from` and `to` exactly when given; each once, under the field's own name and
/// holding the field's value; and nothing else.
pub proof fn law_adjustment_factors_request_params(req: AdjustmentFactorsRequest)
    ensures
        req.query() == present_params(
            seq![
                (true, "thscode"@, req.thscode@),
                (req.from is Some, "from"@, (req.from->0)@),
                (req.to is Some, "to"@, (req.to->0)@),
            ],
        ),
        req.query().len() == 1 + count_if(req.from is Some) + count_if(req.to is Some),
        req.query().contains(("thscode"@, req.thscode@)),
        req.from matches Some(v) ==> req.query().contains(("from"@, v@)),
        req.from is None ==> lacks_name(req.query(), "from"@),
        req.to matches Some(v) ==> req.query().contains(("to"@, v@)),
        req.to is None ==> lacks_name(req.query(), "to"@),
{
    reveal_strlit("thscode");
    reveal_strlit("from");
    reveal_strlit("to");
    let fields = seq![
        (true, "thscode"@, req.thscode@),
        (req.from is Some, "from"@, (req.from->0)@),
        (req.to is Some, "to"@, (req.to->0)@),
    ];
    assert(fields.drop_last() =~= seq![fields[0], fields[1]]);
    assert(fields.drop_last().drop_last() =~= seq![fields[0]]);
    assert(fields.drop_last().drop_last().drop_last() =~= Seq::<FieldParam>::empty());
    reveal_with_fuel(present_params, 4);
    reveal_with_fuel(present_count, 4);
    reveal_with_fuel(named_present, 4);
    assert(req.query() =~= present_params(fields));
    lemma_present_count(fields);
    lemma_present_field_sent(fields, 0);
    if req.from is Some {
        lemma_present_field_sent(fields, 1);
    } else {
        assert("thscode"@.len() != "from"@.len());
        assert("to"@.len() != "from"@.len());
        assert(!named_present(fields, "from"@));
        lemma_absent_name_not_sent(fields, "from"@);
    }
    if req.to is Some {
        lemma_present_field_sent(fields, 2);
    } else {
        assert("thscode"@.len() != "to"@.len());
        assert("from"@.len() != "to"@.len());
        assert(!named_present(fields, "to"@));
        lemma_absent_name_not_sent(fields, "to"@);
    }
}

/// What a `FinancialStatementsRequest` sends, in its fields' order: `thscode` and
/// `period` always, `limit`, `start` and `end` exactly when given; each once, under the
/// field's own name and holding the field's value; and nothing else.
pub proof fn law_financial_statements_request_params(req: FinancialStatementsRequest)
    ensures
        req.query() == present_params(
            seq![
                (true, "thscode"@, req.thscode@),
                (true, "period"@, req.period.wire_name()),
                (req.limit is Some, "limit"@, decimal((req.limit->0) as nat)),
                (req.start is Some, "start"@, signed_decimal((req.start->0) as int)),
                (req.end is Some, "end"@, signed_decimal((req.end->0) as int)),
            ],
        ),
        req.query().len() == 2
            + count_if(req.limit is Some)
            + count_if(req.start is Some)
            + count_if(req.end is Some),
        req.query().contains(("thscode"@, req.thscode@)),
        req.query().contains(("period"@, req.period.wire_name())),
        req.limit matches Some(v) ==> req.query().contains(("limit"@, decimal(v as nat))),
        req.limit is None ==> lacks_name(req.query(), "limit"@),
        req.start matches Some(v) ==> req.query().contains(("start"@, signed_decimal(v as int))),
        req.start is None ==> lacks_name(req.query(), "start"@),
        req.end matches Some(v) ==> req.query().contains(("end"@, signed_decimal(v as int))),
        req.end is None ==> lacks_name(req.query(), "end"@),
{
    reveal_strlit("thscode");
    reveal_strlit("period");
    reveal_strlit("limit");
    reveal_strlit("start");
    reveal_strlit("end");
    let fields = seq![
        (true, "thscode"@, req.thscode@),
        (true, "period"@, req.period.wire_name()),
        (req.limit is Some, "limit"@, decimal((req.limit->0) as nat)),
        (req.start is Some, "start"@, signed_decimal((req.start->0) as int)),
        (req.end is Some, "end"@, signed_decimal((req.end->0) as int)),
    ];
    assert(fields.drop_last() =~= seq![fields[0], fields[1], fields[2], fields[3]]);
    assert(fields.drop_last().drop_last() =~= seq![fields[0], fields[1], fields[2]]);
    assert(fields.drop_last().drop_last().drop_last() =~= seq![fields[0], fields[1]]);
    assert(fields.drop_last().drop_last().drop_last().drop_last() =~= seq![fields[0]]);
    assert(fields.drop_last().drop_last().drop_last().drop_last().drop_last() =~= Seq::<FieldParam>::empty());
    reveal_with_fuel(present_params, 6);
    reveal_with_fuel(present_count, 6);
    reveal_with_fuel(named_present, 6);
    assert(req.query() =~= present_params(fields));
    lemma_present_count(fields);
    lemma_present_field_sent(fields, 0);
    lemma_present_field_sent(fields, 1);
    if req.limit is Some {
        lemma_present_field_sent(fields, 2);
    } else {
        assert("thscode"@.len() != "limit"@.len());
        assert("period"@.len() != "limit"@.len());
        assert("start"@[0] != "limit"@[0]);
        assert("end"@.len() != "limit"@.len());
        assert(!named_present(fields, "limit"@));
        lemma_absent_name_not_sent(fields, "limit"@);
    }
    if req.start is Some {
        lemma_present_field_sent(fields, 3);
    } else {
        assert("thscode"@.len() != "start"@.len());
        assert("period"@.len() != "start"@.len());
        assert("limit"@[0] != "start"@[0]);
        assert("end"@.len() != "start"@.len());
        assert(!named_present(fields, "start"@));
        lemma_absent_name_not_sent(fields, "start"@);
    }
    if req.end is Some {
        lemma_present_field_sent(fields, 4);
    } else {
        assert("thscode"@.len() != "end"@.len());
        assert("period"@.len() != "end"@.len());
        assert("limit"@.len() != "end"@.len());
        assert("start"@.len() != "end"@.len());
        assert(!named_present(fields, "end"@));
        lemma_absent_name_not_sent(fields, "end"@);
    }
}

/// What a `FinancialIndicatorsRequest` sends, in its fields' order: `thscode` and
/// `report` always; each once, under the field's own name and holding the field's
/// value; and nothing else.
pub proof fn law_financial_indicators_request_params(req: FinancialIndicatorsRequest)
    ensures
        req.query() == present_params(
            seq![
                (true, "thscode"@, req.thscode@),
                (true, "report"@, req.report@),
            ],
        ),
        req.query().len() == 2,
        req.query().contains(("thscode"@, req.thscode@)),
        req.query().contains(("report"@, req.report@)),
{
    reveal_strlit("thscode");
    reveal_strlit("report");
    let fields = seq![
        (true, "thscode"@, req.thscode@),
        (true, "report"@, req.report@),
    ];
    assert(fields.drop_last() =~= seq![fields[0]]);
    assert(fields.drop_last().drop_last() =~= Seq::<FieldParam>::empty());
    reveal_with_fuel(present_params, 3);
    reveal_with_fuel(present_count, 3);
    reveal_with_fuel(named_present, 3);
    assert(req.query() =~= present_params(fields));
    lemma_present_count(fields);
    lemma_present_field_sent(fields, 0);
    lemma_present_field_sent(fields, 1);
}

/// What a `ThsIndexListRequest` sends, in its fields' order: `tag` exactly when given;
/// each once, under the field's own name and holding the field's value; and nothing
/// else.
pub proof fn law_ths_index_list_request_params(req: ThsIndexListRequest)
    ensures
        req.query() == present_params(
            seq![
                (req.tag is Some, "tag"@, (req.tag->0).wire_name()),
            ],
        ),
        req.query().len() == 0 + count_if(req.tag is Some),
        req.tag matches Some(v) ==> req.query().contains(("tag"@, v.wire_name())),
        req.tag is None ==> lacks_name(req.query(), "tag"@),
{
    reveal_strlit("tag");
    let fields = seq![
        (req.tag is Some, "tag"@, (req.tag->0).wire_name()),
    ];
    assert(fields.drop_last() =~= Seq::<FieldParam>::empty());
    reveal_with_fuel(present_params, 2);
    reveal_with_fuel(present_count, 2);
    reveal_with_fuel(named_present, 2);
    assert(req.query() =~= present_params(fields));
    lemma_present_count(fields);
    if req.tag is Some {
        lemma_present_field_sent(fields, 0);
    } else {
        assert(!named_present(fields, "tag"@));
        lemma_absent_name_not_sent(fields, "tag"@);
    }
}

/// What a `ThsIndexConstituentsRequest` sends, in its fields' order: `thscode` always;
/// each once, under the field's own name and holding the field's value; and nothing
/// else.
pub proof fn law_ths_index_constituents_request_params(req: ThsIndexConstituentsRequest)
    ensures
        req.query() == present_params(
            seq![
                (true, "thscode"@, req.thscode@),
            ],
        ),
        req.query().len() == 1,
        req.query().contains(("thscode"@, req.thscode@)),
{
    reveal_strlit("thscode");
    let fields = seq![
        (true, "thscode"@, req.thscode@),
    ];
    assert(fields.drop_last() =~= Seq::<FieldParam>::empty());
    reveal_with_fuel(present_params, 2);
    reveal_with_fuel(present_count, 2);
    reveal_with_fuel(named_present, 2);
    assert(req.query() =~= present_params(fields));
    lemma_present_count(fields);
    lemma_present_field_sent(fields, 0);
}

/// What an `IndexPricesSnapshotRequest` sends, in its fields' order: `thscodes` always,
/// `limit` and `offset` exactly when given; each once, under the field's own name and
/// holding the field's value; and nothing else.
pub proof fn law_index_prices_snapshot_request_params(req: IndexPricesSnapshotRequest)
    ensures
        req.query() == present_params(
            seq![
                (true, "thscodes"@, req.thscodes@),
                (req.limit is Some, "limit"@, decimal((req.limit->0) as nat)),
                (req.offset is Some, "offset"@, decimal((req.offset->0) as nat)),
            ],
        ),
        req.query().len() == 1 + count_if(req.limit is Some) + count_if(req.offset is Some),
        req.query().contains(("thscodes"@, req.thscodes@)),
        req.limit matches Some(v) ==> req.query().contains(("limit"@, decimal(v as nat))),
        req.limit is None ==> lacks_name(req.query(), "limit"@),
        req.offset matches Some(v) ==> req.query().contains(("offset"@, decimal(v as nat))),
        req.offset is None ==> lacks_name(req.query(), "offset"@),
{
    reveal_strlit("thscodes");
    reveal_strlit("limit");
    reveal_strlit("offset");
    let fields = seq![
        (true, "thscodes"@, req.thscodes@),
        (req.limit is Some, "limit"@, decimal((req.limit->0) as nat)),
        (req.offset is Some, "offset"@, decimal((req.offset->0) as nat)),
    ];
    assert(fields.drop_last() =~= seq![fields[0], fields[1]]);
    assert(fields.drop_last().drop_last() =~= seq![fields[0]]);
    assert(fields.drop_last().drop_last().drop_last() =~= Seq::<FieldParam>::empty());
    reveal_with_fuel(present_params, 4);
    reveal_with_fuel(present_count, 4);
    reveal_with_fuel(named_present, 4);
    assert(req.query() =~= present_params(fields));
    lemma_present_count(fields);
    lemma_present_field_sent(fields, 0);
    if req.limit is Some {
        lemma_present_field_sent(fields, 1);
    } else {
        assert("thscodes"@.len() != "limit"@.len());
        assert("offset"@.len() != "limit"@.len());
        assert(!named_present(fields, "limit"@));
        lemma_absent_name_not_sent(fields, "limit"@);
    }
    if req.offset is Some {
        lemma_present_field_sent(fields, 2);
    } else {
        assert("thscodes"@.len() != "offset"@.len());
        assert("limit"@.len() != "offset"@.len());
        assert(!named_present(fields, "offset"@));
        lemma_absent_name_not_sent(fields, "offset"@);
    }
}

/// What an `IndexPricesHistoricalRequest` sends, in its fields' order: `thscode`,
/// `interval`, `start` and `end` always; each once, under the field's own name and
/// holding the field's value; and nothing else.
pub proof fn law_index_prices_historical_request_params(req: IndexPricesHistoricalRequest)
    ensures
        req.query() == present_params(
            seq![
                (true, "thscode"@, req.thscode@),
                (true, "interval"@, req.interval.wire_name()),
                (true, "start"@, signed_decimal(req.start as int)),
                (true, "end"@, signed_decimal(req.end as int)),
            ],
        ),
        req.query().len() == 4,
        req.query().contains(("thscode"@, req.thscode@)),
        req.query().contains(("interval"@, req.interval.wire_name())),
        req.query().contains(("start"@, signed_decimal(req.start as int))),
        req.query().contains(("end"@, signed_decimal(req.end as int))),
{
    reveal_strlit("thscode");
    reveal_strlit("interval");
    reveal_strlit("start");
    reveal_strlit("end");
    let fields = seq![
        (true, "thscode"@, req.thscode@),
        (true, "interval"@, req.interval.wire_name()),
        (true, "start"@, signed_decimal(req.start as int)),
        (true, "end"@, signed_decimal(req.end as int)),
    ];
    assert(fields.drop_last() =~= seq![fields[0], fields[1], fields[2]]);
    assert(fields.drop_last().drop_last() =~= seq![fields[0], fields[1]]);
    assert(fields.drop_last().drop_last().drop_last() =~= seq![fields[0]]);
    assert(fields.drop_last().drop_last().drop_last().drop_last() =~= Seq::<FieldParam>::empty());
    reveal_with_fuel(present_params, 5);
    reveal_with_fuel(present_count, 5);
    reveal_with_fuel(named_present, 5);
    assert(req.query() =~= present_params(fields));
    lemma_present_count(fields);
    lemma_present_field_sent(fields, 0);
    lemma_present_field_sent(fields, 1);
    lemma_present_field_sent(fields, 2);
    lemma_present_field_sent(fields, 3);
}

/// What a `LimitUpPoolRequest` sends, in its fields' order: `date_ms`, `page`, `size`,
/// `sort_field` and `sort_dir` exactly when given; each once, under the field's own
/// name and holding the field's value; and nothing else.
pub proof fn law_limit_up_pool_request_params(req: LimitUpPoolRequest)
    ensures
        req.query() == present_params(
            seq![
                (req.date_ms is Some, "date_ms"@, signed_decimal((req.date_ms->0) as int)),
                (req.page is Some, "page"@, decimal((req.page->0) as nat)),
                (req.size is Some, "size"@, decimal((req.size->0) as nat)),
                (req.sort_field is Some, "sort_field"@, (req.sort_field->0).wire_name()),
                (req.sort_dir is Some, "sort_dir"@, (req.sort_dir->0).wire_name()),
            ],
        ),
        req.query().len() == 0
            + count_if(req.date_ms is Some)
            + count_if(req.page is Some)
            + count_if(req.size is Some)
            + count_if(req.sort_field is Some)
            + count_if(req.sort_dir is Some),
        req.date_ms matches Some(v) ==> req.query().contains(("date_ms"@, signed_decimal(v as int))),
        req.date_ms is None ==> lacks_name(req.query(), "date_ms"@),
        req.page matches Some(v) ==> req.query().contains(("page"@, decimal(v as nat))),
        req.page is None ==> lacks_name(req.query(), "page"@),
        req.size matches Some(v) ==> req.query().contains(("size"@, decimal(v as nat))),
        req.size is None ==> lacks_name(req.query(), "size"@),
        req.sort_field matches Some(v) ==> req.query().contains(("sort_field"@, v.wire_name())),
        req.sort_field is None ==> lacks_name(req.query(), "sort_field"@),
        req.sort_dir matches Some(v) ==> req.query().contains(("sort_dir"@, v.wire_name())),
        req.sort_dir is None ==> lacks_name(req.query(), "sort_dir"@),
{
    reveal_strlit("date_ms");
    reveal_strlit("page");
    reveal_strlit("size");
    reveal_strlit("sort_field");
    reveal_strlit("sort_dir");
    let fields = seq![
        (req.date_ms is Some, "date_ms"@, signed_decimal((req.date_ms->0) as int)),
        (req.page is Some, "page"@, decimal((req.page->0) as nat)),
        (req.size is Some, "size"@, decimal((req.size->0) as nat)),
        (req.sort_field is Some, "sort_field"@, (req.sort_field->0).wire_name()),
        (req.sort_dir is Some, "sort_dir"@, (req.sort_dir->0).wire_name()),
    ];
    assert(fields.drop_last() =~= seq![fields[0], fields[1], fields[2], fields[3]]);
    assert(fields.drop_last().drop_last() =~= seq![fields[0], fields[1], fields[2]]);
    assert(fields.drop_last().drop_last().drop_last() =~= seq![fields[0], fields[1]]);
    assert(fields.drop_last().drop_last().drop_last().drop_last() =~= seq![fields[0]]);
    assert(fields.drop_last().drop_last().drop_last().drop_last().drop_last() =~= Seq::<FieldParam>::empty());
    reveal_with_fuel(present_params, 6);
    reveal_with_fuel(present_count, 6);
    reveal_with_fuel(named_present, 6);
    assert(req.query() =~= present_params(fields));
    lemma_present_count(fields);
    if req.date_ms is Some {
        lemma_present_field_sent(fields, 0);
    } else {
        assert("page"@.len() != "date_ms"@.len());
        assert("size"@.len() != "date_ms"@.len());
        assert("sort_field"@.len() != "date_ms"@.len());
        assert("sort_dir"@.len() != "date_ms"@.len());
        assert(!named_present(fields, "date_ms"@));
        lemma_absent_name_not_sent(fields, "date_ms"@);
    }
    if req.page is Some {
        lemma_present_field_sent(fields, 1);
    } else {
        assert("date_ms"@.len() != "page"@.len());
        assert("size"@[0] != "page"@[0]);
        assert("sort_field"@.len() != "page"@.len());
        assert("sort_dir"@.len() != "page"@.len());
        assert(!named_present(fields, "page"@));
        lemma_absent_name_not_sent(fields, "page"@);
    }
    if req.size is Some {
        lemma_present_field_sent(fields, 2);
    } else {
        assert("date_ms"@.len() != "size"@.len());
        assert("page"@[0] != "size"@[0]);
        assert("sort_field"@.len() != "size"@.len());
        assert("sort_dir"@.len() != "size"@.len());
        assert(!named_present(fields, "size"@));
        lemma_absent_name_not_sent(fields, "size"@);
    }
    if req.sort_field is Some {
        lemma_present_field_sent(fields, 3);
    } else {
        assert("date_ms"@.len() != "sort_field"@.len());
        assert("page"@.len() != "sort_field"@.len());
        assert("size"@.len() != "sort_field"@.len());
        assert("sort_dir"@.len() != "sort_field"@.len());
        assert(!named_present(fields, "sort_field"@));
        lemma_absent_name_not_sent(fields, "sort_field"@);
    }
    if req.sort_dir is Some {
        lemma_present_field_sent(fields, 4);
    } else {
        assert("date_ms"@.len() != "sort_dir"@.len());
        assert("page"@.len() != "sort_dir"@.len());
        assert("size"@.len() != "sort_dir"@.len());
        assert("sort_field"@.len() != "sort_dir"@.len());
        assert(!named_present(fields, "sort_dir"@));
        lemma_absent_name_not_sent(fields, "sort_dir"@);
    }
}

/// What a `HotRankingRequest` sends, in its fields' order: `period` exactly when given;
/// each once, under the field's own name and holding the field's value; and nothing
/// else.
pub proof fn law_hot_ranking_request_params(req: HotRankingRequest)
    ensures
        req.query() == present_params(
            seq![
                (req.period is Some, "period"@, (req.period->0).wire_name()),
            ],
        ),
        req.query().len() == 0 + count_if(req.period is Some),
        req.period matches Some(v) ==> req.query().contains(("period"@, v.wire_name())),
        req.period is None ==> lacks_name(req.query(), "period"@),
{
    reveal_strlit("period");
    let fields = seq![
        (req.period is Some, "period"@, (req.period->0).wire_name()),
    ];
    assert(fields.drop_last() =~= Seq::<FieldParam>::empty());
    reveal_with_fuel(present_params, 2);
    reveal_with_fuel(present_count, 2);
    reveal_with_fuel(named_present, 2);
    assert(req.query() =~= present_params(fields));
    lemma_present_count(fields);
    if req.period is Some {
        lemma_present_field_sent(fields, 0);
    } else {
        assert(!named_present(fields, "period"@));
        lemma_absent_name_not_sent(fields, "period"@);
    }
}

/// What a `HotStockListHistoryRequest` sends, in its fields' order: `date` always; each
/// once, under the field's own name and holding the field's value; and nothing else.
pub proof fn law_hot_stock_list_history_request_params(req: HotStockListHistoryRequest)
    ensures
        req.query() == present_params(
            seq![
                (true, "date"@, req.date@),
            ],
        ),
        req.query().len() == 1,
        req.query().contains(("date"@, req.date@)),
{
    reveal_strlit("date");
    let fields = seq![
        (true, "date"@, req.date@),
    ];
    assert(fields.drop_last() =~= Seq::<FieldParam>::empty());
    reveal_with_fuel(present_params, 2);
    reveal_with_fuel(present_count, 2);
    reveal_with_fuel(named_present, 2);
    assert(req.query() =~= present_params(fields));
    lemma_present_count(fields);
    lemma_present_field_sent(fields, 0);
}

/// What a `HotStockRankTrendRequest` sends, in its fields' order: `thscode`,
/// `start_date` and `end_date` always; each once, under the field's own name and
/// holding the field's value; and nothing else.
pub proof fn law_hot_stock_rank_trend_request_params(req: HotStockRankTrendRequest)
    ensures
        req.query() == present_params(
            seq![
                (true, "thscode"@, req.thscode@),
                (true, "start_date"@, req.start_date@),
                (true, "end_date"@, req.end_date@),
            ],
        ),
        req.query().len() == 3,
        req.query().contains(("thscode"@, req.thscode@)),
        req.query().contains(("start_date"@, req.start_date@)),
        req.query().contains(("end_date"@, req.end_date@)),
{
    reveal_strlit("thscode");
    reveal_strlit("start_date");
    reveal_strlit("end_date");
    let fields = seq![
        (true, "thscode"@, req.thscode@),
        (true, "start_date"@, req.start_date@),
        (true, "end_date"@, req.end_date@),
    ];
    assert(fields.drop_last() =~= seq![fields[0], fields[1]]);
    assert(fields.drop_last().drop_last() =~= seq![fields[0]]);
    assert(fields.drop_last().drop_last().drop_last() =~= Seq::<FieldParam>::empty());
    reveal_with_fuel(present_params, 4);
    reveal_with_fuel(present_count, 4);
    reveal_with_fuel(named_present, 4);
    assert(req.query() =~= present_params(fields));
    lemma_present_count(fields);
    lemma_present_field_sent(fields, 0);
    lemma_present_field_sent(fields, 1);
    lemma_present_field_sent(fields, 2);
}

/// What an `AnomalyAnalysisListRequest` sends, in its fields' order: `tag_codes`
/// exactly when given; each once, under the field's own name and holding the field's
/// value; and nothing else.
pub proof fn law_anomaly_analysis_list_request_params(req: AnomalyAnalysisListRequest)
    ensures
        req.query() == present_params(
            seq![
                (req.tag_codes is Some, "tag_codes"@, (req.tag_codes->0)@),
            ],
        ),
        req.query().len() == 0 + count_if(req.tag_codes is Some),
        req.tag_codes matches Some(v) ==> req.query().contains(("tag_codes"@, v@)),
        req.tag_codes is None ==> lacks_name(req.query(), "tag_codes"@),
{
    reveal_strlit("tag_codes");
    let fields = seq![
        (req.tag_codes is Some, "tag_codes"@, (req.tag_codes->0)@),
    ];
    assert(fields.drop_last() =~= Seq::<FieldParam>::empty());
    reveal_with_fuel(present_params, 2);
    reveal_with_fuel(present_count, 2);
    reveal_with_fuel(named_present, 2);
    assert(req.query() =~= present_params(fields));
    lemma_present_count(fields);
    if req.tag_codes is Some {
        lemma_present_field_sent(fields, 0);
    } else {
        assert(!named_present(fields, "tag_codes"@));
        lemma_absent_name_not_sent(fields, "tag_codes"@);
    }
}

/// What an `AnomalyAnalysisStockRequest` sends, in its fields' order: `thscodes`
/// always; each once, under the field's own name and holding the field's value; and
/// nothing else.
pub proof fn law_anomaly_analysis_stock_request_params(req: AnomalyAnalysisStockRequest)
    ensures
        req.query() == present_params(
            seq![
                (true, "thscodes"@, req.thscodes@),
            ],
        ),
        req.query().len() == 1,
        req.query().contains(("thscodes"@, req.thscodes@)),
{
    reveal_strlit("thscodes");
    let fields = seq![
        (true, "thscodes"@, req.thscodes@),
    ];
    assert(fields.drop_last() =~= Seq::<FieldParam>::empty());
    reveal_with_fuel(present_params, 2);
    reveal_with_fuel(present_count, 2);
    reveal_with_fuel(named_present, 2);
    assert(req.query() =~= present_params(fields));
    lemma_present_count(fields);
    lemma_present_field_sent(fields, 0);
}

/// What a `DragonTigerListRequest` sends, in its fields' order: `board_type` and `date`
/// exactly when given; each once, under the field's own name and holding the field's
/// value; and nothing else.
pub proof fn law_dragon_tiger_list_request_params(req: DragonTigerListRequest)
    ensures
        req.query() == present_params(
            seq![
                (req.board_type is Some, "board_type"@, (req.board_type->0).wire_name()),
                (req.date is Some, "date"@, (req.date->0)@),
            ],
        ),
        req.query().len() == 0 + count_if(req.board_type is Some) + count_if(req.date is Some),
        req.board_type matches Some(v) ==> req.query().contains(("board_type"@, v.wire_name())),
        req.board_type is None ==> lacks_name(req.query(), "board_type"@),
        req.date matches Some(v) ==> req.query().contains(("date"@, v@)),
        req.date is None ==> lacks_name(req.query(), "date"@),
{
    reveal_strlit("board_type");
    reveal_strlit("date");
    let fields = seq![
        (req.board_type is Some, "board_type"@, (req.board_type->0).wire_name()),
        (req.date is Some, "date"@, (req.date->0)@),
    ];
    assert(fields.drop_last() =~= seq![fields[0]]);
    assert(fields.drop_last().drop_last() =~= Seq::<FieldParam>::empty());
    reveal_with_fuel(present_params, 3);
    reveal_with_fuel(present_count, 3);
    reveal_with_fuel(named_present, 3);
    assert(req.query() =~= present_params(fields));
    lemma_present_count(fields);
    if req.board_type is Some {
        lemma_present_field_sent(fields, 0);
    } else {
        assert("date"@.len() != "board_type"@.len());
        assert(!named_present(fields, "board_type"@));
        lemma_absent_name_not_sent(fields, "board_type"@);
    }
    if req.date is Some {
        lemma_present_field_sent(fields, 1);
    } else {
        assert("board_type"@.len() != "date"@.len());
        assert(!named_present(fields, "date"@));
        lemma_absent_name_not_sent(fields, "date"@);
    }
}

/// What a `FundHoldersDetailRequest` sends, in its fields' order: `fund_type` and
/// `thscode` always, `merge_scope` exactly when given; each once, under the field's own
/// name and holding the field's value; and nothing else.
pub proof fn law_fund_holders_detail_request_params(req: FundHoldersDetailRequest)
    ensures
        req.query() == present_params(
            seq![
                (true, "fund_type"@, req.fund_type.wire_name()),
                (true, "thscode"@, req.thscode@),
                (req.merge_scope is Some, "merge_scope"@, (req.merge_scope->0).wire_name()),
            ],
        ),
        req.query().len() == 2 + count_if(req.merge_scope is Some),
        req.query().contains(("fund_type"@, req.fund_type.wire_name())),
        req.query().contains(("thscode"@, req.thscode@)),
        req.merge_scope matches Some(v) ==> req.query().contains(("merge_scope"@, v.wire_name())),
        req.merge_scope is None ==> lacks_name(req.query(), "merge_scope"@),
{
    reveal_strlit("fund_type");
    reveal_strlit("thscode");
    reveal_strlit("merge_scope");
    let fields = seq![
        (true, "fund_type"@, req.fund_type.wire_name()),
        (true, "thscode"@, req.thscode@),
        (req.merge_scope is Some, "merge_scope"@, (req.merge_scope->0).wire_name()),
    ];
    assert(fields.drop_last() =~= seq![fields[0], fields[1]]);
    assert(fields.drop_last().drop_last() =~= seq![fields[0]]);
    assert(fields.drop_last().drop_last().drop_last() =~= Seq::<FieldParam>::empty());
    reveal_with_fuel(present_params, 4);
    reveal_with_fuel(present_count, 4);
    reveal_with_fuel(named_present, 4);
    assert(req.query() =~= present_params(fields));
    lemma_present_count(fields);
    lemma_present_field_sent(fields, 0);
    lemma_present_field_sent(fields, 1);
    if req.merge_scope is Some {
        lemma_present_field_sent(fields, 2);
    } else {
        assert("fund_type"@.len() != "merge_scope"@.len());
        assert("thscode"@.len() != "merge_scope"@.len());
        assert(!named_present(fields, "merge_scope"@));
        lemma_absent_name_not_sent(fields, "merge_scope"@);
    }
}

/// What a `FundPortfolioHoldingsRequest` sends, in its fields' order: `fund_type` and
/// `thscode` always; each once, under the field's own name and holding the field's
/// value; and nothing else.
pub proof fn law_fund_portfolio_holdings_request_params(req: FundPortfolioHoldingsRequest)
    ensures
        req.query() == present_params(
            seq![
                (true, "fund_type"@, req.fund_type.wire_name()),
                (true, "thscode"@, req.thscode@),
            ],
        ),
        req.query().len() == 2,
        req.query().contains(("fund_type"@, req.fund_type.wire_name())),
        req.query().contains(("thscode"@, req.thscode@)),
{
    reveal_strlit("fund_type");
    reveal_strlit("thscode");
    let fields = seq![
        (true, "fund_type"@, req.fund_type.wire_name()),
        (true, "thscode"@, req.thscode@),
    ];
    assert(fields.drop_last() =~= seq![fields[0]]);
    assert(fields.drop_last().drop_last() =~= Seq::<FieldParam>::empty());
    reveal_with_fuel(present_params, 3);
    reveal_with_fuel(present_count, 3);
    reveal_with_fuel(named_present, 3);
    assert(req.query() =~= present_params(fields));
    lemma_present_count(fields);
    lemma_present_field_sent(fields, 0);
    lemma_present_field_sent(fields, 1);
}

/// What a `FundMarketSnapshotRequest` sends, in its fields' order: `thscode` always;
/// each once, under the field's own name and holding the field's value; and nothing
/// else.
pub proof fn law_fund_market_snapshot_request_params(req: FundMarketSnapshotRequest)
    ensures
        req.query() == present_params(
            seq![
                (true, "thscode"@, req.thscode@),
            ],
        ),
        req.query().len() == 1,
        req.query().contains(("thscode"@, req.thscode@)),
{
    reveal_strlit("thscode");
    let fields = seq![
        (true, "thscode"@, req.thscode@),
    ];
    assert(fields.drop_last() =~= Seq::<FieldParam>::empty());
    reveal_with_fuel(present_params, 2);
    reveal_with_fuel(present_count, 2);
    reveal_with_fuel(named_present, 2);
    assert(req.query() =~= present_params(fields));
    lemma_present_count(fields);
    lemma_present_field_sent(fields, 0);
}

/// What a `FundMarketHistoricalRequest` sends, in its fields' order: `thscode`, `start`
/// and `end` always, `interval` exactly when given; each once, under the field's own
/// name and holding the field's value; and nothing else.
pub proof fn law_fund_market_historical_request_params(req: FundMarketHistoricalRequest)
    ensures
        req.query() == present_params(
            seq![
                (true, "thscode"@, req.thscode@),
                (req.interval is Some, "interval"@, (req.interval->0).wire_name()),
                (true, "start"@, signed_decimal(req.start as int)),
                (true, "end"@, signed_decimal(req.end as int)),
            ],
        ),
        req.query().len() == 3 + count_if(req.interval is Some),
        req.query().contains(("thscode"@, req.thscode@)),
        req.interval matches Some(v) ==> req.query().contains(("interval"@, v.wire_name())),
        req.interval is None ==> lacks_name(req.query(), "interval"@),
        req.query().contains(("start"@, signed_decimal(req.start as int))),
        req.query().contains(("end"@, signed_decimal(req.end as int))),
{
    reveal_strlit("thscode");
    reveal_strlit("interval");
    reveal_strlit("start");
    reveal_strlit("end");
    let fields = seq![
        (true, "thscode"@, req.thscode@),
        (req.interval is Some, "interval"@, (req.interval->0).wire_name()),
        (true, "start"@, signed_decimal(req.start as int)),
        (true, "end"@, signed_decimal(req.end as int)),
    ];
    assert(fields.drop_last() =~= seq![fields[0], fields[1], fields[2]]);
    assert(fields.drop_last().drop_last() =~= seq![fields[0], fields[1]]);
    assert(fields.drop_last().drop_last().drop_last() =~= seq![fields[0]]);
    assert(fields.drop_last().drop_last().drop_last().drop_last() =~= Seq::<FieldParam>::empty());
    reveal_with_fuel(present_params, 5);
    reveal_with_fuel(present_count, 5);
    reveal_with_fuel(named_present, 5);
    assert(req.query() =~= present_params(fields));
    lemma_present_count(fields);
    lemma_present_field_sent(fields, 0);
    if req.interval is Some {
        lemma_present_field_sent(fields, 1);
    } else {
        assert("thscode"@.len() != "interval"@.len());
        assert("start"@.len() != "interval"@.len());
        assert("end"@.len() != "interval"@.len());
        assert(!named_present(fields, "interval"@));
        lemma_absent_name_not_sent(fields, "interval"@);
    }
    lemma_present_field_sent(fields, 2);
    lemma_present_field_sent(fields, 3);
}

/// What a `FundPerformanceNavRequest` sends, in its fields' order: `fund_type` and
/// `thscode` always, `range` and `nav_type` exactly when given; each once, under the
/// field's own name and holding the field's value; and nothing else.
pub proof fn law_fund_performance_nav_request_params(req: FundPerformanceNavRequest)
    ensures
        req.query() == present_params(
            seq![
                (true, "fund_type"@, req.fund_type.wire_name()),
                (true, "thscode"@, req.thscode@),
                (req.range is Some, "range"@, (req.range->0).wire_name()),
                (req.nav_type is Some, "nav_type"@, (req.nav_type->0).wire_name()),
            ],
        ),
        req.query().len() == 2 + count_if(req.range is Some) + count_if(req.nav_type is Some),
        req.query().contains(("fund_type"@, req.fund_type.wire_name())),
        req.query().contains(("thscode"@, req.thscode@)),
        req.range matches Some(v) ==> req.query().contains(("range"@, v.wire_name())),
        req.range is None ==> lacks_name(req.query(), "range"@),
        req.nav_type matches Some(v) ==> req.query().contains(("nav_type"@, v.wire_name())),
        req.nav_type is None ==> lacks_name(req.query(), "nav_type"@),
{
    reveal_strlit("fund_type");
    reveal_strlit("thscode");
    reveal_strlit("range");
    reveal_strlit("nav_type");
    let fields = seq![
        (true, "fund_type"@, req.fund_type.wire_name()),
        (true, "thscode"@, req.thscode@),
        (req.range is Some, "range"@, (req.range->0).wire_name()),
        (req.nav_type is Some, "nav_type"@, (req.nav_type->0).wire_name()),
    ];
    assert(fields.drop_last() =~= seq![fields[0], fields[1], fields[2]]);
    assert(fields.drop_last().drop_last() =~= seq![fields[0], fields[1]]);
    assert(fields.drop_last().drop_last().drop_last() =~= seq![fields[0]]);
    assert(fields.drop_last().drop_last().drop_last().drop_last() =~= Seq::<FieldParam>::empty());
    reveal_with_fuel(present_params, 5);
    reveal_with_fuel(present_count, 5);
    reveal_with_fuel(named_present, 5);
    assert(req.query() =~= present_params(fields));
    lemma_present_count(fields);
    lemma_present_field_sent(fields, 0);
    lemma_present_field_sent(fields, 1);
    if req.range is Some {
        lemma_present_field_sent(fields, 2);
    } else {
        assert("fund_type"@.len() != "range"@.len());
        assert("thscode"@.len() != "range"@.len());
        assert("nav_type"@.len() != "range"@.len());
        assert(!named_present(fields, "range"@));
        lemma_absent_name_not_sent(fields, "range"@);
    }
    if req.nav_type is Some {
        lemma_present_field_sent(fields, 3);
    } else {
        assert("fund_type"@.len() != "nav_type"@.len());
        assert("thscode"@.len() != "nav_type"@.len());
        assert("range"@.len() != "nav_type"@.len());
        assert(!named_present(fields, "nav_type"@));
        lemma_absent_name_not_sent(fields, "nav_type"@);
    }
}

/// What a `FundPerformanceReturnsRequest` sends, in its fields' order: `fund_type` and
/// `thscode` always; each once, under the field's own name and holding the field's
/// value; and nothing else.
pub proof fn law_fund_performance_returns_request_params(req: FundPerformanceReturnsRequest)
    ensures
        req.query() == present_params(
            seq![
                (true, "fund_type"@, req.fund_type.wire_name()),
                (true, "thscode"@, req.thscode@),
            ],
        ),
        req.query().len() == 2,
        req.query().contains(("fund_type"@, req.fund_type.wire_name())),
        req.query().contains(("thscode"@, req.thscode@)),
{
    reveal_strlit("fund_type");
    reveal_strlit("thscode");
    let fields = seq![
        (true, "fund_type"@, req.fund_type.wire_name()),
        (true, "thscode"@, req.thscode@),
    ];
    assert(fields.drop_last() =~= seq![fields[0]]);
    assert(fields.drop_last().drop_last() =~= Seq::<FieldParam>::empty());
    reveal_with_fuel(present_params, 3);
    reveal_with_fuel(present_count, 3);
    reveal_with_fuel(named_present, 3);
    assert(req.query() =~= present_params(fields));
    lemma_present_count(fields);
    lemma_present_field_sent(fields, 0);
    lemma_present_field_sent(fields, 1);
}

/// What a `FundProfileDetailRequest` sends, in its fields' order: `fund_type` and
/// `thscode` always; each once, under the field's own name and holding the field's
/// value; and nothing else.
pub proof fn law_fund_profile_detail_request_params(req: FundProfileDetailRequest)
    ensures
        req.query() == present_params(
            seq![
                (true, "fund_type"@, req.fund_type.wire_name()),
                (true, "thscode"@, req.thscode@),
            ],
        ),
        req.query().len() == 2,
        req.query().contains(("fund_type"@, req.fund_type.wire_name())),
        req.query().contains(("thscode"@, req.thscode@)),
{
    reveal_strlit("fund_type");
    reveal_strlit("thscode");
    let fields = seq![
        (true, "fund_type"@, req.fund_type.wire_name()),
        (true, "thscode"@, req.thscode@),
    ];
    assert(fields.drop_last() =~= seq![fields[0]]);
    assert(fields.drop_last().drop_last() =~= Seq::<FieldParam>::empty());
    reveal_with_fuel(present_params, 3);
    reveal_with_fuel(present_count, 3);
    reveal_with_fuel(named_present, 3);
    assert(req.query() =~= present_params(fields));
    lemma_present_count(fields);
    lemma_present_field_sent(fields, 0);
    lemma_present_field_sent(fields, 1);
}

} // verus!
