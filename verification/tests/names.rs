use hi_think_financial::types::{
    TickerAssetType, PriceInterval, PriceAdjust, FinancialPeriod, ThsIndexTag, LimitUpSortField, SortDirection, RankingPeriod, AnomalyTag, DragonTigerBoardType, FundType, FundMergeScope, FundNavRange, FundNavType,
};

#[test]
fn enum_values_are_sent_as_their_documented_names() {
    assert_eq!(TickerAssetType::AShare.as_str(), "a-share");
    assert_eq!(TickerAssetType::AShareIndex.as_str(), "a-share-index");
    assert_eq!(PriceInterval::Day1.as_str(), "1d");
    assert_eq!(PriceAdjust::Unadjusted.as_str(), "none");
    assert_eq!(PriceAdjust::Forward.as_str(), "forward");
    assert_eq!(PriceAdjust::Backward.as_str(), "backward");
    assert_eq!(FinancialPeriod::Annual.as_str(), "annual");
    assert_eq!(FinancialPeriod::Quarterly.as_str(), "quarterly");
    assert_eq!(ThsIndexTag::CnConcept.as_str(), "cn_concept");
    assert_eq!(ThsIndexTag::Region.as_str(), "region");
    assert_eq!(ThsIndexTag::Tszs.as_str(), "tszs");
    assert_eq!(ThsIndexTag::Industry.as_str(), "industry");
    assert_eq!(LimitUpSortField::LastPrice.as_str(), "last_price");
    assert_eq!(LimitUpSortField::ContinueDayCnt.as_str(), "continue_day_cnt");
    assert_eq!(LimitUpSortField::SealMoney.as_str(), "seal_money");
    assert_eq!(LimitUpSortField::LimitUpTime.as_str(), "limit_up_time");
    assert_eq!(SortDirection::Asc.as_str(), "asc");
    assert_eq!(SortDirection::Desc.as_str(), "desc");
    assert_eq!(RankingPeriod::Day.as_str(), "day");
    assert_eq!(RankingPeriod::Hour.as_str(), "hour");
    assert_eq!(AnomalyTag::LimitUp.as_str(), "LIMIT_UP");
    assert_eq!(AnomalyTag::LimitDown.as_str(), "LIMIT_DOWN");
    assert_eq!(AnomalyTag::SharpRise.as_str(), "SHARP_RISE");
    assert_eq!(AnomalyTag::SharpFall.as_str(), "SHARP_FALL");
    assert_eq!(AnomalyTag::RapidRally.as_str(), "RAPID_RALLY");
    assert_eq!(AnomalyTag::RapidDecline.as_str(), "RAPID_DECLINE");
    assert_eq!(DragonTigerBoardType::All.as_str(), "all");
    assert_eq!(DragonTigerBoardType::Org.as_str(), "org");
    assert_eq!(DragonTigerBoardType::HotMoney.as_str(), "hot_money");
    assert_eq!(FundType::Otc.as_str(), "otc");
    assert_eq!(FundType::Exchange.as_str(), "exchange");
    assert_eq!(FundType::Reits.as_str(), "reits");
    assert_eq!(FundMergeScope::All.as_str(), "all");
    assert_eq!(FundMergeScope::Merged.as_str(), "merged");
    assert_eq!(FundMergeScope::Separate.as_str(), "separate");
    assert_eq!(FundNavRange::Week.as_str(), "week");
    assert_eq!(FundNavRange::Month.as_str(), "month");
    assert_eq!(FundNavRange::Tmonth.as_str(), "tmonth");
    assert_eq!(FundNavRange::Hyear.as_str(), "hyear");
    assert_eq!(FundNavRange::Year.as_str(), "year");
    assert_eq!(FundNavRange::Twoyear.as_str(), "twoyear");
    assert_eq!(FundNavRange::Tyear.as_str(), "tyear");
    assert_eq!(FundNavRange::Fyear.as_str(), "fyear");
    assert_eq!(FundNavType::Unit.as_str(), "unit");
    assert_eq!(FundNavType::Adjusted.as_str(), "adj");
    assert_eq!(FundNavType::Both.as_str(), "unit,adj");
}

#[test]
fn received_names_are_read_back_into_their_values() {
    assert_eq!(TickerAssetType::from_wire_name(&TickerAssetType::AShare.as_str().to_string()), Some(TickerAssetType::AShare));
    assert_eq!(TickerAssetType::from_wire_name(&TickerAssetType::AShareIndex.as_str().to_string()), Some(TickerAssetType::AShareIndex));
    assert_eq!(PriceInterval::from_wire_name(&PriceInterval::Day1.as_str().to_string()), Some(PriceInterval::Day1));
    assert_eq!(PriceAdjust::from_wire_name(&PriceAdjust::Unadjusted.as_str().to_string()), Some(PriceAdjust::Unadjusted));
    assert_eq!(PriceAdjust::from_wire_name(&PriceAdjust::Forward.as_str().to_string()), Some(PriceAdjust::Forward));
    assert_eq!(PriceAdjust::from_wire_name(&PriceAdjust::Backward.as_str().to_string()), Some(PriceAdjust::Backward));
    assert_eq!(FinancialPeriod::from_wire_name(&FinancialPeriod::Annual.as_str().to_string()), Some(FinancialPeriod::Annual));
    assert_eq!(FinancialPeriod::from_wire_name(&FinancialPeriod::Quarterly.as_str().to_string()), Some(FinancialPeriod::Quarterly));
    assert_eq!(ThsIndexTag::from_wire_name(&ThsIndexTag::CnConcept.as_str().to_string()), Some(ThsIndexTag::CnConcept));
    assert_eq!(ThsIndexTag::from_wire_name(&ThsIndexTag::Region.as_str().to_string()), Some(ThsIndexTag::Region));
    assert_eq!(ThsIndexTag::from_wire_name(&ThsIndexTag::Tszs.as_str().to_string()), Some(ThsIndexTag::Tszs));
    assert_eq!(ThsIndexTag::from_wire_name(&ThsIndexTag::Industry.as_str().to_string()), Some(ThsIndexTag::Industry));
    assert_eq!(FundType::from_wire_name(&FundType::Otc.as_str().to_string()), Some(FundType::Otc));
    assert_eq!(FundType::from_wire_name(&FundType::Exchange.as_str().to_string()), Some(FundType::Exchange));
    assert_eq!(FundType::from_wire_name(&FundType::Reits.as_str().to_string()), Some(FundType::Reits));
    assert_eq!(FundMergeScope::from_wire_name(&FundMergeScope::All.as_str().to_string()), Some(FundMergeScope::All));
    assert_eq!(FundMergeScope::from_wire_name(&FundMergeScope::Merged.as_str().to_string()), Some(FundMergeScope::Merged));
    assert_eq!(FundMergeScope::from_wire_name(&FundMergeScope::Separate.as_str().to_string()), Some(FundMergeScope::Separate));
}

#[test]
fn unknown_names_are_not_read() {
    assert_eq!(TickerAssetType::from_wire_name(&"unknown".to_string()), None);
    assert_eq!(PriceInterval::from_wire_name(&"unknown".to_string()), None);
    assert_eq!(PriceAdjust::from_wire_name(&"unknown".to_string()), None);
    assert_eq!(FinancialPeriod::from_wire_name(&"unknown".to_string()), None);
    assert_eq!(ThsIndexTag::from_wire_name(&"unknown".to_string()), None);
    assert_eq!(FundType::from_wire_name(&"unknown".to_string()), None);
    assert_eq!(FundMergeScope::from_wire_name(&"unknown".to_string()), None);
    assert_eq!(TickerAssetType::from_wire_name(&"A-SHARE".to_string()), None);
    assert_eq!(PriceAdjust::from_wire_name(&"None".to_string()), None);
    assert_eq!(PriceInterval::from_wire_name(&"".to_string()), None);
}
