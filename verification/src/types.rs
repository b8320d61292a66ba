//! The request parameter types of the API, and the names their enumerated
//! values are sent as.
use vstd::prelude::*;

use crate::form::{decimal, i64_text, signed_decimal, u64_text};
use crate::query::{param, param_if, push_param, QueryParams};

verus! {

/// `String::from` on a string slice: per std's documentation it makes a
/// `String` holding the same text. Claimed: the result's text is the slice's.
pub assume_specification<'a>[ <String as From<&'a str>>::from ](s: &str) -> (r: String)
    ensures
        r@ == s@,
;

/// Whether a received text is the given name.
fn text_is(text: &String, name: &str) -> (r: bool)
    ensures
        r == (text@ == name@),
{
    let expected = name.to_owned();
    *text == expected
}

/// Asset class of the ticker search and catalogue.
#[derive(Clone, Copy, Debug, Eq, PartialEq)]
pub enum TickerAssetType {
    /// A shares. Sent as `a-share`.
    AShare,
    /// A-share indices. Sent as `a-share-index`.
    AShareIndex,
}

impl TickerAssetType {
    /// The name the value is sent and received as.
    pub open spec fn wire_name(self) -> Seq<char> {
        match self {
            TickerAssetType::AShare => "a-share"@,
            TickerAssetType::AShareIndex => "a-share-index"@,
        }
    }

    /// The name the value is sent as.
    pub fn as_str(&self) -> (r: &'static str)
        ensures
            r@ == self.wire_name(),
    {
        match self {
            TickerAssetType::AShare => "a-share",
            TickerAssetType::AShareIndex => "a-share-index",
        }
    }

    /// The value a received name stands for, if any.
    pub open spec fn parse_wire_name(text: Seq<char>) -> Option<Self> {
        if text == "a-share"@ {
            Some(TickerAssetType::AShare)
        } else if text == "a-share-index"@ {
            Some(TickerAssetType::AShareIndex)
        } else {
            None
        }
    }

    /// Reads a received name back into a value.
    pub fn from_wire_name(text: &String) -> (r: Option<Self>)
        ensures
            r == Self::parse_wire_name(text@),
    {
        if text_is(text, "a-share") {
            Some(TickerAssetType::AShare)
        } else if text_is(text, "a-share-index") {
            Some(TickerAssetType::AShareIndex)
        } else {
            None
        }
    }
}

/// Each `TickerAssetType` value is sent as the name the API documents for it.
pub proof fn law_ticker_asset_type_wire_names()
    ensures
        TickerAssetType::AShare.wire_name() == "a-share"@,
        TickerAssetType::AShareIndex.wire_name() == "a-share-index"@,
{
}

/// Every TickerAssetType value is read back from the name it is sent as.
pub proof fn law_ticker_asset_type_name_roundtrip(v: TickerAssetType)
    ensures
        TickerAssetType::parse_wire_name(v.wire_name()) == Some(v),
{
    reveal_strlit("a-share");
    reveal_strlit("a-share-index");
    match v {
        TickerAssetType::AShare => {},
        TickerAssetType::AShareIndex => {
            assert("a-share-index"@.len() != "a-share"@.len());
        },
    }
}

/// Bar interval of price histories.
#[derive(Clone, Copy, Debug, Eq, PartialEq)]
pub enum PriceInterval {
    /// Daily bars. Sent as `1d`.
    Day1,
}

impl PriceInterval {
    /// The name the value is sent and received as.
    pub open spec fn wire_name(self) -> Seq<char> {
        match self {
            PriceInterval::Day1 => "1d"@,
        }
    }

    /// The name the value is sent as.
    pub fn as_str(&self) -> (r: &'static str)
        ensures
            r@ == self.wire_name(),
    {
        match self {
            PriceInterval::Day1 => "1d",
        }
    }

    /// The value a received name stands for, if any.
    pub open spec fn parse_wire_name(text: Seq<char>) -> Option<Self> {
        if text == "1d"@ {
            Some(PriceInterval::Day1)
        } else {
            None
        }
    }

    /// Reads a received name back into a value.
    pub fn from_wire_name(text: &String) -> (r: Option<Self>)
        ensures
            r == Self::parse_wire_name(text@),
    {
        if text_is(text, "1d") {
            Some(PriceInterval::Day1)
        } else {
            None
        }
    }
}

/// Each `PriceInterval` value is sent as the name the API documents for it.
pub proof fn law_price_interval_wire_names()
    ensures
        PriceInterval::Day1.wire_name() == "1d"@,
{
}

/// Every PriceInterval value is read back from the name it is sent as.
pub proof fn law_price_interval_name_roundtrip(v: PriceInterval)
    ensures
        PriceInterval::parse_wire_name(v.wire_name()) == Some(v),
{
    reveal_strlit("1d");
}

/// Price adjustment of A-share histories.
#[derive(Clone, Copy, Debug, Eq, PartialEq)]
pub enum PriceAdjust {
    /// Unadjusted prices. Sent as `none`.
    Unadjusted,
    /// Forward-adjusted prices. Sent as `forward`.
    Forward,
    /// Backward-adjusted prices. Sent as `backward`.
    Backward,
}

impl PriceAdjust {
    /// The name the value is sent and received as.
    pub open spec fn wire_name(self) -> Seq<char> {
        match self {
            PriceAdjust::Unadjusted => "none"@,
            PriceAdjust::Forward => "forward"@,
            PriceAdjust::Backward => "backward"@,
        }
    }

    /// The name the value is sent as.
    pub fn as_str(&self) -> (r: &'static str)
        ensures
            r@ == self.wire_name(),
    {
        match self {
            PriceAdjust::Unadjusted => "none",
            PriceAdjust::Forward => "forward",
            PriceAdjust::Backward => "backward",
        }
    }

    /// The value a received name stands for, if any.
    pub open spec fn parse_wire_name(text: Seq<char>) -> Option<Self> {
        if text == "none"@ {
            Some(PriceAdjust::Unadjusted)
        } else if text == "forward"@ {
            Some(PriceAdjust::Forward)
        } else if text == "backward"@ {
            Some(PriceAdjust::Backward)
        } else {
            None
        }
    }

    /// Reads a received name back into a value.
    pub fn from_wire_name(text: &String) -> (r: Option<Self>)
        ensures
            r == Self::parse_wire_name(text@),
    {
        if text_is(text, "none") {
            Some(PriceAdjust::Unadjusted)
        } else if text_is(text, "forward") {
            Some(PriceAdjust::Forward)
        } else if text_is(text, "backward") {
            Some(PriceAdjust::Backward)
        } else {
            None
        }
    }
}

/// Each `PriceAdjust` value is sent as the name the API documents for it.
pub proof fn law_price_adjust_wire_names()
    ensures
        PriceAdjust::Unadjusted.wire_name() == "none"@,
        PriceAdjust::Forward.wire_name() == "forward"@,
        PriceAdjust::Backward.wire_name() == "backward"@,
{
}

/// Every PriceAdjust value is read back from the name it is sent as.
pub proof fn law_price_adjust_name_roundtrip(v: PriceAdjust)
    ensures
        PriceAdjust::parse_wire_name(v.wire_name()) == Some(v),
{
    reveal_strlit("none");
    reveal_strlit("forward");
    reveal_strlit("backward");
    match v {
        PriceAdjust::Unadjusted => {},
        PriceAdjust::Forward => {
            assert("forward"@.len() != "none"@.len());
        },
        PriceAdjust::Backward => {
            assert("backward"@.len() != "none"@.len());
            assert("backward"@.len() != "forward"@.len());
        },
    }
}

/// Reporting period of financial statements.
#[derive(Clone, Copy, Debug, Eq, PartialEq)]
pub enum FinancialPeriod {
    /// Annual reports, the fourth-quarter period only. Sent as `annual`.
    Annual,
    /// Every quarter-end period. Sent as `quarterly`.
    Quarterly,
}

impl FinancialPeriod {
    /// The name the value is sent and received as.
    pub open spec fn wire_name(self) -> Seq<char> {
        match self {
            FinancialPeriod::Annual => "annual"@,
            FinancialPeriod::Quarterly => "quarterly"@,
        }
    }

    /// The name the value is sent as.
    pub fn as_str(&self) -> (r: &'static str)
        ensures
            r@ == self.wire_name(),
    {
        match self {
            FinancialPeriod::Annual => "annual",
            FinancialPeriod::Quarterly => "quarterly",
        }
    }

    /// The value a received name stands for, if any.
    pub open spec fn parse_wire_name(text: Seq<char>) -> Option<Self> {
        if text == "annual"@ {
            Some(FinancialPeriod::Annual)
        } else if text == "quarterly"@ {
            Some(FinancialPeriod::Quarterly)
        } else {
            None
        }
    }

    /// Reads a received name back into a value.
    pub fn from_wire_name(text: &String) -> (r: Option<Self>)
        ensures
            r == Self::parse_wire_name(text@),
    {
        if text_is(text, "annual") {
            Some(FinancialPeriod::Annual)
        } else if text_is(text, "quarterly") {
            Some(FinancialPeriod::Quarterly)
        } else {
            None
        }
    }
}

/// Each `FinancialPeriod` value is sent as the name the API documents for it.
pub proof fn law_financial_period_wire_names()
    ensures
        FinancialPeriod::Annual.wire_name() == "annual"@,
        FinancialPeriod::Quarterly.wire_name() == "quarterly"@,
{
}

/// Every FinancialPeriod value is read back from the name it is sent as.
pub proof fn law_financial_period_name_roundtrip(v: FinancialPeriod)
    ensures
        FinancialPeriod::parse_wire_name(v.wire_name()) == Some(v),
{
    reveal_strlit("annual");
    reveal_strlit("quarterly");
    match v {
        FinancialPeriod::Annual => {},
        FinancialPeriod::Quarterly => {
            assert("quarterly"@.len() != "annual"@.len());
        },
    }
}

/// Tag of the THS index catalogue.
#[derive(Clone, Copy, Debug, Eq, PartialEq)]
pub enum ThsIndexTag {
    /// A-share concept indices. Sent as `cn_concept`.
    CnConcept,
    /// Regional indices. Sent as `region`.
    Region,
    /// Featured indices. Sent as `tszs`.
    Tszs,
    /// Industry indices. Sent as `industry`.
    Industry,
}

impl ThsIndexTag {
    /// The name the value is sent and received as.
    pub open spec fn wire_name(self) -> Seq<char> {
        match self {
            ThsIndexTag::CnConcept => "cn_concept"@,
            ThsIndexTag::Region => "region"@,
            ThsIndexTag::Tszs => "tszs"@,
            ThsIndexTag::Industry => "industry"@,
        }
    }

    /// The name the value is sent as.
    pub fn as_str(&self) -> (r: &'static str)
        ensures
            r@ == self.wire_name(),
    {
        match self {
            ThsIndexTag::CnConcept => "cn_concept",
            ThsIndexTag::Region => "region",
            ThsIndexTag::Tszs => "tszs",
            ThsIndexTag::Industry => "industry",
        }
    }

    /// The value a received name stands for, if any.
    pub open spec fn parse_wire_name(text: Seq<char>) -> Option<Self> {
        if text == "cn_concept"@ {
            Some(ThsIndexTag::CnConcept)
        } else if text == "region"@ {
            Some(ThsIndexTag::Region)
        } else if text == "tszs"@ {
            Some(ThsIndexTag::Tszs)
        } else if text == "industry"@ {
            Some(ThsIndexTag::Industry)
        } else {
            None
        }
    }

    /// Reads a received name back into a value.
    pub fn from_wire_name(text: &String) -> (r: Option<Self>)
        ensures
            r == Self::parse_wire_name(text@),
    {
        if text_is(text, "cn_concept") {
            Some(ThsIndexTag::CnConcept)
        } else if text_is(text, "region") {
            Some(ThsIndexTag::Region)
        } else if text_is(text, "tszs") {
            Some(ThsIndexTag::Tszs)
        } else if text_is(text, "industry") {
            Some(ThsIndexTag::Industry)
        } else {
            None
        }
    }
}

/// Each `ThsIndexTag` value is sent as the name the API documents for it.
pub proof fn law_ths_index_tag_wire_names()
    ensures
        ThsIndexTag::CnConcept.wire_name() == "cn_concept"@,
        ThsIndexTag::Region.wire_name() == "region"@,
        ThsIndexTag::Tszs.wire_name() == "tszs"@,
        ThsIndexTag::Industry.wire_name() == "industry"@,
{
}

/// Every ThsIndexTag value is read back from the name it is sent as.
pub proof fn law_ths_index_tag_name_roundtrip(v: ThsIndexTag)
    ensures
        ThsIndexTag::parse_wire_name(v.wire_name()) == Some(v),
{
    reveal_strlit("cn_concept");
    reveal_strlit("region");
    reveal_strlit("tszs");
    reveal_strlit("industry");
    match v {
        ThsIndexTag::CnConcept => {},
        ThsIndexTag::Region => {
            assert("region"@.len() != "cn_concept"@.len());
        },
        ThsIndexTag::Tszs => {
            assert("tszs"@.len() != "cn_concept"@.len());
            assert("tszs"@.len() != "region"@.len());
        },
        ThsIndexTag::Industry => {
            assert("industry"@.len() != "cn_concept"@.len());
            assert("industry"@.len() != "region"@.len());
            assert("industry"@.len() != "tszs"@.len());
        },
    }
}

/// Sort field of the limit-up pool.
#[derive(Clone, Copy, Debug, Eq, PartialEq)]
pub enum LimitUpSortField {
    /// By last price. Sent as `last_price`.
    LastPrice,
    /// By consecutive limit-up count. Sent as `continue_day_cnt`.
    ContinueDayCnt,
    /// By current sealing amount. Sent as `seal_money`.
    SealMoney,
    /// By limit-up time. Sent as `limit_up_time`.
    LimitUpTime,
}

impl LimitUpSortField {
    /// The name the value is sent and received as.
    pub open spec fn wire_name(self) -> Seq<char> {
        match self {
            LimitUpSortField::LastPrice => "last_price"@,
            LimitUpSortField::ContinueDayCnt => "continue_day_cnt"@,
            LimitUpSortField::SealMoney => "seal_money"@,
            LimitUpSortField::LimitUpTime => "limit_up_time"@,
        }
    }

    /// The name the value is sent as.
    pub fn as_str(&self) -> (r: &'static str)
        ensures
            r@ == self.wire_name(),
    {
        match self {
            LimitUpSortField::LastPrice => "last_price",
            LimitUpSortField::ContinueDayCnt => "continue_day_cnt",
            LimitUpSortField::SealMoney => "seal_money",
            LimitUpSortField::LimitUpTime => "limit_up_time",
        }
    }
}

/// Each `LimitUpSortField` value is sent as the name the API documents for it.
pub proof fn law_limit_up_sort_field_wire_names()
    ensures
        LimitUpSortField::LastPrice.wire_name() == "last_price"@,
        LimitUpSortField::ContinueDayCnt.wire_name() == "continue_day_cnt"@,
        LimitUpSortField::SealMoney.wire_name() == "seal_money"@,
        LimitUpSortField::LimitUpTime.wire_name() == "limit_up_time"@,
{
}

/// Sort direction of the limit-up pool.
#[derive(Clone, Copy, Debug, Eq, PartialEq)]
pub enum SortDirection {
    /// Ascending. Sent as `asc`.
    Asc,
    /// Descending. Sent as `desc`.
    Desc,
}

impl SortDirection {
    /// The name the value is sent and received as.
    pub open spec fn wire_name(self) -> Seq<char> {
        match self {
            SortDirection::Asc => "asc"@,
            SortDirection::Desc => "desc"@,
        }
    }

    /// The name the value is sent as.
    pub fn as_str(&self) -> (r: &'static str)
        ensures
            r@ == self.wire_name(),
    {
        match self {
            SortDirection::Asc => "asc",
            SortDirection::Desc => "desc",
        }
    }
}

/// Each `SortDirection` value is sent as the name the API documents for it.
pub proof fn law_sort_direction_wire_names()
    ensures
        SortDirection::Asc.wire_name() == "asc"@,
        SortDirection::Desc.wire_name() == "desc"@,
{
}

/// Period of the hot rankings.
#[derive(Clone, Copy, Debug, Eq, PartialEq)]
pub enum RankingPeriod {
    /// Daily or 24-hour ranking. Sent as `day`.
    Day,
    /// Hourly ranking. Sent as `hour`.
    Hour,
}

impl RankingPeriod {
    /// The name the value is sent and received as.
    pub open spec fn wire_name(self) -> Seq<char> {
        match self {
            RankingPeriod::Day => "day"@,
            RankingPeriod::Hour => "hour"@,
        }
    }

    /// The name the value is sent as.
    pub fn as_str(&self) -> (r: &'static str)
        ensures
            r@ == self.wire_name(),
    {
        match self {
            RankingPeriod::Day => "day",
            RankingPeriod::Hour => "hour",
        }
    }
}

/// Each `RankingPeriod` value is sent as the name the API documents for it.
pub proof fn law_ranking_period_wire_names()
    ensures
        RankingPeriod::Day.wire_name() == "day"@,
        RankingPeriod::Hour.wire_name() == "hour"@,
{
}

/// Tag of a stock anomaly.
#[derive(Clone, Copy, Debug, Eq, PartialEq)]
pub enum AnomalyTag {
    /// Limit up. Sent as `LIMIT_UP`.
    LimitUp,
    /// Limit down. Sent as `LIMIT_DOWN`.
    LimitDown,
    /// Sharp rise. Sent as `SHARP_RISE`.
    SharpRise,
    /// Sharp fall. Sent as `SHARP_FALL`.
    SharpFall,
    /// Rapid rally. Sent as `RAPID_RALLY`.
    RapidRally,
    /// Rapid decline. Sent as `RAPID_DECLINE`.
    RapidDecline,
}

impl AnomalyTag {
    /// The name the value is sent and received as.
    pub open spec fn wire_name(self) -> Seq<char> {
        match self {
            AnomalyTag::LimitUp => "LIMIT_UP"@,
            AnomalyTag::LimitDown => "LIMIT_DOWN"@,
            AnomalyTag::SharpRise => "SHARP_RISE"@,
            AnomalyTag::SharpFall => "SHARP_FALL"@,
            AnomalyTag::RapidRally => "RAPID_RALLY"@,
            AnomalyTag::RapidDecline => "RAPID_DECLINE"@,
        }
    }

    /// The name the value is sent as.
    pub fn as_str(&self) -> (r: &'static str)
        ensures
            r@ == self.wire_name(),
    {
        match self {
            AnomalyTag::LimitUp => "LIMIT_UP",
            AnomalyTag::LimitDown => "LIMIT_DOWN",
            AnomalyTag::SharpRise => "SHARP_RISE",
            AnomalyTag::SharpFall => "SHARP_FALL",
            AnomalyTag::RapidRally => "RAPID_RALLY",
            AnomalyTag::RapidDecline => "RAPID_DECLINE",
        }
    }
}

/// Each `AnomalyTag` value is sent as the name the API documents for it.
pub proof fn law_anomaly_tag_wire_names()
    ensures
        AnomalyTag::LimitUp.wire_name() == "LIMIT_UP"@,
        AnomalyTag::LimitDown.wire_name() == "LIMIT_DOWN"@,
        AnomalyTag::SharpRise.wire_name() == "SHARP_RISE"@,
        AnomalyTag::SharpFall.wire_name() == "SHARP_FALL"@,
        AnomalyTag::RapidRally.wire_name() == "RAPID_RALLY"@,
        AnomalyTag::RapidDecline.wire_name() == "RAPID_DECLINE"@,
{
}

/// Kind of dragon-tiger list.
#[derive(Clone, Copy, Debug, Eq, PartialEq)]
pub enum DragonTigerBoardType {
    /// All lists. Sent as `all`.
    All,
    /// Institutional list. Sent as `org`.
    Org,
    /// Hot-money list. Sent as `hot_money`.
    HotMoney,
}

impl DragonTigerBoardType {
    /// The name the value is sent and received as.
    pub open spec fn wire_name(self) -> Seq<char> {
        match self {
            DragonTigerBoardType::All => "all"@,
            DragonTigerBoardType::Org => "org"@,
            DragonTigerBoardType::HotMoney => "hot_money"@,
        }
    }

    /// The name the value is sent as.
    pub fn as_str(&self) -> (r: &'static str)
        ensures
            r@ == self.wire_name(),
    {
        match self {
            DragonTigerBoardType::All => "all",
            DragonTigerBoardType::Org => "org",
            DragonTigerBoardType::HotMoney => "hot_money",
        }
    }
}

/// Each `DragonTigerBoardType` value is sent as the name the API documents for it.
pub proof fn law_dragon_tiger_board_type_wire_names()
    ensures
        DragonTigerBoardType::All.wire_name() == "all"@,
        DragonTigerBoardType::Org.wire_name() == "org"@,
        DragonTigerBoardType::HotMoney.wire_name() == "hot_money"@,
{
}

/// Kind of fund.
#[derive(Clone, Copy, Debug, Eq, PartialEq)]
pub enum FundType {
    /// Over-the-counter mutual funds. Sent as `otc`.
    Otc,
    /// Exchange-traded funds such as ETFs and LOFs. Sent as `exchange`.
    Exchange,
    /// Public REITs. Sent as `reits`.
    Reits,
}

impl FundType {
    /// The name the value is sent and received as.
    pub open spec fn wire_name(self) -> Seq<char> {
        match self {
            FundType::Otc => "otc"@,
            FundType::Exchange => "exchange"@,
            FundType::Reits => "reits"@,
        }
    }

    /// The name the value is sent as.
    pub fn as_str(&self) -> (r: &'static str)
        ensures
            r@ == self.wire_name(),
    {
        match self {
            FundType::Otc => "otc",
            FundType::Exchange => "exchange",
            FundType::Reits => "reits",
        }
    }

    /// The value a received name stands for, if any.
    pub open spec fn parse_wire_name(text: Seq<char>) -> Option<Self> {
        if text == "otc"@ {
            Some(FundType::Otc)
        } else if text == "exchange"@ {
            Some(FundType::Exchange)
        } else if text == "reits"@ {
            Some(FundType::Reits)
        } else {
            None
        }
    }

    /// Reads a received name back into a value.
    pub fn from_wire_name(text: &String) -> (r: Option<Self>)
        ensures
            r == Self::parse_wire_name(text@),
    {
        if text_is(text, "otc") {
            Some(FundType::Otc)
        } else if text_is(text, "exchange") {
            Some(FundType::Exchange)
        } else if text_is(text, "reits") {
            Some(FundType::Reits)
        } else {
            None
        }
    }
}

/// Each `FundType` value is sent as the name the API documents for it.
pub proof fn law_fund_type_wire_names()
    ensures
        FundType::Otc.wire_name() == "otc"@,
        FundType::Exchange.wire_name() == "exchange"@,
        FundType::Reits.wire_name() == "reits"@,
{
}

/// Every FundType value is read back from the name it is sent as.
pub proof fn law_fund_type_name_roundtrip(v: FundType)
    ensures
        FundType::parse_wire_name(v.wire_name()) == Some(v),
{
    reveal_strlit("otc");
    reveal_strlit("exchange");
    reveal_strlit("reits");
    match v {
        FundType::Otc => {},
        FundType::Exchange => {
            assert("exchange"@.len() != "otc"@.len());
        },
        FundType::Reits => {
            assert("reits"@.len() != "otc"@.len());
            assert("reits"@.len() != "exchange"@.len());
        },
    }
}

/// Share scope of fund holder data.
#[derive(Clone, Copy, Debug, Eq, PartialEq)]
pub enum FundMergeScope {
    /// Latest records of both scopes. Sent as `all`.
    All,
    /// Merged share disclosure. Sent as `merged`.
    Merged,
    /// Separate share disclosure. Sent as `separate`.
    Separate,
}

impl FundMergeScope {
    /// The name the value is sent and received as.
    pub open spec fn wire_name(self) -> Seq<char> {
        match self {
            FundMergeScope::All => "all"@,
            FundMergeScope::Merged => "merged"@,
            FundMergeScope::Separate => "separate"@,
        }
    }

    /// The name the value is sent as.
    pub fn as_str(&self) -> (r: &'static str)
        ensures
            r@ == self.wire_name(),
    {
        match self {
            FundMergeScope::All => "all",
            FundMergeScope::Merged => "merged",
            FundMergeScope::Separate => "separate",
        }
    }

    /// The value a received name stands for, if any.
    pub open spec fn parse_wire_name(text: Seq<char>) -> Option<Self> {
        if text == "all"@ {
            Some(FundMergeScope::All)
        } else if text == "merged"@ {
            Some(FundMergeScope::Merged)
        } else if text == "separate"@ {
            Some(FundMergeScope::Separate)
        } else {
            None
        }
    }

    /// Reads a received name back into a value.
    pub fn from_wire_name(text: &String) -> (r: Option<Self>)
        ensures
            r == Self::parse_wire_name(text@),
    {
        if text_is(text, "all") {
            Some(FundMergeScope::All)
        } else if text_is(text, "merged") {
            Some(FundMergeScope::Merged)
        } else if text_is(text, "separate") {
            Some(FundMergeScope::Separate)
        } else {
            None
        }
    }
}

/// Each `FundMergeScope` value is sent as the name the API documents for it.
pub proof fn law_fund_merge_scope_wire_names()
    ensures
        FundMergeScope::All.wire_name() == "all"@,
        FundMergeScope::Merged.wire_name() == "merged"@,
        FundMergeScope::Separate.wire_name() == "separate"@,
{
}

/// Every FundMergeScope value is read back from the name it is sent as.
pub proof fn law_fund_merge_scope_name_roundtrip(v: FundMergeScope)
    ensures
        FundMergeScope::parse_wire_name(v.wire_name()) == Some(v),
{
    reveal_strlit("all");
    reveal_strlit("merged");
    reveal_strlit("separate");
    match v {
        FundMergeScope::All => {},
        FundMergeScope::Merged => {
            assert("merged"@.len() != "all"@.len());
        },
        FundMergeScope::Separate => {
            assert("separate"@.len() != "all"@.len());
            assert("separate"@.len() != "merged"@.len());
        },
    }
}

/// Time range of fund net asset values.
#[derive(Clone, Copy, Debug, Eq, PartialEq)]
pub enum FundNavRange {
    /// Last week. Sent as `week`.
    Week,
    /// Last month. Sent as `month`.
    Month,
    /// Last three months. Sent as `tmonth`.
    Tmonth,
    /// Last half year. Sent as `hyear`.
    Hyear,
    /// Last year. Sent as `year`.
    Year,
    /// Last two years. Sent as `twoyear`.
    Twoyear,
    /// Last three years. Sent as `tyear`.
    Tyear,
    /// Last five years. Sent as `fyear`.
    Fyear,
}

impl FundNavRange {
    /// The name the value is sent and received as.
    pub open spec fn wire_name(self) -> Seq<char> {
        match self {
            FundNavRange::Week => "week"@,
            FundNavRange::Month => "month"@,
            FundNavRange::Tmonth => "tmonth"@,
            FundNavRange::Hyear => "hyear"@,
            FundNavRange::Year => "year"@,
            FundNavRange::Twoyear => "twoyear"@,
            FundNavRange::Tyear => "tyear"@,
            FundNavRange::Fyear => "fyear"@,
        }
    }

    /// The name the value is sent as.
    pub fn as_str(&self) -> (r: &'static str)
        ensures
            r@ == self.wire_name(),
    {
        match self {
            FundNavRange::Week => "week",
            FundNavRange::Month => "month",
            FundNavRange::Tmonth => "tmonth",
            FundNavRange::Hyear => "hyear",
            FundNavRange::Year => "year",
            FundNavRange::Twoyear => "twoyear",
            FundNavRange::Tyear => "tyear",
            FundNavRange::Fyear => "fyear",
        }
    }
}

/// Each `FundNavRange` value is sent as the name the API documents for it.
pub proof fn law_fund_nav_range_wire_names()
    ensures
        FundNavRange::Week.wire_name() == "week"@,
        FundNavRange::Month.wire_name() == "month"@,
        FundNavRange::Tmonth.wire_name() == "tmonth"@,
        FundNavRange::Hyear.wire_name() == "hyear"@,
        FundNavRange::Year.wire_name() == "year"@,
        FundNavRange::Twoyear.wire_name() == "twoyear"@,
        FundNavRange::Tyear.wire_name() == "tyear"@,
        FundNavRange::Fyear.wire_name() == "fyear"@,
{
}

/// Kind of fund net asset value.
#[derive(Clone, Copy, Debug, Eq, PartialEq)]
pub enum FundNavType {
    /// Unit value. Sent as `unit`.
    Unit,
    /// Adjusted value. Sent as `adj`.
    Adjusted,
    /// Both unit and adjusted values. Sent as `unit,adj`.
    Both,
}

impl FundNavType {
    /// The name the value is sent and received as.
    pub open spec fn wire_name(self) -> Seq<char> {
        match self {
            FundNavType::Unit => "unit"@,
            FundNavType::Adjusted => "adj"@,
            FundNavType::Both => "unit,adj"@,
        }
    }

    /// The name the value is sent as.
    pub fn as_str(&self) -> (r: &'static str)
        ensures
            r@ == self.wire_name(),
    {
        match self {
            FundNavType::Unit => "unit",
            FundNavType::Adjusted => "adj",
            FundNavType::Both => "unit,adj",
        }
    }
}

/// Each `FundNavType` value is sent as the name the API documents for it.
pub proof fn law_fund_nav_type_wire_names()
    ensures
        FundNavType::Unit.wire_name() == "unit"@,
        FundNavType::Adjusted.wire_name() == "adj"@,
        FundNavType::Both.wire_name() == "unit,adj"@,
{
}

/// Parameters of the ticker search, `GET /api/meta/tickers/search`.
#[derive(Debug)]
pub struct TickerSearchRequest {
    /// Search keyword: a full thscode, a ticker, or part of a Chinese or English name.
    pub q: String,
    /// Optional asset class filter.
    pub asset_type: Option<TickerAssetType>,
    /// Optional result cap; the server defaults to 10 and allows at most 50.
    pub limit: Option<u8>,
}

impl QueryParams for TickerSearchRequest {
    open spec fn query(&self) -> Seq<(Seq<char>, Seq<char>)> {
        param("q"@, self.q@)
            + param_if(self.asset_type is Some, "asset_type"@, (self.asset_type->0).wire_name())
            + param_if(self.limit is Some, "limit"@, decimal((self.limit->0) as nat))
    }

    fn query_pairs(&self) -> (r: Vec<(String, String)>) {
        let mut params: Vec<(String, String)> = Vec::new();
        push_param(&mut params, "q", self.q.clone());
        if let Some(value) = &self.asset_type {
            push_param(&mut params, "asset_type", value.as_str().to_owned());
        }
        if let Some(value) = self.limit {
            push_param(&mut params, "limit", u64_text(value as u64));
        }
        params
    }
}

impl TickerSearchRequest {
    /// A search for the keyword `q`, leaving every optional parameter to
    /// the server's default. The keyword is the text `q` converts into; for
    /// a string slice that is the slice's own text (see the specification of
    /// `String::from` on `&str` above).
    pub fn new<Q: Into<String>>(q: Q) -> (r: Self)
        ensures
            r.asset_type is None,
            r.limit is None,
            call_ensures(Q::into, (q,), r.q),
    {
        Self { q: q.into(), asset_type: None, limit: None }
    }
}

/// Parameters of the ticker catalogue, `GET /api/meta/tickers/list`.
#[derive(Debug)]
pub struct TickerListRequest {
    /// Optional asset class; the server defaults to A shares.
    pub asset_type: Option<TickerAssetType>,
    /// Optional page size; the server defaults to 1000 and allows at most 10000.
    pub limit: Option<u16>,
    /// Optional page offset; the server defaults to 0.
    pub offset: Option<u64>,
}

impl QueryParams for TickerListRequest {
    open spec fn query(&self) -> Seq<(Seq<char>, Seq<char>)> {
        param_if(self.asset_type is Some, "asset_type"@, (self.asset_type->0).wire_name())
            + param_if(self.limit is Some, "limit"@, decimal((self.limit->0) as nat))
            + param_if(self.offset is Some, "offset"@, decimal((self.offset->0) as nat))
    }

    fn query_pairs(&self) -> (r: Vec<(String, String)>) {
        let mut params: Vec<(String, String)> = Vec::new();
        if let Some(value) = &self.asset_type {
            push_param(&mut params, "asset_type", value.as_str().to_owned());
        }
        if let Some(value) = self.limit {
            push_param(&mut params, "limit", u64_text(value as u64));
        }
        if let Some(value) = self.offset {
            push_param(&mut params, "offset", u64_text(value));
        }
        params
    }
}

/// Parameters of the A-share price snapshot, `GET /api/a-share/prices/snapshot`.
#[derive(Debug)]
pub struct ASharePricesSnapshotRequest {
    /// Optional comma-separated thscodes; when given, the server ignores paging.
    pub thscodes: Option<String>,
    /// Optional page size over the whole market; the server defaults to 100.
    pub limit: Option<u16>,
    /// Optional page offset over the whole market; the server defaults to 0.
    pub offset: Option<u64>,
}

impl QueryParams for ASharePricesSnapshotRequest {
    open spec fn query(&self) -> Seq<(Seq<char>, Seq<char>)> {
        param_if(self.thscodes is Some, "thscodes"@, (self.thscodes->0)@)
            + param_if(self.limit is Some, "limit"@, decimal((self.limit->0) as nat))
            + param_if(self.offset is Some, "offset"@, decimal((self.offset->0) as nat))
    }

    fn query_pairs(&self) -> (r: Vec<(String, String)>) {
        let mut params: Vec<(String, String)> = Vec::new();
        if let Some(value) = &self.thscodes {
            push_param(&mut params, "thscodes", value.clone());
        }
        if let Some(value) = self.limit {
            push_param(&mut params, "limit", u64_text(value as u64));
        }
        if let Some(value) = self.offset {
            push_param(&mut params, "offset", u64_text(value));
        }
        params
    }
}

/// Parameters of the A-share valuation snapshot, `GET /api/a-share/valuations/snapshot`.
#[derive(Debug)]
pub struct AShareValuationsSnapshotRequest {
    /// Comma-separated full thscodes of A shares.
    pub thscodes: String,
}

impl QueryParams for AShareValuationsSnapshotRequest {
    open spec fn query(&self) -> Seq<(Seq<char>, Seq<char>)> {
        param("thscodes"@, self.thscodes@)
    }

    fn query_pairs(&self) -> (r: Vec<(String, String)>) {
        let mut params: Vec<(String, String)> = Vec::new();
        push_param(&mut params, "thscodes", self.thscodes.clone());
        params
    }
}

/// Parameters of the A-share price history, `GET /api/a-share/prices/historical`.
#[derive(Debug)]
pub struct ASharePricesHistoricalRequest {
    /// One thscode with its exchange suffix.
    pub thscode: String,
    /// Bar interval; the server supports daily bars only.
    pub interval: PriceInterval,
    /// Start of the range, Unix milliseconds.
    pub start: i64,
    /// End of the range, Unix milliseconds.
    pub end: i64,
    /// Optional adjustment; the server defaults to forward adjustment.
    pub adjust: Option<PriceAdjust>,
    /// Optional page offset; the server defaults to 0.
    pub offset: Option<u64>,
}

impl QueryParams for ASharePricesHistoricalRequest {
    open spec fn query(&self) -> Seq<(Seq<char>, Seq<char>)> {
        param("thscode"@, self.thscode@)
            + param("interval"@, self.interval.wire_name())
            + param("start"@, signed_decimal(self.start as int))
            + param("end"@, signed_decimal(self.end as int))
            + param_if(self.adjust is Some, "adjust"@, (self.adjust->0).wire_name())
            + param_if(self.offset is Some, "offset"@, decimal((self.offset->0) as nat))
    }

    fn query_pairs(&self) -> (r: Vec<(String, String)>) {
        let mut params: Vec<(String, String)> = Vec::new();
        push_param(&mut params, "thscode", self.thscode.clone());
        push_param(&mut params, "interval", self.interval.as_str().to_owned());
        push_param(&mut params, "start", i64_text(self.start));
        push_param(&mut params, "end", i64_text(self.end));
        if let Some(value) = &self.adjust {
            push_param(&mut params, "adjust", value.as_str().to_owned());
        }
        if let Some(value) = self.offset {
            push_param(&mut params, "offset", u64_text(value));
        }
        params
    }
}

/// Parameters of the adjustment factor events, `GET /api/a-share/corporate-actions/adjustment-factors`.
#[derive(Debug)]
pub struct AdjustmentFactorsRequest {
    /// One thscode with its exchange suffix.
    pub thscode: String,
    /// Optional first event day, `YYYY-MM-DD`.
    pub from: Option<String>,
    /// Optional last event day, `YYYY-MM-DD`.
    pub to: Option<String>,
}

impl QueryParams for AdjustmentFactorsRequest {
    open spec fn query(&self) -> Seq<(Seq<char>, Seq<char>)> {
        param("thscode"@, self.thscode@)
            + param_if(self.from is Some, "from"@, (self.from->0)@)
            + param_if(self.to is Some, "to"@, (self.to->0)@)
    }

    fn query_pairs(&self) -> (r: Vec<(String, String)>) {
        let mut params: Vec<(String, String)> = Vec::new();
        push_param(&mut params, "thscode", self.thscode.clone());
        if let Some(value) = &self.from {
            push_param(&mut params, "from", value.clone());
        }
        if let Some(value) = &self.to {
            push_param(&mut params, "to", value.clone());
        }
        params
    }
}

/// Parameters shared by the three financial statements (income statements, balance sheets and cash flow statements).
#[derive(Debug)]
pub struct FinancialStatementsRequest {
    /// One thscode with its exchange suffix.
    pub thscode: String,
    /// Reporting period.
    pub period: FinancialPeriod,
    /// Optional number of latest periods; excludes `start` and `end`; the server defaults to 4.
    pub limit: Option<u8>,
    /// Optional start of the range, Unix milliseconds; given together with `end`.
    pub start: Option<i64>,
    /// Optional end of the range, Unix milliseconds; given together with `start`.
    pub end: Option<i64>,
}

impl QueryParams for FinancialStatementsRequest {
    open spec fn query(&self) -> Seq<(Seq<char>, Seq<char>)> {
        param("thscode"@, self.thscode@)
            + param("period"@, self.period.wire_name())
            + param_if(self.limit is Some, "limit"@, decimal((self.limit->0) as nat))
            + param_if(self.start is Some, "start"@, signed_decimal((self.start->0) as int))
            + param_if(self.end is Some, "end"@, signed_decimal((self.end->0) as int))
    }

    fn query_pairs(&self) -> (r: Vec<(String, String)>) {
        let mut params: Vec<(String, String)> = Vec::new();
        push_param(&mut params, "thscode", self.thscode.clone());
        push_param(&mut params, "period", self.period.as_str().to_owned());
        if let Some(value) = self.limit {
            push_param(&mut params, "limit", u64_text(value as u64));
        }
        if let Some(value) = self.start {
            push_param(&mut params, "start", i64_text(value));
        }
        if let Some(value) = self.end {
            push_param(&mut params, "end", i64_text(value));
        }
        params
    }
}

/// Parameters of the financial indicators, `GET /api/a-share/financials/indicators`.
#[derive(Debug)]
pub struct FinancialIndicatorsRequest {
    /// One thscode with its exchange suffix.
    pub thscode: String,
    /// Reporting period, `yyyy-1` to `yyyy-4`.
    pub report: String,
}

impl QueryParams for FinancialIndicatorsRequest {
    open spec fn query(&self) -> Seq<(Seq<char>, Seq<char>)> {
        param("thscode"@, self.thscode@)
            + param("report"@, self.report@)
    }

    fn query_pairs(&self) -> (r: Vec<(String, String)>) {
        let mut params: Vec<(String, String)> = Vec::new();
        push_param(&mut params, "thscode", self.thscode.clone());
        push_param(&mut params, "report", self.report.clone());
        params
    }
}

/// Parameters of the THS index catalogue, `GET /api/a-share-index/catalog/ths-index-list`.
#[derive(Debug)]
pub struct ThsIndexListRequest {
    /// Optional index tag; the server defaults to concept indices.
    pub tag: Option<ThsIndexTag>,
}

impl QueryParams for ThsIndexListRequest {
    open spec fn query(&self) -> Seq<(Seq<char>, Seq<char>)> {
        param_if(self.tag is Some, "tag"@, (self.tag->0).wire_name())
    }

    fn query_pairs(&self) -> (r: Vec<(String, String)>) {
        let mut params: Vec<(String, String)> = Vec::new();
        if let Some(value) = &self.tag {
            push_param(&mut params, "tag", value.as_str().to_owned());
        }
        params
    }
}

/// Parameters of the index constituents, `GET /api/a-share-index/constituents/ths-stock-list`.
#[derive(Debug)]
pub struct ThsIndexConstituentsRequest {
    /// Full thscode of one index.
    pub thscode: String,
}

impl QueryParams for ThsIndexConstituentsRequest {
    open spec fn query(&self) -> Seq<(Seq<char>, Seq<char>)> {
        param("thscode"@, self.thscode@)
    }

    fn query_pairs(&self) -> (r: Vec<(String, String)>) {
        let mut params: Vec<(String, String)> = Vec::new();
        push_param(&mut params, "thscode", self.thscode.clone());
        params
    }
}

/// Parameters of the index price snapshot, `GET /api/a-share-index/prices/snapshot`.
#[derive(Debug)]
pub struct IndexPricesSnapshotRequest {
    /// Comma-separated index thscodes.
    pub thscodes: String,
    /// Optional page size, kept for a uniform signature; the server does not use it.
    pub limit: Option<u16>,
    /// Optional page offset, kept for a uniform signature; the server does not use it.
    pub offset: Option<u64>,
}

impl QueryParams for IndexPricesSnapshotRequest {
    open spec fn query(&self) -> Seq<(Seq<char>, Seq<char>)> {
        param("thscodes"@, self.thscodes@)
            + param_if(self.limit is Some, "limit"@, decimal((self.limit->0) as nat))
            + param_if(self.offset is Some, "offset"@, decimal((self.offset->0) as nat))
    }

    fn query_pairs(&self) -> (r: Vec<(String, String)>) {
        let mut params: Vec<(String, String)> = Vec::new();
        push_param(&mut params, "thscodes", self.thscodes.clone());
        if let Some(value) = self.limit {
            push_param(&mut params, "limit", u64_text(value as u64));
        }
        if let Some(value) = self.offset {
            push_param(&mut params, "offset", u64_text(value));
        }
        params
    }
}

/// Parameters of the index price history, `GET /api/a-share-index/prices/historical`.
#[derive(Debug)]
pub struct IndexPricesHistoricalRequest {
    /// Full thscode of one index.
    pub thscode: String,
    /// Bar interval; the server supports daily bars only.
    pub interval: PriceInterval,
    /// Start of the range, Unix milliseconds.
    pub start: i64,
    /// End of the range, Unix milliseconds.
    pub end: i64,
}

impl QueryParams for IndexPricesHistoricalRequest {
    open spec fn query(&self) -> Seq<(Seq<char>, Seq<char>)> {
        param("thscode"@, self.thscode@)
            + param("interval"@, self.interval.wire_name())
            + param("start"@, signed_decimal(self.start as int))
            + param("end"@, signed_decimal(self.end as int))
    }

    fn query_pairs(&self) -> (r: Vec<(String, String)>) {
        let mut params: Vec<(String, String)> = Vec::new();
        push_param(&mut params, "thscode", self.thscode.clone());
        push_param(&mut params, "interval", self.interval.as_str().to_owned());
        push_param(&mut params, "start", i64_text(self.start));
        push_param(&mut params, "end", i64_text(self.end));
        params
    }
}

/// Parameters of the limit-up pool, `GET /api/a-share/special-data/limit-up-pool`.
#[derive(Debug)]
pub struct LimitUpPoolRequest {
    /// Optional trading day, Unix milliseconds at midnight Asia/Shanghai.
    pub date_ms: Option<i64>,
    /// Optional page number; the server defaults to 1.
    pub page: Option<u32>,
    /// Optional page size; the server defaults to 50 and allows at most 200.
    pub size: Option<u16>,
    /// Optional sort field; the server sorts by last price by default.
    pub sort_field: Option<LimitUpSortField>,
    /// Optional sort direction; the server sorts descending by default.
    pub sort_dir: Option<SortDirection>,
}

impl QueryParams for LimitUpPoolRequest {
    open spec fn query(&self) -> Seq<(Seq<char>, Seq<char>)> {
        param_if(self.date_ms is Some, "date_ms"@, signed_decimal((self.date_ms->0) as int))
            + param_if(self.page is Some, "page"@, decimal((self.page->0) as nat))
            + param_if(self.size is Some, "size"@, decimal((self.size->0) as nat))
            + param_if(self.sort_field is Some, "sort_field"@, (self.sort_field->0).wire_name())
            + param_if(self.sort_dir is Some, "sort_dir"@, (self.sort_dir->0).wire_name())
    }

    fn query_pairs(&self) -> (r: Vec<(String, String)>) {
        let mut params: Vec<(String, String)> = Vec::new();
        if let Some(value) = self.date_ms {
            push_param(&mut params, "date_ms", i64_text(value));
        }
        if let Some(value) = self.page {
            push_param(&mut params, "page", u64_text(value as u64));
        }
        if let Some(value) = self.size {
            push_param(&mut params, "size", u64_text(value as u64));
        }
        if let Some(value) = &self.sort_field {
            push_param(&mut params, "sort_field", value.as_str().to_owned());
        }
        if let Some(value) = &self.sort_dir {
            push_param(&mut params, "sort_dir", value.as_str().to_owned());
        }
        params
    }
}

/// Parameters shared by the skyrocket list and the hot stock list.
#[derive(Debug)]
pub struct HotRankingRequest {
    /// Optional ranking period; the server defaults to `day`.
    pub period: Option<RankingPeriod>,
}

impl QueryParams for HotRankingRequest {
    open spec fn query(&self) -> Seq<(Seq<char>, Seq<char>)> {
        param_if(self.period is Some, "period"@, (self.period->0).wire_name())
    }

    fn query_pairs(&self) -> (r: Vec<(String, String)>) {
        let mut params: Vec<(String, String)> = Vec::new();
        if let Some(value) = &self.period {
            push_param(&mut params, "period", value.as_str().to_owned());
        }
        params
    }
}

/// Parameters of the hot stock history, `GET /api/a-share/special-data/hot-stock-list-history`.
#[derive(Debug)]
pub struct HotStockListHistoryRequest {
    /// Calendar day, `yyyy-MM-dd`.
    pub date: String,
}

impl QueryParams for HotStockListHistoryRequest {
    open spec fn query(&self) -> Seq<(Seq<char>, Seq<char>)> {
        param("date"@, self.date@)
    }

    fn query_pairs(&self) -> (r: Vec<(String, String)>) {
        let mut params: Vec<(String, String)> = Vec::new();
        push_param(&mut params, "date", self.date.clone());
        params
    }
}

/// Parameters of a stock's hot rank trend, `GET /api/a-share/special-data/hot-stock-rank-trend`.
#[derive(Debug)]
pub struct HotStockRankTrendRequest {
    /// One thscode with its exchange suffix.
    pub thscode: String,
    /// First calendar day, `yyyy-MM-dd`.
    pub start_date: String,
    /// Last calendar day, `yyyy-MM-dd`.
    pub end_date: String,
}

impl QueryParams for HotStockRankTrendRequest {
    open spec fn query(&self) -> Seq<(Seq<char>, Seq<char>)> {
        param("thscode"@, self.thscode@)
            + param("start_date"@, self.start_date@)
            + param("end_date"@, self.end_date@)
    }

    fn query_pairs(&self) -> (r: Vec<(String, String)>) {
        let mut params: Vec<(String, String)> = Vec::new();
        push_param(&mut params, "thscode", self.thscode.clone());
        push_param(&mut params, "start_date", self.start_date.clone());
        push_param(&mut params, "end_date", self.end_date.clone());
        params
    }
}

/// Parameters of the anomaly list, `GET /api/a-share/special-data/anomaly-analysis-list`.
#[derive(Debug)]
pub struct AnomalyAnalysisListRequest {
    /// Optional comma-separated anomaly tags, any of which matches.
    pub tag_codes: Option<String>,
}

impl QueryParams for AnomalyAnalysisListRequest {
    open spec fn query(&self) -> Seq<(Seq<char>, Seq<char>)> {
        param_if(self.tag_codes is Some, "tag_codes"@, (self.tag_codes->0)@)
    }

    fn query_pairs(&self) -> (r: Vec<(String, String)>) {
        let mut params: Vec<(String, String)> = Vec::new();
        if let Some(value) = &self.tag_codes {
            push_param(&mut params, "tag_codes", value.clone());
        }
        params
    }
}

/// Parameters of the anomalies of given stocks, `GET /api/a-share/special-data/anomaly-analysis-stock`.
#[derive(Debug)]
pub struct AnomalyAnalysisStockRequest {
    /// Comma-separated thscodes, at most 50 before deduplication.
    pub thscodes: String,
}

impl QueryParams for AnomalyAnalysisStockRequest {
    open spec fn query(&self) -> Seq<(Seq<char>, Seq<char>)> {
        param("thscodes"@, self.thscodes@)
    }

    fn query_pairs(&self) -> (r: Vec<(String, String)>) {
        let mut params: Vec<(String, String)> = Vec::new();
        push_param(&mut params, "thscodes", self.thscodes.clone());
        params
    }
}

/// Parameters of the dragon-tiger list, `GET /api/a-share/special-data/dragon-tiger-list`.
#[derive(Debug)]
pub struct DragonTigerListRequest {
    /// Optional list kind; the server defaults to all lists.
    pub board_type: Option<DragonTigerBoardType>,
    /// Optional trading day, `yyyy-MM-dd`; the server picks the latest by default.
    pub date: Option<String>,
}

impl QueryParams for DragonTigerListRequest {
    open spec fn query(&self) -> Seq<(Seq<char>, Seq<char>)> {
        param_if(self.board_type is Some, "board_type"@, (self.board_type->0).wire_name())
            + param_if(self.date is Some, "date"@, (self.date->0)@)
    }

    fn query_pairs(&self) -> (r: Vec<(String, String)>) {
        let mut params: Vec<(String, String)> = Vec::new();
        if let Some(value) = &self.board_type {
            push_param(&mut params, "board_type", value.as_str().to_owned());
        }
        if let Some(value) = &self.date {
            push_param(&mut params, "date", value.clone());
        }
        params
    }
}

/// Parameters of a fund's holder structure, `GET /api/fund/holders/detail`.
#[derive(Debug)]
pub struct FundHoldersDetailRequest {
    /// Kind of fund.
    pub fund_type: FundType,
    /// Full thscode of the fund.
    pub thscode: String,
    /// Optional share scope; the server returns every scope by default.
    pub merge_scope: Option<FundMergeScope>,
}

impl QueryParams for FundHoldersDetailRequest {
    open spec fn query(&self) -> Seq<(Seq<char>, Seq<char>)> {
        param("fund_type"@, self.fund_type.wire_name())
            + param("thscode"@, self.thscode@)
            + param_if(self.merge_scope is Some, "merge_scope"@, (self.merge_scope->0).wire_name())
    }

    fn query_pairs(&self) -> (r: Vec<(String, String)>) {
        let mut params: Vec<(String, String)> = Vec::new();
        push_param(&mut params, "fund_type", self.fund_type.as_str().to_owned());
        push_param(&mut params, "thscode", self.thscode.clone());
        if let Some(value) = &self.merge_scope {
            push_param(&mut params, "merge_scope", value.as_str().to_owned());
        }
        params
    }
}

/// Parameters of a fund's top holdings, `GET /api/fund/portfolio/holdings`.
#[derive(Debug)]
pub struct FundPortfolioHoldingsRequest {
    /// Kind of fund.
    pub fund_type: FundType,
    /// Full thscode of the fund.
    pub thscode: String,
}

impl QueryParams for FundPortfolioHoldingsRequest {
    open spec fn query(&self) -> Seq<(Seq<char>, Seq<char>)> {
        param("fund_type"@, self.fund_type.wire_name())
            + param("thscode"@, self.thscode@)
    }

    fn query_pairs(&self) -> (r: Vec<(String, String)>) {
        let mut params: Vec<(String, String)> = Vec::new();
        push_param(&mut params, "fund_type", self.fund_type.as_str().to_owned());
        push_param(&mut params, "thscode", self.thscode.clone());
        params
    }
}

/// Parameters of an ETF's price snapshot, `GET /api/fund/market/snapshot`.
#[derive(Debug)]
pub struct FundMarketSnapshotRequest {
    /// Full thscode of one ETF.
    pub thscode: String,
}

impl QueryParams for FundMarketSnapshotRequest {
    open spec fn query(&self) -> Seq<(Seq<char>, Seq<char>)> {
        param("thscode"@, self.thscode@)
    }

    fn query_pairs(&self) -> (r: Vec<(String, String)>) {
        let mut params: Vec<(String, String)> = Vec::new();
        push_param(&mut params, "thscode", self.thscode.clone());
        params
    }
}

/// Parameters of an ETF's daily bars, `GET /api/fund/market/historical`.
#[derive(Debug)]
pub struct FundMarketHistoricalRequest {
    /// Full thscode of one ETF.
    pub thscode: String,
    /// Optional bar interval; the server defaults to daily bars.
    pub interval: Option<PriceInterval>,
    /// Start of the range, Unix milliseconds.
    pub start: i64,
    /// End of the range, Unix milliseconds.
    pub end: i64,
}

impl QueryParams for FundMarketHistoricalRequest {
    open spec fn query(&self) -> Seq<(Seq<char>, Seq<char>)> {
        param("thscode"@, self.thscode@)
            + param_if(self.interval is Some, "interval"@, (self.interval->0).wire_name())
            + param("start"@, signed_decimal(self.start as int))
            + param("end"@, signed_decimal(self.end as int))
    }

    fn query_pairs(&self) -> (r: Vec<(String, String)>) {
        let mut params: Vec<(String, String)> = Vec::new();
        push_param(&mut params, "thscode", self.thscode.clone());
        if let Some(value) = &self.interval {
            push_param(&mut params, "interval", value.as_str().to_owned());
        }
        push_param(&mut params, "start", i64_text(self.start));
        push_param(&mut params, "end", i64_text(self.end));
        params
    }
}

/// Parameters of a fund's net asset values, `GET /api/fund/performance/nav`.
#[derive(Debug)]
pub struct FundPerformanceNavRequest {
    /// Kind of fund.
    pub fund_type: FundType,
    /// Full thscode of the fund.
    pub thscode: String,
    /// Optional time range; the server returns the latest value only by default.
    pub range: Option<FundNavRange>,
    /// Optional kind of value; the server returns both kinds by default.
    pub nav_type: Option<FundNavType>,
}

impl QueryParams for FundPerformanceNavRequest {
    open spec fn query(&self) -> Seq<(Seq<char>, Seq<char>)> {
        param("fund_type"@, self.fund_type.wire_name())
            + param("thscode"@, self.thscode@)
            + param_if(self.range is Some, "range"@, (self.range->0).wire_name())
            + param_if(self.nav_type is Some, "nav_type"@, (self.nav_type->0).wire_name())
    }

    fn query_pairs(&self) -> (r: Vec<(String, String)>) {
        let mut params: Vec<(String, String)> = Vec::new();
        push_param(&mut params, "fund_type", self.fund_type.as_str().to_owned());
        push_param(&mut params, "thscode", self.thscode.clone());
        if let Some(value) = &self.range {
            push_param(&mut params, "range", value.as_str().to_owned());
        }
        if let Some(value) = &self.nav_type {
            push_param(&mut params, "nav_type", value.as_str().to_owned());
        }
        params
    }
}

/// Parameters of a fund's period returns, `GET /api/fund/performance/returns`.
#[derive(Debug)]
pub struct FundPerformanceReturnsRequest {
    /// Kind of fund.
    pub fund_type: FundType,
    /// Full thscode of the fund.
    pub thscode: String,
}

impl QueryParams for FundPerformanceReturnsRequest {
    open spec fn query(&self) -> Seq<(Seq<char>, Seq<char>)> {
        param("fund_type"@, self.fund_type.wire_name())
            + param("thscode"@, self.thscode@)
    }

    fn query_pairs(&self) -> (r: Vec<(String, String)>) {
        let mut params: Vec<(String, String)> = Vec::new();
        push_param(&mut params, "fund_type", self.fund_type.as_str().to_owned());
        push_param(&mut params, "thscode", self.thscode.clone());
        params
    }
}

/// Parameters of a fund's profile, `GET /api/fund/profile/detail`.
#[derive(Debug)]
pub struct FundProfileDetailRequest {
    /// Kind of fund.
    pub fund_type: FundType,
    /// Full thscode of the fund.
    pub thscode: String,
}

impl QueryParams for FundProfileDetailRequest {
    open spec fn query(&self) -> Seq<(Seq<char>, Seq<char>)> {
        param("fund_type"@, self.fund_type.wire_name())
            + param("thscode"@, self.thscode@)
    }

    fn query_pairs(&self) -> (r: Vec<(String, String)>) {
        let mut params: Vec<(String, String)> = Vec::new();
        push_param(&mut params, "fund_type", self.fund_type.as_str().to_owned());
        push_param(&mut params, "thscode", self.thscode.clone());
        params
    }
}

// Response data. Its JSON decoding is the caller's; the library holds the values.

/// 接口文档：https://fuyao.aicubes.cn/docs/api-reference/ticker-search/
#[derive(Debug)]
pub struct TickerSearchResponse {
    /// 当前代码表快照的上游加载时间，单位为毫秒。
    pub timestamp: i64,
    /// 匹配到的标的列表。
    pub item: Vec<TickerSearchItem>,
}

/// 标的检索结果中的单个标的。
#[derive(Debug)]
pub struct TickerSearchItem {
    /// 完整的同花顺代码，例如 `600519.SH`。
    pub thscode: String,
    /// 不含交易所后缀的证券代码，例如 `600519`。
    pub ticker: String,
    /// 标的展示名称。
    pub name: String,
    /// 交易所后缀；无后缀的指数会返回 `null`。
    pub exchange: Option<String>,
    /// 对外资产类别。
    pub asset_type: TickerAssetType,
    /// 币种代码，A 股当前固定为 `CNY`。
    pub currency: String,
}

/// 标的列表获取接口的响应数据。
///
/// 接口地址：`GET /api/meta/tickers/list`。
pub type TickerListResponse = TickerSearchResponse;

/// `GET /api/dump/market-dumps/adjustment-factors/download-url`。
#[derive(Debug)]
pub struct MarketDumpDownloadUrlResponse {
    /// 指向 Parquet 文件的短时有效预签名下载链接。
    pub presigned_url: String,
    /// 预签名下载链接的过期时间。
    pub presigned_url_expires_at: String,
    /// 预签名下载链接距离过期的秒数。
    pub expires_in_seconds: u64,
}

/// 财务报表共用的响应容器。
#[derive(Debug)]
pub struct FinancialStatementsResponse<T> {
    /// 本批报表中最大的报告期末时间，单位为毫秒。
    pub timestamp: i64,
    /// 报表记录列表，按报告期末降序排列。
    pub item: Vec<T>,
}

/// 三张财务报表记录共用的元数据。
#[derive(Debug)]
pub struct FinancialStatementMetadata {
    /// 带交易所后缀的完整同花顺代码。
    pub thscode: String,
    /// 不含交易所后缀的证券代码。
    pub ticker: String,
    /// 请求报告期类型的回显值。
    pub period: FinancialPeriod,
    /// 财年，自然年。
    pub fiscal_year: i64,
    /// 财务报告季度标识：`FY`、`Q1`、`Q2`、`Q3` 或 `Q4`。
    pub fiscal_period: String,
    /// 披露日，Unix 毫秒时间戳。
    pub report_date_ms: i64,
    /// 报告期末，Asia/Shanghai 零点的 Unix 毫秒时间戳。
    pub period_end_ms: i64,
    /// 币种代码，A 股为 `CNY`。
    pub currency: String,
}

/// 接口地址：`GET /api/a-share/financials/indicators`。
#[derive(Debug)]
pub struct FinancialIndicatorsResponse {
    /// 请求同花顺代码的回显值。
    pub thscode: String,
    /// 请求报告期的回显值。
    pub report: String,
    /// 成长、盈利、偿债、营运和现金流五类能力指标块。
    pub abilities: Vec<FinancialAbility>,
}

/// 一类财务能力指标。
#[derive(Debug)]
pub struct FinancialAbility {
    /// 能力标识，例如 `growth`、`profitability` 或 `cash-flow`。
    pub ability: String,
    /// 当前能力下的指标列表。
    pub indicators: Vec<FinancialIndicator>,
}

/// 单个财务指标值。
#[derive(Debug)]
pub struct FinancialIndicator {
    /// 指标 ID，例如 `total_assets_growth_ratio`。
    pub index_id: String,
    /// 指标原始数值字符串；上游缺失时为 `null`。
    pub value: Option<String>,
}

/// 接口地址：`GET /api/a-share/calendar/trading-days`。
#[derive(Debug)]
pub struct TradingDaysResponse {
    /// 数据就绪时间，Unix 毫秒时间戳。
    pub timestamp: i64,
    /// 按时间升序排列的交易日列表。
    pub item: Vec<TradingDayItem>,
}

/// 单个 A 股交易日。
#[derive(Debug)]
pub struct TradingDayItem {
    /// Asia/Shanghai 零点的 Unix 毫秒时间戳。
    pub date_ms: i64,
    /// `yyyyMMdd` 格式的可读交易日。
    pub date: String,
}

/// 接口地址：`GET /api/a-share-index/catalog/ths-index-list`。
#[derive(Debug)]
pub struct ThsIndexListResponse {
    /// 数据时间戳，Unix 毫秒时间戳。
    pub timestamp: i64,
    /// 同花顺指数列表。
    pub item: Vec<ThsIndexItem>,
}

/// 单个同花顺指数目录项。
#[derive(Debug)]
pub struct ThsIndexItem {
    /// 同花顺指数的完整同花顺代码。
    pub thscode: String,
    /// 同花顺指数展示名称。
    pub name: String,
}

/// 接口地址：`GET /api/a-share-index/constituents/ths-stock-list`。
#[derive(Debug)]
pub struct ThsIndexConstituentsResponse {
    /// 数据时间戳，Unix 毫秒时间戳。
    pub timestamp: i64,
    /// 当前成分股列表。
    pub item: Vec<ThsIndexConstituentItem>,
}

/// 单个同花顺指数成分股。
#[derive(Debug)]
pub struct ThsIndexConstituentItem {
    /// 带交易所后缀的完整同花顺代码。
    pub thscode: String,
    /// 不含交易所后缀的证券代码。
    pub ticker: String,
    /// 成分股展示名称。
    pub name: String,
}

/// 通用分页信息。
#[derive(Debug)]
pub struct Pagination {
    /// 总条数。
    pub total: i64,
    /// 总页数。
    pub pages: i64,
    /// 当前页大小。
    pub size: i64,
    /// 当前页码。
    pub page: i64,
}

/// 接口地址：`GET /api/a-share/special-data/limit-up-ladder`。
#[derive(Debug)]
pub struct LimitUpLadderResponse {
    /// 数据就绪时间，Unix 毫秒时间戳。
    pub timestamp: i64,
    /// 窗口元信息。
    pub window: LimitUpLadderWindow,
    /// 按交易日组织的连板矩阵。
    pub item: Vec<LimitUpLadderDay>,
}

/// 连板天梯的窗口元信息。
#[derive(Debug)]
pub struct LimitUpLadderWindow {
    /// 交易日窗口长度。
    pub length: i64,
    /// 窗口内交易日列表，按服务端顺序排列。
    pub date_list: Vec<String>,
    /// 每个板位的最大列表长度。
    pub board_caps: LimitUpBoardCaps,
}

/// 连板天梯各板位的最大展示数量。
#[derive(Debug)]
pub struct LimitUpBoardCaps {
    /// 二连板最大条数。
    pub two_board: i64,
    /// 三连板最大条数。
    pub three_board: i64,
    /// 四连板最大条数。
    pub four_board: i64,
    /// 五连板最大条数。
    pub five_board: i64,
    /// 六连板最大条数。
    pub six_board: i64,
    /// 七板及以上最大条数。
    pub seven_over: i64,
}

/// 连板天梯中的单个交易日。
#[derive(Debug)]
pub struct LimitUpLadderDay {
    /// 交易日，格式为 `yyyyMMdd`。
    pub date: String,
    /// 当日各板位的股票列表。
    pub boards: LimitUpLadderBoards,
}

/// 连板天梯的六个固定板位。
#[derive(Debug)]
pub struct LimitUpLadderBoards {
    /// 二连板股票列表。
    pub two_board: Vec<LimitUpLadderStock>,
    /// 三连板股票列表。
    pub three_board: Vec<LimitUpLadderStock>,
    /// 四连板股票列表。
    pub four_board: Vec<LimitUpLadderStock>,
    /// 五连板股票列表。
    pub five_board: Vec<LimitUpLadderStock>,
    /// 六连板股票列表。
    pub six_board: Vec<LimitUpLadderStock>,
    /// 七板及以上股票列表。
    pub seven_over: Vec<LimitUpLadderStock>,
}

/// 连板天梯中的单只股票。
#[derive(Debug)]
pub struct LimitUpLadderStock {
    /// 带交易所后缀的完整同花顺代码。
    pub thscode: String,
    /// 六位股票代码。
    pub ticker: String,
    /// 股票简称。
    pub name: String,
    /// 连板数。
    pub board_num: i64,
    /// 次一交易日是否继续封板；最近交易日没有次日参考时为 `null`。
    pub seal_nextday: Option<bool>,
    /// 上游标记等级。
    pub sign_level: i64,
}

/// 飙升榜或 A 股热股榜单的响应数据。
#[derive(Debug)]
pub struct HotRankingResponse {
    /// 榜单时间戳，Unix 毫秒时间戳。
    pub timestamp: i64,
    /// 最多 30 条的榜单股票记录。
    pub item: Vec<HotRankingItem>,
}

/// 飙升榜或 A 股热股榜单中的单只股票。
#[derive(Debug)]
pub struct HotRankingItem {
    /// 带交易所后缀的完整同花顺代码。
    pub thscode: String,
    /// 六位股票代码。
    pub ticker: String,
    /// 股票简称。
    pub name: String,
    /// 当前排名。
    pub rank: i64,
    /// 热度值，保留数据源原始字符串。
    pub heat: String,
    /// 排名变化；上游缺失时为 `null`。
    pub rank_change: Option<i64>,
    /// 排名趋势，例如 `up`、`down`、`flat` 或 `unknown`。
    pub rank_trend: String,
}

/// 接口地址：`GET /api/a-share/special-data/hot-stock-list-history`。
#[derive(Debug)]
pub struct HotStockListHistoryResponse {
    /// 查询自然日，格式为 `yyyy-MM-dd`。
    pub date: String,
    /// 查询自然日 Asia/Shanghai 零点的 Unix 毫秒时间戳。
    pub date_ms: i64,
    /// 历史热股榜股票列表。
    pub item: Vec<HotStockHistoryItem>,
}

/// 历史热股榜中的单只股票。
#[derive(Debug)]
pub struct HotStockHistoryItem {
    /// 带交易所后缀的完整同花顺代码。
    pub thscode: String,
    /// 六位股票代码。
    pub ticker: String,
    /// 股票简称。
    pub name: String,
    /// 当日热榜排名。
    pub rank: i64,
}

/// 接口地址：`GET /api/a-share/special-data/hot-stock-rank-trend`。
#[derive(Debug)]
pub struct HotStockRankTrendResponse {
    /// 起始自然日 Asia/Shanghai 零点的 Unix 毫秒时间戳。
    pub timestamp: i64,
    /// 日线排名走势点位。
    pub item: Vec<HotStockRankTrendItem>,
}

/// 个股热榜排名走势中的单个日线点位。
#[derive(Debug)]
pub struct HotStockRankTrendItem {
    /// 带交易所后缀的完整同花顺代码。
    pub thscode: String,
    /// 六位股票代码。
    pub ticker: String,
    /// 自然日，格式为 `yyyy-MM-dd`。
    pub date: String,
    /// 对应自然日 Asia/Shanghai 零点的 Unix 毫秒时间戳。
    pub date_ms: i64,
    /// 当日热榜排名。
    pub rank: i64,
}

/// `GET /api/a-share/special-data/anomaly-analysis-stock`。
#[derive(Debug)]
pub struct AnomalyAnalysisResponse {
    /// 数据时间戳，Unix 毫秒时间戳。
    pub timestamp: i64,
    /// 个股异动原因列表。
    pub item: Vec<AnomalyAnalysisItem>,
}

/// 单条个股异动原因记录。
#[derive(Debug)]
pub struct AnomalyAnalysisItem {
    /// 股票名称。
    pub stock_name: String,
    /// 异动解读内容。
    pub analysis_content: String,
    /// 关键词列表；无关键词时为空数组。
    pub keyword_list: Vec<String>,
    /// 带交易所后缀的同花顺代码。
    pub thscode: String,
    /// 异动标签展示名称。
    pub tag_name: String,
}

/// 龙虎榜股票记录中的概念标签。
#[derive(Debug)]
pub struct DragonTigerConcept {
    /// 概念名称。
    pub name: String,
}

/// 基金基本资料接口的响应数据。
#[derive(Debug)]
pub struct FundProfileDetailResponse {
    /// 数据时间戳，Unix 毫秒时间戳。
    pub timestamp: i64,
    /// 基金基本资料记录。
    pub item: Vec<FundProfileItem>,
}

/// 单条基金基本资料记录。
#[derive(Debug)]
pub struct FundProfileItem {
    /// 完整基金同花顺代码。
    pub thscode: String,
    /// 纯基金代码。
    pub ticker: String,
    /// 基金名称。
    pub fund_name: Option<String>,
    /// 成立日期，Unix 毫秒时间戳。
    pub estab_date: Option<i64>,
    /// 基金管理人名称。
    pub mgmt_name: Option<String>,
    /// 基金经理姓名。
    pub manager_name: Option<String>,
}

} // verus!
