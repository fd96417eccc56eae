use vstd::prelude::*;

use crate::sort::{OrderType, SortData};
use crate::CurrencyType;

verus! {

/// The currency-and-side choices a caller can sort by.
#[derive(Clone, Copy, Debug, PartialEq, Eq, Structural)]
pub enum CurrencyName {
    UsdBuy,
    UsdSell,
    GbpBuy,
    GbpSell,
    EurBuy,
    EurSell,
    RubBuy,
    RubSell,
}

impl CurrencyName {
    /// The canonical currency this choice selects.
    pub open spec fn spec_currency(self) -> crate::CurrencyName {
        match self {
            CurrencyName::UsdBuy | CurrencyName::UsdSell => crate::CurrencyName::USD,
            CurrencyName::GbpBuy | CurrencyName::GbpSell => crate::CurrencyName::GBP,
            CurrencyName::EurBuy | CurrencyName::EurSell => crate::CurrencyName::EUR,
            CurrencyName::RubBuy | CurrencyName::RubSell => crate::CurrencyName::RUB,
        }
    }

    /// The quotation side this choice selects.
    pub open spec fn spec_side(self) -> OrderType {
        match self {
            CurrencyName::UsdBuy | CurrencyName::GbpBuy | CurrencyName::EurBuy
                | CurrencyName::RubBuy => OrderType::Buy,
            _ => OrderType::Sell,
        }
    }

    /// The full sort key for this choice within one segment.
    pub fn to_sort_data(&self, currency_type: CurrencyType) -> (r: SortData)
        ensures
            r.currency_type == currency_type,
            r.currency_name == self.spec_currency(),
            r.order_type == self.spec_side(),
    {
        match self {
            CurrencyName::UsdBuy => SortData::new(
                currency_type,
                crate::CurrencyName::USD,
                OrderType::Buy,
            ),
            CurrencyName::UsdSell => SortData::new(
                currency_type,
                crate::CurrencyName::USD,
                OrderType::Sell,
            ),
            CurrencyName::GbpBuy => SortData::new(
                currency_type,
                crate::CurrencyName::GBP,
                OrderType::Buy,
            ),
            CurrencyName::GbpSell => SortData::new(
                currency_type,
                crate::CurrencyName::GBP,
                OrderType::Sell,
            ),
            CurrencyName::EurBuy => SortData::new(
                currency_type,
                crate::CurrencyName::EUR,
                OrderType::Buy,
            ),
            CurrencyName::EurSell => SortData::new(
                currency_type,
                crate::CurrencyName::EUR,
                OrderType::Sell,
            ),
            CurrencyName::RubBuy => SortData::new(
                currency_type,
                crate::CurrencyName::RUB,
                OrderType::Buy,
            ),
            CurrencyName::RubSell => SortData::new(
                currency_type,
                crate::CurrencyName::RUB,
                OrderType::Sell,
            ),
        }
    }
}

} // verus!
