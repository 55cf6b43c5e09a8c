//! Loan-to-value limits: a default ratio and overrides by the asset type of
//! the collateral, of the loan, or of both.

use crate::decimal::Decimal;
use crate::ratio_table::RatioTable;
use crate::utils::{err_text, is_valid_rate, message, spec_is_valid_rate, ResourceAddress};
use vstd::prelude::*;

verus! {

/// One change of the limits. `None` removes an override.
#[derive(Clone, Copy, Debug, PartialEq, Eq, Structural)]
pub enum UpdateLiquidationThresholdInput {
    DefaultValue(Decimal),
    CollateralAssetType(u8, Option<Decimal>),
    LoanAssetType(u8, Option<Decimal>),
    AssetTypePair(u8, u8, Option<Decimal>),
}

/// The limits that one collateral asset grants to loans.
#[derive(Debug)]
pub struct LiquidationThreshold {
    pub default_value: Decimal,
    /// Overrides by the collateral's asset type.
    pub collateral_types: RatioTable,
    /// Overrides by the loan's asset type.
    pub loan_types: RatioTable,
    /// Overrides by both types, under `pair_key`.
    pub pairs: RatioTable,
}

/// The limits as plain tables.
pub struct LiquidationThresholdView {
    pub default_value: Decimal,
    pub collateral_types: Map<u16, Decimal>,
    pub loan_types: Map<u16, Decimal>,
    pub pairs: Map<u16, Decimal>,
}

impl View for LiquidationThreshold {
    type V = LiquidationThresholdView;

    open spec fn view(&self) -> LiquidationThresholdView {
        LiquidationThresholdView {
            default_value: self.default_value,
            collateral_types: self.collateral_types@,
            loan_types: self.loan_types@,
            pairs: self.pairs@,
        }
    }
}

impl LiquidationThresholdView {
    /// The most specific ratio: by pair, else by loan type, else by
    /// collateral type, else the default.
    pub open spec fn get_ratio(self, collateral_type: u8, loan_type: u8) -> Decimal {
        if self.pairs.contains_key(spec_pair_key(collateral_type, loan_type)) {
            self.pairs[spec_pair_key(collateral_type, loan_type)]
        } else if self.loan_types.contains_key(loan_type as u16) {
            self.loan_types[loan_type as u16]
        } else if self.collateral_types.contains_key(collateral_type as u16) {
            self.collateral_types[collateral_type as u16]
        } else {
            self.default_value
        }
    }
}

pub open spec fn err_threshold_range() -> Seq<char> {
    "Liquidation threshold must be between 0 and 1"@
}

/// The key of a pair of asset types.
pub open spec fn spec_pair_key(collateral_type: u8, loan_type: u8) -> u16 {
    (collateral_type as int * 256 + loan_type as int) as u16
}

/// The key of a pair of asset types.
#[verifier::when_used_as_spec(spec_pair_key)]
pub fn pair_key(collateral_type: u8, loan_type: u8) -> (r: u16)
    ensures
        r == spec_pair_key(collateral_type, loan_type),
{
    let wide: u16 = collateral_type as u16;
    wide * 256 + loan_type as u16
}

/// Whether every ratio of a table lies in `[0, 1]`.
pub open spec fn table_in_range(table: Map<u16, Decimal>) -> bool {
    forall|k: u16| table.contains_key(k) ==> spec_is_valid_rate(#[trigger] table[k]@)
}

/// Whether an optional ratio is absent or lies in `[0, 1]`.
pub open spec fn ratio_in_range(ratio: Option<Decimal>) -> bool {
    match ratio {
        Some(r) => spec_is_valid_rate(r@),
        None => true,
    }
}

/// A table with a key set or, for `None`, removed.
pub open spec fn table_with(table: Map<u16, Decimal>, key: u16, ratio: Option<Decimal>) -> Map<
    u16,
    Decimal,
> {
    match ratio {
        Some(r) => table.insert(key, r),
        None => table.remove(key),
    }
}

impl LiquidationThreshold {
    /// The tables hold no key twice.
    pub open spec fn well_formed(self) -> bool {
        &&& self.collateral_types.well_formed()
        &&& self.loan_types.well_formed()
        &&& self.pairs.well_formed()
    }

    /// Every ratio lies in `[0, 1]`.
    pub open spec fn in_range(self) -> bool {
        &&& spec_is_valid_rate(self.default_value@)
        &&& table_in_range(self.collateral_types@)
        &&& table_in_range(self.loan_types@)
        &&& table_in_range(self.pairs@)
    }

    /// The most specific ratio: by pair, else by loan type, else by
    /// collateral type, else the default.
    pub open spec fn spec_get_ratio(self, collateral_type: u8, loan_type: u8) -> Decimal {
        self@.get_ratio(collateral_type, loan_type)
    }

    /// The ratio that a change carries, if it carries one.
    pub open spec fn input_ratio(value: UpdateLiquidationThresholdInput) -> Option<Decimal> {
        match value {
            UpdateLiquidationThresholdInput::DefaultValue(r) => Some(r),
            UpdateLiquidationThresholdInput::CollateralAssetType(_, r) => r,
            UpdateLiquidationThresholdInput::LoanAssetType(_, r) => r,
            UpdateLiquidationThresholdInput::AssetTypePair(_, _, r) => r,
        }
    }

    /// Whether `self` is `before` with the change applied.
    pub open spec fn is_update_of(self, before: LiquidationThreshold,
        value: UpdateLiquidationThresholdInput) -> bool {
        match value {
            UpdateLiquidationThresholdInput::DefaultValue(r) => {
                &&& self.default_value == r
                &&& self.collateral_types@ == before.collateral_types@
                &&& self.loan_types@ == before.loan_types@
                &&& self.pairs@ == before.pairs@
            },
            UpdateLiquidationThresholdInput::CollateralAssetType(t, r) => {
                &&& self.default_value == before.default_value
                &&& self.collateral_types@ == table_with(before.collateral_types@, t as u16, r)
                &&& self.loan_types@ == before.loan_types@
                &&& self.pairs@ == before.pairs@
            },
            UpdateLiquidationThresholdInput::LoanAssetType(t, r) => {
                &&& self.default_value == before.default_value
                &&& self.collateral_types@ == before.collateral_types@
                &&& self.loan_types@ == table_with(before.loan_types@, t as u16, r)
                &&& self.pairs@ == before.pairs@
            },
            UpdateLiquidationThresholdInput::AssetTypePair(c, l, r) => {
                &&& self.default_value == before.default_value
                &&& self.collateral_types@ == before.collateral_types@
                &&& self.loan_types@ == before.loan_types@
                &&& self.pairs@ == table_with(before.pairs@, spec_pair_key(c, l), r)
            },
        }
    }

    /// Whether `self` holds the same ratios as `other`.
    pub open spec fn same_as(self, other: LiquidationThreshold) -> bool {
        self@ == other@
    }

    /// Limits with a default and no override.
    pub fn new(default_value: Decimal) -> (r: LiquidationThreshold)
        ensures
            r.well_formed(),
            r.default_value == default_value,
            r.collateral_types@ == Map::<u16, Decimal>::empty(),
            r.loan_types@ == Map::<u16, Decimal>::empty(),
            r.pairs@ == Map::<u16, Decimal>::empty(),
    {
        LiquidationThreshold {
            default_value,
            collateral_types: RatioTable::new(),
            loan_types: RatioTable::new(),
            pairs: RatioTable::new(),
        }
    }

    /// Fails unless every ratio lies in `[0, 1]`.
    pub fn check(&self) -> (r: Result<(), String>)
        requires
            self.well_formed(),
        ensures
            self.in_range() ==> r.is_ok(),
            !self.in_range() ==> err_text(r) == Some(err_threshold_range()),
    {
        if is_valid_rate(self.default_value) && self.collateral_types.all_rates_valid()
            && self.loan_types.all_rates_valid() && self.pairs.all_rates_valid() {
            Ok(())
        } else {
            Err(message("Liquidation threshold must be between 0 and 1"))
        }
    }

    /// The limit for a loan of one asset against collateral of another, by
    /// their asset types. The addresses say which assets are meant; the
    /// limits are kept by type.
    pub fn get_ratio(
        &self,
        collateral_res: ResourceAddress,
        collateral_type: u8,
        loan_res: ResourceAddress,
        loan_type: u8,
    ) -> (r: Decimal)
        requires
            self.well_formed(),
        ensures
            r == self.spec_get_ratio(collateral_type, loan_type),
    {
        if let Some(ratio) = self.pairs.get(pair_key(collateral_type, loan_type)) {
            return ratio;
        }
        if let Some(ratio) = self.loan_types.get(loan_type as u16) {
            return ratio;
        }
        if let Some(ratio) = self.collateral_types.get(collateral_type as u16) {
            return ratio;
        }
        self.default_value
    }

    /// Applies one change, unless it carries a ratio outside `[0, 1]`: then
    /// nothing changes.
    pub fn update_liquidation_threshold(&mut self, value: UpdateLiquidationThresholdInput) -> (r: Result<
        (),
        String,
    >)
        requires
            old(self).well_formed(),
        ensures
            final(self).well_formed(),
            ratio_in_range(Self::input_ratio(value)) ==> r.is_ok() && final(self).is_update_of(
                *old(self),
                value,
            ),
            !ratio_in_range(Self::input_ratio(value)) ==> err_text(r) == Some(err_threshold_range())
                && *final(self) == *old(self),
    {
        match value {
            UpdateLiquidationThresholdInput::DefaultValue(ratio) => {
                if !is_valid_rate(ratio) {
                    return Err(message("Liquidation threshold must be between 0 and 1"));
                }
                self.default_value = ratio;
            },
            UpdateLiquidationThresholdInput::CollateralAssetType(asset_type, ratio) => {
                match ratio {
                    Some(value) => {
                        if !is_valid_rate(value) {
                            return Err(message("Liquidation threshold must be between 0 and 1"));
                        }
                        self.collateral_types.set(asset_type as u16, value);
                    },
                    None => {
                        self.collateral_types.remove(asset_type as u16);
                    },
                }
            },
            UpdateLiquidationThresholdInput::LoanAssetType(asset_type, ratio) => {
                match ratio {
                    Some(value) => {
                        if !is_valid_rate(value) {
                            return Err(message("Liquidation threshold must be between 0 and 1"));
                        }
                        self.loan_types.set(asset_type as u16, value);
                    },
                    None => {
                        self.loan_types.remove(asset_type as u16);
                    },
                }
            },
            UpdateLiquidationThresholdInput::AssetTypePair(collateral_type, loan_type, ratio) => {
                match ratio {
                    Some(value) => {
                        if !is_valid_rate(value) {
                            return Err(message("Liquidation threshold must be between 0 and 1"));
                        }
                        self.pairs.set(pair_key(collateral_type, loan_type), value);
                    },
                    None => {
                        self.pairs.remove(pair_key(collateral_type, loan_type));
                    },
                }
            },
        }
        Ok(())
    }
}

impl Clone for LiquidationThreshold {
    fn clone(&self) -> (r: LiquidationThreshold)
        ensures
            r.same_as(*self),
            r.well_formed() == self.well_formed(),
    {
        LiquidationThreshold {
            default_value: self.default_value,
            collateral_types: self.collateral_types.clone(),
            loan_types: self.loan_types.clone(),
            pairs: self.pairs.clone(),
        }
    }
}

/// Limits in range give a ratio in range for every pair of types.
pub proof fn lemma_ratio_in_range(t: LiquidationThreshold, collateral_type: u8, loan_type: u8)
    requires
        t.in_range(),
    ensures
        spec_is_valid_rate(t.spec_get_ratio(collateral_type, loan_type)@),
{
}

/// A change that is accepted keeps limits in range in range.
pub proof fn lemma_update_keeps_range(
    before: LiquidationThreshold,
    after: LiquidationThreshold,
    value: UpdateLiquidationThresholdInput,
)
    requires
        before.in_range(),
        ratio_in_range(LiquidationThreshold::input_ratio(value)),
        after.is_update_of(before, value),
    ensures
        after.in_range(),
{
}

/// An override by pair wins over one by loan type, which wins over one by
/// collateral type, which wins over the default.
pub proof fn lemma_specificity(t: LiquidationThreshold, collateral_type: u8, loan_type: u8)
    ensures
        t.pairs@.contains_key(spec_pair_key(collateral_type, loan_type)) ==> t.spec_get_ratio(
            collateral_type,
            loan_type,
        ) == t.pairs@[spec_pair_key(collateral_type, loan_type)],
        !t.pairs@.contains_key(spec_pair_key(collateral_type, loan_type))
            && !t.loan_types@.contains_key(loan_type as u16) && !t.collateral_types@.contains_key(
            collateral_type as u16,
        ) ==> t.spec_get_ratio(collateral_type, loan_type) == t.default_value,
{
}

} // verus!
