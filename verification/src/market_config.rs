//! Parameters that hold for the whole market.

use crate::utils::{err_text, message};
use vstd::prelude::*;

verus! {

/// One change of one market parameter.
#[derive(Clone, Copy, Debug, PartialEq, Eq, Structural)]
pub enum UpdateMarketConfigInput {
    MaxCDPPosition(u8),
}

/// The market's parameters.
#[derive(Clone, Copy, Debug, PartialEq, Eq, Structural)]
pub struct MarketConfig {
    /// The largest number of collateral and loan positions of one debt
    /// position together.
    pub max_cdp_position: u8,
}

pub open spec fn err_max_cdp_position() -> Seq<char> {
    "Max CDP position must be greater than 0"@
}

impl MarketConfig {
    /// At least one position is allowed.
    pub open spec fn valid(self) -> bool {
        self.max_cdp_position > 0
    }

    /// Fails unless the configuration is valid.
    pub fn check(&self) -> (r: Result<(), String>)
        ensures
            self.valid() ==> r.is_ok(),
            !self.valid() ==> err_text(r) == Some(err_max_cdp_position()),
    {
        if self.max_cdp_position == 0 {
            return Err(message("Max CDP position must be greater than 0"));
        }
        Ok(())
    }

    /// Applies one change if the changed configuration is valid; otherwise
    /// changes nothing.
    pub fn update(&mut self, value: UpdateMarketConfigInput) -> (r: Result<(), String>)
        ensures
            match value {
                UpdateMarketConfigInput::MaxCDPPosition(n) => if n > 0 {
                    r.is_ok() && final(self).max_cdp_position == n
                } else {
                    err_text(r) == Some(err_max_cdp_position()) && *final(self) == *old(self)
                },
            },
    {
        match value {
            UpdateMarketConfigInput::MaxCDPPosition(max_cdp_position) => {
                if max_cdp_position == 0 {
                    return Err(message("Max CDP position must be greater than 0"));
                }
                self.max_cdp_position = max_cdp_position;
            },
        }
        Ok(())
    }
}

} // verus!
