//! Service gating: nine switches, each with a mark that says whether an
//! administrator set it last. A moderator cannot change a switch that carries
//! the mark.

use crate::utils::{err_text, message};
use vstd::prelude::*;

verus! {

/// The services that can be switched off.
#[derive(Clone, Copy, Debug, PartialEq, Eq, Structural)]
pub enum OperatingService {
    /// Supplying liquidity.
    Contribute,
    /// Taking supplied liquidity back.
    Redeem,
    /// Pledging collateral.
    AddCollateral,
    /// Releasing collateral.
    RemoveCollateral,
    /// Borrowing.
    Borrow,
    /// Repaying a loan.
    Repay,
    /// Repaying the debt of a position without collateral.
    Refinance,
    /// Liquidating an unhealthy position.
    Liquidation,
    /// Lending within one transaction.
    Flashloan,
}

/// A service together with the state asked of it.
#[derive(Clone, Copy, Debug, PartialEq, Eq, Structural)]
pub enum OperatingStatusInput {
    Contribute(bool),
    Redeem(bool),
    Deposit(bool),
    Withdraw(bool),
    Borrow(bool),
    Repay(bool),
    Refinance(bool),
    Liquidation(bool),
    Flashloan(bool),
}

impl OperatingStatusInput {
    /// The service that the input speaks of.
    pub open spec fn spec_service(self) -> OperatingService {
        match self {
            OperatingStatusInput::Contribute(_) => OperatingService::Contribute,
            OperatingStatusInput::Redeem(_) => OperatingService::Redeem,
            OperatingStatusInput::Deposit(_) => OperatingService::AddCollateral,
            OperatingStatusInput::Withdraw(_) => OperatingService::RemoveCollateral,
            OperatingStatusInput::Borrow(_) => OperatingService::Borrow,
            OperatingStatusInput::Repay(_) => OperatingService::Repay,
            OperatingStatusInput::Refinance(_) => OperatingService::Refinance,
            OperatingStatusInput::Liquidation(_) => OperatingService::Liquidation,
            OperatingStatusInput::Flashloan(_) => OperatingService::Flashloan,
        }
    }

    /// The state that the input asks for.
    pub open spec fn spec_enabled(self) -> bool {
        match self {
            OperatingStatusInput::Contribute(v) => v,
            OperatingStatusInput::Redeem(v) => v,
            OperatingStatusInput::Deposit(v) => v,
            OperatingStatusInput::Withdraw(v) => v,
            OperatingStatusInput::Borrow(v) => v,
            OperatingStatusInput::Repay(v) => v,
            OperatingStatusInput::Refinance(v) => v,
            OperatingStatusInput::Liquidation(v) => v,
            OperatingStatusInput::Flashloan(v) => v,
        }
    }

    #[verifier::when_used_as_spec(spec_service)]
    pub fn service(self) -> (r: OperatingService)
        ensures
            r == self.spec_service(),
    {
        match self {
            OperatingStatusInput::Contribute(_) => OperatingService::Contribute,
            OperatingStatusInput::Redeem(_) => OperatingService::Redeem,
            OperatingStatusInput::Deposit(_) => OperatingService::AddCollateral,
            OperatingStatusInput::Withdraw(_) => OperatingService::RemoveCollateral,
            OperatingStatusInput::Borrow(_) => OperatingService::Borrow,
            OperatingStatusInput::Repay(_) => OperatingService::Repay,
            OperatingStatusInput::Refinance(_) => OperatingService::Refinance,
            OperatingStatusInput::Liquidation(_) => OperatingService::Liquidation,
            OperatingStatusInput::Flashloan(_) => OperatingService::Flashloan,
        }
    }

    #[verifier::when_used_as_spec(spec_enabled)]
    pub fn enabled(self) -> (r: bool)
        ensures
            r == self.spec_enabled(),
    {
        match self {
            OperatingStatusInput::Contribute(v) => v,
            OperatingStatusInput::Redeem(v) => v,
            OperatingStatusInput::Deposit(v) => v,
            OperatingStatusInput::Withdraw(v) => v,
            OperatingStatusInput::Borrow(v) => v,
            OperatingStatusInput::Repay(v) => v,
            OperatingStatusInput::Refinance(v) => v,
            OperatingStatusInput::Liquidation(v) => v,
            OperatingStatusInput::Flashloan(v) => v,
        }
    }
}

/// The switches of a market or of one pool.
#[derive(Clone, Copy, Debug, PartialEq, Eq, Structural)]
pub struct OperatingStatus {
    pub is_contribute_enabled: bool,
    pub is_redeem_enabled: bool,
    pub is_deposit_enabled: bool,
    pub is_withdraw_enabled: bool,
    pub is_borrow_enabled: bool,
    pub is_repay_enabled: bool,
    pub is_refinance_enabled: bool,
    pub is_liquidate_enabled: bool,
    pub is_flashloan_enabled: bool,
    pub contribute_set_by_admin: bool,
    pub redeem_set_by_admin: bool,
    pub deposit_set_by_admin: bool,
    pub withdraw_set_by_admin: bool,
    pub borrow_set_by_admin: bool,
    pub repay_set_by_admin: bool,
    pub refinance_set_by_admin: bool,
    pub liquidate_set_by_admin: bool,
    pub flashloan_set_by_admin: bool,
}

/// The message of a moderator's update that an administrator's mark stops.
pub open spec fn err_set_by_admin() -> Seq<char> {
    "Operating status was set by an admin and cannot be changed by a moderator"@
}

/// The message of a check on a service that is switched off.
pub open spec fn err_service_disabled() -> Seq<char> {
    "Operation is not allowed: the service is disabled"@
}

impl OperatingStatus {
    /// Whether the service is switched on.
    pub open spec fn spec_is_enabled(self, service: OperatingService) -> bool {
        match service {
            OperatingService::Contribute => self.is_contribute_enabled,
            OperatingService::Redeem => self.is_redeem_enabled,
            OperatingService::AddCollateral => self.is_deposit_enabled,
            OperatingService::RemoveCollateral => self.is_withdraw_enabled,
            OperatingService::Borrow => self.is_borrow_enabled,
            OperatingService::Repay => self.is_repay_enabled,
            OperatingService::Refinance => self.is_refinance_enabled,
            OperatingService::Liquidation => self.is_liquidate_enabled,
            OperatingService::Flashloan => self.is_flashloan_enabled,
        }
    }

    /// Whether an administrator set the switch last.
    pub open spec fn spec_is_set_by_admin(self, service: OperatingService) -> bool {
        match service {
            OperatingService::Contribute => self.contribute_set_by_admin,
            OperatingService::Redeem => self.redeem_set_by_admin,
            OperatingService::AddCollateral => self.deposit_set_by_admin,
            OperatingService::RemoveCollateral => self.withdraw_set_by_admin,
            OperatingService::Borrow => self.borrow_set_by_admin,
            OperatingService::Repay => self.repay_set_by_admin,
            OperatingService::Refinance => self.refinance_set_by_admin,
            OperatingService::Liquidation => self.liquidate_set_by_admin,
            OperatingService::Flashloan => self.flashloan_set_by_admin,
        }
    }

    /// The status with one switch and its mark replaced.
    pub open spec fn spec_with(self, service: OperatingService, enabled: bool,
        set_by_admin: bool) -> OperatingStatus {
        match service {
            OperatingService::Contribute => OperatingStatus { is_contribute_enabled: enabled,
                contribute_set_by_admin: set_by_admin, ..self },
            OperatingService::Redeem => OperatingStatus { is_redeem_enabled: enabled,
                redeem_set_by_admin: set_by_admin, ..self },
            OperatingService::AddCollateral => OperatingStatus { is_deposit_enabled: enabled,
                deposit_set_by_admin: set_by_admin, ..self },
            OperatingService::RemoveCollateral => OperatingStatus { is_withdraw_enabled: enabled,
                withdraw_set_by_admin: set_by_admin, ..self },
            OperatingService::Borrow => OperatingStatus { is_borrow_enabled: enabled,
                borrow_set_by_admin: set_by_admin, ..self },
            OperatingService::Repay => OperatingStatus { is_repay_enabled: enabled,
                repay_set_by_admin: set_by_admin, ..self },
            OperatingService::Refinance => OperatingStatus { is_refinance_enabled: enabled,
                refinance_set_by_admin: set_by_admin, ..self },
            OperatingService::Liquidation => OperatingStatus { is_liquidate_enabled: enabled,
                liquidate_set_by_admin: set_by_admin, ..self },
            OperatingService::Flashloan => OperatingStatus { is_flashloan_enabled: enabled,
                flashloan_set_by_admin: set_by_admin, ..self },
        }
    }

    /// The status with every service on and no mark set.
    pub open spec fn spec_default() -> OperatingStatus {
        OperatingStatus {
            is_contribute_enabled: true,
            is_redeem_enabled: true,
            is_deposit_enabled: true,
            is_withdraw_enabled: true,
            is_borrow_enabled: true,
            is_repay_enabled: true,
            is_refinance_enabled: true,
            is_liquidate_enabled: true,
            is_flashloan_enabled: true,
            contribute_set_by_admin: false,
            redeem_set_by_admin: false,
            deposit_set_by_admin: false,
            withdraw_set_by_admin: false,
            borrow_set_by_admin: false,
            repay_set_by_admin: false,
            refinance_set_by_admin: false,
            liquidate_set_by_admin: false,
            flashloan_set_by_admin: false,
        }
    }

    /// Every service on, no mark set.
    pub fn default() -> (r: OperatingStatus)
        ensures
            r == Self::spec_default(),
    {
        OperatingStatus {
            is_contribute_enabled: true,
            is_redeem_enabled: true,
            is_deposit_enabled: true,
            is_withdraw_enabled: true,
            is_borrow_enabled: true,
            is_repay_enabled: true,
            is_refinance_enabled: true,
            is_liquidate_enabled: true,
            is_flashloan_enabled: true,
            contribute_set_by_admin: false,
            redeem_set_by_admin: false,
            deposit_set_by_admin: false,
            withdraw_set_by_admin: false,
            borrow_set_by_admin: false,
            repay_set_by_admin: false,
            refinance_set_by_admin: false,
            liquidate_set_by_admin: false,
            flashloan_set_by_admin: false,
        }
    }

    #[verifier::when_used_as_spec(spec_is_enabled)]
    pub fn is_enabled(self, service: OperatingService) -> (r: bool)
        ensures
            r == self.spec_is_enabled(service),
    {
        match service {
            OperatingService::Contribute => self.is_contribute_enabled,
            OperatingService::Redeem => self.is_redeem_enabled,
            OperatingService::AddCollateral => self.is_deposit_enabled,
            OperatingService::RemoveCollateral => self.is_withdraw_enabled,
            OperatingService::Borrow => self.is_borrow_enabled,
            OperatingService::Repay => self.is_repay_enabled,
            OperatingService::Refinance => self.is_refinance_enabled,
            OperatingService::Liquidation => self.is_liquidate_enabled,
            OperatingService::Flashloan => self.is_flashloan_enabled,
        }
    }

    #[verifier::when_used_as_spec(spec_is_set_by_admin)]
    pub fn is_set_by_admin(self, service: OperatingService) -> (r: bool)
        ensures
            r == self.spec_is_set_by_admin(service),
    {
        match service {
            OperatingService::Contribute => self.contribute_set_by_admin,
            OperatingService::Redeem => self.redeem_set_by_admin,
            OperatingService::AddCollateral => self.deposit_set_by_admin,
            OperatingService::RemoveCollateral => self.withdraw_set_by_admin,
            OperatingService::Borrow => self.borrow_set_by_admin,
            OperatingService::Repay => self.repay_set_by_admin,
            OperatingService::Refinance => self.refinance_set_by_admin,
            OperatingService::Liquidation => self.liquidate_set_by_admin,
            OperatingService::Flashloan => self.flashloan_set_by_admin,
        }
    }

    /// Sets one switch. An administrator always succeeds and leaves the
    /// mark; a moderator fails on a marked switch and changes nothing, and
    /// otherwise sets the switch without a mark.
    pub fn update_service(&mut self, service: OperatingService, enabled: bool,
        set_by_admin: bool) -> (r: Result<(), String>)
        ensures
            old(self).spec_is_set_by_admin(service) && !set_by_admin ==> err_text(r) == Some(
                err_set_by_admin(),
            ) && *final(self) == *old(self),
            !(old(self).spec_is_set_by_admin(service) && !set_by_admin) ==> r.is_ok() && *final(self)
                == old(self).spec_with(service, enabled, set_by_admin),
    {
        if self.is_set_by_admin(service) && !set_by_admin {
            return Err(
                message("Operating status was set by an admin and cannot be changed by a moderator"),
            );
        }
        match service {
            OperatingService::Contribute => {
                *self = OperatingStatus { is_contribute_enabled: enabled,
                    contribute_set_by_admin: set_by_admin, ..*self };
            },
            OperatingService::Redeem => {
                *self = OperatingStatus { is_redeem_enabled: enabled,
                    redeem_set_by_admin: set_by_admin, ..*self };
            },
            OperatingService::AddCollateral => {
                *self = OperatingStatus { is_deposit_enabled: enabled,
                    deposit_set_by_admin: set_by_admin, ..*self };
            },
            OperatingService::RemoveCollateral => {
                *self = OperatingStatus { is_withdraw_enabled: enabled,
                    withdraw_set_by_admin: set_by_admin, ..*self };
            },
            OperatingService::Borrow => {
                *self = OperatingStatus { is_borrow_enabled: enabled,
                    borrow_set_by_admin: set_by_admin, ..*self };
            },
            OperatingService::Repay => {
                *self = OperatingStatus { is_repay_enabled: enabled,
                    repay_set_by_admin: set_by_admin, ..*self };
            },
            OperatingService::Refinance => {
                *self = OperatingStatus { is_refinance_enabled: enabled,
                    refinance_set_by_admin: set_by_admin, ..*self };
            },
            OperatingService::Liquidation => {
                *self = OperatingStatus { is_liquidate_enabled: enabled,
                    liquidate_set_by_admin: set_by_admin, ..*self };
            },
            OperatingService::Flashloan => {
                *self = OperatingStatus { is_flashloan_enabled: enabled,
                    flashloan_set_by_admin: set_by_admin, ..*self };
            },
        }
        Ok(())
    }

    /// An administrator's update: sets the switch and leaves the mark.
    pub fn update(&mut self, value: OperatingStatusInput)
        ensures
            *final(self) == old(self).spec_with(value.spec_service(), value.spec_enabled(), true),
    {
        let _ = self.update_service(value.service(), value.enabled(), true);
    }

    /// A moderator's update: refused on a switch that carries the mark.
    pub fn moderator_update(&mut self, value: OperatingStatusInput) -> (r: Result<(), String>)
        ensures
            old(self).spec_is_set_by_admin(value.spec_service()) ==> err_text(r) == Some(
                err_set_by_admin(),
            ) && *final(self) == *old(self),
            !old(self).spec_is_set_by_admin(value.spec_service()) ==> r.is_ok() && *final(self)
                == old(self).spec_with(value.spec_service(), value.spec_enabled(), false),
    {
        self.update_service(value.service(), value.enabled(), false)
    }

    /// Whether the switch of the input's service is in the state it names.
    pub fn check(&self, value: OperatingStatusInput) -> (r: bool)
        ensures
            r == (self.spec_is_enabled(value.spec_service()) == value.spec_enabled()),
    {
        self.is_enabled(value.service()) == value.enabled()
    }

    /// Fails when the service is switched off.
    pub fn check_service(&self, service: OperatingService) -> (r: Result<(), String>)
        ensures
            self.spec_is_enabled(service) ==> r.is_ok(),
            !self.spec_is_enabled(service) ==> err_text(r) == Some(err_service_disabled()),
    {
        if self.is_enabled(service) {
            Ok(())
        } else {
            Err(message("Operation is not allowed: the service is disabled"))
        }
    }
}

/// After an administrator's update the switch is in the state asked for,
/// whatever came before, and a moderator's update of it fails.
pub proof fn lemma_admin_update_sticks(s: OperatingStatus, value: OperatingStatusInput)
    ensures
        s.spec_with(value.spec_service(), value.spec_enabled(), true).spec_is_enabled(
            value.spec_service(),
        ) == value.spec_enabled(),
        s.spec_with(value.spec_service(), value.spec_enabled(), true).spec_is_set_by_admin(
            value.spec_service(),
        ),
{
}

/// An update of one service leaves every other switch and mark as it was.
pub proof fn lemma_update_is_local(
    s: OperatingStatus,
    service: OperatingService,
    enabled: bool,
    set_by_admin: bool,
    other: OperatingService,
)
    requires
        other != service,
    ensures
        s.spec_with(service, enabled, set_by_admin).spec_is_enabled(other) == s.spec_is_enabled(other),
        s.spec_with(service, enabled, set_by_admin).spec_is_set_by_admin(other)
            == s.spec_is_set_by_admin(other),
{
}

} // verus!
