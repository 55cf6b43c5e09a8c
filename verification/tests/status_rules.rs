use lending_market::operation_status::{OperatingService, OperatingStatus, OperatingStatusInput};

#[test]
fn default_status_has_everything_enabled_and_unmarked() {
    let status = OperatingStatus::default();
    for service in [
        OperatingService::Contribute,
        OperatingService::Redeem,
        OperatingService::AddCollateral,
        OperatingService::RemoveCollateral,
        OperatingService::Borrow,
        OperatingService::Repay,
        OperatingService::Refinance,
        OperatingService::Liquidation,
        OperatingService::Flashloan,
    ] {
        assert!(status.is_enabled(service));
        assert!(!status.is_set_by_admin(service));
        assert!(status.check_service(service).is_ok());
    }
}

#[test]
fn moderator_can_toggle_an_unmarked_switch() {
    let mut status = OperatingStatus::default();
    assert!(status.moderator_update(OperatingStatusInput::Borrow(false)).is_ok());
    assert!(!status.is_borrow_enabled);
    assert!(!status.borrow_set_by_admin);
    assert!(status.moderator_update(OperatingStatusInput::Borrow(true)).is_ok());
    assert!(status.is_borrow_enabled);
}

#[test]
fn moderator_cannot_change_what_an_admin_set() {
    let mut status = OperatingStatus::default();
    status.update(OperatingStatusInput::Flashloan(false));
    assert!(status.flashloan_set_by_admin);
    let before = status;
    let refused = status.moderator_update(OperatingStatusInput::Flashloan(true));
    assert_eq!(
        refused,
        Err("Operating status was set by an admin and cannot be changed by a moderator".to_string())
    );
    assert_eq!(status, before);
    assert!(!status.is_flashloan_enabled);
}

#[test]
fn admin_mark_is_per_service() {
    let mut status = OperatingStatus::default();
    status.update(OperatingStatusInput::Repay(false));
    assert!(status.moderator_update(OperatingStatusInput::Redeem(false)).is_ok());
    assert!(!status.is_redeem_enabled);
    assert!(status.moderator_update(OperatingStatusInput::Repay(true)).is_err());
}

#[test]
fn admin_can_hand_a_switch_back_to_moderators() {
    let mut status = OperatingStatus::default();
    assert!(status.update_service(OperatingService::Liquidation, false, true).is_ok());
    assert!(status.update_service(OperatingService::Liquidation, true, false).is_err());
    assert!(status.update_service(OperatingService::Liquidation, false, true).is_ok());
    status.update(OperatingStatusInput::Liquidation(true));
    assert!(status.is_liquidate_enabled);
    assert!(status.liquidate_set_by_admin);
}

#[test]
fn disabled_service_fails_its_check() {
    let mut status = OperatingStatus::default();
    status.update(OperatingStatusInput::Deposit(false));
    assert_eq!(
        status.check_service(OperatingService::AddCollateral),
        Err("Operation is not allowed: the service is disabled".to_string())
    );
    assert!(status.check_service(OperatingService::RemoveCollateral).is_ok());
    assert_eq!(OperatingStatusInput::Withdraw(true).service(), OperatingService::RemoveCollateral);
    assert_eq!(OperatingStatusInput::Withdraw(true).enabled(), true);
}
