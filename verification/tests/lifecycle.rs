use budget::manager::biz::portfolio::lifecycle::{next_status, LifecycleError, Transition};
use budget::manager::biz::portfolio::AssetStatus;

#[test]
fn active_can_close_mature_sell_archive() {
    assert_eq!(next_status(AssetStatus::Active, Transition::Close).unwrap(), AssetStatus::Closed);
    assert_eq!(next_status(AssetStatus::Active, Transition::Mature).unwrap(), AssetStatus::Matured);
    assert_eq!(next_status(AssetStatus::Active, Transition::Sell).unwrap(), AssetStatus::Sold);
    assert_eq!(next_status(AssetStatus::Active, Transition::Archive).unwrap(), AssetStatus::Archived);
    assert_eq!(next_status(AssetStatus::Active, Transition::RollOver).unwrap(), AssetStatus::RolledOver);
    assert_eq!(next_status(AssetStatus::Active, Transition::Withdraw).unwrap(), AssetStatus::Withdrawn);
    assert_eq!(next_status(AssetStatus::Active, Transition::EarlyClose).unwrap(), AssetStatus::EarlyClosed);
}

#[test]
fn matured_can_only_rollover_withdraw_or_archive() {
    assert!(next_status(AssetStatus::Matured, Transition::RollOver).is_ok());
    assert!(next_status(AssetStatus::Matured, Transition::Withdraw).is_ok());
    assert!(next_status(AssetStatus::Matured, Transition::Archive).is_ok());
    assert!(next_status(AssetStatus::Matured, Transition::Sell).is_err());
    assert!(next_status(AssetStatus::Matured, Transition::Close).is_err());
}

#[test]
fn closed_can_only_archive() {
    assert!(next_status(AssetStatus::Closed, Transition::Archive).is_ok());
    assert!(next_status(AssetStatus::Closed, Transition::Sell).is_err());
    assert!(next_status(AssetStatus::Closed, Transition::Mature).is_err());
}

#[test]
fn sold_can_only_archive() {
    assert!(next_status(AssetStatus::Sold, Transition::Archive).is_ok());
    assert!(next_status(AssetStatus::Sold, Transition::Close).is_err());
}

#[test]
fn archived_is_terminal() {
    for t in [
        Transition::Close,
        Transition::Mature,
        Transition::Sell,
        Transition::Archive,
        Transition::RollOver,
        Transition::Withdraw,
        Transition::EarlyClose,
    ] {
        assert!(next_status(AssetStatus::Archived, t).is_err());
    }
}

#[test]
fn rolled_over_withdrawn_early_closed_can_only_archive() {
    for s in [AssetStatus::RolledOver, AssetStatus::Withdrawn, AssetStatus::EarlyClosed] {
        assert!(next_status(s, Transition::Archive).is_ok());
        assert!(next_status(s, Transition::Close).is_err());
        assert!(next_status(s, Transition::Sell).is_err());
    }
}

#[test]
fn illegal_transition_names_state_and_action() {
    let err = next_status(AssetStatus::Sold, Transition::Mature).unwrap_err();
    assert_eq!(
        err,
        LifecycleError::Illegal { from: AssetStatus::Sold, transition: Transition::Mature }
    );
}
