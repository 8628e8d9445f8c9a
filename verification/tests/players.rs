use samp_direct::error::DirectClientError;
use samp_direct::players::{
    assigned_player_id, send_rate_update, SendRateKind, valid_special_action, validate_player_counts,
    validate_player_max_id,
};

#[test]
fn players_player_count_validation_preserves_the_public_bounds() {
    assert_eq!(validate_player_counts(1004, 1000, 1004), Ok((1004, 1000)));
    assert_eq!(validate_player_counts(-1, 0, 1004), Err(DirectClientError::NotReady));
    assert_eq!(validate_player_counts(1005, 1000, 1004), Err(DirectClientError::NotReady));
    assert_eq!(validate_player_counts(4, 5, 1004), Err(DirectClientError::NotReady));
}

#[test]
fn players_player_id_validation_preserves_the_public_bounds() {
    assert_eq!(validate_player_max_id(1003, 1004), Ok(1003));
    assert_eq!(validate_player_max_id(-1, 1004), Err(DirectClientError::NotReady));
    assert_eq!(validate_player_max_id(1004, 1004), Err(DirectClientError::NotReady));
}

#[test]
fn mod_player_count_validation_preserves_the_public_bounds() {
    assert_eq!(validate_player_counts(1004, 1000, 1004), Ok((1004, 1000)));
    assert_eq!(validate_player_counts(-1, 0, 1004), Err(DirectClientError::NotReady));
    assert_eq!(validate_player_counts(1005, 1000, 1004), Err(DirectClientError::NotReady));
    assert_eq!(validate_player_counts(4, 5, 1004), Err(DirectClientError::NotReady));
}

#[test]
fn mod_player_id_validation_preserves_the_public_bounds() {
    assert_eq!(validate_player_max_id(1003, 1004), Ok(1003));
    assert_eq!(validate_player_max_id(-1, 1004), Err(DirectClientError::NotReady));
    assert_eq!(validate_player_max_id(1004, 1004), Err(DirectClientError::NotReady));
}

#[test]
fn unassigned_local_player_id_is_not_a_snapshot() {
    assert_eq!(assigned_player_id(u16::MAX), None);
    assert_eq!(assigned_player_id(42), Some(42));
}

#[test]
fn player_counts_accept_zero_and_equal_counts() {
    assert_eq!(validate_player_counts(0, 0, 1004), Ok((0, 0)));
    assert_eq!(validate_player_counts(7, 7, 1004), Ok((7, 7)));
    assert_eq!(validate_player_counts(70000, 0, 100000), Err(DirectClientError::NotReady));
    assert_eq!(validate_player_max_id(0, 1), Ok(0));
    assert_eq!(validate_player_max_id(0, 0), Err(DirectClientError::NotReady));
}

#[test]
fn special_actions_follow_the_accepted_set() {
    for action in [0u8, 5, 12, 20, 25, 68] {
        assert!(valid_special_action(action));
    }
    for action in [13u8, 19, 26, 67, 69, 255] {
        assert!(!valid_special_action(action));
    }
}

#[test]
fn send_rate_updates_reject_unknown_kinds() {
    assert_eq!(send_rate_update(200, 40), Err(DirectClientError::NotReady));
    assert_eq!(send_rate_update(0, 0x8000_0000), Err(DirectClientError::NotReady));
    assert_eq!(send_rate_update(0, 40), Ok((SendRateKind::OnFoot, 40)));
    assert_eq!(send_rate_update(1, 30), Ok((SendRateKind::InCar, 30)));
    assert_eq!(send_rate_update(2, 20), Ok((SendRateKind::Aim, 20)));
}
