use renderd::keychain::{KeychainStore, MockKeychain};
use renderd::pairing::{PairToken, PairingUi, PairingUiState, ViewerPairingClient, ViewerPairingError};
use renderd::proto::types::{HostId, ViewerId};

#[test]
fn test_viewer_pairing_pin_validation() {
    assert!(ViewerPairingClient::<MockKeychain>::validate_pin("123456").is_ok());
    assert!(matches!(
        ViewerPairingClient::<MockKeychain>::validate_pin("12345"),
        Err(ViewerPairingError::InvalidPinFormat)
    ));
    assert!(matches!(
        ViewerPairingClient::<MockKeychain>::validate_pin("abcdef"),
        Err(ViewerPairingError::InvalidPinFormat)
    ));
    assert!(ViewerPairingClient::<MockKeychain>::validate_pin("12345٣").is_err());
}

#[test]
fn pairing_stores_the_token_for_this_viewer() {
    let vid = ViewerId(11);
    let hid = HostId(22);
    let mut client = ViewerPairingClient::new(MockKeychain::new(), vid);
    let token = PairToken([5u8; 32]);
    let got = client.execute_pairing("654321", hid, token, 1_700_000_000).unwrap();
    assert_eq!(got, token);
    let entries = client.keychain().list_pairings().unwrap();
    assert_eq!(entries.len(), 1);
    assert_eq!(entries[0].host_id, 22);
    assert_eq!(entries[0].viewer_id, 11);
    assert_eq!(entries[0].pair_token, vec![5u8; 32]);
    assert_eq!(entries[0].cert_expires_at, 9_999_999_999);
}

#[test]
fn pairing_ui_moves_through_its_states() {
    let client = ViewerPairingClient::new(MockKeychain::new(), ViewerId(1));
    let mut ui = PairingUi::new(client);
    assert_eq!(ui.state(), PairingUiState::Idle);
    ui.start_prompt();
    assert_eq!(ui.state(), PairingUiState::Prompting);
    assert!(ui.submit_pin("123456", HostId(2), PairToken([1; 32]), 0).is_ok());
    assert_eq!(ui.state(), PairingUiState::Success);
    ui.reset();
    assert_eq!(ui.state(), PairingUiState::Idle);

    assert!(ui.submit_pin("abc", HostId(2), PairToken([1; 32]), 0).is_err());
    assert_eq!(
        ui.state(),
        PairingUiState::Failed("invalid PIN format: must be 6 digits".to_string())
    );
}

#[test]
fn test_viewer_pairing_execution_and_keychain_persistence() {
    let vid = ViewerId(uuid::Uuid::new_v4().as_u128());
    let hid = HostId(uuid::Uuid::new_v4().as_u128());
    let mut client = ViewerPairingClient::new(MockKeychain::new(), vid);
    let token = client.execute_pairing("654321", hid, PairToken([9u8; 32]), 0).unwrap();

    assert_ne!(token.0, [0u8; 32]);
    let entries = client.keychain().list_pairings().unwrap();
    assert_eq!(entries.len(), 1);
    assert_eq!(entries[0].host_id, hid.0);
    assert_eq!(entries[0].viewer_id, vid.0);
}

#[test]
fn test_pairing_ui_lifecycle_success() {
    let vid = ViewerId(uuid::Uuid::new_v4().as_u128());
    let hid = HostId(uuid::Uuid::new_v4().as_u128());
    let client = ViewerPairingClient::new(MockKeychain::new(), vid);
    let mut ui = PairingUi::new(client);

    assert_eq!(ui.state(), PairingUiState::Idle);

    ui.start_prompt();
    assert_eq!(ui.state(), PairingUiState::Prompting);

    let res = ui.submit_pin("123456", hid, PairToken([3u8; 32]), 0);
    assert!(res.is_ok());
    assert_eq!(ui.state(), PairingUiState::Success);

    ui.reset();
    assert_eq!(ui.state(), PairingUiState::Idle);
}

#[test]
fn test_pairing_ui_lifecycle_failure() {
    let vid = ViewerId(uuid::Uuid::new_v4().as_u128());
    let hid = HostId(uuid::Uuid::new_v4().as_u128());
    let client = ViewerPairingClient::new(MockKeychain::new(), vid);
    let mut ui = PairingUi::new(client);

    let res = ui.submit_pin("abc", hid, PairToken([3u8; 32]), 0);
    assert!(res.is_err());
    assert!(matches!(ui.state(), PairingUiState::Failed(_)));
}

#[test]
fn pairing_entry_carries_both_ids_and_the_fixed_expiry() {
    let entry = renderd::pairing::pairing_entry(HostId(3), ViewerId(4), &PairToken([6u8; 32]), 77);
    assert_eq!(entry.host_id, 3);
    assert_eq!(entry.viewer_id, 4);
    assert_eq!(entry.pair_token, vec![6u8; 32]);
    assert_eq!(entry.paired_at, 77);
    assert_eq!(entry.cert_expires_at, 9_999_999_999);
}
