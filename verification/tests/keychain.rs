use renderd::keychain::{
    credential_target, to_utf16, KeychainError, KeychainStore, MockKeychain, PairingEntry,
};
use uuid::Uuid;

fn make_entry(host_id: u128, viewer_id: u128) -> PairingEntry {
    PairingEntry { host_id, viewer_id, pair_token: vec![10, 20, 30], paired_at: 100, cert_expires_at: 200 }
}

#[test]
fn test_mock_keychain_crud() {
    let mut mock = MockKeychain::new();
    let host_id = Uuid::new_v4().as_u128();
    let viewer_id = Uuid::new_v4().as_u128();
    let entry = make_entry(host_id, viewer_id);

    mock.save_pairing(&entry).unwrap();

    let loaded = mock.load_pairing(viewer_id).unwrap();
    assert_eq!(loaded, entry);

    let list = mock.list_pairings().unwrap();
    assert_eq!(list.len(), 1);
    assert_eq!(list[0], entry);

    mock.delete_pairing(viewer_id).unwrap();

    let loaded_err = mock.load_pairing(viewer_id);
    assert!(matches!(loaded_err, Err(KeychainError::NotFound(_))));
}

#[test]
fn test_load_missing_returns_not_found() {
    let mock = MockKeychain::new();
    let unknown = Uuid::new_v4();
    let err = mock.load_pairing(unknown.as_u128()).unwrap_err();
    match err {
        KeychainError::NotFound(peer) => assert_eq!(peer, unknown.to_string()),
        other => panic!("expected NotFound, got {other:?}"),
    }
}

#[test]
fn test_delete_missing_returns_not_found() {
    let mut mock = MockKeychain::new();
    let unknown = Uuid::new_v4().as_u128();
    let err = mock.delete_pairing(unknown).unwrap_err();
    assert!(matches!(err, KeychainError::NotFound(_)), "expected NotFound, got {err:?}");
}

#[test]
fn test_double_delete_returns_not_found() {
    let mut mock = MockKeychain::new();
    let host_id = Uuid::new_v4().as_u128();
    let viewer_id = Uuid::new_v4().as_u128();
    mock.save_pairing(&make_entry(host_id, viewer_id)).unwrap();
    mock.delete_pairing(viewer_id).unwrap();
    let err = mock.delete_pairing(viewer_id).unwrap_err();
    assert!(matches!(err, KeychainError::NotFound(_)));
}

#[test]
fn test_save_overwrites_existing_entry() {
    let mut mock = MockKeychain::new();
    let host_id = Uuid::new_v4().as_u128();
    let viewer_id = Uuid::new_v4().as_u128();

    let entry_v1 = PairingEntry {
        host_id,
        viewer_id,
        pair_token: vec![1, 2, 3],
        paired_at: 1000,
        cert_expires_at: 2000,
    };
    let entry_v2 = PairingEntry {
        host_id,
        viewer_id,
        pair_token: vec![7, 8, 9],
        paired_at: 9999,
        cert_expires_at: 19999,
    };

    mock.save_pairing(&entry_v1).unwrap();
    mock.save_pairing(&entry_v2).unwrap();

    let loaded = mock.load_pairing(viewer_id).unwrap();
    assert_eq!(loaded, entry_v2, "second save must overwrite first");
    assert_eq!(mock.list_pairings().unwrap().len(), 1, "overwrite must not create duplicate entries");
}

#[test]
fn test_list_empty_store_returns_empty_vec() {
    let mock = MockKeychain::new();
    let list = mock.list_pairings().unwrap();
    assert!(list.is_empty(), "empty store must yield empty list");
}

#[test]
fn test_multiple_entries_are_independent() {
    let mut mock = MockKeychain::new();
    let host_id = Uuid::new_v4().as_u128();

    let ids: Vec<u128> = (0..5).map(|_| Uuid::new_v4().as_u128()).collect();
    for &v in &ids {
        mock.save_pairing(&make_entry(host_id, v)).unwrap();
    }

    assert_eq!(mock.list_pairings().unwrap().len(), 5);

    for &v in &ids {
        let loaded = mock.load_pairing(v).unwrap();
        assert_eq!(loaded.viewer_id, v);
    }

    mock.delete_pairing(ids[2]).unwrap();
    assert_eq!(mock.list_pairings().unwrap().len(), 4);
    assert!(mock.load_pairing(ids[0]).is_ok());
    assert!(mock.load_pairing(ids[1]).is_ok());
    assert!(mock.load_pairing(ids[3]).is_ok());
    assert!(mock.load_pairing(ids[4]).is_ok());
    assert!(mock.load_pairing(ids[2]).is_err());
}

#[test]
fn test_keychain_store_trait_compiles() {
    let store = MockKeychain::default();
    assert!(store.list_pairings().unwrap().is_empty());
}

#[test]
fn wipe_token_clears_the_secret() {
    let mut entry = make_entry(1, 2);
    entry.wipe_token();
    assert!(entry.pair_token.is_empty());
    assert_eq!(entry.viewer_id, 2);
}

#[test]
fn utf16_form_is_nul_terminated() {
    assert_eq!(to_utf16("Ab"), vec![0x41, 0x62, 0]);
    assert_eq!(to_utf16("é😀"), vec![0xE9, 0xD83D, 0xDE00, 0]);
    let text = "Renderd/Pairing/ü";
    let mut expected: Vec<u16> = text.encode_utf16().collect();
    expected.push(0);
    assert_eq!(to_utf16(text), expected);
}

#[test]
fn credential_target_names_the_viewer() {
    let id = Uuid::new_v4();
    assert_eq!(credential_target(id.as_u128()), format!("Renderd/Pairing/{id}"));
}

#[test]
fn test_mock_keychain_arc_shared_access() {
    let mut mock = MockKeychain::new();
    let host_id = Uuid::new_v4().as_u128();
    let viewer_id = Uuid::new_v4().as_u128();
    let entry = make_entry(host_id, viewer_id);

    let writer = &mut mock;
    writer.save_pairing(&entry).unwrap();

    let reader = &mock;
    assert_eq!(reader.load_pairing(viewer_id).unwrap(), entry);
}
