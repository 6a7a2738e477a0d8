use favorites::{CustomError, Favorites, Pubkey};

fn key(byte: u8) -> Pubkey {
    Pubkey::new_from_array([byte; 32])
}

#[test]
fn record_authorizes_owner_and_delegate_only() {
    let mut record =
        Favorites { owner: key(1), number: 7, color: "blue".to_string(), delegate: None };
    assert!(record.is_authorized(&key(1)));
    assert!(!record.is_authorized(&key(2)));
    record.delegate = Some(key(2));
    assert!(record.is_authorized(&key(1)));
    assert!(record.is_authorized(&key(2)));
    assert!(!record.is_authorized(&key(3)));
}

#[test]
fn records_compare_by_every_field() {
    let record =
        Favorites { owner: key(1), number: 7, color: "blue".to_string(), delegate: Some(key(2)) };
    assert!(record == record.clone());
    assert!(record != Favorites { owner: key(3), ..record.clone() });
    assert!(record != Favorites { number: 8, ..record.clone() });
    assert!(record != Favorites { color: "red".to_string(), ..record.clone() });
    assert!(record != Favorites { delegate: None, ..record.clone() });
    assert!(record != Favorites { delegate: Some(key(3)), ..record.clone() });
}

#[test]
fn key_round_trips_through_its_bytes() {
    let mut bytes = [0u8; 32];
    for (index, byte) in bytes.iter_mut().enumerate() {
        *byte = index as u8;
    }
    let key = Pubkey::new_from_array(bytes);
    assert_eq!(key.to_bytes(), bytes);
    assert_eq!(key.bytes, bytes);
}

#[test]
fn every_error_has_its_message() {
    assert_eq!(
        CustomError::Unauthorized.message(),
        "Only the authority or delegate can update this account."
    );
    assert_eq!(
        CustomError::AlreadyExists.message(),
        "A favorites account already exists for this user."
    );
    assert_eq!(CustomError::NotFound.message(), "No favorites account exists for this user.");
    assert_eq!(CustomError::PayloadTooLarge.message(), "The color is longer than 50 characters.");
}
