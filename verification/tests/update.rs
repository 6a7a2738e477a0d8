use favorites::{
    set_authority, set_favorites, update_favorites, CustomError, Favorites, FavoritesStore, Pubkey,
    SetFavorites, UpdateFavorites,
};

fn key(byte: u8) -> Pubkey {
    Pubkey::new_from_array([byte; 32])
}

fn store_with(owner: Pubkey, number: u64, color: &str, delegate: Option<Pubkey>) -> FavoritesStore {
    let mut store = FavoritesStore::new();
    set_favorites(&mut store, SetFavorites { user: owner }, number, color.to_string()).unwrap();
    if delegate.is_some() {
        set_authority(&mut store, UpdateFavorites { user: owner, signer: owner }, delegate)
            .unwrap();
    }
    store
}

fn update(
    store: &mut FavoritesStore,
    signer: Pubkey,
    user: Pubkey,
    number: u64,
    color: &str,
) -> Result<Favorites, CustomError> {
    update_favorites(store, UpdateFavorites { user, signer }, number, color.to_string())
}

#[test]
fn owner_updates_number_and_color() {
    let mut store = store_with(key(1), 7, "blue", None);
    let updated = update(&mut store, key(1), key(1), 9, "red");
    let expected = Favorites { owner: key(1), number: 9, color: "red".to_string(), delegate: None };
    assert_eq!(updated, Ok(expected.clone()));
    assert_eq!(store.get(&key(1)), Some(expected));
}

#[test]
fn update_keeps_the_delegate() {
    let mut store = store_with(key(1), 7, "blue", Some(key(2)));
    let updated = update(&mut store, key(1), key(1), 9, "red").unwrap();
    assert_eq!(updated.delegate, Some(key(2)));
    assert_eq!(store.get(&key(1)).unwrap().delegate, Some(key(2)));
}

#[test]
fn stranger_cannot_update_a_record_without_delegate() {
    let mut store = store_with(key(1), 7, "blue", None);
    let before = store.get(&key(1));
    for stranger in [0u8, 2, 3, 255] {
        assert_eq!(
            update(&mut store, key(stranger), key(1), 1, "x"),
            Err(CustomError::Unauthorized)
        );
        assert_eq!(store.get(&key(1)), before);
    }
}

#[test]
fn stranger_cannot_update_a_record_with_delegate() {
    let mut store = store_with(key(1), 7, "blue", Some(key(2)));
    let before = store.get(&key(1));
    assert_eq!(update(&mut store, key(3), key(1), 1, "x"), Err(CustomError::Unauthorized));
    assert_eq!(store.get(&key(1)), before);
}

#[test]
fn update_of_a_missing_record_is_not_found() {
    let mut store = store_with(key(1), 7, "blue", None);
    assert_eq!(update(&mut store, key(2), key(2), 1, "x"), Err(CustomError::NotFound));
    assert_eq!(update(&mut store, key(1), key(2), 1, "x"), Err(CustomError::NotFound));
    assert!(!store.contains(&key(2)));
    assert_eq!(store.get(&key(1)).unwrap().number, 7);
}

#[test]
fn oversized_update_is_refused_whoever_asks() {
    let mut store = store_with(key(1), 7, "blue", Some(key(2)));
    let before = store.get(&key(1));
    let long = "y".repeat(51);
    for signer in [1u8, 2, 3] {
        assert_eq!(
            update(&mut store, key(signer), key(1), 1, &long),
            Err(CustomError::PayloadTooLarge)
        );
        assert_eq!(store.get(&key(1)), before);
    }
}

#[test]
fn oversized_update_of_a_missing_record_is_refused_for_its_length() {
    let mut store = FavoritesStore::new();
    let long = "y".repeat(80);
    assert_eq!(update(&mut store, key(1), key(1), 1, &long), Err(CustomError::PayloadTooLarge));
    assert!(!store.contains(&key(1)));
}

#[test]
fn update_accepts_fifty_characters_and_refuses_fifty_one() {
    let mut store = store_with(key(1), 7, "blue", None);
    let fifty = "ü".repeat(50);
    let updated = update(&mut store, key(1), key(1), 8, &fifty).unwrap();
    assert_eq!(updated.color, fifty);
    let fifty_one = "ü".repeat(51);
    assert_eq!(
        update(&mut store, key(1), key(1), 9, &fifty_one),
        Err(CustomError::PayloadTooLarge)
    );
    let kept = store.get(&key(1)).unwrap();
    assert_eq!(kept.number, 8);
    assert_eq!(kept.color, fifty);
}

#[test]
fn repeated_update_gives_the_same_record() {
    let mut store = store_with(key(1), 7, "blue", Some(key(2)));
    let first = update(&mut store, key(2), key(1), 11, "green");
    let after_first = store.get(&key(1));
    let second = update(&mut store, key(2), key(1), 11, "green");
    let after_second = store.get(&key(1));
    assert!(first.is_ok());
    assert_eq!(first, second);
    assert_eq!(after_first, after_second);
    assert_eq!(
        after_second,
        Some(Favorites {
            owner: key(1),
            number: 11,
            color: "green".to_string(),
            delegate: Some(key(2)),
        })
    );
}

#[test]
fn update_leaves_other_records_alone() {
    let mut store = store_with(key(1), 7, "blue", None);
    set_favorites(&mut store, SetFavorites { user: key(2) }, 8, "red".to_string()).unwrap();
    let other = store.get(&key(2));
    update(&mut store, key(1), key(1), 9, "green").unwrap();
    assert_eq!(store.get(&key(2)), other);
    assert_eq!(update(&mut store, key(1), key(2), 1, "x"), Err(CustomError::Unauthorized));
    assert_eq!(store.get(&key(2)), other);
}
