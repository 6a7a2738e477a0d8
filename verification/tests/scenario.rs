use favorites::{
    set_authority, set_favorites, update_favorites, CustomError, Favorites, FavoritesStore, Pubkey,
    SetFavorites, UpdateFavorites,
};

fn key(byte: u8) -> Pubkey {
    Pubkey::new_from_array([byte; 32])
}

fn record(owner: Pubkey, number: u64, color: &str, delegate: Option<Pubkey>) -> Favorites {
    Favorites { owner, number, color: color.to_string(), delegate }
}

#[test]
fn owner_and_delegate_walk_through() {
    let (a, b, c) = (key(1), key(2), key(3));
    let mut store = FavoritesStore::new();

    let created = set_favorites(&mut store, SetFavorites { user: a }, 7, "blue".to_string());
    assert_eq!(created, Ok(record(a, 7, "blue", None)));

    let updated = update_favorites(
        &mut store,
        UpdateFavorites { user: a, signer: a },
        9,
        "red".to_string(),
    );
    assert_eq!(updated, Ok(record(a, 9, "red", None)));

    let delegated = set_authority(&mut store, UpdateFavorites { user: a, signer: a }, Some(b));
    assert_eq!(delegated, Ok(record(a, 9, "red", Some(b))));

    let by_delegate = update_favorites(
        &mut store,
        UpdateFavorites { user: a, signer: b },
        11,
        "green".to_string(),
    );
    assert_eq!(by_delegate, Ok(record(a, 11, "green", Some(b))));

    let by_stranger =
        update_favorites(&mut store, UpdateFavorites { user: a, signer: c }, 1, "x".to_string());
    assert_eq!(by_stranger, Err(CustomError::Unauthorized));
    assert_eq!(store.get(&a), Some(record(a, 11, "green", Some(b))));
}
