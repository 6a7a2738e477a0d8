//! A delegated account store: one record of favorites per owner, which the
//! owner or a delegate of the owner's choosing may change.

pub mod address;
pub mod error;
pub mod instructions;
pub mod laws;
pub mod pubkey;
pub mod record;
pub mod store;

pub use address::favorites_address;
pub use error::CustomError;
pub use instructions::{set_authority, set_favorites, update_favorites, SetFavorites, UpdateFavorites};
pub use pubkey::Pubkey;
pub use record::{Favorites, MAX_COLOR_LEN};
pub use store::{DelegatePolicy, FavoritesStore};
