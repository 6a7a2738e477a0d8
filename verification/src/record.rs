//! The record that the store keeps for each owner.

use vstd::prelude::*;
use crate::pubkey::Pubkey;

verus! {

/// The largest number of characters that a record's color may have.
pub const MAX_COLOR_LEN: usize = 50;

/// The favorites of one owner.
#[derive(Debug)]
pub struct Favorites {
    /// Who created the record. Never changes.
    pub owner: Pubkey,
    /// The owner's favorite number.
    pub number: u64,
    /// The owner's favorite color, at most [`MAX_COLOR_LEN`] characters.
    pub color: String,
    /// Who else may change the record, if anyone.
    pub delegate: Option<Pubkey>,
}

/// What a record holds, as mathematical values.
pub struct FavoritesView {
    pub owner: Seq<u8>,
    pub number: u64,
    pub color: Seq<char>,
    pub delegate: Option<Seq<u8>>,
}

/// The identity behind an optional key.
pub open spec fn delegate_view(delegate: Option<Pubkey>) -> Option<Seq<u8>> {
    match delegate {
        Some(key) => Some(key@),
        None => None,
    }
}

impl FavoritesView {
    /// Whether `requester` may change the record: the owner always may, and
    /// so may the delegate that the record names at this moment.
    pub open spec fn authorizes(self, requester: Seq<u8>) -> bool {
        requester == self.owner || self.delegate == Some(requester)
    }

    /// Whether the color fits in a record.
    pub open spec fn fits(self) -> bool {
        self.color.len() <= MAX_COLOR_LEN
    }
}

impl View for Favorites {
    type V = FavoritesView;

    open spec fn view(&self) -> FavoritesView {
        FavoritesView {
            owner: self.owner@,
            number: self.number,
            color: self.color@,
            delegate: delegate_view(self.delegate),
        }
    }
}

impl Favorites {
    /// Whether `requester` is the owner or the current delegate.
    pub fn is_authorized(&self, requester: &Pubkey) -> (allowed: bool)
        ensures
            allowed == self@.authorizes(requester@),
    {
        let is_owner = *requester == self.owner;
        let is_delegate = match &self.delegate {
            Some(delegate) => *delegate == *requester,
            None => false,
        };
        is_owner || is_delegate
    }
}

impl Clone for Favorites {
    fn clone(&self) -> (copy: Favorites)
        ensures
            copy@ == self@,
    {
        Favorites {
            owner: self.owner,
            number: self.number,
            color: self.color.clone(),
            delegate: self.delegate,
        }
    }
}

impl PartialEq for Favorites {
    fn eq(&self, other: &Favorites) -> (same: bool) {
        let same_delegate = match (&self.delegate, &other.delegate) {
            (Some(a), Some(b)) => *a == *b,
            (None, None) => true,
            _ => false,
        };
        self.owner == other.owner && self.number == other.number && self.color == other.color
            && same_delegate
    }
}

impl vstd::std_specs::cmp::PartialEqSpecImpl for Favorites {
    open spec fn obeys_eq_spec() -> bool {
        true
    }

    open spec fn eq_spec(&self, other: &Favorites) -> bool {
        self@ == other@
    }
}

impl Eq for Favorites {}

} // verus!
