//! The three requests that the store serves, and what each of them does.
//!
//! The spec functions say what a request returns from the ledger it meets;
//! the executable functions carry that out on a [`FavoritesStore`].

use vstd::prelude::*;
use vstd::string::*;
use crate::error::CustomError;
use crate::pubkey::Pubkey;
use crate::record::{delegate_view, Favorites, FavoritesView, MAX_COLOR_LEN};
use crate::store::{DelegatePolicy, FavoritesStore, Ledger};

verus! {

/// The accounts of a request to create a record.
#[derive(Clone, Copy, Debug)]
pub struct SetFavorites {
    /// The owner of the record to be.
    pub user: Pubkey,
}

/// The accounts of a request to change a record or its delegate.
#[derive(Clone, Copy, Debug)]
pub struct UpdateFavorites {
    /// The owner of the record that the request is addressed to.
    pub user: Pubkey,
    /// Who makes the request.
    pub signer: Pubkey,
}

/// What a request hands back: the record as it stands after the request, or
/// the reason for which the request was refused.
pub type Outcome = Result<FavoritesView, CustomError>;

/// What the executable functions hand back, as mathematical values.
pub open spec fn outcome_view(result: Result<Favorites, CustomError>) -> Outcome {
    match result {
        Ok(record) => Ok(record@),
        Err(error) => Err(error),
    }
}

/// The ledger after a request addressed to `owner` has ended in `outcome`:
/// a request that succeeds leaves its record with the owner, and a request
/// that is refused leaves everything as it was.
pub open spec fn settle(ledger: Ledger, owner: Seq<u8>, outcome: Outcome) -> Ledger {
    match outcome {
        Ok(record) => ledger.insert(owner, record),
        Err(_) => ledger,
    }
}

/// Whether `requester` may change the number and color of the record of
/// `owner`: the owner may, and so may the delegate of that record.
pub open spec fn may_update(ledger: Ledger, requester: Seq<u8>, owner: Seq<u8>) -> bool {
    requester == owner || ledger[owner].delegate == Some(requester)
}

/// Whether `requester` may change the delegate of the record of `owner`: the
/// owner may, and under [`DelegatePolicy::OwnerOrDelegate`] so may the
/// delegate of that record.
pub open spec fn may_delegate(
    ledger: Ledger,
    policy: DelegatePolicy,
    requester: Seq<u8>,
    owner: Seq<u8>,
) -> bool {
    requester == owner || (policy == DelegatePolicy::OwnerOrDelegate && ledger[owner].delegate
        == Some(requester))
}

/// Creating the record of `owner`.
pub open spec fn create_outcome(
    ledger: Ledger,
    owner: Seq<u8>,
    number: u64,
    color: Seq<char>,
) -> Outcome {
    if ledger.contains_key(owner) {
        Err(CustomError::AlreadyExists)
    } else if color.len() > MAX_COLOR_LEN {
        Err(CustomError::PayloadTooLarge)
    } else {
        Ok(FavoritesView { owner, number, color, delegate: None })
    }
}

/// Changing the number and color of the record of `owner` at the request of
/// `requester`.
pub open spec fn update_outcome(
    ledger: Ledger,
    requester: Seq<u8>,
    owner: Seq<u8>,
    number: u64,
    color: Seq<char>,
) -> Outcome {
    if color.len() > MAX_COLOR_LEN {
        Err(CustomError::PayloadTooLarge)
    } else if !ledger.contains_key(owner) {
        Err(CustomError::NotFound)
    } else if !may_update(ledger, requester, owner) {
        Err(CustomError::Unauthorized)
    } else {
        Ok(FavoritesView { owner, number, color, delegate: ledger[owner].delegate })
    }
}

/// Changing the delegate of the record of `owner` at the request of
/// `requester`.
pub open spec fn set_authority_outcome(
    ledger: Ledger,
    policy: DelegatePolicy,
    requester: Seq<u8>,
    owner: Seq<u8>,
    delegate: Option<Seq<u8>>,
) -> Outcome {
    if !ledger.contains_key(owner) {
        Err(CustomError::NotFound)
    } else if !may_delegate(ledger, policy, requester, owner) {
        Err(CustomError::Unauthorized)
    } else {
        Ok(FavoritesView { owner, number: ledger[owner].number, color: ledger[owner].color, delegate })
    }
}

/// Creates the record of `context.user` with the given number and color and
/// no delegate, and returns it.
///
/// Refused with `AlreadyExists` where the user has a record, else with
/// `PayloadTooLarge` where the color has more than [`MAX_COLOR_LEN`]
/// characters. A refused request leaves the store as it was.
pub fn set_favorites(
    store: &mut FavoritesStore,
    context: SetFavorites,
    number: u64,
    color: String,
) -> (result: Result<Favorites, CustomError>)
    requires
        old(store).wf(),
    ensures
        final(store).wf(),
        final(store).spec_policy() == old(store).spec_policy(),
        outcome_view(result) == create_outcome(old(store)@, context.user@, number, color@),
        final(store)@ == settle(old(store)@, context.user@, outcome_view(result)),
        result is Ok <==> !old(store)@.contains_key(context.user@) && color@.len()
            <= MAX_COLOR_LEN,
        result is Err ==> final(store)@ == old(store)@,
{
    if store.contains(&context.user) {
        return Err(CustomError::AlreadyExists);
    }
    if color.as_str().unicode_len() > MAX_COLOR_LEN {
        return Err(CustomError::PayloadTooLarge);
    }
    let record = Favorites { owner: context.user, number, color, delegate: None };
    let created = record.clone();
    store.put(record);
    Ok(created)
}

/// Replaces the number and color of the record of `context.user` at the
/// request of `context.signer`, keeps its delegate, and returns the record.
///
/// Refused with `PayloadTooLarge` where the color has more than
/// [`MAX_COLOR_LEN`] characters, whoever asks; else with `NotFound` where the
/// user has no record; else with `Unauthorized` where the signer is neither
/// the user nor the delegate that the record names now. A refused request
/// leaves the store as it was.
pub fn update_favorites(
    store: &mut FavoritesStore,
    context: UpdateFavorites,
    number: u64,
    color: String,
) -> (result: Result<Favorites, CustomError>)
    requires
        old(store).wf(),
    ensures
        final(store).wf(),
        final(store).spec_policy() == old(store).spec_policy(),
        outcome_view(result) == update_outcome(
            old(store)@,
            context.signer@,
            context.user@,
            number,
            color@,
        ),
        final(store)@ == settle(old(store)@, context.user@, outcome_view(result)),
        result is Ok <==> color@.len() <= MAX_COLOR_LEN && old(store)@.contains_key(context.user@)
            && may_update(old(store)@, context.signer@, context.user@),
        color@.len() > MAX_COLOR_LEN ==> result == Err::<Favorites, CustomError>(
            CustomError::PayloadTooLarge,
        ),
        result is Err ==> final(store)@ == old(store)@,
{
    if color.as_str().unicode_len() > MAX_COLOR_LEN {
        return Err(CustomError::PayloadTooLarge);
    }
    let current = match store.get(&context.user) {
        Some(record) => record,
        None => {
            return Err(CustomError::NotFound);
        },
    };
    if !current.is_authorized(&context.signer) {
        return Err(CustomError::Unauthorized);
    }
    let record = Favorites { owner: current.owner, number, color, delegate: current.delegate };
    let updated = record.clone();
    store.put(record);
    Ok(updated)
}

/// Sets or clears the delegate of the record of `context.user` at the request
/// of `context.signer`, keeps its number and color, and returns the record.
///
/// Refused with `NotFound` where the user has no record, else with
/// `Unauthorized` where the signer is not the user and, under
/// [`DelegatePolicy::OwnerOrDelegate`], not the delegate that the record
/// names now either. A refused request leaves the store as it was.
pub fn set_authority(
    store: &mut FavoritesStore,
    context: UpdateFavorites,
    delegate: Option<Pubkey>,
) -> (result: Result<Favorites, CustomError>)
    requires
        old(store).wf(),
    ensures
        final(store).wf(),
        final(store).spec_policy() == old(store).spec_policy(),
        outcome_view(result) == set_authority_outcome(
            old(store)@,
            old(store).spec_policy(),
            context.signer@,
            context.user@,
            delegate_view(delegate),
        ),
        final(store)@ == settle(old(store)@, context.user@, outcome_view(result)),
        result is Ok <==> old(store)@.contains_key(context.user@) && may_delegate(
            old(store)@,
            old(store).spec_policy(),
            context.signer@,
            context.user@,
        ),
        result is Err ==> final(store)@ == old(store)@,
{
    let current = match store.get(&context.user) {
        Some(record) => record,
        None => {
            return Err(CustomError::NotFound);
        },
    };
    let allowed = match store.policy() {
        DelegatePolicy::OwnerOrDelegate => current.is_authorized(&context.signer),
        DelegatePolicy::OwnerOnly => context.signer == current.owner,
    };
    if !allowed {
        return Err(CustomError::Unauthorized);
    }
    let record = Favorites {
        owner: current.owner,
        number: current.number,
        color: current.color,
        delegate,
    };
    let changed = record.clone();
    store.put(record);
    Ok(changed)
}

} // verus!
