//! What holds of the requests whatever the ledger they meet.

use vstd::prelude::*;
use crate::error::CustomError;
use crate::instructions::{
    create_outcome, may_delegate, set_authority_outcome, settle, update_outcome, Outcome,
};
use crate::record::{FavoritesView, MAX_COLOR_LEN};
use crate::store::{valid_ledger, DelegatePolicy, Ledger};

verus! {

/// Once a record has been created for an owner, creating one for the same
/// owner again is refused with `AlreadyExists`, whatever number and color the
/// second request brings, and the record of the first request stays as it
/// was made.
pub proof fn second_create_is_refused(
    ledger: Ledger,
    owner: Seq<u8>,
    number: u64,
    color: Seq<char>,
    other_number: u64,
    other_color: Seq<char>,
)
    requires
        create_outcome(ledger, owner, number, color) is Ok,
    ensures
        ({
            let created = settle(ledger, owner, create_outcome(ledger, owner, number, color));
            let second = create_outcome(created, owner, other_number, other_color);
            &&& second == Err::<FavoritesView, CustomError>(CustomError::AlreadyExists)
            &&& settle(created, owner, second) == created
            &&& created[owner] == (FavoritesView { owner, number, color, delegate: None })
        }),
{
}

/// While a record names no delegate, a request to update it that comes from
/// anyone but its owner is refused with `Unauthorized` and changes nothing.
///
/// The color of the request is one that fits: a longer one is refused for its
/// length before anyone's right is looked at.
pub proof fn stranger_cannot_update(
    ledger: Ledger,
    requester: Seq<u8>,
    owner: Seq<u8>,
    number: u64,
    color: Seq<char>,
)
    requires
        ledger.contains_key(owner),
        ledger[owner].delegate is None,
        requester != owner,
        color.len() <= MAX_COLOR_LEN,
    ensures
        update_outcome(ledger, requester, owner, number, color) == Err::<
            FavoritesView,
            CustomError,
        >(CustomError::Unauthorized),
        settle(ledger, owner, update_outcome(ledger, requester, owner, number, color)) == ledger,
{
}

/// Once the owner has named a delegate, the delegate's update succeeds and
/// replaces number and color; once the owner has cleared the delegate again,
/// the next update of the former delegate is refused with `Unauthorized` and
/// changes nothing.
///
/// The colors are ones that fit, and the delegate is someone other than the
/// owner, who may update at any time.
pub proof fn delegate_updates_until_revoked(
    ledger: Ledger,
    policy: DelegatePolicy,
    owner: Seq<u8>,
    delegate: Seq<u8>,
    number: u64,
    color: Seq<char>,
    later_number: u64,
    later_color: Seq<char>,
)
    requires
        ledger.contains_key(owner),
        delegate != owner,
        color.len() <= MAX_COLOR_LEN,
        later_color.len() <= MAX_COLOR_LEN,
    ensures
        ({
            let granted = settle(
                ledger,
                owner,
                set_authority_outcome(ledger, policy, owner, owner, Some(delegate)),
            );
            let update = update_outcome(granted, delegate, owner, number, color);
            let updated = settle(granted, owner, update);
            let revoked = settle(
                updated,
                owner,
                set_authority_outcome(updated, policy, owner, owner, None),
            );
            let late = update_outcome(revoked, delegate, owner, later_number, later_color);
            &&& update == Ok::<FavoritesView, CustomError>(
                FavoritesView { owner, number, color, delegate: Some(delegate) },
            )
            &&& updated[owner] == (FavoritesView { owner, number, color, delegate: Some(delegate) })
            &&& revoked[owner] == (FavoritesView { owner, number, color, delegate: None })
            &&& late == Err::<FavoritesView, CustomError>(CustomError::Unauthorized)
            &&& settle(revoked, owner, late) == revoked
        }),
{
}

/// An update whose color has more than [`MAX_COLOR_LEN`] characters is
/// refused with `PayloadTooLarge` and changes nothing, whoever asks and
/// whatever the ledger holds.
pub proof fn oversized_update_is_refused(
    ledger: Ledger,
    requester: Seq<u8>,
    owner: Seq<u8>,
    number: u64,
    color: Seq<char>,
)
    requires
        color.len() > MAX_COLOR_LEN,
    ensures
        update_outcome(ledger, requester, owner, number, color) == Err::<
            FavoritesView,
            CustomError,
        >(CustomError::PayloadTooLarge),
        settle(ledger, owner, update_outcome(ledger, requester, owner, number, color)) == ledger,
{
}

/// An update that has succeeded succeeds again when it is repeated at once,
/// returns the same record, and leaves the ledger as the first one left it.
pub proof fn update_is_idempotent(
    ledger: Ledger,
    requester: Seq<u8>,
    owner: Seq<u8>,
    number: u64,
    color: Seq<char>,
)
    requires
        update_outcome(ledger, requester, owner, number, color) is Ok,
    ensures
        ({
            let first = update_outcome(ledger, requester, owner, number, color);
            let updated = settle(ledger, owner, first);
            let second = update_outcome(updated, requester, owner, number, color);
            &&& second == first
            &&& settle(updated, owner, second) == updated
        }),
{
    let first = update_outcome(ledger, requester, owner, number, color);
    let updated = settle(ledger, owner, first);
    let second = update_outcome(updated, requester, owner, number, color);
    assert(settle(updated, owner, second) =~= updated);
}

/// No request changes who owns a record or lets a color grow past the
/// bound: a ledger in which every record is kept under its owner and fits
/// stays one, whatever the request and however it ends.
pub proof fn requests_keep_ledger_valid(
    ledger: Ledger,
    policy: DelegatePolicy,
    requester: Seq<u8>,
    owner: Seq<u8>,
    number: u64,
    color: Seq<char>,
    delegate: Option<Seq<u8>>,
)
    requires
        valid_ledger(ledger),
    ensures
        valid_ledger(settle(ledger, owner, create_outcome(ledger, owner, number, color))),
        valid_ledger(
            settle(ledger, owner, update_outcome(ledger, requester, owner, number, color)),
        ),
        valid_ledger(
            settle(
                ledger,
                owner,
                set_authority_outcome(ledger, policy, requester, owner, delegate),
            ),
        ),
{
}

/// A record exists exactly from its creation on: a request to update a record
/// or to change its delegate neither adds a record nor removes one, and a
/// creation that succeeds adds the record of its owner and no other.
pub proof fn only_create_adds_a_record(
    ledger: Ledger,
    policy: DelegatePolicy,
    requester: Seq<u8>,
    owner: Seq<u8>,
    number: u64,
    color: Seq<char>,
    delegate: Option<Seq<u8>>,
)
    ensures
        settle(ledger, owner, update_outcome(ledger, requester, owner, number, color)).dom()
            == ledger.dom(),
        settle(
            ledger,
            owner,
            set_authority_outcome(ledger, policy, requester, owner, delegate),
        ).dom() == ledger.dom(),
        create_outcome(ledger, owner, number, color) is Ok ==> settle(
            ledger,
            owner,
            create_outcome(ledger, owner, number, color),
        ).dom() == ledger.dom().insert(owner),
        create_outcome(ledger, owner, number, color) is Err ==> settle(
            ledger,
            owner,
            create_outcome(ledger, owner, number, color),
        ) == ledger,
{
    let updated = settle(ledger, owner, update_outcome(ledger, requester, owner, number, color));
    assert(updated.dom() =~= ledger.dom());
    let changed = settle(
        ledger,
        owner,
        set_authority_outcome(ledger, policy, requester, owner, delegate),
    );
    assert(changed.dom() =~= ledger.dom());
}

/// A request addressed to one owner leaves the record of every other owner
/// as it was.
pub proof fn other_records_are_untouched(
    ledger: Ledger,
    owner: Seq<u8>,
    outcome: Outcome,
    other: Seq<u8>,
)
    requires
        other != owner,
    ensures
        settle(ledger, owner, outcome).contains_key(other) == ledger.contains_key(other),
        settle(ledger, owner, outcome)[other] == ledger[other],
{
}

/// Under [`DelegatePolicy::OwnerOnly`] a delegate cannot hand the record on:
/// a request to change the delegate that comes from anyone but the owner is
/// refused with `Unauthorized` and changes nothing.
pub proof fn owner_only_keeps_delegation_with_owner(
    ledger: Ledger,
    requester: Seq<u8>,
    owner: Seq<u8>,
    delegate: Option<Seq<u8>>,
)
    requires
        ledger.contains_key(owner),
        requester != owner,
    ensures
        !may_delegate(ledger, DelegatePolicy::OwnerOnly, requester, owner),
        set_authority_outcome(ledger, DelegatePolicy::OwnerOnly, requester, owner, delegate)
            == Err::<FavoritesView, CustomError>(CustomError::Unauthorized),
{
}

} // verus!
