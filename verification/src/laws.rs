//! What holds of the registry's operations, whatever the storage and the
//! arguments.

use crate::cards::card_text;
use crate::error::Error;
use crate::host::host_string;
use crate::keys::DataKey;
use crate::keys::Slot;
use crate::model::accepted;
use crate::model::admin_mint_result;
use crate::model::admin_of;
use crate::model::after;
use crate::model::after_all;
use crate::model::allocation;
use crate::model::initialize_result;
use crate::model::initialized;
use crate::model::minted;
use crate::model::mints;
use crate::model::mints_among;
use crate::model::owner_at;
use crate::model::owner_of_result;
use crate::model::public_mint_result;
use crate::model::supply_of;
use crate::model::token_uri_result;
use crate::model::transfer_result;
use crate::model::transferred;
use crate::model::uri_at;
use crate::model::well_formed;
use crate::model::written;
use crate::model::Writes;
use crate::model::Call;
use crate::model::Entries;
use soroban_sdk::Address;
use vstd::prelude::*;

verus! {

/// Writes are made one after the other: no writes leave the storage as it
/// is, and up to three writes leave it with their entries put in, in their
/// order.
pub proof fn lemma_written(entries: Entries, writes: Writes)
    ensures
        writes.len() == 0 ==> written(entries, writes) == entries,
        writes.len() == 1 ==> written(entries, writes) == entries.insert(writes[0].0, writes[0].1),
        writes.len() == 2 ==> written(entries, writes) == entries.insert(
            writes[0].0,
            writes[0].1,
        ).insert(writes[1].0, writes[1].1),
        writes.len() == 3 ==> written(entries, writes) == entries.insert(
            writes[0].0,
            writes[0].1,
        ).insert(writes[1].0, writes[1].1).insert(writes[2].0, writes[2].1),
{
    reveal_with_fuel(written, 4);
    if writes.len() >= 2 {
        assert(writes.drop_last().last() == writes[writes.len() - 2]);
    }
    if writes.len() == 3 {
        assert(writes.drop_last().drop_last().last() == writes[0]);
    }
}

/// A storage without entries is well formed, has no administrator, counts no
/// token and holds none.
pub proof fn lemma_empty_is_well_formed(token_id: u64)
    ensures
        well_formed(Map::empty()),
        admin_of(Map::empty()) is None,
        supply_of(Map::empty()) == 0,
        owner_at(Map::empty(), token_id) is None,
        uri_at(Map::empty(), token_id) is None,
{
}

/// `initialize` leaves a well-formed storage well formed.
proof fn lemma_initialize_keeps_well_formed(entries: Entries, admin: Address)
    requires
        well_formed(entries),
        initialize_result(entries) is Ok,
    ensures
        well_formed(initialized(entries, admin)),
{
    let next = initialized(entries, admin);
    assert forall|token_id: u64| token_id >= supply_of(next) implies !next.dom().contains(
        #[trigger] DataKey::Owner(token_id).slot(),
    ) && !next.dom().contains(DataKey::URI(token_id).slot()) by {
        assert(!entries.dom().contains(DataKey::Owner(token_id).slot()));
    }
}

/// A mint leaves a well-formed storage well formed.
proof fn lemma_mint_keeps_well_formed(entries: Entries, to: Address, uri: soroban_sdk::String)
    requires
        well_formed(entries),
        admin_of(entries) is Some,
        allocation(entries) is Ok,
    ensures
        well_formed(minted(entries, to, uri)),
{
    let next = minted(entries, to, uri);
    let count = supply_of(entries);
    assert forall|token_id: u64| token_id < supply_of(next) implies #[trigger] owner_at(
        next,
        token_id,
    ) is Some && uri_at(next, token_id) is Some by {
        if token_id < count {
            assert(owner_at(entries, token_id) is Some);
        }
    }
    assert forall|token_id: u64| token_id >= supply_of(next) implies !next.dom().contains(
        #[trigger] DataKey::Owner(token_id).slot(),
    ) && !next.dom().contains(DataKey::URI(token_id).slot()) by {
        assert(!entries.dom().contains(DataKey::Owner(token_id).slot()));
    }
}

/// A transfer leaves a well-formed storage well formed.
proof fn lemma_transfer_keeps_well_formed(
    entries: Entries,
    from: Address,
    to: Address,
    token_id: u64,
)
    requires
        well_formed(entries),
        transfer_result(entries, from, token_id, Some(from)) is Ok,
    ensures
        well_formed(transferred(entries, to, token_id)),
{
    let next = transferred(entries, to, token_id);
    assert(token_id < supply_of(entries)) by {
        if token_id >= supply_of(entries) {
            assert(!entries.dom().contains(DataKey::Owner(token_id).slot()));
        }
    }
    assert forall|other: u64| other < supply_of(next) implies #[trigger] owner_at(next, other) is Some
        && uri_at(next, other) is Some by {
        assert(owner_at(entries, other) is Some);
    }
    assert forall|other: u64| other >= supply_of(next) implies !next.dom().contains(
        #[trigger] DataKey::Owner(other).slot(),
    ) && !next.dom().contains(DataKey::URI(other).slot()) by {
        assert(!entries.dom().contains(DataKey::Owner(other).slot()));
    }
}

/// Every call leaves a well-formed storage well formed, whether the registry
/// carries it out or refuses it.
pub proof fn lemma_call_keeps_well_formed(entries: Entries, call: Call)
    requires
        well_formed(entries),
    ensures
        well_formed(after(entries, call)),
{
    if accepted(entries, call) {
        match call {
            Call::Initialize { admin } => {
                lemma_initialize_keeps_well_formed(entries, admin);
            },
            Call::AdminMint { to, uri, authorized_by } => {
                lemma_mint_keeps_well_formed(entries, to, uri);
            },
            Call::PublicMint { to, authorized_by } => {
                lemma_mint_keeps_well_formed(
                    entries,
                    to,
                    host_string(card_text(supply_of(entries))),
                );
            },
            Call::Transfer { from, to, token_id, authorized_by } => {
                lemma_transfer_keeps_well_formed(entries, from, to, token_id);
            },
        }
    }
}

/// Whatever calls are made one after the other on a well-formed storage, it
/// stays well formed.
pub proof fn lemma_calls_keep_well_formed(entries: Entries, calls: Seq<Call>)
    requires
        well_formed(entries),
    ensures
        well_formed(after_all(entries, calls)),
    decreases calls.len(),
{
    if calls.len() > 0 {
        lemma_calls_keep_well_formed(entries, calls.drop_last());
        lemma_call_keeps_well_formed(after_all(entries, calls.drop_last()), calls.last());
    }
}

/// Every storage that calls of the registry make of an empty one is well
/// formed.
pub proof fn lemma_reachable_is_well_formed(calls: Seq<Call>)
    ensures
        well_formed(after_all(Map::empty(), calls)),
{
    lemma_calls_keep_well_formed(Map::empty(), calls);
}

/// A second `initialize` is refused as a re-initialization, whoever it
/// names, and the administrator is the one that the first call named.
pub proof fn lemma_initialize_once(entries: Entries, first: Address, second: Address)
    requires
        initialize_result(entries) is Ok,
    ensures
        initialize_result(initialized(entries, first)) == Err::<(), Error>(
            Error::AlreadyInitialized,
        ),
        after(initialized(entries, first), (Call::Initialize { admin: second })) == initialized(
            entries,
            first,
        ),
        admin_of(initialized(entries, first)) == Some(first),
        supply_of(initialized(entries, first)) == 0,
{
}

/// No call deletes an entry: a slot that holds a value holds one after any
/// calls.
pub proof fn lemma_entries_stay(entries: Entries, calls: Seq<Call>, slot: Slot)
    requires
        entries.dom().contains(slot),
    ensures
        after_all(entries, calls).dom().contains(slot),
    decreases calls.len(),
{
    if calls.len() > 0 {
        lemma_entries_stay(entries, calls.drop_last(), slot);
    }
}

/// Once there is an administrator, no call changes it.
pub proof fn lemma_admin_stays(entries: Entries, calls: Seq<Call>)
    requires
        admin_of(entries) is Some,
    ensures
        admin_of(after_all(entries, calls)) == admin_of(entries),
    decreases calls.len(),
{
    if calls.len() > 0 {
        lemma_admin_stays(entries, calls.drop_last());
    }
}

/// A mint that the registry carries out gives the token the number that the
/// count had, puts the count up by one, and makes the recipient the owner of
/// the new token and the given text its metadata pointer.
pub proof fn lemma_mint_counts(entries: Entries, to: Address, uri: soroban_sdk::String)
    requires
        allocation(entries) is Ok,
    ensures
        allocation(entries) == Ok::<u64, Error>(supply_of(entries)),
        supply_of(minted(entries, to, uri)) == supply_of(entries) + 1,
        owner_of_result(minted(entries, to, uri), supply_of(entries)) == Ok::<Address, Error>(to),
        token_uri_result(minted(entries, to, uri), supply_of(entries)) == Ok::<
            soroban_sdk::String,
            Error,
        >(uri),
{
}

/// A mint changes neither the administrator nor any other token.
pub proof fn lemma_mint_keeps_the_rest(
    entries: Entries,
    to: Address,
    uri: soroban_sdk::String,
    other: u64,
)
    requires
        other != supply_of(entries),
    ensures
        admin_of(minted(entries, to, uri)) == admin_of(entries),
        owner_at(minted(entries, to, uri), other) == owner_at(entries, other),
        uri_at(minted(entries, to, uri), other) == uri_at(entries, other),
{
}

/// A public mint that the registry carries out gives the new token the card
/// of its number.
pub proof fn lemma_public_mint_gives_the_card(
    entries: Entries,
    to: Address,
    authorized_by: Option<Address>,
)
    requires
        accepted(entries, (Call::PublicMint { to, authorized_by })),
    ensures
        token_uri_result(
            after(entries, (Call::PublicMint { to, authorized_by })),
            supply_of(entries),
        ) == Ok::<soroban_sdk::String, Error>(host_string(card_text(supply_of(entries)))),
        owner_of_result(
            after(entries, (Call::PublicMint { to, authorized_by })),
            supply_of(entries),
        ) == Ok::<Address, Error>(to),
{
}

/// In a well-formed storage the next token number is free: a mint is never
/// refused because its token exists.
pub proof fn lemma_next_number_is_free(
    entries: Entries,
    to: Address,
    authorized_by: Option<Address>,
)
    requires
        well_formed(entries),
    ensures
        allocation(entries) != Err::<u64, Error>(Error::TokenExists),
        admin_mint_result(entries, authorized_by) != Err::<u64, Error>(Error::TokenExists),
        public_mint_result(entries, to, authorized_by) != Err::<u64, Error>(Error::TokenExists),
{
    assert(!entries.dom().contains(DataKey::Owner(supply_of(entries)).slot()));
}

/// In a well-formed storage the count goes up by one with every mint that
/// the registry carries out, and with nothing else: after any calls it is the
/// count at the start plus the number of such mints among them.
pub proof fn lemma_count_is_the_mints(entries: Entries, calls: Seq<Call>)
    requires
        well_formed(entries),
    ensures
        supply_of(after_all(entries, calls)) == supply_of(entries) + mints_among(entries, calls),
    decreases calls.len(),
{
    if calls.len() > 0 {
        lemma_count_is_the_mints(entries, calls.drop_last());
        lemma_calls_keep_well_formed(entries, calls.drop_last());
    }
}

/// In a well-formed storage the tokens are numbered in the order of their
/// mints, without gaps and without repeats: where call `i` of `calls` is a
/// mint that the registry carries out, the new token's number is the count at
/// the start plus the number of such mints before it; so on a storage that
/// counted no token the mints get 0, 1, 2 and so on.
pub proof fn lemma_mints_number_in_order(entries: Entries, calls: Seq<Call>, i: int)
    requires
        well_formed(entries),
        0 <= i < calls.len(),
        mints(after_all(entries, calls.take(i)), calls[i]),
    ensures
        allocation(after_all(entries, calls.take(i))) == Ok::<u64, Error>(
            (supply_of(entries) + mints_among(entries, calls.take(i))) as u64,
        ),
        supply_of(entries) + mints_among(entries, calls.take(i)) < u64::MAX,
        owner_at(
            after_all(entries, calls.take(i + 1)),
            (supply_of(entries) + mints_among(entries, calls.take(i))) as u64,
        ) is Some,
        mints_among(entries, calls.take(i + 1)) == mints_among(entries, calls.take(i)) + 1,
{
    lemma_count_is_the_mints(entries, calls.take(i));
    assert(calls.take(i + 1).drop_last() == calls.take(i));
    assert(calls.take(i + 1).last() == calls[i]);
}

/// A token that has an owner keeps having one, whatever calls are made.
pub proof fn lemma_owned_tokens_stay_owned(entries: Entries, calls: Seq<Call>, token_id: u64)
    requires
        owner_at(entries, token_id) is Some,
    ensures
        owner_at(after_all(entries, calls), token_id) is Some,
    decreases calls.len(),
{
    if calls.len() > 0 {
        lemma_owned_tokens_stay_owned(entries, calls.drop_last(), token_id);
    }
}

/// In a well-formed storage the metadata pointer of a token never changes,
/// whatever calls are made.
pub proof fn lemma_uris_stay(entries: Entries, calls: Seq<Call>, token_id: u64)
    requires
        well_formed(entries),
        token_id < supply_of(entries),
    ensures
        uri_at(after_all(entries, calls), token_id) == uri_at(entries, token_id),
    decreases calls.len(),
{
    if calls.len() > 0 {
        lemma_uris_stay(entries, calls.drop_last(), token_id);
        lemma_count_is_the_mints(entries, calls.drop_last());
    }
}

/// A transfer is carried out exactly where the host has confirmed the
/// sender's authorization and the sender owns the token. It makes the
/// recipient the owner, and leaves the token's metadata pointer, the count,
/// the administrator and every other token as they were.
pub proof fn lemma_transfer(
    entries: Entries,
    from: Address,
    to: Address,
    token_id: u64,
    authorized_by: Option<Address>,
    other: u64,
)
    requires
        other != token_id,
    ensures
        transfer_result(entries, from, token_id, authorized_by) is Ok <==> authorized_by == Some(
            from,
        ) && owner_of_result(entries, token_id) == Ok::<Address, Error>(from),
        owner_of_result(transferred(entries, to, token_id), token_id) == Ok::<Address, Error>(to),
        token_uri_result(transferred(entries, to, token_id), token_id) == token_uri_result(
            entries,
            token_id,
        ),
        supply_of(transferred(entries, to, token_id)) == supply_of(entries),
        admin_of(transferred(entries, to, token_id)) == admin_of(entries),
        owner_at(transferred(entries, to, token_id), other) == owner_at(entries, other),
        uri_at(transferred(entries, to, token_id), other) == uri_at(entries, other),
{
}

/// In a well-formed storage the tokens are the numbers below the count:
/// `owner_of` and `token_uri` answer for those and are refused for all
/// others.
pub proof fn lemma_tokens_are_below_the_count(entries: Entries, token_id: u64)
    requires
        well_formed(entries),
    ensures
        owner_of_result(entries, token_id) is Ok <==> token_id < supply_of(entries),
        token_uri_result(entries, token_id) is Ok <==> token_id < supply_of(entries),
        token_id >= supply_of(entries) ==> owner_of_result(entries, token_id) == Err::<
            Address,
            Error,
        >(Error::TokenNotFound) && token_uri_result(entries, token_id) == Err::<
            soroban_sdk::String,
            Error,
        >(Error::TokenNotFound),
{
    if token_id < supply_of(entries) {
        assert(owner_at(entries, token_id) is Some);
    } else {
        assert(!entries.dom().contains(DataKey::Owner(token_id).slot()));
    }
}

} // verus!
