//! The operations of the registry.
//!
//! The registry does not touch the storage. Its caller reads from the
//! storage what an operation asks for, hands it over, and gets back the
//! operation's answer and, where the registry carries the operation out, the
//! entries to write. The contract of each operation says what it answers to
//! what was read, what it writes, and that on every storage from which this
//! was read the answer and the writes are those of [`crate::model`].
//!
//! Each operation that acts on somebody's behalf takes `authorized_by`: the
//! party whose authorization of the call the host has confirmed, if there is
//! one. The caller asks the host, with `Address::require_auth`, before it
//! calls the registry, and the registry holds the answer against the party
//! that the operation acts for.

use crate::cards::card_text;
use crate::cards::card_uri;
use crate::error::Error;
use crate::host;
use crate::host::host_string;
use crate::keys::DataKey;
use crate::keys::Slot;
use crate::laws::lemma_written;
use crate::model::admin_mint_answer;
use crate::model::admin_mint_result;
use crate::model::admin_of;
use crate::model::after;
use crate::model::allocation_answer;
use crate::model::count_of;
use crate::model::has_admin;
use crate::model::initialize_answer;
use crate::model::initialize_result;
use crate::model::initialize_writes;
use crate::model::mint_writes;
use crate::model::next_is_owned;
use crate::model::owner_at;
use crate::model::owner_of_answer;
use crate::model::owner_of_result;
use crate::model::public_mint_answer;
use crate::model::public_mint_result;
use crate::model::supply_of;
use crate::model::token_uri_answer;
use crate::model::token_uri_result;
use crate::model::total_supply_answer;
use crate::model::transfer_answer;
use crate::model::transfer_result;
use crate::model::transfer_writes;
use crate::model::uri_at;
use crate::model::written;
use crate::model::Call;
use crate::model::Entries;
use crate::model::Entry;
use soroban_sdk::Address;
use soroban_sdk::Env;
use vstd::prelude::*;

verus! {

/// The registry of card tokens. It has no state of its own: the state is the
/// storage of the contract that uses it.
pub struct StellarCardContract;

impl StellarCardContract {
    /// Makes `admin` the administrator and sets the count of tokens to zero.
    /// `admin_present` says whether the slot of [`DataKey::Admin`] holds a
    /// value. Refused with `AlreadyInitialized` where it does.
    pub fn initialize(admin: Address, admin_present: bool) -> (r: Result<
        Vec<(Slot, Entry)>,
        Error,
    >)
        ensures
            r matches Ok(writes) ==> initialize_answer(admin_present) is Ok && writes@
                == initialize_writes(admin),
            r matches Err(error) ==> initialize_answer(admin_present) == Err::<(), Error>(error),
            forall|entries: Entries|
                #![trigger initialize_result(entries)]
                has_admin(entries) == admin_present ==> (match r {
                    Ok(writes) => initialize_result(entries) is Ok && written(entries, writes@)
                        == after(entries, (Call::Initialize { admin })),
                    Err(error) => initialize_result(entries) == Err::<(), Error>(error),
                }),
    {
        if admin_present {
            return Err(Error::AlreadyInitialized);
        }
        let writes = vec![
            (DataKey::Admin.slot(), Entry::Address(admin)),
            (DataKey::TotalSupply.slot(), Entry::Count(0)),
        ];
        proof {
            assert(writes@ =~= initialize_writes(admin));
            assert forall|entries: Entries|
                #![trigger initialize_result(entries)]
                has_admin(entries) == admin_present implies written(entries, writes@) == after(
                entries,
                (Call::Initialize { admin }),
            ) by {
                lemma_written(entries, writes@);
            }
        }
        Ok(writes)
    }

    /// The number of tokens minted so far, which is the number that the next
    /// token gets. `count` is what the slot of [`DataKey::TotalSupply`] holds,
    /// if it holds a number; where it holds none the answer is zero.
    pub fn total_supply(count: Option<u64>) -> (r: u64)
        ensures
            r == total_supply_answer(count),
            forall|entries: Entries| count_of(entries) == count ==> r == #[trigger] supply_of(entries),
    {
        match count {
            Some(count) => count,
            None => 0,
        }
    }

    /// Whether the party whose authorization the host has confirmed is
    /// `party`.
    fn confirms(authorized_by: &Option<Address>, party: &Address) -> (r: bool)
        ensures
            r == (*authorized_by == Some(*party)),
    {
        match authorized_by {
            Some(confirmed) => host::same_address(confirmed, party),
            None => false,
        }
    }

    /// The number that the next token gets: the count. Refused with
    /// `TokenExists` where that number has an owner, else with
    /// `SupplyExhausted` where the count cannot go up.
    fn next_token_id(count: Option<u64>, next_has_owner: bool) -> (r: Result<u64, Error>)
        ensures
            r == allocation_answer(count, next_has_owner),
    {
        let token_id: u64 = Self::total_supply(count);
        if next_has_owner {
            Err(Error::TokenExists)
        } else if token_id == u64::MAX {
            Err(Error::SupplyExhausted)
        } else {
            Ok(token_id)
        }
    }

    /// The entries of the new token `token_id`, owned by `to` and with the
    /// metadata pointer `uri`, and the count that counts it.
    fn token_entries(token_id: u64, to: Address, uri: soroban_sdk::String) -> (writes: Vec<
        (Slot, Entry),
    >)
        requires
            token_id < u64::MAX,
        ensures
            writes@ == mint_writes(token_id, to, uri),
    {
        let writes = vec![
            (DataKey::Owner(token_id).slot(), Entry::Address(to)),
            (DataKey::URI(token_id).slot(), Entry::Text(uri)),
            (DataKey::TotalSupply.slot(), Entry::Count(token_id + 1)),
        ];
        assert(writes@ =~= mint_writes(token_id, to, uri));
        writes
    }

    /// Mints a token to `to` with the metadata pointer `uri`, on the
    /// administrator's behalf, and returns its number with the entries to
    /// write.
    ///
    /// `admin` is what the slot of [`DataKey::Admin`] holds, if it holds an
    /// address, and `count` what the slot of [`DataKey::TotalSupply`] holds, if
    /// it holds a number; `next_has_owner` says whether the slot of
    /// [`DataKey::Owner`] for the number `total_supply(count)` holds a value.
    ///
    /// Refused with `NotInitialized` where there is no administrator, else
    /// with `Unauthorized` where `authorized_by` is not the administrator,
    /// else with `TokenExists` where the next number has an owner, else with
    /// `SupplyExhausted` where the count cannot go up.
    pub fn admin_mint(
        to: Address,
        uri: soroban_sdk::String,
        admin: Option<Address>,
        authorized_by: Option<Address>,
        count: Option<u64>,
        next_has_owner: bool,
    ) -> (r: Result<(u64, Vec<(Slot, Entry)>), Error>)
        ensures
            r matches Ok(minted) ==> admin_mint_answer(admin, authorized_by, count, next_has_owner)
                == Ok::<u64, Error>(minted.0) && minted.1@ == mint_writes(minted.0, to, uri),
            r matches Err(error) ==> admin_mint_answer(admin, authorized_by, count, next_has_owner)
                == Err::<u64, Error>(error),
            forall|entries: Entries|
                #![trigger admin_mint_result(entries, authorized_by)]
                admin_of(entries) == admin && count_of(entries) == count && next_is_owned(entries)
                    == next_has_owner ==> (match r {
                    Ok(minted) => admin_mint_result(entries, authorized_by) == Ok::<u64, Error>(
                        minted.0,
                    ) && written(entries, minted.1@) == after(
                        entries,
                        (Call::AdminMint { to, uri, authorized_by }),
                    ),
                    Err(error) => admin_mint_result(entries, authorized_by) == Err::<u64, Error>(
                        error,
                    ),
                }),
    {
        let stored = match admin {
            Some(stored) => stored,
            None => {
                return Err(Error::NotInitialized);
            },
        };
        if !Self::confirms(&authorized_by, &stored) {
            return Err(Error::Unauthorized);
        }
        let token_id: u64 = match Self::next_token_id(count, next_has_owner) {
            Ok(token_id) => token_id,
            Err(error) => {
                return Err(error);
            },
        };
        let writes = Self::token_entries(token_id, to, uri);
        proof {
            assert forall|entries: Entries|
                #![trigger admin_mint_result(entries, authorized_by)]
                admin_of(entries) == admin && count_of(entries) == count && next_is_owned(entries)
                    == next_has_owner implies written(entries, writes@) == after(
                entries,
                (Call::AdminMint { to, uri, authorized_by }),
            ) by {
                lemma_written(entries, writes@);
            }
        }
        Ok((token_id, writes))
    }

    /// Mints a token to `to`, on `to`'s own behalf, with the metadata pointer
    /// that [`card_uri`] gives to its number, and returns the entries to
    /// write. `env` is the host that makes the metadata pointer.
    ///
    /// `admin` is what the slot of [`DataKey::Admin`] holds, if it holds an
    /// address, and `count` what the slot of [`DataKey::TotalSupply`] holds, if
    /// it holds a number; `next_has_owner` says whether the slot of
    /// [`DataKey::Owner`] for the number `total_supply(count)` holds a value.
    ///
    /// Refused with `Unauthorized` where `authorized_by` is not `to`, else
    /// with `NotInitialized` where there is no administrator, else with
    /// `TokenExists` where the next number has an owner, else with
    /// `SupplyExhausted` where the count cannot go up.
    pub fn public_mint(
        env: &Env,
        to: Address,
        authorized_by: Option<Address>,
        admin: Option<Address>,
        count: Option<u64>,
        next_has_owner: bool,
    ) -> (r: Result<Vec<(Slot, Entry)>, Error>)
        ensures
            r matches Ok(writes) ==> public_mint_answer(
                to,
                authorized_by,
                admin,
                count,
                next_has_owner,
            ) == Ok::<u64, Error>(total_supply_answer(count)) && writes@ == mint_writes(
                total_supply_answer(count),
                to,
                host_string(card_text(total_supply_answer(count))),
            ),
            r matches Err(error) ==> public_mint_answer(
                to,
                authorized_by,
                admin,
                count,
                next_has_owner,
            ) == Err::<u64, Error>(error),
            forall|entries: Entries|
                #![trigger public_mint_result(entries, to, authorized_by)]
                admin_of(entries) == admin && count_of(entries) == count && next_is_owned(entries)
                    == next_has_owner ==> (match r {
                    Ok(writes) => public_mint_result(entries, to, authorized_by) == Ok::<
                        u64,
                        Error,
                    >(supply_of(entries)) && written(entries, writes@) == after(
                        entries,
                        (Call::PublicMint { to, authorized_by }),
                    ),
                    Err(error) => public_mint_result(entries, to, authorized_by) == Err::<
                        u64,
                        Error,
                    >(error),
                }),
    {
        if !Self::confirms(&authorized_by, &to) {
            return Err(Error::Unauthorized);
        }
        if admin.is_none() {
            return Err(Error::NotInitialized);
        }
        let token_id: u64 = match Self::next_token_id(count, next_has_owner) {
            Ok(token_id) => token_id,
            Err(error) => {
                return Err(error);
            },
        };
        let uri = host::string_from_str(env, card_uri(token_id));
        let writes = Self::token_entries(token_id, to, uri);
        proof {
            assert forall|entries: Entries|
                #![trigger public_mint_result(entries, to, authorized_by)]
                admin_of(entries) == admin && count_of(entries) == count && next_is_owned(entries)
                    == next_has_owner implies written(entries, writes@) == after(
                entries,
                (Call::PublicMint { to, authorized_by }),
            ) by {
                lemma_written(entries, writes@);
            }
        }
        Ok(writes)
    }

    /// Makes `to` the owner of token `token_id`, on behalf of `from`, its
    /// owner, and returns the entry to write. `owner` is what the slot of
    /// [`DataKey::Owner`] for `token_id` holds, if it holds an address.
    ///
    /// Refused with `Unauthorized` where `authorized_by` is not `from`, else
    /// with `TokenNotFound` where the token has no owner, else with
    /// `NotOwner` where its owner is not `from`.
    pub fn transfer(
        from: Address,
        to: Address,
        token_id: u64,
        authorized_by: Option<Address>,
        owner: Option<Address>,
    ) -> (r: Result<Vec<(Slot, Entry)>, Error>)
        ensures
            r matches Ok(writes) ==> transfer_answer(from, authorized_by, owner) is Ok && writes@
                == transfer_writes(to, token_id),
            r matches Err(error) ==> transfer_answer(from, authorized_by, owner) == Err::<
                (),
                Error,
            >(error),
            forall|entries: Entries|
                #![trigger transfer_result(entries, from, token_id, authorized_by)]
                owner_at(entries, token_id) == owner ==> (match r {
                    Ok(writes) => transfer_result(entries, from, token_id, authorized_by) is Ok
                        && written(entries, writes@) == after(
                        entries,
                        (Call::Transfer { from, to, token_id, authorized_by }),
                    ),
                    Err(error) => transfer_result(entries, from, token_id, authorized_by) == Err::<
                        (),
                        Error,
                    >(error),
                }),
    {
        if !Self::confirms(&authorized_by, &from) {
            return Err(Error::Unauthorized);
        }
        match owner {
            None => Err(Error::TokenNotFound),
            Some(owner) => {
                if !host::same_address(&owner, &from) {
                    return Err(Error::NotOwner);
                }
                let writes = vec![(DataKey::Owner(token_id).slot(), Entry::Address(to))];
                proof {
                    assert(writes@ =~= transfer_writes(to, token_id));
                    assert forall|entries: Entries|
                        #![trigger transfer_result(entries, from, token_id, authorized_by)]
                        owner_at(entries, token_id) == Some(owner) implies written(
                        entries,
                        writes@,
                    ) == after(entries, (Call::Transfer { from, to, token_id, authorized_by })) by {
                        lemma_written(entries, writes@);
                    }
                }
                Ok(writes)
            },
        }
    }

    /// The owner of a token. `owner` is what the slot of [`DataKey::Owner`]
    /// for the token holds, if it holds an address. Refused with
    /// `TokenNotFound` where it holds none.
    pub fn owner_of(owner: Option<Address>) -> (r: Result<Address, Error>)
        ensures
            r == owner_of_answer(owner),
            forall|entries: Entries, token_id: u64|
                owner_at(entries, token_id) == owner ==> r == #[trigger] owner_of_result(
                    entries,
                    token_id,
                ),
    {
        match owner {
            Some(owner) => Ok(owner),
            None => Err(Error::TokenNotFound),
        }
    }

    /// The metadata pointer of a token. `uri` is what the slot of
    /// [`DataKey::URI`] for the token holds, if it holds a text. Refused with
    /// `TokenNotFound` where it holds none.
    pub fn token_uri(uri: Option<soroban_sdk::String>) -> (r: Result<soroban_sdk::String, Error>)
        ensures
            r == token_uri_answer(uri),
            forall|entries: Entries, token_id: u64|
                uri_at(entries, token_id) == uri ==> r == #[trigger] token_uri_result(
                    entries,
                    token_id,
                ),
    {
        match uri {
            Some(uri) => Ok(uri),
            None => Err(Error::TokenNotFound),
        }
    }
}

} // verus!
