//! The registry as mathematics: what a storage holds, when it is well formed,
//! what each operation answers to what was read from the storage, and what
//! the storage is after the operation's writes.

use crate::cards::card_text;
use crate::error::Error;
use crate::host::host_string;
use crate::keys::DataKey;
use crate::keys::Slot;
use soroban_sdk::Address;
use vstd::prelude::*;

verus! {

/// What a storage holds in one slot.
#[derive(Debug, PartialEq, Eq)]
pub enum Entry {
    /// An address: the administrator, or the owner of a token.
    Address(Address),
    /// A number: the count of tokens minted so far.
    Count(u64),
    /// A text: the metadata pointer of a token.
    Text(soroban_sdk::String),
    /// A value that is none of these. The registry never writes one.
    Other,
}

/// The content of a storage: the entry in each slot that holds one.
pub type Entries = Map<Slot, Entry>;

/// What an operation writes: entries with their slots, in the order in which
/// they are to be written.
pub type Writes = Seq<(Slot, Entry)>;

/// The storage after the writes have been made, one after the other.
pub open spec fn written(entries: Entries, writes: Writes) -> Entries
    decreases writes.len(),
{
    if writes.len() == 0 {
        entries
    } else {
        written(entries, writes.drop_last()).insert(writes.last().0, writes.last().1)
    }
}

/// The address stored in `slot`, if the slot holds an address.
pub open spec fn address_at(entries: Entries, slot: Slot) -> Option<Address> {
    match entries.get(slot) {
        Some(Entry::Address(address)) => Some(address),
        _ => None,
    }
}

/// The number stored in `slot`, if the slot holds a number.
pub open spec fn count_at(entries: Entries, slot: Slot) -> Option<u64> {
    match entries.get(slot) {
        Some(Entry::Count(count)) => Some(count),
        _ => None,
    }
}

/// The text stored in `slot`, if the slot holds a text.
pub open spec fn text_at(entries: Entries, slot: Slot) -> Option<soroban_sdk::String> {
    match entries.get(slot) {
        Some(Entry::Text(text)) => Some(text),
        _ => None,
    }
}

/// Whether the slot of the administrator holds a value, of whatever kind.
pub open spec fn has_admin(entries: Entries) -> bool {
    entries.dom().contains(DataKey::Admin.slot())
}

/// The administrator, once the registry is initialized.
pub open spec fn admin_of(entries: Entries) -> Option<Address> {
    address_at(entries, DataKey::Admin.slot())
}

/// The stored count of tokens, if one is stored.
pub open spec fn count_of(entries: Entries) -> Option<u64> {
    count_at(entries, DataKey::TotalSupply.slot())
}

/// The number of tokens minted so far: the stored count, and zero where none
/// is stored.
pub open spec fn supply_of(entries: Entries) -> u64 {
    total_supply_answer(count_of(entries))
}

/// Whether the number that the next token would get has an owner already.
pub open spec fn next_is_owned(entries: Entries) -> bool {
    entries.dom().contains(DataKey::Owner(supply_of(entries)).slot())
}

/// The owner of token `token_id`, if the token exists.
pub open spec fn owner_at(entries: Entries, token_id: u64) -> Option<Address> {
    address_at(entries, DataKey::Owner(token_id).slot())
}

/// The metadata pointer of token `token_id`, if the token exists.
pub open spec fn uri_at(entries: Entries, token_id: u64) -> Option<soroban_sdk::String> {
    text_at(entries, DataKey::URI(token_id).slot())
}

/// The storage of a registry that only the registry's operations have
/// written: the count is a number, an administrator is an address and is
/// there as soon as a token is, and the tokens are exactly the numbers below
/// the count, each with one owner and one metadata pointer.
pub open spec fn well_formed(entries: Entries) -> bool {
    &&& has_admin(entries) ==> admin_of(entries) is Some
    &&& entries.dom().contains(DataKey::TotalSupply.slot()) ==> count_of(entries) is Some
    &&& supply_of(entries) > 0 ==> admin_of(entries) is Some
    &&& forall|token_id: u64|
        token_id < supply_of(entries) ==> #[trigger] owner_at(entries, token_id) is Some
            && uri_at(entries, token_id) is Some
    &&& forall|token_id: u64|
        token_id >= supply_of(entries) ==> !entries.dom().contains(
            #[trigger] DataKey::Owner(token_id).slot(),
        ) && !entries.dom().contains(DataKey::URI(token_id).slot())
}

/// What `initialize` answers, given whether the slot of the administrator
/// holds a value.
pub open spec fn initialize_answer(admin_present: bool) -> Result<(), Error> {
    if admin_present {
        Err(Error::AlreadyInitialized)
    } else {
        Ok(())
    }
}

/// What `initialize` writes: the administrator and a count of zero.
pub open spec fn initialize_writes(admin: Address) -> Writes {
    seq![
        (DataKey::Admin.slot(), Entry::Address(admin)),
        (DataKey::TotalSupply.slot(), Entry::Count(0)),
    ]
}

/// What `total_supply` answers, given the stored count: the count, and zero
/// where none is stored.
pub open spec fn total_supply_answer(count: Option<u64>) -> u64 {
    match count {
        Some(count) => count,
        None => 0,
    }
}

/// The number that the next token gets, given the stored count and whether
/// that number has an owner already; or why there is none.
pub open spec fn allocation_answer(count: Option<u64>, next_has_owner: bool) -> Result<
    u64,
    Error,
> {
    if next_has_owner {
        Err(Error::TokenExists)
    } else if total_supply_answer(count) == u64::MAX {
        Err(Error::SupplyExhausted)
    } else {
        Ok(total_supply_answer(count))
    }
}

/// What a mint of token `token_id` writes: its owner, its metadata pointer,
/// and a count that is one above its number.
pub open spec fn mint_writes(token_id: u64, to: Address, uri: soroban_sdk::String) -> Writes {
    seq![
        (DataKey::Owner(token_id).slot(), Entry::Address(to)),
        (DataKey::URI(token_id).slot(), Entry::Text(uri)),
        (DataKey::TotalSupply.slot(), Entry::Count((token_id + 1) as u64)),
    ]
}

/// What `admin_mint` answers, given the stored administrator, whose
/// authorization the host has confirmed, the stored count, and whether the
/// next number has an owner already.
pub open spec fn admin_mint_answer(
    admin: Option<Address>,
    authorized_by: Option<Address>,
    count: Option<u64>,
    next_has_owner: bool,
) -> Result<u64, Error> {
    if admin is None {
        Err(Error::NotInitialized)
    } else if authorized_by != admin {
        Err(Error::Unauthorized)
    } else {
        allocation_answer(count, next_has_owner)
    }
}

/// What `public_mint` to `to` answers, given whose authorization the host
/// has confirmed, the stored administrator, the stored count, and whether
/// the next number has an owner already: the number of the new token, which
/// the operation itself does not hand out, or why there is none.
pub open spec fn public_mint_answer(
    to: Address,
    authorized_by: Option<Address>,
    admin: Option<Address>,
    count: Option<u64>,
    next_has_owner: bool,
) -> Result<u64, Error> {
    if authorized_by != Some(to) {
        Err(Error::Unauthorized)
    } else if admin is None {
        Err(Error::NotInitialized)
    } else {
        allocation_answer(count, next_has_owner)
    }
}

/// What `transfer` from `from` answers, given whose authorization the host
/// has confirmed and the stored owner of the token.
pub open spec fn transfer_answer(
    from: Address,
    authorized_by: Option<Address>,
    owner: Option<Address>,
) -> Result<(), Error> {
    if authorized_by != Some(from) {
        Err(Error::Unauthorized)
    } else if owner is None {
        Err(Error::TokenNotFound)
    } else if owner != Some(from) {
        Err(Error::NotOwner)
    } else {
        Ok(())
    }
}

/// What `transfer` of token `token_id` to `to` writes: the token's new
/// owner.
pub open spec fn transfer_writes(to: Address, token_id: u64) -> Writes {
    seq![(DataKey::Owner(token_id).slot(), Entry::Address(to))]
}

/// What `owner_of` answers, given the stored owner of the token.
pub open spec fn owner_of_answer(owner: Option<Address>) -> Result<Address, Error> {
    match owner {
        Some(owner) => Ok(owner),
        None => Err(Error::TokenNotFound),
    }
}

/// What `token_uri` answers, given the stored metadata pointer of the token.
pub open spec fn token_uri_answer(uri: Option<soroban_sdk::String>) -> Result<
    soroban_sdk::String,
    Error,
> {
    match uri {
        Some(uri) => Ok(uri),
        None => Err(Error::TokenNotFound),
    }
}

/// What `initialize` answers on a storage.
pub open spec fn initialize_result(entries: Entries) -> Result<(), Error> {
    initialize_answer(has_admin(entries))
}

/// The storage after `initialize` has been carried out.
pub open spec fn initialized(entries: Entries, admin: Address) -> Entries {
    entries.insert(DataKey::Admin.slot(), Entry::Address(admin)).insert(
        DataKey::TotalSupply.slot(),
        Entry::Count(0),
    )
}

/// The number that the next token gets on a storage, or why there is none.
pub open spec fn allocation(entries: Entries) -> Result<u64, Error> {
    allocation_answer(count_of(entries), next_is_owned(entries))
}

/// The storage after a token has been minted to `to` with the metadata
/// pointer `uri`: the token gets the count as its number, and the count goes
/// up by one.
pub open spec fn minted(entries: Entries, to: Address, uri: soroban_sdk::String) -> Entries {
    entries.insert(DataKey::Owner(supply_of(entries)).slot(), Entry::Address(to)).insert(
        DataKey::URI(supply_of(entries)).slot(),
        Entry::Text(uri),
    ).insert(DataKey::TotalSupply.slot(), Entry::Count((supply_of(entries) + 1) as u64))
}

/// What `admin_mint` answers on a storage.
pub open spec fn admin_mint_result(entries: Entries, authorized_by: Option<Address>) -> Result<
    u64,
    Error,
> {
    admin_mint_answer(
        admin_of(entries),
        authorized_by,
        count_of(entries),
        next_is_owned(entries),
    )
}

/// What `public_mint` answers on a storage.
pub open spec fn public_mint_result(
    entries: Entries,
    to: Address,
    authorized_by: Option<Address>,
) -> Result<u64, Error> {
    public_mint_answer(
        to,
        authorized_by,
        admin_of(entries),
        count_of(entries),
        next_is_owned(entries),
    )
}

/// What `transfer` answers on a storage.
pub open spec fn transfer_result(
    entries: Entries,
    from: Address,
    token_id: u64,
    authorized_by: Option<Address>,
) -> Result<(), Error> {
    transfer_answer(from, authorized_by, owner_at(entries, token_id))
}

/// The storage after token `token_id` has been transferred to `to`.
pub open spec fn transferred(entries: Entries, to: Address, token_id: u64) -> Entries {
    entries.insert(DataKey::Owner(token_id).slot(), Entry::Address(to))
}

/// What `owner_of` answers on a storage.
pub open spec fn owner_of_result(entries: Entries, token_id: u64) -> Result<Address, Error> {
    owner_of_answer(owner_at(entries, token_id))
}

/// What `token_uri` answers on a storage.
pub open spec fn token_uri_result(entries: Entries, token_id: u64) -> Result<
    soroban_sdk::String,
    Error,
> {
    token_uri_answer(uri_at(entries, token_id))
}

/// One call of an operation that writes, with its arguments;
/// `authorized_by` is the party whose authorization of the call the host has
/// confirmed, if there is one.
pub enum Call {
    /// `initialize(admin)`.
    Initialize { admin: Address },
    /// `admin_mint(to, uri)`.
    AdminMint { to: Address, uri: soroban_sdk::String, authorized_by: Option<Address> },
    /// `public_mint(to)`.
    PublicMint { to: Address, authorized_by: Option<Address> },
    /// `transfer(from, to, token_id)`.
    Transfer { from: Address, to: Address, token_id: u64, authorized_by: Option<Address> },
}

/// Whether the registry carries the call out on the storage.
pub open spec fn accepted(entries: Entries, call: Call) -> bool {
    match call {
        Call::Initialize { admin } => initialize_result(entries) is Ok,
        Call::AdminMint { to, uri, authorized_by } => admin_mint_result(
            entries,
            authorized_by,
        ) is Ok,
        Call::PublicMint { to, authorized_by } => public_mint_result(
            entries,
            to,
            authorized_by,
        ) is Ok,
        Call::Transfer { from, to, token_id, authorized_by } => transfer_result(
            entries,
            from,
            token_id,
            authorized_by,
        ) is Ok,
    }
}

/// Whether the call is a mint that the registry carries out.
pub open spec fn mints(entries: Entries, call: Call) -> bool {
    accepted(entries, call) && (call is AdminMint || call is PublicMint)
}

/// The storage after the call: the storage with the operation's writes
/// where the registry carries the call out, and the storage as it was where
/// the registry refuses.
pub open spec fn after(entries: Entries, call: Call) -> Entries {
    if !accepted(entries, call) {
        entries
    } else {
        match call {
            Call::Initialize { admin } => initialized(entries, admin),
            Call::AdminMint { to, uri, authorized_by } => minted(entries, to, uri),
            Call::PublicMint { to, authorized_by } => minted(
                entries,
                to,
                host_string(card_text(supply_of(entries))),
            ),
            Call::Transfer { from, to, token_id, authorized_by } => transferred(
                entries,
                to,
                token_id,
            ),
        }
    }
}

/// The storage after the calls, one after the other.
pub open spec fn after_all(entries: Entries, calls: Seq<Call>) -> Entries
    decreases calls.len(),
{
    if calls.len() == 0 {
        entries
    } else {
        after(after_all(entries, calls.drop_last()), calls.last())
    }
}

/// How many of the calls, made one after the other, are mints that the
/// registry carries out.
pub open spec fn mints_among(entries: Entries, calls: Seq<Call>) -> nat
    decreases calls.len(),
{
    if calls.len() == 0 {
        0
    } else if mints(after_all(entries, calls.drop_last()), calls.last()) {
        mints_among(entries, calls.drop_last()) + 1
    } else {
        mints_among(entries, calls.drop_last())
    }
}

} // verus!
