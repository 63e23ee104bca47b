//! A registry of numbered card tokens for a Soroban contract.
//!
//! The registry records one administrator, a count of the tokens minted so
//! far, and for every token its owner and a pointer to its metadata. Tokens
//! are numbered from zero in the order of their mints. The administrator
//! mints tokens with a metadata pointer of its choice; anybody mints a token
//! to itself and gets one of three cards; an owner transfers its token.
//!
//! The state is the instance storage of the contract, which only the running
//! contract can reach. So the registry is the rules and the contract is the
//! hands: the contract reads the slots that an operation asks for, the
//! operation of [`StellarCardContract`] answers and says what to write, and
//! the contract writes it. [`DataKey`] names the slots. [`model`] defines what
//! each operation answers and what a storage is after its writes, [`laws`]
//! proves what holds of that for every storage and every sequence of calls,
//! and [`host`] lists what is taken on trust from the Soroban SDK.
//!
//! The host confirms an authorization by letting the call go on and denies it
//! by aborting the call, so the registry cannot ask it. The operations that
//! act on somebody's behalf take as an argument the party whose authorization
//! the host has confirmed, and hold it against the party they act for.

pub mod cards;
pub mod error;
pub mod host;
pub mod keys;
pub mod laws;
pub mod model;
pub mod registry;

pub use cards::card_uri;
pub use cards::DRAGON_URI;
pub use cards::MAGE_URI;
pub use cards::WARRIOR_URI;
pub use error::Error;
pub use keys::DataKey;
pub use keys::Slot;
pub use model::Entry;
pub use registry::StellarCardContract;
