//! Why an operation of the registry was refused.

use vstd::prelude::*;

verus! {

/// The reasons for which the registry refuses an operation. A refused
/// operation writes nothing.
#[derive(Clone, Copy, Debug, PartialEq, Eq, Structural)]
pub enum Error {
    /// `initialize` was called on a registry that has an administrator.
    AlreadyInitialized,
    /// A token was to be minted, or the administrator was asked for, before
    /// the registry was initialized.
    NotInitialized,
    /// The host did not confirm that the party an operation acts for has
    /// authorized it.
    Unauthorized,
    /// The number that the next token would get already has an owner.
    TokenExists,
    /// No token with the given number was ever minted.
    TokenNotFound,
    /// The sender of a transfer does not own the token.
    NotOwner,
    /// Every token number has been given out.
    SupplyExhausted,
}

impl Error {
    /// The text with which a contract that cannot go on reports this error.
    pub open spec fn spec_message(self) -> Seq<char> {
        match self {
            Error::AlreadyInitialized => "contract has already been initialized"@,
            Error::NotInitialized => "contract has not been initialized"@,
            Error::Unauthorized => "the operation is not authorized"@,
            Error::TokenExists => "token ID already exists"@,
            Error::TokenNotFound => "token does not exist"@,
            Error::NotOwner => "'from' address is not the owner"@,
            Error::SupplyExhausted => "no token ID is left"@,
        }
    }

    /// The text with which a contract that cannot go on reports this error.
    pub fn message(&self) -> (r: &'static str)
        ensures
            r@ == self.spec_message(),
    {
        match self {
            Error::AlreadyInitialized => "contract has already been initialized",
            Error::NotInitialized => "contract has not been initialized",
            Error::Unauthorized => "the operation is not authorized",
            Error::TokenExists => "token ID already exists",
            Error::TokenNotFound => "token does not exist",
            Error::NotOwner => "'from' address is not the owner",
            Error::SupplyExhausted => "no token ID is left",
        }
    }
}

} // verus!
