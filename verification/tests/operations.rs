use soroban_sdk::testutils::Address as _;
use soroban_sdk::testutils::EnvTestConfig;
use soroban_sdk::{Address, Env, String};
use stellar_card::{DataKey, Entry, Error, StellarCardContract, DRAGON_URI, MAGE_URI, WARRIOR_URI};

fn host() -> Env {
    Env::new_with_config(EnvTestConfig {
        capture_snapshot_at_drop: false,
    })
}

#[test]
fn initialize_writes_the_admin_and_a_count_of_zero() {
    let env = host();
    let admin = Address::generate(&env);
    assert_eq!(
        StellarCardContract::initialize(admin.clone(), false),
        Ok(vec![
            ((0, 0), Entry::Address(admin)),
            ((1, 0), Entry::Count(0)),
        ])
    );
}

#[test]
fn initialize_is_refused_where_the_admin_slot_holds_a_value() {
    let env = host();
    let admin = Address::generate(&env);
    assert_eq!(
        StellarCardContract::initialize(admin, true),
        Err(Error::AlreadyInitialized)
    );
}

#[test]
fn total_supply_is_the_stored_count_or_zero() {
    assert_eq!(StellarCardContract::total_supply(None), 0);
    assert_eq!(StellarCardContract::total_supply(Some(0)), 0);
    assert_eq!(StellarCardContract::total_supply(Some(1)), 1);
    assert_eq!(StellarCardContract::total_supply(Some(41)), 41);
    assert_eq!(StellarCardContract::total_supply(Some(u64::MAX)), u64::MAX);
}

#[test]
fn admin_mint_writes_the_token_and_the_next_count() {
    let env = host();
    let admin = Address::generate(&env);
    let to = Address::generate(&env);
    let uri = String::from_str(&env, "ipfs://x");
    assert_eq!(
        StellarCardContract::admin_mint(
            to.clone(),
            uri.clone(),
            Some(admin.clone()),
            Some(admin.clone()),
            Some(5),
            false
        ),
        Ok((
            5,
            vec![
                (DataKey::Owner(5).slot(), Entry::Address(to.clone())),
                (DataKey::URI(5).slot(), Entry::Text(uri.clone())),
                (DataKey::TotalSupply.slot(), Entry::Count(6)),
            ]
        ))
    );
    // Without a stored count the first token is token 0.
    assert_eq!(
        StellarCardContract::admin_mint(
            to.clone(),
            uri.clone(),
            Some(admin.clone()),
            Some(admin),
            None,
            false
        ),
        Ok((
            0,
            vec![
                ((2, 0), Entry::Address(to)),
                ((3, 0), Entry::Text(uri)),
                ((1, 0), Entry::Count(1)),
            ]
        ))
    );
}

#[test]
fn admin_mint_is_refused_for_one_reason_at_a_time() {
    let env = host();
    let admin = Address::generate(&env);
    let other = Address::generate(&env);
    let uri = String::from_str(&env, "ipfs://x");
    let mint = |stored: Option<Address>, by: Option<Address>, count: Option<u64>, owned: bool| {
        StellarCardContract::admin_mint(other.clone(), uri.clone(), stored, by, count, owned)
            .map(|minted| minted.0)
    };
    let a = || Some(admin.clone());
    let o = || Some(other.clone());

    // No administrator comes before everything else.
    assert_eq!(mint(None, None, Some(u64::MAX), true), Err(Error::NotInitialized));
    assert_eq!(mint(None, a(), Some(0), false), Err(Error::NotInitialized));
    // Then the authorization.
    assert_eq!(mint(a(), None, Some(u64::MAX), true), Err(Error::Unauthorized));
    assert_eq!(mint(a(), o(), Some(0), false), Err(Error::Unauthorized));
    // Then the owner of the next number.
    assert_eq!(mint(a(), a(), Some(u64::MAX), true), Err(Error::TokenExists));
    assert_eq!(mint(a(), a(), None, true), Err(Error::TokenExists));
    // Then the count.
    assert_eq!(mint(a(), a(), Some(u64::MAX), false), Err(Error::SupplyExhausted));
    assert_eq!(mint(a(), a(), Some(u64::MAX - 1), false), Ok(u64::MAX - 1));
    assert_eq!(mint(a(), a(), Some(7), false), Ok(7));
}

#[test]
fn public_mint_writes_the_card_of_the_token_number() {
    let env = host();
    let admin = Address::generate(&env);
    let to = Address::generate(&env);
    let cards = [DRAGON_URI, MAGE_URI, WARRIOR_URI, DRAGON_URI, MAGE_URI];
    for (token_id, card) in cards.iter().enumerate() {
        let token_id = token_id as u64;
        assert_eq!(
            StellarCardContract::public_mint(
                &env,
                to.clone(),
                Some(to.clone()),
                Some(admin.clone()),
                Some(token_id),
                false
            ),
            Ok(vec![
                (DataKey::Owner(token_id).slot(), Entry::Address(to.clone())),
                (
                    DataKey::URI(token_id).slot(),
                    Entry::Text(String::from_str(&env, card))
                ),
                (DataKey::TotalSupply.slot(), Entry::Count(token_id + 1)),
            ])
        );
    }
}

#[test]
fn public_mint_is_refused_for_one_reason_at_a_time() {
    let env = host();
    let admin = Address::generate(&env);
    let to = Address::generate(&env);
    let mint = |by: Option<Address>, stored: Option<Address>, count: Option<u64>, owned: bool| {
        StellarCardContract::public_mint(&env, to.clone(), by, stored, count, owned).map(|_| ())
    };
    let a = || Some(admin.clone());
    let t = || Some(to.clone());

    // The authorization comes before everything else.
    assert_eq!(mint(None, None, Some(u64::MAX), true), Err(Error::Unauthorized));
    assert_eq!(mint(a(), a(), Some(0), false), Err(Error::Unauthorized));
    // Then the administrator.
    assert_eq!(mint(t(), None, Some(u64::MAX), true), Err(Error::NotInitialized));
    assert_eq!(mint(t(), None, None, false), Err(Error::NotInitialized));
    // Then the owner of the next number.
    assert_eq!(mint(t(), a(), Some(u64::MAX), true), Err(Error::TokenExists));
    // Then the count.
    assert_eq!(mint(t(), a(), Some(u64::MAX), false), Err(Error::SupplyExhausted));
    assert_eq!(mint(t(), a(), Some(u64::MAX - 1), false), Ok(()));
    assert_eq!(mint(t(), a(), None, false), Ok(()));
}

#[test]
fn transfer_writes_the_new_owner() {
    let env = host();
    let from = Address::generate(&env);
    let to = Address::generate(&env);
    assert_eq!(
        StellarCardContract::transfer(
            from.clone(),
            to.clone(),
            9,
            Some(from.clone()),
            Some(from)
        ),
        Ok(vec![((2, 9), Entry::Address(to))])
    );
}

#[test]
fn transfer_is_refused_for_one_reason_at_a_time() {
    let env = host();
    let from = Address::generate(&env);
    let to = Address::generate(&env);
    let send = |by: Option<Address>, owner: Option<Address>| {
        StellarCardContract::transfer(from.clone(), to.clone(), 3, by, owner).map(|_| ())
    };
    let f = || Some(from.clone());
    let t = || Some(to.clone());

    // The authorization comes before everything else.
    assert_eq!(send(None, None), Err(Error::Unauthorized));
    assert_eq!(send(None, f()), Err(Error::Unauthorized));
    assert_eq!(send(t(), f()), Err(Error::Unauthorized));
    assert_eq!(send(t(), t()), Err(Error::Unauthorized));
    // Then the token.
    assert_eq!(send(f(), None), Err(Error::TokenNotFound));
    // Then its owner.
    assert_eq!(send(f(), t()), Err(Error::NotOwner));
    assert_eq!(send(f(), f()), Ok(()));
}

#[test]
fn an_address_is_the_same_through_another_handle() {
    let env = host();
    let from = Address::generate(&env);
    let to = Address::generate(&env);
    let again = Address::from_string(&from.to_string());
    assert_eq!(
        StellarCardContract::transfer(from, to.clone(), 0, Some(again.clone()), Some(again))
            .map(|_| ()),
        Ok(())
    );
}

#[test]
fn lookups_answer_what_is_stored_and_refuse_what_is_not() {
    let env = host();
    let owner = Address::generate(&env);
    let uri = String::from_str(&env, "ipfs://x");
    assert_eq!(StellarCardContract::owner_of(Some(owner.clone())), Ok(owner));
    assert_eq!(StellarCardContract::owner_of(None), Err(Error::TokenNotFound));
    assert_eq!(StellarCardContract::token_uri(Some(uri.clone())), Ok(uri));
    assert_eq!(StellarCardContract::token_uri(None), Err(Error::TokenNotFound));
}
