use multisig_token::{Address, Event, Token, TokenError};

const ADMIN1: Address = 1;
const ADMIN2: Address = 2;
const USER1: Address = 11;
const USER2: Address = 12;
const USER3: Address = 13;
const OWNER1: Address = 21;
const OWNER2: Address = 22;
const OWNER3: Address = 23;
const UNAUTHORIZED: Address = 31;
const TARGET: Address = 41;

fn done<T>(result: Result<T, TokenError>) -> T {
    match result {
        Ok(value) => value,
        Err(error) => panic!("{}", error.message()),
    }
}

fn create_token(admin: Address) -> Token {
    let mut token = Token::new();
    done(token.initialize(admin, 7, String::from("name"), String::from("symbol")));
    token
}

#[test]
fn test() {
    let admin1 = ADMIN1;
    let admin2 = ADMIN2;
    let user1 = USER1;
    let user2 = USER2;
    let user3 = USER3;
    let mut token = create_token(admin1);

    done(token.mint(admin1, user1, 1000));
    assert_eq!(
        token.take_events(),
        vec![Event::Mint { admin: admin1, to: user1, amount: 1000 }]
    );
    assert_eq!(token.balance(user1), 1000);

    done(token.approve(user2, user2, user3, 500, 200));
    assert_eq!(
        token.take_events(),
        vec![Event::Approve { from: user2, spender: user3, amount: 500, expiration_ledger: 200 }]
    );
    assert_eq!(token.allowance(user2, user3, 0), 500);

    done(token.transfer(user1, user1, user2, 600));
    assert_eq!(
        token.take_events(),
        vec![Event::Transfer { from: user1, to: user2, amount: 600 }]
    );
    assert_eq!(token.balance(user1), 400);
    assert_eq!(token.balance(user2), 600);

    done(token.transfer_from(user3, user3, user2, user1, 400, 0));
    assert_eq!(
        token.take_events(),
        vec![Event::Transfer { from: user2, to: user1, amount: 400 }]
    );
    assert_eq!(token.balance(user1), 800);
    assert_eq!(token.balance(user2), 200);

    done(token.transfer(user1, user1, user3, 300));
    assert_eq!(token.balance(user1), 500);
    assert_eq!(token.balance(user3), 300);

    token.take_events();
    done(token.set_admin(admin1, admin2));
    assert_eq!(
        token.take_events(),
        vec![Event::SetAdmin { admin: admin1, new_admin: admin2 }]
    );

    done(token.approve(user2, user2, user3, 500, 200));
    assert_eq!(token.allowance(user2, user3, 0), 500);
    token.take_events();
    done(token.approve(user2, user2, user3, 0, 200));
    assert_eq!(
        token.take_events(),
        vec![Event::Approve { from: user2, spender: user3, amount: 0, expiration_ledger: 200 }]
    );
    assert_eq!(token.allowance(user2, user3, 0), 0);
}

#[test]
fn test_burn() {
    let admin = ADMIN1;
    let user1 = USER1;
    let user2 = USER2;
    let mut token = create_token(admin);

    done(token.mint(admin, user1, 1000));
    assert_eq!(token.balance(user1), 1000);

    done(token.approve(user1, user1, user2, 500, 200));
    assert_eq!(token.allowance(user1, user2, 0), 500);
    token.take_events();

    done(token.burn_from(user2, user2, user1, 500, 0));
    assert_eq!(token.take_events(), vec![Event::Burn { from: user1, amount: 500 }]);

    assert_eq!(token.allowance(user1, user2, 0), 0);
    assert_eq!(token.balance(user1), 500);
    assert_eq!(token.balance(user2), 0);

    done(token.burn(user1, user1, 500));
    assert_eq!(token.take_events(), vec![Event::Burn { from: user1, amount: 500 }]);

    assert_eq!(token.balance(user1), 0);
    assert_eq!(token.balance(user2), 0);
}

#[test]
#[should_panic(expected = "insufficient balance")]
fn transfer_insufficient_balance() {
    let admin = ADMIN1;
    let user1 = USER1;
    let user2 = USER2;
    let mut token = create_token(admin);

    done(token.mint(admin, user1, 1000));
    assert_eq!(token.balance(user1), 1000);

    done(token.transfer(user1, user1, user2, 1001));
}

#[test]
#[should_panic(expected = "insufficient allowance")]
fn transfer_from_insufficient_allowance() {
    let admin = ADMIN1;
    let user1 = USER1;
    let user2 = USER2;
    let user3 = USER3;
    let mut token = create_token(admin);

    done(token.mint(admin, user1, 1000));
    assert_eq!(token.balance(user1), 1000);

    done(token.approve(user1, user1, user3, 100, 200));
    assert_eq!(token.allowance(user1, user3, 0), 100);

    done(token.transfer_from(user3, user3, user1, user2, 101, 0));
}

#[test]
#[should_panic(expected = "already initialized")]
fn initialize_already_initialized() {
    let admin = ADMIN1;
    let mut token = create_token(admin);

    done(token.initialize(admin, 10, String::from("name"), String::from("symbol")));
}

#[test]
#[should_panic(expected = "Decimal must fit in a u8")]
fn decimal_is_over_max() {
    let admin = ADMIN1;
    let mut token = Token::new();
    done(token.initialize(
        admin,
        u32::from(u8::MAX) + 1,
        String::from("name"),
        String::from("symbol"),
    ));
}

#[test]
#[should_panic(expected = "account is frozen")]
fn transfer_from_frozen_account_should_fail() {
    let admin = ADMIN1;
    let user1 = USER1;
    let user2 = USER2;
    let mut token = create_token(admin);

    done(token.mint(admin, user1, 1000));
    done(token.freeze_account(admin, user1));

    done(token.transfer(user1, user1, user2, 100));
}

#[test]
fn unfreeze_account_then_transfer() {
    let admin = ADMIN1;
    let user1 = USER1;
    let user2 = USER2;
    let mut token = create_token(admin);

    done(token.mint(admin, user1, 1000));
    done(token.freeze_account(admin, user1));
    done(token.unfreeze_account(admin, user1));
    done(token.transfer(user1, user1, user2, 100));

    assert_eq!(token.balance(user2), 100);
}

#[test]
#[should_panic(expected = "account is frozen")]
fn burn_from_frozen_account_should_fail() {
    let admin = ADMIN1;
    let user = USER1;
    let mut token = create_token(admin);

    done(token.mint(admin, user, 1000));
    assert_eq!(token.balance(user), 1000);

    done(token.freeze_account(admin, user));

    done(token.burn(user, user, 500));
}

#[test]
fn test_multisig_setup() {
    let admin = ADMIN1;
    let mut token = Token::new();
    done(token.initialize(admin, 10, String::from("Test Token"), String::from("TEST")));

    let owners = vec![OWNER1, OWNER2, OWNER3];
    done(token.setup_multisig(admin, owners.clone(), 2));

    let stored_owners = token.get_multisig_owners().clone();
    let stored_threshold = token.multisig_threshold();
    assert_eq!(stored_owners.len(), 3);
    assert_eq!(stored_threshold, 2);
    assert_eq!(stored_owners, owners);
}

#[test]
#[should_panic(expected = "sender is not a multisig owner")]
fn test_multisig_transaction_unauthorized() {
    let admin = ADMIN1;
    let mut token = Token::new();
    done(token.initialize(admin, 10, String::from("Test Token"), String::from("TEST")));

    let owners = vec![OWNER1, OWNER2, OWNER3];
    done(token.setup_multisig(admin, owners, 2));

    let operation = multisig_token::Operation::Transfer;
    done(token.propose_multisig_transaction(UNAUTHORIZED, operation, TARGET, 100, 1000));
}
