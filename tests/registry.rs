use client_registry::storage::{has_admin, has_client, read_admin, read_client, write_client};
use client_registry::{
    Address, Auth, Client, ClientStatus, Contract, DataKey, Env, Error, Storage, Value,
};

fn account(seed: u8) -> Address {
    Address::Account([seed; 32])
}

fn bootstrapped(admin: Address) -> Env {
    let mut env = Env::new();
    assert_eq!(Contract::add_admin(&mut env, admin), Ok(()));
    env
}

#[test]
fn second_bootstrap_is_refused_and_keeps_first_admin() {
    let a = account(1);
    let b = account(2);
    let mut env = bootstrapped(a);
    assert_eq!(Contract::add_admin(&mut env, b), Err(Error::AlreadyInitialized));
    assert_eq!(Contract::add_admin(&mut env, a), Err(Error::AlreadyInitialized));
    assert_eq!(Contract::get_admin(&env), Ok(a));
}

#[test]
fn get_admin_before_bootstrap_is_uninitialized() {
    let env = Env::new();
    assert_eq!(Contract::get_admin(&env), Err(Error::Uninitialized));
    assert!(!has_admin(&env));
}

#[test]
fn mutations_before_bootstrap_are_uninitialized() {
    let mut env = Env::new();
    env.mock_all_auths();
    let c = account(3);
    assert_eq!(Contract::add_client(&mut env, c, 7), Err(Error::Uninitialized));
    assert_eq!(Contract::update_client(&mut env, c, false), Err(Error::Uninitialized));
    assert_eq!(Contract::remove_client(&mut env, c), Err(Error::Uninitialized));
    assert!(!has_client(&env, &c));
}

#[test]
fn mutations_without_admin_proof_are_unauthorized() {
    let admin = account(1);
    let c = account(3);
    let mut env = bootstrapped(admin);
    env.authorize(account(9));
    assert_eq!(Contract::add_client(&mut env, c, 7), Err(Error::Unauthorized));
    assert!(!has_client(&env, &c));
    env.authorize(admin);
    assert_eq!(Contract::add_client(&mut env, c, 7), Ok(()));
    env.set_auth(Auth::none());
    assert_eq!(Contract::update_client(&mut env, c, false), Err(Error::Unauthorized));
    assert_eq!(Contract::remove_client(&mut env, c), Err(Error::Unauthorized));
    assert_eq!(read_client(&env, &c), Client { balance: 7, status: ClientStatus::Enabled });
}

#[test]
fn unknown_client_is_not_found() {
    let admin = account(1);
    let mut env = bootstrapped(admin);
    env.authorize(admin);
    let x = account(4);
    assert_eq!(Contract::update_client(&mut env, x, true), Err(Error::ClientNotFound));
    assert_eq!(Contract::remove_client(&mut env, x), Err(Error::ClientNotFound));
}

#[test]
fn client_lifecycle() {
    let admin = account(1);
    let c = Address::Contract([5; 32]);
    let mut env = bootstrapped(admin);
    env.authorize(admin);
    assert_eq!(Contract::add_client(&mut env, c, 0), Ok(()));
    assert_eq!(read_client(&env, &c), Client { balance: 0, status: ClientStatus::Enabled });
    assert_eq!(Contract::update_client(&mut env, c, false), Ok(()));
    assert_eq!(read_client(&env, &c), Client { balance: 0, status: ClientStatus::Disabled });
    assert_eq!(Contract::remove_client(&mut env, c), Ok(()));
    assert!(!has_client(&env, &c));
    assert_eq!(Contract::update_client(&mut env, c, true), Err(Error::ClientNotFound));
}

#[test]
fn update_keeps_balance() {
    let admin = account(1);
    let c = account(6);
    let mut env = bootstrapped(admin);
    env.authorize(admin);
    assert_eq!(Contract::add_client(&mut env, c, -42), Ok(()));
    assert_eq!(Contract::update_client(&mut env, c, false), Ok(()));
    assert_eq!(Contract::update_client(&mut env, c, true), Ok(()));
    assert_eq!(read_client(&env, &c), Client { balance: -42, status: ClientStatus::Enabled });
}

#[test]
fn re_adding_overwrites_and_reenables() {
    let admin = account(1);
    let c = account(3);
    let mut env = bootstrapped(admin);
    env.mock_all_auths();
    assert_eq!(Contract::add_client(&mut env, c, 100), Ok(()));
    assert_eq!(Contract::update_client(&mut env, c, false), Ok(()));
    assert_eq!(Contract::add_client(&mut env, c, 5), Ok(()));
    assert_eq!(read_client(&env, &c), Client { balance: 5, status: ClientStatus::Enabled });
}

#[test]
fn extreme_balances_are_kept() {
    let admin = account(1);
    let mut env = bootstrapped(admin);
    env.mock_all_auths();
    assert_eq!(Contract::add_client(&mut env, account(2), i128::MAX), Ok(()));
    assert_eq!(Contract::add_client(&mut env, account(3), i128::MIN), Ok(()));
    assert_eq!(read_client(&env, &account(2)).balance, i128::MAX);
    assert_eq!(read_client(&env, &account(3)).balance, i128::MIN);
}

#[test]
fn get_admin_is_repeatable() {
    let admin = account(8);
    let env = bootstrapped(admin);
    let first = Contract::get_admin(&env);
    let second = Contract::get_admin(&env);
    assert_eq!(first, Ok(admin));
    assert_eq!(first, second);
    assert_eq!(read_admin(&env), admin);
}

#[test]
fn clients_are_kept_apart() {
    let admin = account(1);
    let mut env = bootstrapped(admin);
    env.mock_all_auths();
    let a = Address::Account([7; 32]);
    let b = Address::Contract([7; 32]);
    let mut bytes = [7u8; 32];
    bytes[31] = 8;
    let c = Address::Account(bytes);
    assert_eq!(Contract::add_client(&mut env, a, 1), Ok(()));
    assert_eq!(Contract::add_client(&mut env, b, 2), Ok(()));
    assert_eq!(Contract::add_client(&mut env, c, 3), Ok(()));
    assert_eq!(Contract::remove_client(&mut env, b), Ok(()));
    assert_eq!(read_client(&env, &a).balance, 1);
    assert_eq!(read_client(&env, &c).balance, 3);
    assert!(!has_client(&env, &b));
    assert_eq!(Contract::get_admin(&env), Ok(admin));
}

#[test]
fn admin_is_not_a_client() {
    let admin = account(1);
    let mut env = bootstrapped(admin);
    env.mock_all_auths();
    assert!(!has_client(&env, &admin));
    write_client(&mut env, &admin, &Client { balance: 9, status: ClientStatus::Disabled });
    assert!(has_client(&env, &admin));
    assert_eq!(read_admin(&env), admin);
}

#[test]
fn check_admin_reports_each_failure() {
    let admin = account(1);
    let mut env = Env::new();
    assert_eq!(Contract::check_admin(&env), Err(Error::Uninitialized));
    assert_eq!(Contract::add_admin(&mut env, admin), Ok(()));
    assert_eq!(Contract::check_admin(&env), Err(Error::Unauthorized));
    env.authorize(account(2));
    assert_eq!(Contract::check_admin(&env), Err(Error::Unauthorized));
    env.authorize(admin);
    assert_eq!(Contract::check_admin(&env), Ok(()));
}

#[test]
fn auth_permits_only_signers() {
    let mut auth = Auth::none();
    assert!(!auth.permits(&account(1)));
    auth.add(account(1));
    assert!(auth.permits(&account(1)));
    assert!(!auth.permits(&Address::Contract([1; 32])));
    assert!(Auth::all().permits(&account(200)));
}

#[test]
fn store_set_get_remove() {
    let mut s = Storage::new();
    let k = DataKey::Client(account(3));
    assert!(!s.has(&k));
    assert_eq!(s.get(&k), None);
    let v1 = Value::Client(Client { balance: 1, status: ClientStatus::Enabled });
    let v2 = Value::Client(Client { balance: 2, status: ClientStatus::Disabled });
    s.set(k, v1);
    s.set(DataKey::Admin, Value::Address(account(1)));
    s.set(k, v2);
    assert_eq!(s.get(&k), Some(v2));
    assert_eq!(s.get(&DataKey::Admin), Some(Value::Address(account(1))));
    s.remove(&k);
    assert!(!s.has(&k));
    assert!(s.has(&DataKey::Admin));
    s.remove(&k);
    assert!(s.has(&DataKey::Admin));
}

#[test]
fn keys_and_addresses_compare_by_content() {
    assert!(account(1).same(&account(1)));
    assert!(!account(1).same(&account(2)));
    assert!(!account(1).same(&Address::Contract([1; 32])));
    assert!(DataKey::Admin.same(&DataKey::Admin));
    assert!(!DataKey::Admin.same(&DataKey::Client(account(1))));
    assert!(DataKey::Client(account(4)).same(&DataKey::Client(account(4))));
}

#[test]
fn hello_greets() {
    let env = Env::new();
    let r = Contract::hello(&env, String::from("Dev"));
    assert_eq!(r, vec![String::from("Hello"), String::from("Dev")]);
}

#[test]
fn account_encoding() {
    let a = Address::Account([7; 32]);
    let bytes = a.to_xdr();
    let mut expected = vec![0u8, 0, 0, 18, 0, 0, 0, 0, 0, 0, 0, 0];
    expected.extend_from_slice(&[7u8; 32]);
    assert_eq!(bytes, expected);
    assert_eq!(Address::from_xdr(&bytes), Some(a));
}

#[test]
fn contract_encoding() {
    let mut hash = [0u8; 32];
    hash[0] = 0xab;
    hash[31] = 0x01;
    let a = Address::Contract(hash);
    let bytes = a.to_xdr();
    assert_eq!(bytes.len(), 40);
    assert_eq!(&bytes[..8], &[0u8, 0, 0, 18, 0, 0, 0, 1]);
    assert_eq!(bytes[8], 0xab);
    assert_eq!(Address::from_xdr(&bytes), Some(a));
}

#[test]
fn malformed_encodings_are_refused() {
    let mut bytes = Address::Account([3; 32]).to_xdr();
    bytes[3] = 17;
    assert_eq!(Address::from_xdr(&bytes), None);
    let mut bytes = Address::Contract([3; 32]).to_xdr();
    bytes.pop();
    assert_eq!(Address::from_xdr(&bytes), None);
    assert_eq!(Address::from_xdr(&[]), None);
    let mut bytes = Address::Account([3; 32]).to_xdr();
    bytes[11] = 1;
    assert_eq!(Address::from_xdr(&bytes), None);
}
