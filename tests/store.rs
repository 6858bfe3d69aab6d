use adv_cases::{AdvCases, Error, Role, User};

fn alice() -> User {
    User::new(true, String::from("Alice"), Role::User, 30, 50000, vec![7, 42])
}

fn bob() -> User {
    User::new(false, String::from("Bob"), Role::Admin, 41, 72000, vec![])
}

fn sentinel() -> User {
    User::new(false, String::from("none"), Role::Admin, 0, 0, Vec::new())
}

#[test]
fn alice_is_found_at_zero_and_nothing_at_one() {
    let mut store = AdvCases::default();
    store.add(alice());
    assert_eq!(store.get_user_by_result(0), Ok(alice()));
    assert_eq!(store.get_user_by_result(1), Err(Error::NotFound));
    assert_eq!(store.get_user(1), sentinel());
}

#[test]
fn added_user_is_returned_unchanged() {
    let mut store = AdvCases::default();
    store.add(bob());
    assert_eq!(store.get_user_by_result(0), Ok(bob()));
    assert_eq!(store.get_user(0), bob());
}

#[test]
fn earlier_users_survive_later_additions() {
    let mut store = AdvCases::default();
    store.add(alice());
    store.add(bob());
    assert_eq!(store.get_user(0), alice());
    assert_eq!(store.get_user(1), bob());
}

#[test]
fn empty_store_finds_nothing() {
    let store = AdvCases::default();
    assert_eq!(store.users_num(), 0);
    assert_eq!(store.get_user_by_result(0), Err(Error::NotFound));
    assert_eq!(store.get_user(0), sentinel());
    assert_eq!(store.get_user(u32::MAX), sentinel());
    assert_eq!(store.get_user_by_result(u32::MAX), Err(Error::NotFound));
}

#[test]
fn identifiers_are_sequential_from_zero() {
    let mut store = AdvCases::default();
    let users: Vec<User> = (0..5u8)
        .map(|i| User::new(i % 2 == 0, format!("user{}", i), Role::User, i, 1000 * i as u64, vec![i as u32]))
        .collect();
    for (n, u) in users.iter().enumerate() {
        store.add(u.clone());
        assert_eq!(store.users_num() as usize, n + 1);
    }
    for (n, u) in users.iter().enumerate() {
        assert_eq!(store.get_user_by_result(n as u32), Ok(u.clone()));
    }
    assert_eq!(store.get_user_by_result(5), Err(Error::NotFound));
}

#[test]
fn equal_users_get_distinct_identifiers() {
    let mut store = AdvCases::default();
    store.add(alice());
    store.add(alice());
    assert_eq!(store.users_num(), 2);
    assert_eq!(store.get_user(0), alice());
    assert_eq!(store.get_user(1), alice());
}

#[test]
fn integers_are_constant() {
    let mut store = AdvCases::default();
    assert_eq!(store.get_integers(), (1u8, 2u128, -3i8, 4i128));
    store.add(alice());
    assert_eq!(store.get_integers(), (1u8, 2u128, -3i8, 4i128));
}

#[test]
fn array_is_always_empty() {
    let mut store = AdvCases::default();
    assert_eq!(store.get_array(String::new()), Vec::<u64>::new());
    store.add(bob());
    assert_eq!(store.get_array(String::from("anything at all")), Vec::<u64>::new());
}

#[test]
fn tuple_echoes_text() {
    let store = AdvCases::default();
    assert_eq!(store.get_tuple(String::from("hello")), (10u64, String::from("hello")));
    assert_eq!(store.get_tuple(String::new()), (10u64, String::new()));
    assert_eq!(store.get_tuple(String::from("é ✓")), (10u64, String::from("é ✓")));
}

#[test]
fn handle_req_leaves_store_as_it_was() {
    let mut store = AdvCases::default();
    store.add(alice());
    store.handle_req();
    assert_eq!(store.users_num(), 1);
    assert_eq!(store.get_user(0), alice());
}

#[test]
fn sentinel_user_fields() {
    let s = User::sentinel();
    assert!(!s.active);
    assert_eq!(s.name, "none");
    assert_eq!(s.role, Role::Admin);
    assert_eq!(s.age, 0);
    assert_eq!(s.salary, 0);
    assert!(s.favorite_numbers.is_empty());
}

#[test]
fn duplicate_keeps_every_field() {
    let a = alice();
    let d = a.duplicate();
    assert_eq!(d, a);
    assert_eq!(d.name, "Alice");
    assert_eq!(d.favorite_numbers, vec![7, 42]);
}

#[test]
fn unknown_is_a_distinct_error() {
    assert_ne!(Error::Unknown, Error::NotFound);
}
