use termcall::directory::{find_caller, find_user, usernames, users_or_empty};
use termcall::error::DirectoryError;
use termcall::user::User;

fn record(name: &str, sending: &str) -> User {
    let mut user = User::new(name.to_string());
    user.sending_call = sending.to_string();
    user
}

#[test]
fn failed_fetch_is_an_empty_directory() {
    assert_eq!(users_or_empty(Err(DirectoryError::Unreachable)), vec![]);
}

#[test]
fn good_fetch_is_kept_as_it_is() {
    let fetched = vec![record("Alice", ""), record("Bob", "Alice")];
    assert_eq!(users_or_empty(Ok(fetched.clone())), fetched);
    assert_eq!(users_or_empty(Ok(vec![])), vec![]);
}

#[test]
fn names_come_in_the_order_fetched() {
    let fetched = vec![record("Carol", ""), record("Alice", ""), record("Bob", "")];
    assert_eq!(usernames(&fetched), vec!["Carol".to_string(), "Alice".to_string(), "Bob".to_string()]);
    assert_eq!(usernames(&vec![]), Vec::<String>::new());
}

#[test]
fn caller_is_found_by_the_name_it_calls() {
    let fetched = vec![record("Alice", ""), record("Bob", "Carol"), record("Dave", "Alice"), record("Eve", "Alice")];
    assert_eq!(find_caller(&fetched, &"Alice".to_string()), Some(2));
    assert_eq!(find_caller(&fetched, &"Carol".to_string()), Some(1));
    assert_eq!(find_caller(&fetched, &"Bob".to_string()), None);
    assert_eq!(find_caller(&vec![], &"Alice".to_string()), None);
}

#[test]
fn nobody_calls_the_empty_name() {
    let fetched = vec![record("Alice", ""), record("Bob", "")];
    assert_eq!(find_caller(&fetched, &String::new()), None);
}

#[test]
fn user_is_found_by_name() {
    let fetched = vec![record("Alice", ""), record("Bob", ""), record("Alice", "Bob")];
    assert_eq!(find_user(&fetched, &"Alice".to_string()), Some(0));
    assert_eq!(find_user(&fetched, &"Bob".to_string()), Some(1));
    assert_eq!(find_user(&fetched, &"bob".to_string()), None);
    assert_eq!(find_user(&vec![], &"Bob".to_string()), None);
}
