use termcall::user::User;

fn record(name: &str, offer: &str, answer: &str, in_call: &str, sending: &str, receiving: &str) -> User {
    User {
        name: name.to_string(),
        offer: offer.to_string(),
        answer: answer.to_string(),
        in_call: in_call.to_string(),
        sending_call: sending.to_string(),
        receiving_call: receiving.to_string(),
    }
}

#[test]
fn new_user_has_only_a_name() {
    assert_eq!(User::new("Alice".to_string()), record("Alice", "", "", "", "", ""));
    assert_eq!(User::new(String::new()), record("", "", "", "", "", ""));
}

#[test]
fn caller_record() {
    assert_eq!(
        User::calling("Alice".to_string(), "<sdp1>".to_string(), "Bob".to_string()),
        record("Alice", "<sdp1>", "", "", "Bob", "")
    );
}

#[test]
fn answerer_record() {
    assert_eq!(
        User::answering("Bob".to_string(), "<sdp2>".to_string(), "Alice".to_string()),
        record("Bob", "", "<sdp2>", "", "", "Alice")
    );
}

#[test]
fn in_call_record() {
    assert_eq!(User::talking("Bob".to_string(), "Alice".to_string()), record("Bob", "", "", "Alice", "", ""));
}

#[test]
fn duplicate_is_equal() {
    let user = record("a", "b", "c", "d", "e", "f");
    assert_eq!(user.duplicate(), user);
}
