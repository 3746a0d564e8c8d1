use lapp::domain::{Session, SessionStore, User};

fn user(id: &str, token: &str) -> User {
    User {
        id: id.to_string(),
        email: "a@x.com".to_string(),
        username: "a".to_string(),
        role: "user".to_string(),
        access_token: token.to_string(),
        refresh_token: "rtok1".to_string(),
        expires_at: 1000,
    }
}

fn session(id: &str, user: User) -> Session {
    Session { id: id.to_string(), user }
}

#[test]
fn create_then_lookup_then_replace() {
    let mut store = SessionStore::new();
    let first = store.create_session(user("u1", "tok1"));
    assert_eq!(store.get_user(&first), Some(user("u1", "tok1")));
    let second = store.create_session(user("u1", "tok2"));
    assert_ne!(first, second);
    assert_eq!(store.get_user(&first), None);
    assert_eq!(store.get_user(&second), Some(user("u1", "tok2")));
    assert_eq!(store.len(), 1);
}

#[test]
fn new_store_is_empty() {
    let store = SessionStore::new();
    assert_eq!(store.len(), 0);
    assert_eq!(store.get_user(""), None);
    assert_eq!(store.get_user("00000000-0000-4000-8000-000000000000"), None);
}

#[test]
fn generated_identifier_is_a_hyphenated_lower_case_uuid() {
    let mut store = SessionStore::new();
    let id = store.create_session(user("u1", "tok1"));
    let chars: Vec<char> = id.chars().collect();
    assert_eq!(chars.len(), 36);
    for (i, c) in chars.iter().enumerate() {
        if i == 8 || i == 13 || i == 18 || i == 23 {
            assert_eq!(*c, '-');
        } else {
            assert!(('0'..='9').contains(c) || ('a'..='f').contains(c));
        }
    }
    assert_eq!(chars[14], '4');
}

#[test]
fn session_new_keeps_the_user_and_draws_an_identifier() {
    let one = Session::new(user("u1", "tok1"));
    let two = Session::new(user("u1", "tok1"));
    assert_eq!(one.user, user("u1", "tok1"));
    assert_eq!(one.id.len(), 36);
    assert_ne!(one.id, two.id);
}

#[test]
fn repeated_creation_for_one_user_keeps_one_session() {
    let mut store = SessionStore::new();
    let mut earlier: Vec<String> = Vec::new();
    for round in 0..5 {
        let token = format!("tok{}", round);
        let id = store.create_session(user("u1", &token));
        assert_eq!(store.len(), 1);
        assert_eq!(store.get_user(&id), Some(user("u1", &token)));
        for old in &earlier {
            assert_eq!(store.get_user(old), None);
        }
        earlier.push(id);
    }
}

#[test]
fn unknown_identifier_is_absent() {
    let mut store = SessionStore::new();
    let id = store.create_session(user("u1", "tok1"));
    assert_eq!(store.get_user("never-issued"), None);
    assert_eq!(store.delete_session("never-issued"), None);
    assert_eq!(store.len(), 1);
    assert_eq!(store.get_user(&id), Some(user("u1", "tok1")));
}

#[test]
fn delete_returns_the_user_once() {
    let mut store = SessionStore::new();
    let id = store.create_session(user("u1", "tok1"));
    assert_eq!(store.delete_session(&id), Some(user("u1", "tok1")));
    assert_eq!(store.len(), 0);
    assert_eq!(store.delete_session(&id), None);
    assert_eq!(store.get_user(&id), None);
    assert_eq!(store.len(), 0);
}

#[test]
fn user_can_log_in_again_after_deletion() {
    let mut store = SessionStore::new();
    let first = store.create_session(user("u1", "tok1"));
    assert_eq!(store.delete_session(&first), Some(user("u1", "tok1")));
    let second = store.create_session(user("u1", "tok2"));
    assert_eq!(store.get_user(&second), Some(user("u1", "tok2")));
    assert_eq!(store.get_user(&first), None);
    assert_eq!(store.len(), 1);
}

#[test]
fn distinct_users_keep_their_own_sessions() {
    let mut store = SessionStore::new();
    let mut issued: Vec<(String, User)> = Vec::new();
    for n in 0..20 {
        let who = user(&format!("u{}", n), &format!("tok{}", n));
        let id = store.create_session(who.clone());
        issued.push((id, who));
    }
    assert_eq!(store.len(), 20);
    for (id, who) in &issued {
        assert_eq!(store.get_user(id), Some(who.clone()));
    }
    for (i, (id, _)) in issued.iter().enumerate() {
        for (other, _) in &issued[i + 1..] {
            assert_ne!(id, other);
        }
    }
}

#[test]
fn deleting_one_session_leaves_the_others() {
    let mut store = SessionStore::new();
    let a = store.create_session(user("u1", "tok1"));
    let b = store.create_session(user("u2", "tok2"));
    let c = store.create_session(user("u3", "tok3"));
    assert_eq!(store.delete_session(&b), Some(user("u2", "tok2")));
    assert_eq!(store.len(), 2);
    assert_eq!(store.get_user(&a), Some(user("u1", "tok1")));
    assert_eq!(store.get_user(&b), None);
    assert_eq!(store.get_user(&c), Some(user("u3", "tok3")));
}

#[test]
fn insert_under_a_live_identifier_retires_the_session_that_held_it() {
    let mut store = SessionStore::new();
    store.insert(session("s1", user("u1", "tok1")));
    store.insert(session("s1", user("u2", "tok2")));
    assert_eq!(store.len(), 1);
    assert_eq!(store.get_user("s1"), Some(user("u2", "tok2")));
    // The first user has no session left, so a new one replaces nothing.
    store.insert(session("s2", user("u1", "tok3")));
    assert_eq!(store.len(), 2);
    assert_eq!(store.get_user("s1"), Some(user("u2", "tok2")));
    assert_eq!(store.get_user("s2"), Some(user("u1", "tok3")));
}

#[test]
fn insert_for_a_user_with_a_session_ends_that_session() {
    let mut store = SessionStore::new();
    store.insert(session("s1", user("u1", "tok1")));
    store.insert(session("s2", user("u2", "tok2")));
    store.insert(session("s3", user("u1", "tok3")));
    assert_eq!(store.len(), 2);
    assert_eq!(store.get_user("s1"), None);
    assert_eq!(store.get_user("s2"), Some(user("u2", "tok2")));
    assert_eq!(store.get_user("s3"), Some(user("u1", "tok3")));
}

#[test]
fn insert_of_the_same_session_again_changes_nothing_but_its_age() {
    let mut store = SessionStore::new();
    store.insert(session("s1", user("u1", "tok1")));
    store.insert(session("s2", user("u2", "tok2")));
    store.insert(session("s1", user("u1", "tok1")));
    assert_eq!(store.len(), 2);
    assert_eq!(store.get_user("s1"), Some(user("u1", "tok1")));
    assert_eq!(
        store.save_to_csv(),
        "session_id,user_id,email,username,role,access_token,refresh_token,expires_at\n\
         s2,u2,a@x.com,a,user,tok2,rtok1,1000\n\
         s1,u1,a@x.com,a,user,tok1,rtok1,1000\n"
    );
}

#[test]
fn the_session_owns_its_copy_of_the_user() {
    let mut store = SessionStore::new();
    let mut who = user("u1", "tok1");
    let id = store.create_session(who.clone());
    who.access_token = "changed".to_string();
    assert_eq!(store.get_user(&id), Some(user("u1", "tok1")));
}
