use lapp::domain::{Session, SessionStore, User};

const HEADER: &str = "session_id,user_id,email,username,role,access_token,refresh_token,expires_at";

fn user(id: &str, email: &str, username: &str, expires_at: u64) -> User {
    User {
        id: id.to_string(),
        email: email.to_string(),
        username: username.to_string(),
        role: "user".to_string(),
        access_token: format!("at-{}", id),
        refresh_token: format!("rt-{}", id),
        expires_at,
    }
}

fn loaded(text: &str) -> SessionStore {
    let mut store = SessionStore::new();
    store.load_from_csv(text);
    store
}

#[test]
fn empty_store_saves_the_header_only() {
    let store = SessionStore::new();
    assert_eq!(store.save_to_csv(), format!("{}\n", HEADER));
}

#[test]
fn save_writes_one_line_per_session_oldest_first() {
    let mut store = SessionStore::new();
    store.insert(Session { id: "s1".to_string(), user: user("u1", "a@x.com", "a", 1000) });
    store.insert(Session { id: "s2".to_string(), user: user("u2", "b@x.com", "b", 0) });
    store.insert(Session {
        id: "s3".to_string(),
        user: user("u3", "c@x.com", "c", 18446744073709551615),
    });
    assert_eq!(
        store.save_to_csv(),
        format!(
            "{}\n{}\n{}\n{}\n",
            HEADER,
            "s1,u1,a@x.com,a,user,at-u1,rt-u1,1000",
            "s2,u2,b@x.com,b,user,at-u2,rt-u2,0",
            "s3,u3,c@x.com,c,user,at-u3,rt-u3,18446744073709551615"
        )
    );
}

#[test]
fn save_after_deletion_leaves_the_line_out() {
    let mut store = SessionStore::new();
    store.insert(Session { id: "s1".to_string(), user: user("u1", "a@x.com", "a", 1) });
    store.insert(Session { id: "s2".to_string(), user: user("u2", "b@x.com", "b", 2) });
    store.delete_session("s1");
    assert_eq!(store.save_to_csv(), format!("{}\ns2,u2,b@x.com,b,user,at-u2,rt-u2,2\n", HEADER));
}

#[test]
fn load_reads_each_line_after_the_header() {
    let store = loaded(&format!(
        "{}\ns1,u1,a@x.com,a,user,at-u1,rt-u1,1000\ns2,u2,b@x.com,b,user,at-u2,rt-u2,7\n",
        HEADER
    ));
    assert_eq!(store.len(), 2);
    assert_eq!(store.get_user("s1"), Some(user("u1", "a@x.com", "a", 1000)));
    assert_eq!(store.get_user("s2"), Some(user("u2", "b@x.com", "b", 7)));
}

#[test]
fn load_skips_the_first_line_whatever_it_holds() {
    let store = loaded("s0,u0,z@x.com,z,user,at-u0,rt-u0,5\ns1,u1,a@x.com,a,user,at-u1,rt-u1,6\n");
    assert_eq!(store.len(), 1);
    assert_eq!(store.get_user("s0"), None);
    assert_eq!(store.get_user("s1"), Some(user("u1", "a@x.com", "a", 6)));
}

#[test]
fn load_of_nothing_gives_no_session() {
    assert_eq!(loaded("").len(), 0);
    assert_eq!(loaded("\n").len(), 0);
    assert_eq!(loaded(HEADER).len(), 0);
    assert_eq!(loaded(&format!("{}\n", HEADER)).len(), 0);
}

#[test]
fn load_skips_lines_with_fewer_than_eight_fields() {
    let store = loaded(&format!(
        "{}\n\ns1,u1,a@x.com,a,user,at-u1,rt-u1\nnot a row\ns2,u2,b@x.com,b,user,at-u2,rt-u2,7\n,,,,,,\n",
        HEADER
    ));
    assert_eq!(store.len(), 1);
    assert_eq!(store.get_user("s1"), None);
    assert_eq!(store.get_user("s2"), Some(user("u2", "b@x.com", "b", 7)));
}

#[test]
fn load_ignores_fields_after_the_eighth() {
    let store = loaded(&format!("{}\ns1,u1,a@x.com,a,user,at-u1,rt-u1,12,extra,more\n", HEADER));
    assert_eq!(store.get_user("s1"), Some(user("u1", "a@x.com", "a", 12)));
}

#[test]
fn load_takes_an_expiry_that_is_no_number_as_zero() {
    let rows = [
        ("", 0u64),
        ("abc", 0),
        ("12x", 0),
        ("-5", 0),
        ("+", 0),
        (" 5", 0),
        ("5 ", 0),
        ("1.5", 0),
        ("+5", 5),
        ("007", 7),
        ("0", 0),
        ("18446744073709551615", 18446744073709551615),
        ("18446744073709551616", 0),
        ("99999999999999999999999", 0),
        ("000000000000000000000000000042", 42),
    ];
    for (text, expected) in rows {
        let store = loaded(&format!("{}\ns1,u1,a@x.com,a,user,at-u1,rt-u1,{}\n", HEADER, text));
        assert_eq!(store.get_user("s1"), Some(user("u1", "a@x.com", "a", expected)), "{:?}", text);
    }
}

#[test]
fn load_accepts_lines_that_end_in_carriage_return_and_line_feed() {
    let store = loaded(&format!(
        "{}\r\ns1,u1,a@x.com,a,user,at-u1,rt-u1,1000\r\ns2,u2,b@x.com,b,user,at-u2,rt-u2,7\r\n",
        HEADER
    ));
    assert_eq!(store.get_user("s1"), Some(user("u1", "a@x.com", "a", 1000)));
    assert_eq!(store.get_user("s2"), Some(user("u2", "b@x.com", "b", 7)));
}

#[test]
fn load_strips_one_carriage_return_only_and_only_before_a_line_feed() {
    // Two carriage returns: one stays in the last field, which is then no number.
    let store = loaded(&format!("{}\ns1,u1,a@x.com,a,user,at-u1,rt-u1,1000\r\r\n", HEADER));
    assert_eq!(store.get_user("s1"), Some(user("u1", "a@x.com", "a", 0)));
    // A last line without a line feed keeps its carriage return.
    let store = loaded(&format!("{}\ns1,u1,a@x.com,a,user,at-u1,rt-u1,1000\r", HEADER));
    assert_eq!(store.get_user("s1"), Some(user("u1", "a@x.com", "a", 0)));
    // A last line without a line feed is still a line.
    let store = loaded(&format!("{}\ns1,u1,a@x.com,a,user,at-u1,rt-u1,1000", HEADER));
    assert_eq!(store.get_user("s1"), Some(user("u1", "a@x.com", "a", 1000)));
}

#[test]
fn load_keeps_empty_fields_and_text_beyond_ascii() {
    let store = loaded(&format!("{}\ns1,u1,,,,,,\n", HEADER));
    assert_eq!(
        store.get_user("s1"),
        Some(User {
            id: "u1".to_string(),
            email: String::new(),
            username: String::new(),
            role: String::new(),
            access_token: String::new(),
            refresh_token: String::new(),
            expires_at: 0,
        })
    );
    let store = loaded(&format!("{}\ns1,u1,ä@x.com,Zoë 名前,user,at-u1,rt-u1,3\n", HEADER));
    assert_eq!(store.get_user("s1"), Some(user("u1", "ä@x.com", "Zoë 名前", 3)));
}

#[test]
fn load_keeps_one_session_per_user_and_per_identifier() {
    // Two lines for one user: the later line replaces the earlier session.
    let store = loaded(&format!(
        "{}\ns1,u1,a@x.com,a,user,at-u1,rt-u1,1\ns2,u1,a@x.com,a,user,at-u1,rt-u1,2\n",
        HEADER
    ));
    assert_eq!(store.len(), 1);
    assert_eq!(store.get_user("s1"), None);
    assert_eq!(store.get_user("s2"), Some(user("u1", "a@x.com", "a", 2)));
    // Two lines under one identifier: the later line takes the identifier.
    let mut store = loaded(&format!(
        "{}\ns1,u1,a@x.com,a,user,at-u1,rt-u1,1\ns1,u2,b@x.com,b,user,at-u2,rt-u2,2\n",
        HEADER
    ));
    assert_eq!(store.len(), 1);
    assert_eq!(store.get_user("s1"), Some(user("u2", "b@x.com", "b", 2)));
    assert_eq!(store.delete_session("s1"), Some(user("u2", "b@x.com", "b", 2)));
    assert_eq!(store.len(), 0);
}

#[test]
fn load_into_a_store_with_sessions_adds_to_them() {
    let mut store = SessionStore::new();
    store.insert(Session { id: "s0".to_string(), user: user("u0", "z@x.com", "z", 9) });
    store.load_from_csv(&format!("{}\ns1,u1,a@x.com,a,user,at-u1,rt-u1,1\n", HEADER));
    assert_eq!(store.len(), 2);
    assert_eq!(store.get_user("s0"), Some(user("u0", "z@x.com", "z", 9)));
    assert_eq!(store.get_user("s1"), Some(user("u1", "a@x.com", "a", 1)));
}

#[test]
fn saved_sessions_load_back_field_for_field() {
    let mut store = SessionStore::new();
    let mut issued: Vec<(String, User)> = Vec::new();
    for n in 0..10u64 {
        let who = user(&format!("u{}", n), &format!("m{}@x.com", n), &format!("näme {}", n), n * 1000);
        let id = store.create_session(who.clone());
        issued.push((id, who));
    }
    let text = store.save_to_csv();
    let again = loaded(&text);
    assert_eq!(again.len(), 10);
    for (id, who) in &issued {
        assert_eq!(again.get_user(id), Some(who.clone()));
    }
    assert_eq!(again.save_to_csv(), text);
}

#[test]
fn a_comma_in_a_field_does_not_load_back() {
    let mut store = SessionStore::new();
    store.insert(Session { id: "s1".to_string(), user: user("u1", "a@x.com", "Doe, Jane", 5) });
    let text = store.save_to_csv();
    assert_eq!(text, format!("{}\ns1,u1,a@x.com,Doe, Jane,user,at-u1,rt-u1,5\n", HEADER));
    let again = loaded(&text);
    let read = again.get_user("s1").unwrap();
    assert_eq!(read.username, "Doe");
    assert_eq!(read.role, " Jane");
    assert_eq!(read.access_token, "user");
    assert_eq!(read.refresh_token, "at-u1");
    assert_eq!(read.expires_at, 0);
}

#[test]
fn a_line_feed_in_a_field_does_not_load_back() {
    let mut store = SessionStore::new();
    store.insert(Session { id: "s1".to_string(), user: user("u1", "a@x.com", "Jane\nDoe", 5) });
    let again = loaded(&store.save_to_csv());
    assert_eq!(again.len(), 0);
    assert_eq!(again.get_user("s1"), None);
}
