use lapp::domain::{Session, SessionStore, User};
use lapp::file::{read_text, split_bytes};

const HEADER: &str = "session_id,user_id,email,username,role,access_token,refresh_token,expires_at";

fn user(id: &str, username: &str, expires_at: u64) -> User {
    User {
        id: id.to_string(),
        email: format!("{}@x.com", id),
        username: username.to_string(),
        role: "user".to_string(),
        access_token: format!("at-{}", id),
        refresh_token: format!("rt-{}", id),
        expires_at,
    }
}

fn row(session_id: &str, who: &User) -> String {
    format!(
        "{},{},{},{},{},{},{},{}",
        session_id,
        who.id,
        who.email,
        who.username,
        who.role,
        who.access_token,
        who.refresh_token,
        who.expires_at
    )
}

fn loaded(bytes: &[u8]) -> SessionStore {
    let mut store = SessionStore::new();
    store.load_from_bytes(bytes);
    store
}

#[test]
fn bytes_split_at_the_separator() {
    assert_eq!(split_bytes(b"", 10), vec![Vec::<u8>::new()]);
    assert_eq!(split_bytes(b"ab", 10), vec![b"ab".to_vec()]);
    assert_eq!(split_bytes(b"a\n\nb\n", 10), vec![b"a".to_vec(), b"".to_vec(), b"b".to_vec(), b"".to_vec()]);
    assert_eq!(split_bytes(b"a,b", b','), vec![b"a".to_vec(), b"b".to_vec()]);
}

#[test]
fn valid_bytes_read_as_their_text() {
    for text in ["", "a", "a\n", "a\nb", "\n\n", "a\r\nb\r\n", "Zoë,名前\nx,y\n", "\u{10FFFF}\n\u{80}"] {
        assert_eq!(read_text(text.as_bytes()), text);
    }
}

#[test]
fn a_line_that_is_not_utf8_reads_as_an_empty_line() {
    assert_eq!(read_text(b"a\n\xff\xfe\nb\n"), "a\n\nb\n");
    assert_eq!(read_text(b"\xc3\n\xa4\n"), "\n\n");
    assert_eq!(read_text(b"\xc3\xa4\n\xc3"), "ä\n");
    assert_eq!(read_text(b"\xed\xa0\x80"), "");
    assert_eq!(read_text(b"ok\n\xf8\x88\x80\x80\x80,x\nok"), "ok\n\nok");
}

#[test]
fn the_bytes_of_the_file_are_its_text_in_utf8() {
    let mut store = SessionStore::new();
    store.insert(Session { id: "s1".to_string(), user: user("u1", "Zoë 名前", 5) });
    assert_eq!(store.save_to_bytes(), store.save_to_csv().into_bytes());
    assert_eq!(
        store.save_to_bytes(),
        format!("{}\ns1,u1,u1@x.com,Zoë 名前,user,at-u1,rt-u1,5\n", HEADER).into_bytes()
    );
}

#[test]
fn saved_bytes_load_back() {
    let mut store = SessionStore::new();
    let mut issued: Vec<(String, User)> = Vec::new();
    for n in 0..5u64 {
        let who = user(&format!("u{}", n), &format!("näme {}", n), n);
        issued.push((store.create_session(who.clone()), who));
    }
    let bytes = store.save_to_bytes();
    let again = loaded(&bytes);
    assert_eq!(again.len(), 5);
    for (id, who) in &issued {
        assert_eq!(again.get_user(id), Some(who.clone()));
    }
    assert_eq!(again.save_to_bytes(), bytes);
}

#[test]
fn a_line_that_is_not_utf8_is_passed_over() {
    let one = user("u1", "a", 1);
    let two = user("u2", "b", 2);
    let mut bytes = format!("{}\n{}\n", HEADER, row("s1", &one)).into_bytes();
    bytes.extend_from_slice(b"s9,u9,u9@x.com,\xff\xfe,user,at-u9,rt-u9,9\n");
    bytes.extend_from_slice(format!("{}\n", row("s2", &two)).as_bytes());
    let store = loaded(&bytes);
    assert_eq!(store.len(), 2);
    assert_eq!(store.get_user("s1"), Some(one));
    assert_eq!(store.get_user("s9"), None);
    assert_eq!(store.get_user("s2"), Some(two));
}

#[test]
fn a_header_that_is_not_utf8_is_still_the_header() {
    let one = user("u1", "a", 1);
    let mut bytes = b"\xff\xfe\n".to_vec();
    bytes.extend_from_slice(format!("{}\n", row("s1", &one)).as_bytes());
    let store = loaded(&bytes);
    assert_eq!(store.len(), 1);
    assert_eq!(store.get_user("s1"), Some(one));
}

#[test]
fn no_bytes_load_no_session() {
    assert_eq!(loaded(b"").len(), 0);
    assert_eq!(loaded(b"\xff").len(), 0);
    assert_eq!(loaded(HEADER.as_bytes()).len(), 0);
}

#[test]
fn a_new_store_has_nothing_to_write() {
    let mut store = SessionStore::new();
    assert_eq!(store.to_persist(), None);
    assert_eq!(store.get_user("s1"), None);
    assert_eq!(store.to_persist(), None);
}

#[test]
fn every_creation_asks_for_the_file_to_be_written_once() {
    let mut store = SessionStore::new();
    store.insert(Session { id: "s1".to_string(), user: user("u1", "a", 1) });
    assert_eq!(
        store.to_persist(),
        Some(format!("{}\ns1,u1,u1@x.com,a,user,at-u1,rt-u1,1\n", HEADER).into_bytes())
    );
    assert_eq!(store.to_persist(), None);
    let id = store.create_session(user("u2", "b", 2));
    let due = store.to_persist().unwrap();
    assert_eq!(
        due,
        format!(
            "{}\ns1,u1,u1@x.com,a,user,at-u1,rt-u1,1\n{},u2,u2@x.com,b,user,at-u2,rt-u2,2\n",
            HEADER, id
        )
        .into_bytes()
    );
    assert_eq!(store.to_persist(), None);
    // Two changes, one writing: the file holds the state after both.
    store.create_session(user("u3", "c", 3));
    store.delete_session("s1");
    assert_eq!(store.to_persist(), Some(store.save_to_bytes()));
    assert_eq!(store.to_persist(), None);
}

#[test]
fn a_deletion_asks_for_the_file_to_be_written_only_where_a_session_ended() {
    let mut store = SessionStore::new();
    store.insert(Session { id: "s1".to_string(), user: user("u1", "a", 1) });
    assert!(store.to_persist().is_some());
    assert_eq!(store.delete_session("never-issued"), None);
    assert_eq!(store.to_persist(), None);
    assert_eq!(store.delete_session("s1"), Some(user("u1", "a", 1)));
    assert_eq!(store.to_persist(), Some(format!("{}\n", HEADER).into_bytes()));
    assert_eq!(store.delete_session("s1"), None);
    assert_eq!(store.to_persist(), None);
}

#[test]
fn loading_asks_for_no_writing() {
    let mut store = SessionStore::new();
    store.load_from_bytes(format!("{}\ns1,u1,u1@x.com,a,user,at-u1,rt-u1,1\n", HEADER).as_bytes());
    assert_eq!(store.len(), 1);
    assert_eq!(store.to_persist(), None);
    store.load_from_csv(&format!("{}\ns2,u2,u2@x.com,b,user,at-u2,rt-u2,2\n", HEADER));
    assert_eq!(store.len(), 2);
    assert_eq!(store.to_persist(), None);
}
