//! Sessions and the store that maps session identifiers to users.

use vstd::prelude::*;
use vstd::hash_map::StringHashMap;
use vstd::string::{StrSliceExecFns, StringExecFns, StringSliceAdditionalSpecFns};
use vstd::utf8::encode_utf8;
use crate::domain::csv::{csv_text, ended, header, plain, row, rows};
use crate::domain::model::{
    lemma_delete_consistent, lemma_insert_consistent, without, SessionTable, Text,
};
use crate::domain::user::{User, UserView};
use crate::file::{file_text, read_text};
use crate::text::{
    from_chars, join, lines, parse_number, parse_u64, push_decimal, split_chars, text_lines,
    to_chars, views,
};

verus! {

/// A session identifier in text form.
pub type SessionId = String;

/// A lower-case hexadecimal digit.
pub open spec fn is_lower_hex(c: char) -> bool {
    ('0' <= c && c <= '9') || ('a' <= c && c <= 'f')
}

/// The shape of a generated session identifier: 36 characters, hyphens at
/// positions 8, 13, 18 and 23, lower-case hexadecimal digits elsewhere.
pub open spec fn is_generated_id(id: Text) -> bool {
    &&& id.len() == 36
    &&& forall|i: int|
        0 <= i < 36 ==> if i == 8 || i == 13 || i == 18 || i == 23 {
            #[trigger] id[i] == '-'
        } else {
            is_lower_hex(id[i])
        }
}

/// `after` is `before` with a session created for `user` under some
/// generated identifier.
pub open spec fn opens_session(before: SessionTable, after: SessionTable, user: UserView) -> bool {
    exists|session_id: Text|
        is_generated_id(session_id) && after == #[trigger] before.insert(session_id, user)
}

/// A generated identifier holds neither a comma nor a line feed, nor any
/// character but hyphens and lower-case hexadecimal digits, so it can stand
/// in a field of the session file and in a cookie.
pub proof fn lemma_generated_id_plain(id: Text)
    requires
        is_generated_id(id),
    ensures
        plain(id),
        forall|i: int| 0 <= i < id.len() ==> (#[trigger] id[i]) == '-' || is_lower_hex(id[i]),
{
    assert forall|i: int| 0 <= i < id.len() implies (#[trigger] id[i]) == '-' || is_lower_hex(
        id[i],
    ) by {
        if i == 8 || i == 13 || i == 18 || i == 23 {
            assert(id[i] == '-');
        }
    }
}

/// Draws a random version 4 UUID with `uuid::Uuid::new_v4` and writes it
/// out with `to_string`. Trusted: the text is the hyphenated form in lower
/// case, which is what the `Display` impl of `uuid::Uuid` writes. Nothing
/// is claimed about which identifier comes back. The call panics if the
/// operating system cannot supply random bytes.
#[verifier::external_body]
fn random_id() -> (id: String)
    ensures
        is_generated_id(id@),
{
    uuid::Uuid::new_v4().to_string()
}

/// Mathematical value of a [`Session`].
pub struct SessionView {
    pub id: Text,
    pub user: UserView,
}

/// Links a session identifier to a user. The session owns its copy of the
/// user record.
#[derive(Debug, PartialEq, Eq)]
pub struct Session {
    pub id: SessionId,
    pub user: User,
}

impl View for Session {
    type V = SessionView;

    open spec fn view(&self) -> SessionView {
        SessionView { id: self.id@, user: self.user@ }
    }
}

impl Clone for Session {
    fn clone(&self) -> (copy: Self)
        ensures
            copy == *self,
    {
        Session { id: self.id.clone(), user: self.user.clone() }
    }
}

impl Session {
    /// A session for `user` under a freshly drawn identifier.
    pub fn new(user: User) -> (session: Session)
        ensures
            session.user == user,
            is_generated_id(session.id@),
    {
        Session { id: random_id(), user }
    }
}

/// The identifiers in `order`, as text.
pub open spec fn ids(order: Seq<String>) -> Seq<Text> {
    Seq::new(order.len(), |i: int| order[i]@)
}

/// Takes `session_id` out of `order`.
fn remove_id(order: &mut Vec<String>, session_id: &str)
    requires
        ids(old(order)@).no_duplicates(),
    ensures
        ids(final(order)@) == without(ids(old(order)@), session_id@),
{
    let ghost before = ids(order@);
    let key = session_id.to_owned();
    let mut i: usize = 0;
    while i < order.len()
        invariant
            i <= order.len(),
            ids(order@) == before,
            before == ids(old(order)@),
            before.no_duplicates(),
            key@ == session_id@,
            forall|j: int| 0 <= j < i ==> before[j] != session_id@,
        decreases order.len() - i,
    {
        if order[i] == key {
            proof {
                assert(before[i as int] == session_id@);
                assert(before.contains(session_id@));
                assert(before.index_of(session_id@) == i);
            }
            order.remove(i);
            assert(ids(order@) =~= before.remove(i as int));
            return ;
        }
        i = i + 1;
    }
    assert(!before.contains(session_id@));
}

/// The parts of a session store: sessions by identifier, the session of
/// each user, and the order in which the live sessions were created.
struct Indices {
    by_session: StringHashMap<Session>,
    user_to_session: StringHashMap<String>,
    order: Vec<String>,
}

impl View for Indices {
    type V = SessionTable;

    closed spec fn view(&self) -> SessionTable {
        SessionTable {
            by_session: Map::new(
                |sid: Text| self.by_session@.contains_key(sid),
                |sid: Text| self.by_session@[sid].user@,
            ),
            user_to_session: Map::new(
                |uid: Text| self.user_to_session@.contains_key(uid),
                |uid: Text| self.user_to_session@[uid]@,
            ),
            order: ids(self.order@),
        }
    }
}

impl Indices {
    /// Every stored session sits under its own identifier.
    spec fn keyed(&self) -> bool {
        forall|sid: Text| #[trigger]
            self.by_session@.contains_key(sid) ==> self.by_session@[sid].id@ == sid
    }

    /// The two indices and the creation order are consistent with each
    /// other.
    spec fn wf(&self) -> bool {
        self.keyed() && self@.consistent()
    }

    fn new() -> (store: Indices)
        ensures
            store.wf(),
            store@ == SessionTable::empty(),
    {
        let store = Indices {
            by_session: StringHashMap::new(),
            user_to_session: StringHashMap::new(),
            order: Vec::new(),
        };
        assert(store@.by_session =~= Map::empty());
        assert(store@.user_to_session =~= Map::empty());
        assert(store@.order =~= Seq::empty());
        store
    }

    fn get_user(&self, session_id: &str) -> (found: Option<User>)
        ensures
            match found {
                Some(user) => self@.lookup(session_id@) == Some(user@),
                None => self@.lookup(session_id@) is None,
            },
    {
        match self.by_session.get(session_id) {
            Some(session) => Some(session.user.clone()),
            None => None,
        }
    }

    fn delete_session(&mut self, session_id: &str) -> (removed: Option<User>)
        requires
            old(self).wf(),
        ensures
            final(self).wf(),
            final(self)@ == old(self)@.delete(session_id@),
            match removed {
                Some(user) => old(self)@.lookup(session_id@) == Some(user@),
                None => old(self)@.lookup(session_id@) is None,
            },
    {
        let found = self.get_user(session_id);
        match found {
            Some(user) => {
                proof {
                    lemma_delete_consistent(self@, session_id@);
                }
                self.by_session.remove(session_id);
                self.user_to_session.remove(user.id.as_str());
                remove_id(&mut self.order, session_id);
                proof {
                    let after = old(self)@.delete(session_id@);
                    assert(self@.by_session =~= after.by_session);
                    assert(self@.user_to_session =~= after.user_to_session);
                    assert(self@.order == after.order);
                }
                Some(user)
            },
            None => None,
        }
    }

    fn insert(&mut self, session: Session)
        requires
            old(self).wf(),
        ensures
            final(self).wf(),
            final(self)@ == old(self)@.insert(session.id@, session.user@),
    {
        proof {
            lemma_insert_consistent(self@, session.id@, session.user@);
        }
        let _ = self.delete_session(session.id.as_str());
        let previous = match self.user_to_session.get(session.user.id.as_str()) {
            Some(id) => Some(id.clone()),
            None => None,
        };
        match previous {
            Some(id) => {
                let _ = self.delete_session(id.as_str());
            },
            None => {},
        }
        self.user_to_session.insert(session.user.id.clone(), session.id.clone());
        self.order.push(session.id.clone());
        let ghost sid = session.id@;
        let ghost user = session.user@;
        self.by_session.insert(session.id.clone(), session);
        proof {
            let after = old(self)@.insert(sid, user);
            assert(self@.by_session =~= after.by_session);
            assert(self@.user_to_session =~= after.user_to_session);
            assert(self@.order =~= after.order);
        }
    }
}

/// Appends the line for `session`, line feed included, to `out`.
fn push_row(out: &mut String, session: &Session)
    ensures
        final(out)@ == (old(out)@ + row(session.id@, session.user@)).push('\n'),
{
    out.append(session.id.as_str());
    out.append(",");
    out.append(session.user.id.as_str());
    out.append(",");
    out.append(session.user.email.as_str());
    out.append(",");
    out.append(session.user.username.as_str());
    out.append(",");
    out.append(session.user.role.as_str());
    out.append(",");
    out.append(session.user.access_token.as_str());
    out.append(",");
    out.append(session.user.refresh_token.as_str());
    out.append(",");
    push_decimal(out, session.user.expires_at);
    out.append("\n");
    proof {
        reveal_strlit(",");
        reveal_strlit("\n");
        reveal_with_fuel(join, 9);
        assert(","@ =~= seq![',']);
        assert("\n"@ =~= seq!['\n']);
        assert(final(out)@ =~= (old(out)@ + row(session.id@, session.user@)).push('\n'));
    }
}

/// The session that the fields of one line describe.
fn session_from(found: &Vec<Vec<char>>) -> (session: Session)
    requires
        found.len() >= 8,
    ensures
        session.id@ == found[0]@,
        session.user.id@ == found[1]@,
        session.user.email@ == found[2]@,
        session.user.username@ == found[3]@,
        session.user.role@ == found[4]@,
        session.user.access_token@ == found[5]@,
        session.user.refresh_token@ == found[6]@,
        session.user.expires_at == match parse_u64(found[7]@) {
            Some(n) => n,
            None => 0,
        },
{
    let expires_at = match parse_number(&found[7]) {
        Some(n) => n,
        None => 0,
    };
    Session {
        id: from_chars(&found[0]),
        user: User {
            id: from_chars(&found[1]),
            email: from_chars(&found[2]),
            username: from_chars(&found[3]),
            role: from_chars(&found[4]),
            access_token: from_chars(&found[5]),
            refresh_token: from_chars(&found[6]),
            expires_at,
        },
    }
}

impl Indices {
    fn save_to_csv(&self) -> (text: String)
        requires
            self.wf(),
        ensures
            text@ == csv_text(self@),
    {
        let ghost all = seq![header()] + rows(self@);
        let mut text = String::new();
        text.append("session_id,user_id,email,username,role,access_token,refresh_token,expires_at");
        text.append("\n");
        proof {
            reveal_strlit("\n");
            assert("\n"@ =~= seq!['\n']);
            assert(all.take(1).drop_last() =~= Seq::empty());
            assert(ended(all.take(1).drop_last()) =~= Seq::empty());
            assert(text@ =~= ended(all.take(1)));
        }
        let mut i: usize = 0;
        while i < self.order.len()
            invariant
                self.wf(),
                i <= self.order.len(),
                all == seq![header()] + rows(self@),
                text@ == ended(all.take(i + 1)),
            decreases self.order.len() - i,
        {
            proof {
                assert(self@.order[i as int] == self.order@[i as int]@);
                assert(self@.order.contains(self.order@[i as int]@));
                assert(all.take(i + 2).drop_last() =~= all.take(i + 1));
                assert(all.take(i + 2).last() == rows(self@)[i as int]);
            }
            match self.by_session.get(self.order[i].as_str()) {
                Some(session) => {
                    push_row(&mut text, session);
                },
                None => {},
            }
            i = i + 1;
        }
        proof {
            assert(all.take(self.order.len() + 1) =~= all);
        }
        text
    }

    fn load_from_csv(&mut self, text: &str)
        requires
            old(self).wf(),
        ensures
            final(self).wf(),
            final(self)@ == old(self)@.with_csv(text@),
    {
        let chars = to_chars(text);
        let found = text_lines(&chars);
        if found.len() == 0 {
            return ;
        }
        let ghost all = lines(text@);
        let mut i: usize = 1;
        while i < found.len()
            invariant
                1 <= i <= found.len(),
                views(found@) == all,
                self.wf(),
                self@ == old(self)@.with_rows(all.subrange(1, i as int)),
            decreases found.len() - i,
        {
            proof {
                assert(all.subrange(1, i + 1).drop_last() =~= all.subrange(1, i as int));
                assert(all.subrange(1, i + 1).last() == found[i as int]@);
            }
            let parts = split_chars(&found[i], ',');
            if parts.len() >= 8 {
                let session = session_from(&parts);
                self.insert(session);
            }
            i = i + 1;
        }
        proof {
            assert(all.subrange(1, found.len() as int) =~= all.drop_first());
        }
    }
}

/// The session store. It maps the identifier of each live session to the
/// user of the session, and each user to the one session that the user
/// has. The indices can only be changed together, through the operations
/// of the store, and are consistent at all times.
///
/// A change needs `&mut self`, so it excludes every other reader and
/// writer; lookups share the store. The store also knows whether it has
/// changed since its session file was last written: after every change the
/// caller takes the new content of the file with
/// [`SessionStore::to_persist`] and writes it, before it lets others in.
pub struct SessionStore {
    inner: Indices,
    unsaved: bool,
}

impl View for SessionStore {
    type V = SessionTable;

    closed spec fn view(&self) -> SessionTable {
        self.inner@
    }
}

impl Default for SessionStore {
    fn default() -> (store: SessionStore)
        ensures
            store@ == SessionTable::empty(),
    {
        SessionStore::new()
    }
}

impl SessionStore {
    #[verifier::type_invariant]
    spec fn well_formed(self) -> bool {
        self.inner.wf()
    }

    /// Takes the parts out of the store, which is left without sessions.
    fn take(&mut self) -> (inner: Indices)
        ensures
            inner.wf(),
            inner@ == old(self)@,
            final(self).unsaved() == old(self).unsaved(),
    {
        proof {
            use_type_invariant(&*self);
        }
        let mut inner = Indices::new();
        core::mem::swap(&mut self.inner, &mut inner);
        inner
    }

    /// Whether the store has changed since its file was last written.
    pub closed spec fn unsaved(&self) -> bool {
        self.unsaved
    }

    /// A store without sessions, with nothing to write.
    pub fn new() -> (store: SessionStore)
        ensures
            store@ == SessionTable::empty(),
            store@.consistent(),
            !store.unsaved(),
    {
        SessionStore { inner: Indices::new(), unsaved: false }
    }

    /// The number of live sessions.
    pub fn len(&self) -> (n: usize)
        ensures
            n == self@.len(),
    {
        self.inner.order.len()
    }

    /// The user behind `session_id`, or `None` if no such session is live.
    /// The store is not changed.
    pub fn get_user(&self, session_id: &str) -> (found: Option<User>)
        ensures
            self@.consistent(),
            match found {
                Some(user) => self@.lookup(session_id@) == Some(user@),
                None => self@.lookup(session_id@) is None,
            },
    {
        proof {
            use_type_invariant(self);
        }
        self.inner.get_user(session_id)
    }

    /// Ends the session `session_id` and returns its user, or returns `None`
    /// and leaves the store as it is if no such session is live. Where a
    /// session ended, the file is to be written.
    pub fn delete_session(&mut self, session_id: &str) -> (removed: Option<User>)
        ensures
            final(self)@ == old(self)@.delete(session_id@),
            final(self)@.consistent(),
            final(self).unsaved() == (old(self).unsaved() || removed is Some),
            match removed {
                Some(user) => old(self)@.lookup(session_id@) == Some(user@),
                None => old(self)@.lookup(session_id@) is None,
            },
    {
        let mut inner = self.take();
        let removed = inner.delete_session(session_id);
        self.inner = inner;
        if removed.is_some() {
            self.unsaved = true;
        }
        removed
    }

    /// Puts `session` into the store. A live session under the same
    /// identifier is ended first, then the session that the user had. The
    /// file is to be written.
    pub fn insert(&mut self, session: Session)
        ensures
            final(self)@ == old(self)@.insert(session.id@, session.user@),
            final(self)@.consistent(),
            final(self).unsaved(),
    {
        let mut inner = self.take();
        inner.insert(session);
        self.inner = inner;
        self.unsaved = true;
    }

    /// Opens a session for `user` under a freshly drawn identifier and
    /// returns the identifier. The session that the user had, if any, ends.
    /// The file is to be written.
    pub fn create_session(&mut self, user: User) -> (session_id: SessionId)
        ensures
            is_generated_id(session_id@),
            final(self)@ == old(self)@.insert(session_id@, user@),
            final(self)@.consistent(),
            final(self).unsaved(),
    {
        let session = Session::new(user);
        let session_id = session.id.clone();
        self.insert(session);
        session_id
    }

    /// The content of the session file for this store: the header, then
    /// one line per live session, oldest first.
    pub fn save_to_csv(&self) -> (text: String)
        ensures
            text@ == csv_text(self@),
    {
        proof {
            use_type_invariant(self);
        }
        self.inner.save_to_csv()
    }

    /// Loads the content `text` of a session file into the store: each line
    /// after the header that has eight fields or more opens the session it
    /// describes, as [`SessionStore::insert`] does, in the order of the file.
    /// Loading asks for no writing.
    pub fn load_from_csv(&mut self, text: &str)
        ensures
            final(self)@ == old(self)@.with_csv(text@),
            final(self)@.consistent(),
            final(self).unsaved() == old(self).unsaved(),
    {
        let mut inner = self.take();
        inner.load_from_csv(text);
        self.inner = inner;
    }

    /// The bytes of the session file for this store: its content in UTF-8.
    pub fn save_to_bytes(&self) -> (bytes: Vec<u8>)
        ensures
            bytes@ == encode_utf8(csv_text(self@)),
    {
        let text = self.save_to_csv();
        text.as_str().as_bytes_vec()
    }

    /// Loads the bytes of a session file into the store. A line that is not
    /// UTF-8 is passed over like one that has too few fields. Loading asks
    /// for no writing.
    pub fn load_from_bytes(&mut self, bytes: &[u8])
        ensures
            final(self)@ == old(self)@.with_csv(file_text(bytes@)),
            final(self)@.consistent(),
            final(self).unsaved() == old(self).unsaved(),
    {
        let text = read_text(bytes);
        self.load_from_csv(text.as_str());
    }

    /// What is to be written to the session file now: the bytes of the
    /// whole file if the store has changed since this was last asked, and
    /// nothing if it has not.
    pub fn to_persist(&mut self) -> (due: Option<Vec<u8>>)
        ensures
            final(self)@ == old(self)@,
            !final(self).unsaved(),
            match due {
                Some(bytes) => old(self).unsaved() && bytes@ == encode_utf8(csv_text(old(self)@)),
                None => !old(self).unsaved(),
            },
    {
        proof {
            use_type_invariant(&*self);
        }
        if self.unsaved {
            self.unsaved = false;
            Some(self.save_to_bytes())
        } else {
            None
        }
    }
}

} // verus!
