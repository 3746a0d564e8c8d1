//! The session table as a mathematical value: the two indices, the order in
//! which the live sessions were created, and the operations on them.

use vstd::prelude::*;
use crate::domain::user::UserView;

verus! {

/// A session identifier or a user identifier, as text.
pub type Text = Seq<char>;

/// What a session store holds.
pub struct SessionTable {
    /// Session identifier to the user that the session belongs to.
    pub by_session: Map<Text, UserView>,
    /// User identifier to the identifier of that user's session.
    pub user_to_session: Map<Text, Text>,
    /// The live session identifiers, oldest first.
    pub order: Seq<Text>,
}

/// `order` without `session_id`.
pub open spec fn without(order: Seq<Text>, session_id: Text) -> Seq<Text> {
    if order.contains(session_id) {
        order.remove(order.index_of(session_id))
    } else {
        order
    }
}

impl SessionTable {
    /// The table without any session.
    pub open spec fn empty() -> SessionTable {
        SessionTable { by_session: Map::empty(), user_to_session: Map::empty(), order: Seq::empty() }
    }

    /// Every session is indexed under its user and every index entry leads
    /// to a session of that user, so a user has at most one session and
    /// nothing dangles. `order` lists the live sessions, each once.
    pub open spec fn consistent(self) -> bool {
        &&& forall|sid: Text| #[trigger]
            self.by_session.contains_key(sid) ==> self.user_to_session.contains_key(
                self.by_session[sid].id,
            ) && self.user_to_session[self.by_session[sid].id] == sid
        &&& forall|uid: Text| #[trigger]
            self.user_to_session.contains_key(uid) ==> self.by_session.contains_key(
                self.user_to_session[uid],
            ) && self.by_session[self.user_to_session[uid]].id == uid
        &&& self.order.no_duplicates()
        &&& forall|sid: Text|
            #![trigger self.order.contains(sid)]
            #![trigger self.by_session.contains_key(sid)]
            self.order.contains(sid) <==> self.by_session.contains_key(sid)
    }

    /// The user that `session_id` authenticates, if it is live.
    pub open spec fn lookup(self, session_id: Text) -> Option<UserView> {
        if self.by_session.contains_key(session_id) {
            Some(self.by_session[session_id])
        } else {
            None
        }
    }

    /// The session of the user `user_id`, if there is one.
    pub open spec fn session_of(self, user_id: Text) -> Option<Text> {
        if self.user_to_session.contains_key(user_id) {
            Some(self.user_to_session[user_id])
        } else {
            None
        }
    }

    /// The table after `session_id` is deleted: the session and the index
    /// entry of its user leave together. Unchanged if the session is not live.
    pub open spec fn delete(self, session_id: Text) -> SessionTable {
        if self.by_session.contains_key(session_id) {
            SessionTable {
                by_session: self.by_session.remove(session_id),
                user_to_session: self.user_to_session.remove(self.by_session[session_id].id),
                order: without(self.order, session_id),
            }
        } else {
            self
        }
    }

    /// The table after a session `session_id` is created for `user`. A live
    /// session under the same identifier is retired, then the session that
    /// the user had, and the new session becomes the youngest.
    pub open spec fn insert(self, session_id: Text, user: UserView) -> SessionTable {
        let vacated = self.delete(session_id);
        let cleared = match vacated.session_of(user.id) {
            Some(previous) => vacated.delete(previous),
            None => vacated,
        };
        SessionTable {
            by_session: cleared.by_session.insert(session_id, user),
            user_to_session: cleared.user_to_session.insert(user.id, session_id),
            order: cleared.order.push(session_id),
        }
    }

    /// The number of live sessions.
    pub open spec fn len(self) -> nat {
        self.order.len()
    }
}

/// In a list without repetitions, `without` removes exactly the one
/// identifier and keeps the list free of repetitions.
pub proof fn lemma_without(order: Seq<Text>, session_id: Text)
    requires
        order.no_duplicates(),
    ensures
        without(order, session_id).no_duplicates(),
        !without(order, session_id).contains(session_id),
        forall|other: Text|
            #![trigger without(order, session_id).contains(other)]
            #![trigger order.contains(other)]
            other != session_id ==> (without(order, session_id).contains(other) <==> order.contains(
                other,
            )),
        order.contains(session_id) ==> without(order, session_id).len() + 1 == order.len(),
        !order.contains(session_id) ==> without(order, session_id) == order,
{
    if order.contains(session_id) {
        let at = order.index_of(session_id);
        let rest = order.remove(at);
        assert(forall|i: int| 0 <= i < at ==> rest[i] == order[i]);
        assert(forall|i: int| at <= i < rest.len() ==> rest[i] == order[i + 1]);
        assert forall|other: Text| other != session_id && order.contains(other) implies rest.contains(
            other,
        ) by {
            let j = order.index_of(other);
            if j < at {
                assert(rest[j] == other);
            } else {
                assert(rest[j - 1] == other);
            }
        }
    }
}

/// The empty table is consistent.
pub proof fn lemma_empty_consistent()
    ensures
        SessionTable::empty().consistent(),
{
}

/// Deleting a session keeps the two indices consistent.
pub proof fn lemma_delete_consistent(table: SessionTable, session_id: Text)
    requires
        table.consistent(),
    ensures
        table.delete(session_id).consistent(),
{
    lemma_without(table.order, session_id);
    let after = table.delete(session_id);
    if table.by_session.contains_key(session_id) {
        assert forall|sid: Text| #[trigger] after.by_session.contains_key(sid) implies (
        after.user_to_session.contains_key(after.by_session[sid].id)
            && after.user_to_session[after.by_session[sid].id] == sid) by {
            assert(table.by_session.contains_key(sid));
        }
        assert forall|uid: Text| #[trigger] after.user_to_session.contains_key(uid) implies (
        after.by_session.contains_key(after.user_to_session[uid])
            && after.by_session[after.user_to_session[uid]].id == uid) by {
            assert(table.user_to_session.contains_key(uid));
        }
    }
    assert forall|sid: Text| after.order.contains(sid) <==> after.by_session.contains_key(
        sid,
    ) by {
        assert(table.order.contains(sid) <==> table.by_session.contains_key(sid));
    }
}

/// Creating a session keeps the two indices consistent.
pub proof fn lemma_insert_consistent(table: SessionTable, session_id: Text, user: UserView)
    requires
        table.consistent(),
    ensures
        table.insert(session_id, user).consistent(),
{
    let vacated = table.delete(session_id);
    lemma_delete_consistent(table, session_id);
    let cleared = match vacated.session_of(user.id) {
        Some(previous) => vacated.delete(previous),
        None => vacated,
    };
    if let Some(previous) = vacated.session_of(user.id) {
        lemma_delete_consistent(vacated, previous);
        assert(vacated.by_session.contains_key(previous));
    }
    assert(cleared.consistent());
    assert(!cleared.user_to_session.contains_key(user.id));
    lemma_without(table.order, session_id);
    assert(!cleared.by_session.contains_key(session_id)) by {
        if let Some(previous) = vacated.session_of(user.id) {
            lemma_without(vacated.order, previous);
        }
    }
    let after = table.insert(session_id, user);
    assert forall|sid: Text| #[trigger] after.by_session.contains_key(sid) implies (
    after.user_to_session.contains_key(after.by_session[sid].id)
        && after.user_to_session[after.by_session[sid].id] == sid) by {
        if sid != session_id {
            assert(cleared.by_session.contains_key(sid));
        }
    }
    assert forall|uid: Text| #[trigger] after.user_to_session.contains_key(uid) implies (
    after.by_session.contains_key(after.user_to_session[uid])
        && after.by_session[after.user_to_session[uid]].id == uid) by {
        if uid != user.id {
            assert(cleared.user_to_session.contains_key(uid));
        }
    }
    assert(after.order.no_duplicates()) by {
        assert(!cleared.order.contains(session_id));
        assert forall|i: int, j: int|
            0 <= i < after.order.len() && 0 <= j < after.order.len() && i != j implies after.order[i]
            != after.order[j] by {
            if i < cleared.order.len() {
                assert(cleared.order.contains(cleared.order[i]));
            }
            if j < cleared.order.len() {
                assert(cleared.order.contains(cleared.order[j]));
            }
        }
    }
    assert forall|sid: Text| after.order.contains(sid) <==> after.by_session.contains_key(
        sid,
    ) by {
        if after.order.contains(sid) {
            let i = after.order.index_of(sid);
            if i < cleared.order.len() {
                assert(cleared.order.contains(sid));
            }
        }
        if after.by_session.contains_key(sid) {
            if sid == session_id {
                assert(after.order[cleared.order.len() as int] == sid);
            } else {
                assert(cleared.order.contains(sid));
                let i = cleared.order.index_of(sid);
                assert(after.order[i] == sid);
            }
        }
    }
}

/// After a session is created for a user, that session is live and is the
/// only session of the user: the identifier that the user had before, unless
/// it is the one just drawn again, is no longer live.
pub proof fn lemma_create_replaces(table: SessionTable, session_id: Text, user: UserView)
    requires
        table.consistent(),
    ensures
        table.insert(session_id, user).lookup(session_id) == Some(user),
        table.insert(session_id, user).session_of(user.id) == Some(session_id),
        forall|sid: Text| #[trigger]
            table.insert(session_id, user).by_session.contains_key(sid) && table.insert(
                session_id,
                user,
            ).by_session[sid].id == user.id ==> sid == session_id,
        forall|previous: Text|
            table.session_of(user.id) == Some(previous) && previous != session_id
                ==> table.insert(session_id, user).lookup(previous) is None,
{
    lemma_insert_consistent(table, session_id, user);
    let after = table.insert(session_id, user);
    assert forall|sid: Text| #[trigger]
        after.by_session.contains_key(sid) && after.by_session[sid].id
            == user.id implies sid == session_id by {
        assert(after.user_to_session[user.id] == session_id);
    }
    assert forall|previous: Text|
        table.session_of(user.id) == Some(previous) && previous
            != session_id implies after.lookup(previous) is None by {
        assert(table.by_session.contains_key(previous));
        assert(table.by_session[previous].id == user.id);
        if after.by_session.contains_key(previous) {
            let vacated = table.delete(session_id);
            assert(vacated.by_session.contains_key(previous));
            assert(vacated.by_session[previous] == table.by_session[previous]);
            assert(after.by_session[previous] == table.by_session[previous]);
        }
    }
}

/// Creating a session leaves the sessions of all other users as they are,
/// but for a session that held the identifier now drawn.
pub proof fn lemma_create_keeps_others(
    table: SessionTable,
    session_id: Text,
    user: UserView,
    other: Text,
)
    requires
        table.consistent(),
        other != session_id,
        table.by_session.contains_key(other),
        table.by_session[other].id != user.id,
    ensures
        table.insert(session_id, user).lookup(other) == table.lookup(other),
{
    let vacated = table.delete(session_id);
    lemma_delete_consistent(table, session_id);
    assert(vacated.by_session.contains_key(other));
    if let Some(previous) = vacated.session_of(user.id) {
        assert(vacated.by_session.contains_key(previous));
        assert(vacated.by_session[previous].id == user.id);
        assert(previous != other);
    }
}

/// Deleting a session that is live returns its user once: after the first
/// deletion the identifier is not live, and a second deletion changes
/// nothing.
pub proof fn lemma_delete_twice(table: SessionTable, session_id: Text)
    ensures
        table.delete(session_id).lookup(session_id) is None,
        table.delete(session_id).delete(session_id) == table.delete(session_id),
{
}

/// Deleting a session leaves every other session as it is.
pub proof fn lemma_delete_keeps_others(table: SessionTable, session_id: Text, other: Text)
    requires
        other != session_id,
    ensures
        table.delete(session_id).lookup(other) == table.lookup(other),
{
}

} // verus!
