//! What holds of a session table after any sequence of creations and
//! deletions.

use vstd::prelude::*;
use crate::domain::model::{
    lemma_create_replaces, lemma_delete_consistent, lemma_insert_consistent, SessionTable, Text,
};
use crate::domain::user::UserView;

verus! {

/// One change of a session table.
pub enum Step {
    /// A session `session_id` is created for `user`.
    Create { session_id: Text, user: UserView },
    /// The session `session_id` is deleted.
    Delete { session_id: Text },
}

impl Step {
    /// The identifier that the step creates or deletes.
    pub open spec fn id(self) -> Text {
        match self {
            Step::Create { session_id, .. } => session_id,
            Step::Delete { session_id } => session_id,
        }
    }
}

impl SessionTable {
    /// The table after one step.
    pub open spec fn step(self, step: Step) -> SessionTable {
        match step {
            Step::Create { session_id, user } => self.insert(session_id, user),
            Step::Delete { session_id } => self.delete(session_id),
        }
    }

    /// The table after `steps`, taken in turn.
    pub open spec fn after(self, steps: Seq<Step>) -> SessionTable
        decreases steps.len(),
    {
        if steps.len() == 0 {
            self
        } else {
            self.after(steps.drop_last()).step(steps.last())
        }
    }
}

/// A consistent table stays consistent, whatever is created and deleted.
pub proof fn lemma_after_consistent(start: SessionTable, steps: Seq<Step>)
    requires
        start.consistent(),
    ensures
        start.after(steps).consistent(),
    decreases steps.len(),
{
    if steps.len() > 0 {
        lemma_after_consistent(start, steps.drop_last());
        let before = start.after(steps.drop_last());
        match steps.last() {
            Step::Create { session_id, user } => lemma_insert_consistent(before, session_id, user),
            Step::Delete { session_id } => lemma_delete_consistent(before, session_id),
        }
    }
}

/// An identifier that was not live at the start and that no step has
/// created is not live: looking it up finds nothing, and deleting it
/// changes nothing.
pub proof fn lemma_never_created_absent(start: SessionTable, steps: Seq<Step>, session_id: Text)
    requires
        !start.by_session.contains_key(session_id),
        forall|k: int|
            0 <= k < steps.len() && #[trigger] steps[k] is Create ==> steps[k].id() != session_id,
    ensures
        start.after(steps).lookup(session_id) is None,
        start.after(steps).delete(session_id) == start.after(steps),
    decreases steps.len(),
{
    if steps.len() > 0 {
        let front = steps.drop_last();
        assert forall|k: int| 0 <= k < front.len() && #[trigger] front[k] is Create implies front[k].id()
            != session_id by {
            assert(front[k] == steps[k]);
        }
        lemma_never_created_absent(start, front, session_id);
        let last = steps[steps.len() - 1];
        assert(last is Create ==> last.id() != session_id);
    }
}

/// After any number of sessions created for one user, one after the other,
/// the user has exactly one session, the last one created, and every
/// identifier created before it, unless it is that of the last, is not live.
pub proof fn lemma_repeated_create(start: SessionTable, steps: Seq<Step>, user_id: Text)
    requires
        start.consistent(),
        steps.len() >= 1,
        forall|k: int|
            0 <= k < steps.len() ==> (#[trigger] steps[k]) is Create && steps[k]->user.id
                == user_id,
    ensures
        start.after(steps).lookup(steps.last().id()) == Some(steps.last()->user),
        start.after(steps).session_of(user_id) == Some(steps.last().id()),
        forall|sid: Text| #[trigger]
            start.after(steps).by_session.contains_key(sid) && start.after(
                steps,
            ).by_session[sid].id == user_id ==> sid == steps.last().id(),
        forall|k: int|
            0 <= k < steps.len() && (#[trigger] steps[k]).id() != steps.last().id()
                ==> start.after(steps).lookup(steps[k].id()) is None,
    decreases steps.len(),
{
    let front = steps.drop_last();
    let before = start.after(front);
    let end = start.after(steps);
    lemma_after_consistent(start, front);
    match steps.last() {
        Step::Create { session_id, user } => {
            lemma_create_replaces(before, session_id, user);
            if front.len() >= 1 {
                assert forall|k: int| 0 <= k < front.len() implies (#[trigger] front[k]) is Create
                    && front[k]->user.id == user_id by {
                    assert(front[k] == steps[k]);
                }
                lemma_repeated_create(start, front, user_id);
            }
            assert forall|k: int|
                0 <= k < steps.len() && (#[trigger] steps[k]).id()
                    != session_id implies end.lookup(steps[k].id()) is None by {
                let earlier = steps[k].id();
                if end.by_session.contains_key(earlier) {
                    // The new session is not `earlier`, so `earlier` was live before,
                    // where it was the one session of the user, which the creation ended.
                    assert(k < front.len());
                    assert(front[k] == steps[k]);
                    assert(before.delete(session_id).by_session.contains_key(earlier));
                    assert(before.by_session.contains_key(earlier));
                    if earlier == front.last().id() {
                        assert(before.session_of(user_id) == Some(earlier));
                    } else {
                        assert(before.lookup(earlier) is None);
                    }
                }
            }
        },
        Step::Delete { .. } => {},
    }
}

/// After sessions are created for users that differ, under identifiers
/// that differ, every one of these sessions is live and leads to its own
/// user, and the table holds as many sessions more as were created.
pub proof fn lemma_distinct_creates(start: SessionTable, steps: Seq<Step>)
    requires
        start.consistent(),
        forall|k: int|
            0 <= k < steps.len() ==> (#[trigger] steps[k]) is Create
                && !start.by_session.contains_key(steps[k].id())
                && !start.user_to_session.contains_key(steps[k]->user.id),
        forall|j: int, k: int|
            0 <= j < k < steps.len() ==> (#[trigger] steps[j]).id() != (#[trigger] steps[k]).id(),
        forall|j: int, k: int|
            0 <= j < k < steps.len() ==> (#[trigger] steps[j])->user.id != (#[trigger] steps[k])->user.id,
    ensures
        forall|k: int|
            0 <= k < steps.len() ==> start.after(steps).lookup((#[trigger] steps[k]).id()) == Some(
                steps[k]->user,
            ),
        forall|sid: Text|
            start.by_session.contains_key(sid) ==> start.after(steps).lookup(sid) == start.lookup(
                sid,
            ),
        forall|sid: Text| #[trigger]
            start.after(steps).by_session.contains_key(sid) ==> start.by_session.contains_key(sid)
                || exists|k: int| 0 <= k < steps.len() && (#[trigger] steps[k]).id() == sid,
        start.after(steps).len() == start.len() + steps.len(),
    decreases steps.len(),
{
    if steps.len() > 0 {
        let front = steps.drop_last();
        let before = start.after(front);
        let end = start.after(steps);
        assert forall|k: int| 0 <= k < front.len() implies (#[trigger] front[k]) is Create
            && !start.by_session.contains_key(front[k].id())
            && !start.user_to_session.contains_key(front[k]->user.id) by {
            assert(front[k] == steps[k]);
        }
        assert forall|j: int, k: int| 0 <= j < k < front.len() implies (#[trigger] front[j]).id() != (
        #[trigger] front[k]).id() && front[j]->user.id != front[k]->user.id by {
            assert(front[j] == steps[j]);
            assert(front[k] == steps[k]);
        }
        lemma_distinct_creates(start, front);
        lemma_after_consistent(start, front);
        let last = steps[steps.len() - 1];
        let session_id = last.id();
        let user = last->user;
        assert(last is Create);
        // Neither the identifier nor the user is in the table yet.
        assert(!before.by_session.contains_key(session_id)) by {
            if before.by_session.contains_key(session_id) {
                let k = choose|k: int| 0 <= k < front.len() && (#[trigger] front[k]).id() == session_id;
                assert(front[k] == steps[k]);
            }
        }
        assert(!before.user_to_session.contains_key(user.id)) by {
            if before.user_to_session.contains_key(user.id) {
                let held = before.user_to_session[user.id];
                assert(before.by_session.contains_key(held));
                assert(before.by_session[held].id == user.id);
                if start.by_session.contains_key(held) {
                    assert(start.lookup(held) == before.lookup(held));
                    assert(start.user_to_session.contains_key(start.by_session[held].id));
                } else {
                    let k = choose|k: int| 0 <= k < front.len() && (#[trigger] front[k]).id() == held;
                    assert(front[k] == steps[k]);
                    assert(before.lookup(front[k].id()) == Some(front[k]->user));
                }
            }
        }
        assert(end.by_session =~= before.by_session.insert(session_id, user));
        assert(end.order =~= before.order.push(session_id));
        assert forall|k: int| 0 <= k < steps.len() implies end.lookup((#[trigger] steps[k]).id())
            == Some(steps[k]->user) by {
            if k < front.len() {
                assert(front[k] == steps[k]);
                assert(before.lookup(front[k].id()) == Some(front[k]->user));
            }
        }
        assert forall|sid: Text| #[trigger] end.by_session.contains_key(sid) implies (
        start.by_session.contains_key(sid) || exists|k: int|
            0 <= k < steps.len() && (#[trigger] steps[k]).id() == sid) by {
            if sid == session_id {
                assert(steps[steps.len() - 1].id() == sid);
            } else if !start.by_session.contains_key(sid) {
                assert(before.by_session.contains_key(sid));
                let k = choose|k: int| 0 <= k < front.len() && (#[trigger] front[k]).id() == sid;
                assert(steps[k].id() == sid);
            }
        }
    }
}

} // verus!
