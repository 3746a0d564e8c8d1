//! The flat file that holds the sessions: a header line, then one line of
//! eight comma-separated fields per session. No field is escaped.

use vstd::prelude::*;
use vstd::utf8::encode_utf8;
use crate::domain::model::{lemma_insert_consistent, SessionTable, Text};
use crate::domain::user::UserView;
use crate::file::{file_text, lemma_file_text_of_encoded};
use crate::text::{
    decimal, free_of, is_digit, join, lemma_decimal_digits, lemma_parse_decimal,
    lemma_split_append, lemma_split_join, lemma_split_push_sep, lines, parse_u64, split,
    strip_all, strip_cr,
};

verus! {

/// The first line of the file.
pub open spec fn header() -> Seq<char> {
    "session_id,user_id,email,username,role,access_token,refresh_token,expires_at"@
}

/// The eight fields of the line for a session, in the order of the header.
pub open spec fn fields(session_id: Text, user: UserView) -> Seq<Seq<char>> {
    seq![
        session_id,
        user.id,
        user.email,
        user.username,
        user.role,
        user.access_token,
        user.refresh_token,
        decimal(user.expires_at as nat),
    ]
}

/// The line for a session.
pub open spec fn row(session_id: Text, user: UserView) -> Seq<char> {
    join(fields(session_id, user), ',')
}

/// The lines for the sessions of `table`, oldest session first.
pub open spec fn rows(table: SessionTable) -> Seq<Seq<char>> {
    Seq::new(table.order.len(), |i: int| row(table.order[i], table.by_session[table.order[i]]))
}

/// The given lines, each ended by a line feed.
pub open spec fn ended(all: Seq<Seq<char>>) -> Seq<char>
    decreases all.len(),
{
    if all.len() == 0 {
        Seq::empty()
    } else {
        (ended(all.drop_last()) + all.last()).push('\n')
    }
}

/// The whole file for `table`.
pub open spec fn csv_text(table: SessionTable) -> Seq<char> {
    ended(seq![header()] + rows(table))
}

/// The session that `line` describes. A line of fewer than eight fields
/// describes none; fields after the eighth are ignored; an expiry that is
/// not a number in range counts as zero.
pub open spec fn parse_row(line: Seq<char>) -> Option<(Text, UserView)> {
    let found = split(line, ',');
    if found.len() < 8 {
        None
    } else {
        Some(
            (
                found[0],
                UserView {
                    id: found[1],
                    email: found[2],
                    username: found[3],
                    role: found[4],
                    access_token: found[5],
                    refresh_token: found[6],
                    expires_at: match parse_u64(found[7]) {
                        Some(n) => n,
                        None => 0,
                    },
                },
            ),
        )
    }
}

/// `text` holds neither a comma nor a line feed, so it can stand in a field.
pub open spec fn plain(text: Seq<char>) -> bool {
    free_of(text, ',') && free_of(text, '\n')
}

/// Every text field of `user` can stand in a field of the file.
pub open spec fn plain_user(user: UserView) -> bool {
    &&& plain(user.id)
    &&& plain(user.email)
    &&& plain(user.username)
    &&& plain(user.role)
    &&& plain(user.access_token)
    &&& plain(user.refresh_token)
}

impl SessionTable {
    /// The table after the sessions that `all` describes are created in
    /// turn. Lines that describe no session are passed over.
    pub open spec fn with_rows(self, all: Seq<Seq<char>>) -> SessionTable
        decreases all.len(),
    {
        if all.len() == 0 {
            self
        } else {
            let before = self.with_rows(all.drop_last());
            match parse_row(all.last()) {
                Some((session_id, user)) => before.insert(session_id, user),
                None => before,
            }
        }
    }

    /// The table after a file with the content `text` is loaded into it.
    /// The first line is the header and describes no session.
    pub open spec fn with_csv(self, text: Seq<char>) -> SessionTable {
        let all = lines(text);
        if all.len() == 0 {
            self
        } else {
            self.with_rows(all.drop_first())
        }
    }

    /// Every session identifier and every text field of every user in the
    /// table can stand in a field of the file.
    pub open spec fn plain(self) -> bool {
        forall|sid: Text| #[trigger]
            self.by_session.contains_key(sid) ==> plain(sid) && plain_user(self.by_session[sid])
    }

    /// The table with only its `count` oldest sessions.
    pub open spec fn oldest(self, count: int) -> SessionTable {
        let kept = self.order.take(count);
        SessionTable {
            by_session: Map::new(
                |sid: Text| kept.contains(sid),
                |sid: Text| self.by_session[sid],
            ),
            user_to_session: Map::new(
                |uid: Text|
                    self.user_to_session.contains_key(uid) && kept.contains(
                        self.user_to_session[uid],
                    ),
                |uid: Text| self.user_to_session[uid],
            ),
            order: kept,
        }
    }
}

/// Loading lines, whatever they hold, keeps the two indices consistent.
pub proof fn lemma_with_rows_consistent(table: SessionTable, all: Seq<Seq<char>>)
    requires
        table.consistent(),
    ensures
        table.with_rows(all).consistent(),
    decreases all.len(),
{
    if all.len() > 0 {
        lemma_with_rows_consistent(table, all.drop_last());
        if let Some((session_id, user)) = parse_row(all.last()) {
            lemma_insert_consistent(table.with_rows(all.drop_last()), session_id, user);
        }
    }
}

/// Loading a file, whatever it holds, keeps the two indices consistent.
pub proof fn lemma_with_csv_consistent(table: SessionTable, text: Seq<char>)
    requires
        table.consistent(),
    ensures
        table.with_csv(text).consistent(),
{
    if lines(text).len() > 0 {
        lemma_with_rows_consistent(table, lines(text).drop_first());
    }
}

/// Joining parts that are free of a character, with another character
/// between them, gives text that is free of it.
pub proof fn lemma_join_free(parts: Seq<Seq<char>>, sep: char, other: char)
    requires
        sep != other,
        forall|k: int| 0 <= k < parts.len() ==> free_of(#[trigger] parts[k], other),
    ensures
        free_of(join(parts, sep), other),
    decreases parts.len(),
{
    if parts.len() >= 2 {
        lemma_join_free(parts.drop_last(), sep, other);
        assert(free_of(parts[parts.len() - 1], other));
    } else if parts.len() == 1 {
        assert(free_of(parts[0], other));
    }
}

/// The line for a session whose fields are plain holds no line feed, does
/// not end in a carriage return, and describes that session.
pub proof fn lemma_row_parses(session_id: Text, user: UserView)
    requires
        plain(session_id),
        plain_user(user),
    ensures
        free_of(row(session_id, user), '\n'),
        strip_cr(row(session_id, user)) == row(session_id, user),
        parse_row(row(session_id, user)) == Some((session_id, user)),
{
    let parts = fields(session_id, user);
    let number = decimal(user.expires_at as nat);
    lemma_decimal_digits(user.expires_at as nat);
    lemma_parse_decimal(user.expires_at);
    assert(free_of(number, ',') && free_of(number, '\n')) by {
        assert forall|i: int| 0 <= i < number.len() implies number[i] != ',' && number[i]
            != '\n' by {
            assert(is_digit(number[i]));
        }
    }
    assert forall|k: int| 0 <= k < parts.len() implies free_of(#[trigger] parts[k], ',')
        && free_of(parts[k], '\n') by {}
    lemma_split_join(parts, ',');
    lemma_join_free(parts, ',', '\n');
    let line = row(session_id, user);
    assert(line.len() > 0 && line.last() == number.last()) by {
        assert(line == join(parts.drop_last(), ',').push(',') + parts.last());
        assert(parts.last() == number);
    }
    assert(is_digit(number[number.len() - 1]));
}

/// Splitting a file at the line feeds gives its lines back, and one empty
/// piece after the last line feed.
pub proof fn lemma_ended_split(all: Seq<Seq<char>>)
    requires
        forall|k: int| 0 <= k < all.len() ==> free_of(#[trigger] all[k], '\n'),
    ensures
        split(ended(all), '\n') == all.push(Seq::empty()),
    decreases all.len(),
{
    if all.len() == 0 {
        assert(split(ended(all), '\n') =~= all.push(Seq::empty()));
    } else {
        let front = all.drop_last();
        lemma_ended_split(front);
        lemma_split_append(ended(front), all.last(), '\n');
        lemma_split_push_sep(ended(front) + all.last(), '\n');
        let opened = front.push(Seq::empty());
        assert(opened.drop_last() =~= front);
        assert(opened.last() + all.last() =~= all.last());
        assert(front.push(all.last()) =~= all);
    }
}

/// A file made of lines that hold no line feed and do not end in a
/// carriage return reads back as those lines.
pub proof fn lemma_lines_of_ended(all: Seq<Seq<char>>)
    requires
        forall|k: int| 0 <= k < all.len() ==> free_of(#[trigger] all[k], '\n'),
        forall|k: int| 0 <= k < all.len() ==> strip_cr(#[trigger] all[k]) == all[k],
    ensures
        lines(ended(all)) == all,
{
    lemma_ended_split(all);
    let pieces = all.push(Seq::empty());
    assert(pieces.drop_last() =~= all);
    assert(strip_all(all) =~= all);
}

/// The header holds no line feed and does not end in a carriage return.
pub proof fn lemma_header_line()
    ensures
        free_of(header(), '\n'),
        strip_cr(header()) == header(),
{
    reveal_strlit("session_id,user_id,email,username,role,access_token,refresh_token,expires_at");
    let text = header();
    assert(text.len() == 76);
    assert(text[75] == 't');
    assert forall|i: int| 0 <= i < text.len() implies text[i] != '\n' by {
        assert(text.len() == 76);
    }
}

/// A session is among the `count + 1` oldest exactly if it is among the
/// `count` oldest or is the next one.
proof fn lemma_take_next(order: Seq<Text>, count: int, session_id: Text)
    requires
        0 <= count < order.len(),
    ensures
        order.take(count + 1).contains(session_id) <==> order.take(count).contains(session_id)
            || session_id == order[count],
        order.take(count + 1) == order.take(count).push(order[count]),
{
    let longer = order.take(count + 1);
    let shorter = order.take(count);
    assert(longer =~= shorter.push(order[count]));
    if longer.contains(session_id) {
        let i = longer.index_of(session_id);
        if i < count {
            assert(shorter[i] == session_id);
        }
    }
    if shorter.contains(session_id) {
        let i = shorter.index_of(session_id);
        assert(longer[i] == session_id);
    }
    assert(longer[count] == order[count]);
}

/// Loading the lines of the `count` oldest sessions of a table into an
/// empty table gives the table with just those sessions.
pub proof fn lemma_rows_rebuild(table: SessionTable, count: int)
    requires
        table.consistent(),
        table.plain(),
        0 <= count <= table.order.len(),
    ensures
        SessionTable::empty().with_rows(rows(table).take(count)) == table.oldest(count),
    decreases count,
{
    let all = rows(table).take(count);
    if count == 0 {
        let none = table.oldest(0);
        assert(table.order.take(0) =~= Seq::empty());
        assert(none.by_session =~= Map::empty());
        assert(none.user_to_session =~= Map::empty());
        assert(all =~= Seq::empty());
    } else {
        let session_id = table.order[count - 1];
        assert(table.order.contains(session_id));
        assert(table.by_session.contains_key(session_id));
        let user = table.by_session[session_id];
        lemma_rows_rebuild(table, count - 1);
        assert(all.drop_last() =~= rows(table).take(count - 1));
        assert(all.last() == row(session_id, user));
        lemma_row_parses(session_id, user);
        let before = table.oldest(count - 1);
        let after = table.oldest(count);
        lemma_take_next(table.order, count - 1, session_id);
        assert(!before.by_session.contains_key(session_id)) by {
            if table.order.take(count - 1).contains(session_id) {
                let i = table.order.take(count - 1).index_of(session_id);
                assert(table.order[i] == table.order[count - 1]);
            }
        }
        assert(table.user_to_session[user.id] == session_id);
        assert(!before.user_to_session.contains_key(user.id));
        let built = before.insert(session_id, user);
        assert(built.by_session =~= after.by_session) by {
            assert forall|sid: Text| built.by_session.contains_key(sid)
                <==> after.by_session.contains_key(sid) by {
                lemma_take_next(table.order, count - 1, sid);
            }
        }
        assert(built.user_to_session =~= after.user_to_session) by {
            assert forall|uid: Text| built.user_to_session.contains_key(uid)
                <==> after.user_to_session.contains_key(uid) by {
                if table.user_to_session.contains_key(uid) {
                    lemma_take_next(table.order, count - 1, table.user_to_session[uid]);
                }
            }
        }
        assert(built.order =~= after.order);
    }
}

/// A consistent table is the table of all its sessions.
pub proof fn lemma_oldest_all(table: SessionTable)
    requires
        table.consistent(),
    ensures
        table.oldest(table.order.len() as int) == table,
{
    let whole = table.oldest(table.order.len() as int);
    assert(table.order.take(table.order.len() as int) =~= table.order);
    assert(whole.by_session =~= table.by_session);
    assert(whole.user_to_session =~= table.user_to_session);
}

/// Writing a table to the file and loading the file into an empty table
/// gives the table back: the same sessions, each with the same user, field
/// for field, in the same order. This holds of a consistent table in which
/// no session identifier and no text field of a user holds a comma or a
/// line feed.
pub proof fn lemma_csv_round_trip(table: SessionTable)
    requires
        table.consistent(),
        table.plain(),
    ensures
        SessionTable::empty().with_csv(csv_text(table)) == table,
{
    let all = seq![header()] + rows(table);
    lemma_header_line();
    assert forall|k: int| 0 <= k < all.len() implies free_of(#[trigger] all[k], '\n') && strip_cr(
        all[k],
    ) == all[k] by {
        if k > 0 {
            let session_id = table.order[k - 1];
            assert(table.order.contains(session_id));
            assert(table.by_session.contains_key(session_id));
            lemma_row_parses(session_id, table.by_session[session_id]);
            assert(all[k] == row(session_id, table.by_session[session_id]));
        }
    }
    lemma_lines_of_ended(all);
    assert(all.drop_first() =~= rows(table));
    assert(rows(table).take(table.order.len() as int) =~= rows(table));
    lemma_rows_rebuild(table, table.order.len() as int);
    lemma_oldest_all(table);
}

/// The same of the bytes of the file: writing a table out in UTF-8 and
/// loading these bytes into an empty table gives the table back.
pub proof fn lemma_file_round_trip(table: SessionTable)
    requires
        table.consistent(),
        table.plain(),
    ensures
        SessionTable::empty().with_csv(file_text(encode_utf8(csv_text(table)))) == table,
{
    lemma_file_text_of_encoded(csv_text(table));
    lemma_csv_round_trip(table);
}

} // verus!
