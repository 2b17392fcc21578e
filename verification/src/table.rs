//! The user table as the handlers take it to be, and what follows for a client.
//!
//! The table itself lives in a database that this crate never sees. What is
//! written down here is what each [`Command`](crate::models::Command) is
//! expected to do there when nothing fails on the way: which rows are there
//! afterwards and what is handed back. The theorems below say what a client
//! then observes through the handlers.

use crate::handlers::{
    bare, delete_step, is_success, next_step, shown, shown_all, update_step, BodyView,
    ResponseView, StepView, BAD_REQUEST, CREATED, INTERNAL_SERVER_ERROR, NOT_FOUND, NO_CONTENT, OK,
};
use crate::hex_id::{
    encode, id_of_text, is_id_text, is_lower_hex_char, lemma_encode_is_injective,
    lemma_encode_is_lower_hex, lemma_id_round_trip, ID_BYTES, ID_DIGITS,
};
use crate::models::{CommandView, DbError, OutcomeView, UserView};
use vstd::prelude::*;

verus! {

/// The rows of the user table: name and email under each id. No id is there twice.
pub struct Table {
    pub rows: Map<Seq<u8>, (Seq<char>, Seq<char>)>,
}

impl Table {
    /// Whether a row has this id.
    pub open spec fn contains(self, id: Seq<u8>) -> bool {
        self.rows.dom().contains(id)
    }

    /// The row with this id.
    pub open spec fn row(self, id: Seq<u8>) -> UserView
        recommends
            self.contains(id),
    {
        UserView { id, name: self.rows[id].0, email: self.rows[id].1 }
    }

    /// Whether `users` is the table read out in some order: every row once and
    /// nothing else.
    pub open spec fn lists(self, users: Seq<UserView>) -> bool {
        &&& forall|i: int|
            0 <= i < users.len() ==> self.contains((#[trigger] users[i]).id) && users[i]
                == self.row(users[i].id)
        &&& forall|id: Seq<u8>| #[trigger]
            self.contains(id) ==> exists|i: int| 0 <= i < users.len() && (#[trigger] users[i]).id == id
        &&& forall|i: int, j: int|
            0 <= i < j < users.len() ==> (#[trigger] users[i]).id != (#[trigger] users[j]).id
    }

    /// The table once `command` has run.
    ///
    /// Reading changes nothing. An insert adds its row unless the id is taken.
    /// An update sets name and email of the row with its id and does nothing
    /// where there is none. A delete removes the row with its id.
    pub open spec fn after(self, command: CommandView) -> Table {
        match command {
            CommandView::ReadAll => self,
            CommandView::Insert { user } => if self.contains(user.id) {
                self
            } else {
                Table { rows: self.rows.insert(user.id, (user.name, user.email)) }
            },
            CommandView::Update { id, name, email } => if self.contains(id) {
                Table { rows: self.rows.insert(id, (name, email)) }
            } else {
                self
            },
            CommandView::ReadOne { id } => self,
            CommandView::Delete { id } => Table { rows: self.rows.remove(id) },
        }
    }

    /// Whether `outcome` is what the table hands back for `command`.
    ///
    /// Reading all hands back the rows in some order. An insert reports one
    /// row, or a broken constraint where the id is taken. An update reports
    /// how many rows have its id, one or none, and none is no failure.
    /// Reading one hands back the row with the id, or reports it missing. A
    /// delete reports how many rows it removed: one or none.
    pub open spec fn yields(self, command: CommandView, outcome: OutcomeView) -> bool {
        match command {
            CommandView::ReadAll => outcome matches OutcomeView::Rows(users) && self.lists(users),
            CommandView::Insert { user } => if self.contains(user.id) {
                outcome == OutcomeView::Failed(DbError::ConstraintViolation)
            } else {
                outcome == OutcomeView::Count(1)
            },
            CommandView::Update { id, .. } => if self.contains(id) {
                outcome == OutcomeView::Count(1)
            } else {
                outcome == OutcomeView::Count(0)
            },
            CommandView::ReadOne { id } => if self.contains(id) {
                outcome == OutcomeView::Row(self.row(id))
            } else {
                outcome == OutcomeView::Failed(DbError::NotFound)
            },
            CommandView::Delete { id } => if self.contains(id) {
                outcome == OutcomeView::Count(1)
            } else {
                outcome == OutcomeView::Count(0)
            },
        }
    }
}

/// The id that `command` names, where it names one.
pub open spec fn target(command: CommandView) -> Option<Seq<u8>> {
    match command {
        CommandView::ReadAll => None,
        CommandView::Insert { user } => Some(user.id),
        CommandView::Update { id, .. } => Some(id),
        CommandView::ReadOne { id } => Some(id),
        CommandView::Delete { id } => Some(id),
    }
}

/// No command changes the id of a row, and each leaves alone every row but
/// the one that it names: such a row is there afterwards exactly if it was
/// there before, with the same name and email. Only a delete removes a row.
pub proof fn lemma_rows_keep_their_ids(table: Table, command: CommandView, id: Seq<u8>)
    ensures
        table.after(command).contains(id) ==> table.after(command).row(id).id == id,
        target(command) != Some(id) ==> (table.after(command).contains(id) <==> table.contains(id)),
        target(command) != Some(id) ==> table.after(command).row(id) == table.row(id),
        table.contains(id) && !(command is Delete) ==> table.after(command).contains(id),
{
}

/// Whether a request that stands at `step` comes to `response` on `table`,
/// with `end` the table afterwards, when the table does not fail: each
/// command that the steps name is run and yields its outcome, until a step
/// replies. No request takes more than two commands.
pub open spec fn settles(table: Table, step: StepView, response: ResponseView, end: Table) -> bool {
    match step {
        StepView::Reply(reply) => response == reply && end == table,
        StepView::Run(first) => exists|outcome: OutcomeView| #[trigger]
            table.yields(first, outcome) && match next_step(first, outcome) {
                StepView::Reply(reply) => response == reply && end == table.after(first),
                StepView::Run(second) => exists|outcome: OutcomeView| #[trigger]
                    table.after(first).yields(second, outcome) && next_step(second, outcome)
                        == StepView::Reply(response) && end == table.after(first).after(second),
            },
    }
}

/// A table of finitely many rows can be read out.
pub proof fn lemma_table_can_be_listed(table: Table)
    requires
        table.rows.dom().finite(),
    ensures
        exists|users: Seq<UserView>| table.lists(users),
    decreases table.rows.dom().len(),
{
    if table.rows.dom().len() == 0 {
        assert(table.lists(Seq::<UserView>::empty()));
    } else {
        let id = table.rows.dom().choose();
        let rest = Table { rows: table.rows.remove(id) };
        lemma_table_can_be_listed(rest);
        let others = choose|users: Seq<UserView>| rest.lists(users);
        let users = others.push(table.row(id));
        assert forall|other: Seq<u8>| #[trigger] table.contains(other) implies exists|i: int|
            0 <= i < users.len() && (#[trigger] users[i]).id == other by {
            if other == id {
                assert(users[others.len() as int].id == other);
            } else {
                assert(rest.contains(other));
                let i = choose|i: int| 0 <= i < others.len() && (#[trigger] others[i]).id == other;
                assert(users[i].id == other);
            }
        }
        assert(table.lists(users));
    }
}

/// On a table of finitely many rows every request settles: whatever step it
/// stands at, there is a response that it comes to.
pub proof fn lemma_every_request_settles(table: Table, step: StepView)
    requires
        table.rows.dom().finite(),
    ensures
        exists|response: ResponseView, end: Table| settles(table, step, response, end),
{
    match step {
        StepView::Reply(reply) => {
            assert(settles(table, step, reply, table));
        },
        StepView::Run(first) => {
            let outcome = match first {
                CommandView::ReadAll => {
                    lemma_table_can_be_listed(table);
                    OutcomeView::Rows(choose|users: Seq<UserView>| table.lists(users))
                },
                CommandView::Insert { user } => if table.contains(user.id) {
                    OutcomeView::Failed(DbError::ConstraintViolation)
                } else {
                    OutcomeView::Count(1)
                },
                CommandView::ReadOne { id } => if table.contains(id) {
                    OutcomeView::Row(table.row(id))
                } else {
                    OutcomeView::Failed(DbError::NotFound)
                },
                CommandView::Update { id, .. } | CommandView::Delete { id } => if table.contains(
                    id,
                ) {
                    OutcomeView::Count(1)
                } else {
                    OutcomeView::Count(0)
                },
            };
            assert(table.yields(first, outcome));
            match next_step(first, outcome) {
                StepView::Reply(reply) => {
                    assert(settles(table, step, reply, table.after(first)));
                },
                StepView::Run(second) => {
                    let id = first->Update_id;
                    let middle = table.after(first);
                    let read = if middle.contains(id) {
                        OutcomeView::Row(middle.row(id))
                    } else {
                        OutcomeView::Failed(DbError::NotFound)
                    };
                    assert(middle.yields(second, read));
                    let reply = next_step(second, read)->Reply_0;
                    assert(settles(table, step, reply, middle.after(second)));
                },
            }
        },
    }
}

/// A request with an id that is not thirty-two hexadecimal digits is answered
/// 400 and comes to nothing else: the table is not asked and stays as it is.
pub proof fn lemma_bad_id_is_refused(
    table: Table,
    path: Seq<char>,
    name: Seq<char>,
    email: Seq<char>,
    response: ResponseView,
    end: Table,
)
    requires
        !is_id_text(path),
    ensures
        update_step(path, name, email) == StepView::Reply(bare(BAD_REQUEST)),
        delete_step(path) == StepView::Reply(bare(BAD_REQUEST)),
        settles(table, update_step(path, name, email), response, end) <==> response == bare(
            BAD_REQUEST,
        ) && end == table,
        settles(table, delete_step(path), response, end) <==> response == bare(BAD_REQUEST) && end
            == table,
{
}

/// Whatever the command, a failure of the table is answered 500 with no
/// body, which is no success.
pub proof fn lemma_failure_is_answered_500(command: CommandView, error: DbError)
    ensures
        next_step(command, OutcomeView::Failed(error)) == StepView::Reply(
            bare(INTERNAL_SERVER_ERROR),
        ),
        !is_success(INTERNAL_SERVER_ERROR),
{
}

/// The id that a client is shown is thirty-two lower-case hexadecimal digits,
/// and a request that carries it back reaches the row it was shown for.
pub proof fn lemma_shown_id_leads_back(user: UserView, name: Seq<char>, email: Seq<char>)
    requires
        user.id.len() == ID_BYTES,
    ensures
        shown(user).id.len() == ID_DIGITS,
        forall|i: int| 0 <= i < ID_DIGITS ==> is_lower_hex_char(#[trigger] shown(user).id[i]),
        is_id_text(shown(user).id),
        update_step(shown(user).id, name, email) == StepView::Run(
            CommandView::Update { id: user.id, name, email },
        ),
        delete_step(shown(user).id) == StepView::Run(CommandView::Delete { id: user.id }),
{
    lemma_encode_is_lower_hex(user.id);
    lemma_id_round_trip(user.id);
}

/// Creating a user and then listing the users, on a table that has no row
/// with the new id: the create is answered 201 with the new row, whose id, as
/// shown, is thirty-two lower-case hexadecimal digits that no row of the
/// table was shown with before; the list is answered 200 and holds the new
/// row as it was created, and no other entry with its id.
pub proof fn lemma_create_then_list(
    table: Table,
    user: UserView,
    created: ResponseView,
    listed: ResponseView,
    middle: Table,
    end: Table,
)
    requires
        user.id.len() == ID_BYTES,
        !table.contains(user.id),
        settles(table, StepView::Run(CommandView::Insert { user }), created, middle),
        settles(middle, StepView::Run(CommandView::ReadAll), listed, end),
    ensures
        created == (ResponseView { status: CREATED, body: BodyView::One(shown(user)) }),
        is_id_text(shown(user).id),
        forall|i: int| 0 <= i < ID_DIGITS ==> is_lower_hex_char(#[trigger] shown(user).id[i]),
        forall|id: Seq<u8>| #[trigger] table.contains(id) ==> encode(id) != shown(user).id,
        middle.contains(user.id) && middle.row(user.id) == user,
        end == middle,
        listed.status == OK,
        listed.body matches BodyView::List(users) && exists|i: int|
            {
                &&& 0 <= i < users.len()
                &&& #[trigger] users[i] == shown(user)
                &&& forall|j: int|
                    0 <= j < users.len() && j != i ==> (#[trigger] users[j]).id != shown(user).id
            },
{
    lemma_shown_id_leads_back(user, user.name, user.email);
    assert forall|id: Seq<u8>| #[trigger] table.contains(id) implies encode(id) != shown(user).id by {
        if encode(id) == encode(user.id) {
            lemma_encode_is_injective(id, user.id);
        }
    }
    assert(middle.contains(user.id));
    let read = choose|outcome: OutcomeView| #[trigger]
        middle.yields(CommandView::ReadAll, outcome) && next_step(CommandView::ReadAll, outcome)
            == StepView::Reply(listed) && end == middle.after(CommandView::ReadAll);
    let rows = read->Rows_0;
    let i = choose|i: int| 0 <= i < rows.len() && (#[trigger] rows[i]).id == user.id;
    let users = shown_all(rows);
    assert(users[i] == shown(user));
    assert forall|j: int| 0 <= j < users.len() && j != i implies (#[trigger] users[j]).id
        != shown(user).id by {
        if encode(rows[j].id) == encode(user.id) {
            lemma_encode_is_injective(rows[j].id, user.id);
        }
    }
    assert(listed.body->List_0 == users);
    assert(exists|i: int|
        {
            &&& 0 <= i < users.len()
            &&& #[trigger] users[i] == shown(user)
            &&& forall|j: int|
                0 <= j < users.len() && j != i ==> (#[trigger] users[j]).id != shown(user).id
        });
}

/// Creating a user under an id that a row already has comes to nothing: the
/// insert breaks the constraint that no id is there twice, the answer is 500
/// and the table stays as it is.
pub proof fn lemma_create_under_a_taken_id(
    table: Table,
    user: UserView,
    response: ResponseView,
    end: Table,
)
    requires
        table.contains(user.id),
        settles(table, StepView::Run(CommandView::Insert { user }), response, end),
    ensures
        response == bare(INTERNAL_SERVER_ERROR),
        end == table,
{
}

/// Updating an existing row twice with the same name and email: both times
/// the answer is 200 with the row as updated, and the table after the second
/// update is the table after the first, with that row in it.
pub proof fn lemma_update_twice(
    table: Table,
    path: Seq<char>,
    name: Seq<char>,
    email: Seq<char>,
    first: ResponseView,
    second: ResponseView,
    middle: Table,
    end: Table,
)
    requires
        is_id_text(path),
        table.contains(id_of_text(path)),
        settles(table, update_step(path, name, email), first, middle),
        settles(middle, update_step(path, name, email), second, end),
    ensures
        first == (ResponseView {
            status: OK,
            body: BodyView::One(shown(UserView { id: id_of_text(path), name, email })),
        }),
        second == first,
        middle.contains(id_of_text(path)),
        middle.row(id_of_text(path)) == (UserView { id: id_of_text(path), name, email }),
        end == middle,
{
    assert(end.rows =~= middle.rows);
}

/// Updating a row that is not there never succeeds. The update itself does
/// nothing and reports no failure; reading the row again reports it missing,
/// and the answer is 500. The table is left as it was.
pub proof fn lemma_update_of_absent_row(
    table: Table,
    path: Seq<char>,
    name: Seq<char>,
    email: Seq<char>,
    response: ResponseView,
    end: Table,
)
    requires
        is_id_text(path),
        !table.contains(id_of_text(path)),
        settles(table, update_step(path, name, email), response, end),
    ensures
        response == bare(INTERNAL_SERVER_ERROR),
        !is_success(response.status),
        end == table,
{
}

/// Deleting an existing row twice: the first delete is answered 204 and the
/// row is gone, the second is answered 404 and changes nothing.
pub proof fn lemma_delete_twice(
    table: Table,
    path: Seq<char>,
    first: ResponseView,
    second: ResponseView,
    middle: Table,
    end: Table,
)
    requires
        is_id_text(path),
        table.contains(id_of_text(path)),
        settles(table, delete_step(path), first, middle),
        settles(middle, delete_step(path), second, end),
    ensures
        first == bare(NO_CONTENT),
        !middle.contains(id_of_text(path)),
        second == bare(NOT_FOUND),
        end == middle,
{
    assert(end.rows =~= middle.rows);
}

} // verus!
