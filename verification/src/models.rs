//! The user row, and the storage layer: what is asked of the table that holds
//! the rows and what the table can hand back.
//!
//! The table lives in a database that this crate does not talk to. The
//! storage layer turns each intent (create, read, update, delete) into a
//! [`Command`]; whoever holds the connection runs it and reports the
//! [`Outcome`].

use crate::hex_id::ID_BYTES;
use vstd::prelude::*;
use vstd::slice::slice_to_vec;

verus! {

/// One row of the user table.
#[derive(Debug, Clone, PartialEq, Eq)]
pub struct User {
    /// Sixteen bytes, drawn at random when the row is made and never changed.
    pub id: Vec<u8>,
    pub name: String,
    pub email: String,
}

/// A user row as plain values.
pub struct UserView {
    pub id: Seq<u8>,
    pub name: Seq<char>,
    pub email: Seq<char>,
}

impl View for User {
    type V = UserView;

    open spec fn view(&self) -> UserView {
        UserView { id: self.id@, name: self.name@, email: self.email@ }
    }
}

/// Rows as plain values, in the same order.
pub open spec fn user_views(users: Seq<User>) -> Seq<UserView> {
    Seq::new(users.len(), |i: int| users[i]@)
}

/// A failure reported by the table.
#[derive(Debug, Clone, Copy, PartialEq, Eq, Structural)]
pub enum DbError {
    /// No row has the id that was asked for.
    NotFound,
    /// The statement would break a constraint of the table.
    ConstraintViolation,
    /// Anything else: the connection, the statement, the server.
    Failure,
}

/// One statement for the table.
#[derive(Debug, Clone, PartialEq, Eq)]
pub enum Command {
    /// Read every row, in whatever order the table yields them.
    ReadAll,
    /// Insert this row.
    Insert { user: User },
    /// Set name and email of the row with this id.
    Update { id: Vec<u8>, name: String, email: String },
    /// Read the row with this id.
    ReadOne { id: Vec<u8> },
    /// Delete the row with this id.
    Delete { id: Vec<u8> },
}

/// A [`Command`] as plain values.
pub enum CommandView {
    ReadAll,
    Insert { user: UserView },
    Update { id: Seq<u8>, name: Seq<char>, email: Seq<char> },
    ReadOne { id: Seq<u8> },
    Delete { id: Seq<u8> },
}

impl View for Command {
    type V = CommandView;

    open spec fn view(&self) -> CommandView {
        match self {
            Command::ReadAll => CommandView::ReadAll,
            Command::Insert { user } => CommandView::Insert { user: user@ },
            Command::Update { id, name, email } => CommandView::Update {
                id: id@,
                name: name@,
                email: email@,
            },
            Command::ReadOne { id } => CommandView::ReadOne { id: id@ },
            Command::Delete { id } => CommandView::Delete { id: id@ },
        }
    }
}

/// What the table handed back for one command.
#[derive(Debug, Clone, PartialEq, Eq)]
pub enum Outcome {
    /// The rows that were read.
    Rows(Vec<User>),
    /// The one row that was read.
    Row(User),
    /// The number of rows that the statement inserted, matched or deleted.
    Count(usize),
    /// The table failed.
    Failed(DbError),
}

/// An [`Outcome`] as plain values.
pub enum OutcomeView {
    Rows(Seq<UserView>),
    Row(UserView),
    Count(usize),
    Failed(DbError),
}

impl View for Outcome {
    type V = OutcomeView;

    open spec fn view(&self) -> OutcomeView {
        match self {
            Outcome::Rows(users) => OutcomeView::Rows(user_views(users@)),
            Outcome::Row(user) => OutcomeView::Row(user@),
            Outcome::Count(n) => OutcomeView::Count(*n),
            Outcome::Failed(error) => OutcomeView::Failed(*error),
        }
    }
}

/// Whether `id` has the shape of a random (version 4) UUID: sixteen bytes, the
/// high nibble of byte 6 equal to 4 and the two high bits of byte 8 equal to
/// binary 10.
pub open spec fn is_random_uuid(id: Seq<u8>) -> bool {
    &&& id.len() == ID_BYTES
    &&& id[6] / 16 == 4
    &&& id[8] / 64 == 2
}

/// `uuid::Uuid::new_v4`, then `as_bytes`: sixteen bytes from the system's
/// random source, with the version and variant bits of a random UUID set.
/// Which bytes come is not stated; two calls may differ.
#[verifier::external_body]
fn random_uuid() -> (id: Vec<u8>)
    ensures
        is_random_uuid(id@),
{
    uuid::Uuid::new_v4().as_bytes().to_vec()
}

impl User {
    /// Creating a user: the command that inserts a row with the given name
    /// and email under a fresh random id. Neither text is inspected. The row
    /// in the command is the one that is later shown to the client; it is not
    /// read back from the table.
    pub fn create(name: &str, email: &str) -> (command: Command)
        ensures
            command@ matches CommandView::Insert { user } && {
                &&& user.name == name@
                &&& user.email == email@
                &&& is_random_uuid(user.id)
            },
    {
        Command::Insert {
            user: User { id: random_uuid(), name: name.to_owned(), email: email.to_owned() },
        }
    }

    /// Reading the users: the command that reads every row.
    pub fn read() -> (command: Command)
        ensures
            command@ == CommandView::ReadAll,
    {
        Command::ReadAll
    }

    /// Updating a user: the command that sets name and email of the row with
    /// this id. It is the first of two: the row is read again afterwards, and
    /// only that tells whether there was a row to update.
    pub fn update(user_id: &[u8], name: &str, email: &str) -> (command: Command)
        ensures
            command@ == (CommandView::Update { id: user_id@, name: name@, email: email@ }),
    {
        Command::Update { id: slice_to_vec(user_id), name: name.to_owned(), email: email.to_owned() }
    }

    /// Deleting a user: the command that deletes the row with this id.
    pub fn delete(user_id: &[u8]) -> (command: Command)
        ensures
            command@ == (CommandView::Delete { id: user_id@ }),
    {
        Command::Delete { id: slice_to_vec(user_id) }
    }
}

} // verus!
