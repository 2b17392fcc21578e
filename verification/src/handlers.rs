//! The four request handlers.
//!
//! A handler looks at the request and either answers it at once or names the
//! command to run on the table. Whoever holds the connection runs the command
//! and hands it, with what came back, to [`advance`], which answers the
//! request or names the next command. Nothing here touches the table itself.

use crate::hex_id::{decode_id, encode, encode_id, id_of_text, is_id_text};
use crate::models::{
    is_random_uuid, user_views, Command, CommandView, DbError, Outcome, OutcomeView, User,
    UserView,
};
use vstd::prelude::*;

verus! {

/// Status of a list or an update that worked.
pub const OK: u16 = 200;

/// Status of a create that worked.
pub const CREATED: u16 = 201;

/// Status of a delete that removed the row.
pub const NO_CONTENT: u16 = 204;

/// Status of a request whose id is not thirty-two hexadecimal digits.
pub const BAD_REQUEST: u16 = 400;

/// Status of a delete that found no row.
pub const NOT_FOUND: u16 = 404;

/// Status of a request on which the table failed.
pub const INTERNAL_SERVER_ERROR: u16 = 500;

/// Body of a create request.
#[derive(Debug, Clone, PartialEq, Eq)]
pub struct CreateUserRequest {
    pub name: String,
    pub email: String,
}

/// Body of an update request.
#[derive(Debug, Clone, PartialEq, Eq)]
pub struct UpdateUserRequest {
    pub name: String,
    pub email: String,
}

/// A user as clients see it: the id in hexadecimal, name and email as stored.
#[derive(Debug, Clone, PartialEq, Eq)]
pub struct UserResponse {
    pub id: String,
    pub name: String,
    pub email: String,
}

/// A [`UserResponse`] as plain values.
pub struct UserResponseView {
    pub id: Seq<char>,
    pub name: Seq<char>,
    pub email: Seq<char>,
}

impl View for UserResponse {
    type V = UserResponseView;

    open spec fn view(&self) -> UserResponseView {
        UserResponseView { id: self.id@, name: self.name@, email: self.email@ }
    }
}

/// How a row is shown to clients.
pub open spec fn shown(user: UserView) -> UserResponseView {
    UserResponseView { id: encode(user.id), name: user.name, email: user.email }
}

/// How rows are shown to clients: each as [`shown`], in the same order.
pub open spec fn shown_all(users: Seq<UserView>) -> Seq<UserResponseView> {
    Seq::new(users.len(), |i: int| shown(users[i]))
}

/// Responses as plain values, in the same order.
pub open spec fn response_views(responses: Seq<UserResponse>) -> Seq<UserResponseView> {
    Seq::new(responses.len(), |i: int| responses[i]@)
}

impl From<User> for UserResponse {
    /// Shows a row to clients: its id in lower-case hexadecimal, its name and
    /// email untouched.
    fn from(user: User) -> (response: UserResponse)
        ensures
            response@ == shown(user@),
    {
        UserResponse { id: encode_id(user.id.as_slice()), name: user.name, email: user.email }
    }
}

/// `from` is stated by its own contract, over the views of the row and of the
/// response; over the values themselves nothing is claimed.
impl vstd::std_specs::convert::FromSpecImpl<User> for UserResponse {
    open spec fn obeys_from_spec() -> bool {
        false
    }

    open spec fn from_spec(user: User) -> UserResponse {
        choose|response: UserResponse| response@ == shown(user@)
    }
}

/// What a response carries besides its status.
#[derive(Debug, Clone, PartialEq, Eq)]
pub enum Body {
    /// Nothing.
    Empty,
    /// One user, as a JSON object.
    One(UserResponse),
    /// Users, as a JSON array of such objects.
    List(Vec<UserResponse>),
}

/// A [`Body`] as plain values.
pub enum BodyView {
    Empty,
    One(UserResponseView),
    List(Seq<UserResponseView>),
}

impl View for Body {
    type V = BodyView;

    open spec fn view(&self) -> BodyView {
        match self {
            Body::Empty => BodyView::Empty,
            Body::One(user) => BodyView::One(user@),
            Body::List(users) => BodyView::List(response_views(users@)),
        }
    }
}

/// The answer to one request.
#[derive(Debug, Clone, PartialEq, Eq)]
pub struct Response {
    pub status: u16,
    pub body: Body,
}

/// A [`Response`] as plain values.
pub struct ResponseView {
    pub status: u16,
    pub body: BodyView,
}

impl View for Response {
    type V = ResponseView;

    open spec fn view(&self) -> ResponseView {
        ResponseView { status: self.status, body: self.body@ }
    }
}

/// Whether `status` says that the request was carried out: a status from 200 to 299.
pub open spec fn is_success(status: u16) -> bool {
    200 <= status < 300
}

/// The response that has `status` and no body.
pub open spec fn bare(status: u16) -> ResponseView {
    ResponseView { status, body: BodyView::Empty }
}

/// What is to be done next for a request.
#[derive(Debug, Clone, PartialEq, Eq)]
pub enum Step {
    /// Send this response: the request is settled.
    Reply(Response),
    /// Run this command on the table and hand command and outcome to
    /// [`advance`].
    Run(Command),
}

/// A [`Step`] as plain values.
pub enum StepView {
    Reply(ResponseView),
    Run(CommandView),
}

impl View for Step {
    type V = StepView;

    open spec fn view(&self) -> StepView {
        match self {
            Step::Reply(response) => StepView::Reply(response@),
            Step::Run(command) => StepView::Run(command@),
        }
    }
}

/// The status that a failure of the table is answered with. Every failure gets
/// the same one, so that none of its detail reaches the client.
pub open spec fn failure_status(error: DbError) -> u16 {
    INTERNAL_SERVER_ERROR
}

/// What follows once `command` has run and `outcome` has come back.
///
/// Rows that were read are shown with status 200. A row that was inserted is
/// shown as it was handed to the table, with status 201. After an update,
/// however many rows it matched, the row is read again; the row that this
/// yields is shown with status 200. A delete is answered 204 if it removed a
/// row and 404 if it removed none. A failure of the table, a missing row
/// among them, is answered 500, and so is an outcome of another shape than
/// the command asks for.
pub open spec fn next_step(command: CommandView, outcome: OutcomeView) -> StepView {
    match (command, outcome) {
        (CommandView::ReadAll, OutcomeView::Rows(users)) => StepView::Reply(
            ResponseView { status: OK, body: BodyView::List(shown_all(users)) },
        ),
        (CommandView::Insert { user }, OutcomeView::Count(_)) => StepView::Reply(
            ResponseView { status: CREATED, body: BodyView::One(shown(user)) },
        ),
        (CommandView::Update { id, .. }, OutcomeView::Count(_)) => StepView::Run(
            CommandView::ReadOne { id },
        ),
        (CommandView::ReadOne { .. }, OutcomeView::Row(user)) => StepView::Reply(
            ResponseView { status: OK, body: BodyView::One(shown(user)) },
        ),
        (CommandView::Delete { .. }, OutcomeView::Count(n)) => if n > 0 {
            StepView::Reply(bare(NO_CONTENT))
        } else {
            StepView::Reply(bare(NOT_FOUND))
        },
        (_, OutcomeView::Failed(error)) => StepView::Reply(bare(failure_status(error))),
        _ => StepView::Reply(bare(INTERNAL_SERVER_ERROR)),
    }
}

/// How many more commands can follow `command` before the request is settled.
pub open spec fn commands_after(command: CommandView) -> nat {
    match command {
        CommandView::Update { .. } => 1,
        _ => 0,
    }
}

impl Response {
    /// The response with `status` and no body.
    pub fn bare(status: u16) -> (response: Response)
        ensures
            response@ == bare(status),
    {
        Response { status, body: Body::Empty }
    }

    /// Whether the status says that the request was carried out (2xx).
    pub fn is_success(&self) -> (yes: bool)
        ensures
            yes == is_success(self.status),
    {
        200 <= self.status && self.status < 300
    }
}

/// The status for a failure of the table: 500, whatever the failure.
pub fn status_of_failure(error: DbError) -> (status: u16)
    ensures
        status == failure_status(error),
{
    INTERNAL_SERVER_ERROR
}

/// Shows rows to clients, each through [`UserResponse::from`], keeping their order.
pub fn show_all(users: Vec<User>) -> (responses: Vec<UserResponse>)
    ensures
        response_views(responses@) == shown_all(user_views(users@)),
{
    let mut responses: Vec<UserResponse> = Vec::new();
    for user in it: users
        invariant
            responses@.len() == it.index(),
            it.seq() == users@,
            forall|i: int| 0 <= i < responses@.len() ==> (#[trigger] responses@[i])@ == shown(users@[i]@),
    {
        responses.push(UserResponse::from(user));
    }
    assert(response_views(responses@) =~= shown_all(user_views(users@)));
    responses
}

/// Lists the users: there is nothing to check, the table is asked for every row.
pub fn get_users() -> (step: Step)
    ensures
        step@ == StepView::Run(CommandView::ReadAll),
{
    Step::Run(User::read())
}

/// Creates a user: the table is asked to insert a row with the name and email
/// of the request under a fresh random id. Neither text is inspected.
pub fn create_user(request: &CreateUserRequest) -> (step: Step)
    ensures
        step@ matches StepView::Run(CommandView::Insert { user }) && {
            &&& user.name == request.name@
            &&& user.email == request.email@
            &&& is_random_uuid(user.id)
        },
{
    Step::Run(User::create(request.name.as_str(), request.email.as_str()))
}

/// What [`update_user`] decides for the id `path` and a body with `name` and `email`.
pub open spec fn update_step(path: Seq<char>, name: Seq<char>, email: Seq<char>) -> StepView {
    if is_id_text(path) {
        StepView::Run(CommandView::Update { id: id_of_text(path), name, email })
    } else {
        StepView::Reply(bare(BAD_REQUEST))
    }
}

/// Updates a user. A `path` that is not thirty-two hexadecimal digits is
/// answered 400 and the table is not asked; otherwise the table is asked to
/// set name and email of the row with the id that `path` spells.
pub fn update_user(path: &str, request: &UpdateUserRequest) -> (step: Step)
    ensures
        step@ == update_step(path@, request.name@, request.email@),
{
    match decode_id(path) {
        Ok(id) => Step::Run(
            User::update(id.as_slice(), request.name.as_str(), request.email.as_str()),
        ),
        Err(_) => Step::Reply(Response::bare(BAD_REQUEST)),
    }
}

/// What [`delete_user`] decides for the id `path`.
pub open spec fn delete_step(path: Seq<char>) -> StepView {
    if is_id_text(path) {
        StepView::Run(CommandView::Delete { id: id_of_text(path) })
    } else {
        StepView::Reply(bare(BAD_REQUEST))
    }
}

/// Deletes a user. A `path` that is not thirty-two hexadecimal digits is
/// answered 400 and the table is not asked; otherwise the table is asked to
/// delete the row with the id that `path` spells.
pub fn delete_user(path: &str) -> (step: Step)
    ensures
        step@ == delete_step(path@),
{
    match decode_id(path) {
        Ok(id) => Step::Run(User::delete(id.as_slice())),
        Err(_) => Step::Reply(Response::bare(BAD_REQUEST)),
    }
}

/// Takes a request one step further: from the command that was run for it and
/// what the table handed back to the response, or to the command to run next.
/// See [`next_step`]. At most one command follows another, so a request is
/// settled after two commands at the latest.
pub fn advance(command: Command, outcome: Outcome) -> (step: Step)
    ensures
        step@ == next_step(command@, outcome@),
        step@ matches StepView::Run(next) ==> commands_after(next) < commands_after(command@),
{
    match outcome {
        Outcome::Failed(error) => Step::Reply(Response::bare(status_of_failure(error))),
        Outcome::Rows(users) => match command {
            Command::ReadAll => Step::Reply(
                Response { status: OK, body: Body::List(show_all(users)) },
            ),
            _ => Step::Reply(Response::bare(INTERNAL_SERVER_ERROR)),
        },
        Outcome::Row(user) => match command {
            Command::ReadOne { .. } => Step::Reply(
                Response { status: OK, body: Body::One(UserResponse::from(user)) },
            ),
            _ => Step::Reply(Response::bare(INTERNAL_SERVER_ERROR)),
        },
        Outcome::Count(n) => match command {
            Command::Insert { user } => Step::Reply(
                Response { status: CREATED, body: Body::One(UserResponse::from(user)) },
            ),
            Command::Update { id, .. } => Step::Run(Command::ReadOne { id }),
            Command::Delete { .. } => if n > 0 {
                Step::Reply(Response::bare(NO_CONTENT))
            } else {
                Step::Reply(Response::bare(NOT_FOUND))
            },
            _ => Step::Reply(Response::bare(INTERNAL_SERVER_ERROR)),
        },
    }
}

} // verus!
