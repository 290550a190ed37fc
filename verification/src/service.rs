//! The four operations, the router that picks one, and the response that is
//! written for what came of it.
//!
//! A request is first planned: the router picks the operation, and the
//! operation reads from the request what it needs and states the command that
//! the store is to carry out. A request that cannot be planned never reaches
//! the store. The store's answer is then turned into an outcome, and the
//! outcome into a response.

use vstd::prelude::*;
use vstd::string::StringExecFns;
use crate::json::{payload, payload_of, users_json, users_to_json};
use crate::request::{
    body_of, decode_request, path_id, request_body, request_id, request_of, route, route_of,
    Route,
};
use crate::store::{
    all_stored, answer_view, run, Command, CommandView, StoreError, TEXT_LIMIT,
};
use crate::user::{user_view, views, User, UserView};

verus! {

/// The status line and headers of a response that reports success.
pub const OK_RESPONSE: &'static str = "HTTP/1.1 200 OK\r\nContent-Type: application/json\r\n\r\n";

/// The status line of a response to a request that cannot be read.
pub const BAD_REQUEST: &'static str = "HTTP/1.1 400 BAD REQUEST\r\n\r\n";

/// The status line of a response to a request that no route matches.
pub const NOT_FOUND: &'static str = "HTTP/1.1 404 NOT FOUND\r\n\r\n";

/// The status line of a response that reports a failure of the service.
pub const INTERNAL_SERVER_ERROR: &'static str = "HTTP/1.1 500 INTERNAL SERVER ERROR\r\n\r\n";

/// Why a request was not carried out.
#[derive(Clone, Copy, Debug, PartialEq, Eq, Structural)]
pub enum Failure {
    /// The body holds no user, or the path no identifier.
    MalformedInput,
    /// No route matches the request.
    NotFound,
    /// The store failed.
    InternalFailure,
}

/// What came of a request.
#[derive(Debug, PartialEq, Eq)]
pub enum Outcome {
    /// Success, with the records that were asked for.
    Users(Vec<User>),
    /// Success, with nothing to hand back.
    Done,
    Failed(Failure),
}

/// What an outcome holds.
pub enum OutcomeView {
    Users(Seq<UserView>),
    Done,
    Failed(Failure),
}

impl View for Outcome {
    type V = OutcomeView;

    open spec fn view(&self) -> OutcomeView {
        match self {
            Outcome::Users(users) => OutcomeView::Users(views(users@)),
            Outcome::Done => OutcomeView::Done,
            Outcome::Failed(failure) => OutcomeView::Failed(*failure),
        }
    }
}

/// What a plan holds.
pub open spec fn plan_view(plan: Result<Command, Failure>) -> Result<CommandView, Failure> {
    match plan {
        Ok(command) => Ok(command@),
        Err(failure) => Err(failure),
    }
}

/// The plan to create a user: insert the name and the age of the user that
/// the body gave. Without such a user there is nothing to insert.
pub open spec fn create_plan(payload: Option<UserView>) -> Result<CommandView, Failure> {
    match payload {
        Some(user) => Ok(CommandView::Insert { name: user.name, age: user.age }),
        None => Err(Failure::MalformedInput),
    }
}

/// The plan to update a user: give the record with the identifier that the
/// path gave the name and the age of the user that the body gave. Both are
/// needed.
pub open spec fn update_plan(id: Option<i64>, payload: Option<UserView>) -> Result<
    CommandView,
    Failure,
> {
    match (id, payload) {
        (Some(id), Some(user)) => Ok(
            CommandView::Update { id, name: user.name, age: user.age },
        ),
        _ => Err(Failure::MalformedInput),
    }
}

/// The plan to delete a user: remove the record with the identifier that the
/// path gave.
pub open spec fn delete_plan(id: Option<i64>) -> Result<CommandView, Failure> {
    match id {
        Some(id) => Ok(CommandView::Delete { id }),
        None => Err(Failure::MalformedInput),
    }
}

/// The plan for a request that creates a user. An identifier in the body is
/// passed over: the store chooses one.
pub open spec fn create_of(request: Seq<char>) -> Result<CommandView, Failure> {
    create_plan(payload_of(body_of(request)))
}

/// The plan for a request that updates a user.
pub open spec fn update_of(request: Seq<char>) -> Result<CommandView, Failure> {
    update_plan(path_id(request), payload_of(body_of(request)))
}

/// The plan for a request that deletes a user.
pub open spec fn delete_of(request: Seq<char>) -> Result<CommandView, Failure> {
    delete_plan(path_id(request))
}

/// The plan for a request: the command that the store is to carry out, or the
/// reason why there is none.
pub open spec fn plan_of(request: Seq<char>) -> Result<CommandView, Failure> {
    match route_of(request) {
        Route::Create => create_of(request),
        Route::List => Ok(CommandView::SelectAll),
        Route::Update => update_of(request),
        Route::Delete => delete_of(request),
        Route::NotFound => Err(Failure::NotFound),
    }
}

/// The outcome of a command, given the answer of the store. Whether a record
/// was changed plays no part: an update or a delete that the store carried out
/// is a success.
pub open spec fn conclude_of(command: CommandView, answer: Result<Seq<UserView>, StoreError>)
    -> OutcomeView {
    match answer {
        Ok(users) => if command is SelectAll {
            OutcomeView::Users(users)
        } else {
            OutcomeView::Done
        },
        Err(_) => OutcomeView::Failed(Failure::InternalFailure),
    }
}

/// Whether `outcome` is one that a plan can lead to. A plan that failed has
/// one outcome. Where a command went to the store, the store decides between
/// success and failure; a name that is too long for it to take is a failure.
pub open spec fn possible(plan: Result<CommandView, Failure>, outcome: OutcomeView) -> bool {
    match plan {
        Err(failure) => outcome == OutcomeView::Failed(failure),
        Ok(CommandView::SelectAll) => match outcome {
            OutcomeView::Users(users) => all_stored(users),
            OutcomeView::Done => false,
            OutcomeView::Failed(failure) => failure == Failure::InternalFailure,
        },
        Ok(command) => match outcome {
            OutcomeView::Users(_) => false,
            OutcomeView::Done => command.text_length() <= TEXT_LIMIT,
            OutcomeView::Failed(failure) => failure == Failure::InternalFailure,
        },
    }
}

/// The response to an outcome: the status line with its headers, and the
/// body.
pub open spec fn response_of(outcome: OutcomeView) -> (Seq<char>, Seq<char>) {
    match outcome {
        OutcomeView::Users(users) => match users_json(users) {
            Some(json) => (OK_RESPONSE@, json),
            None => (INTERNAL_SERVER_ERROR@, Seq::empty()),
        },
        OutcomeView::Done => (OK_RESPONSE@, Seq::empty()),
        OutcomeView::Failed(Failure::MalformedInput) => (BAD_REQUEST@, Seq::empty()),
        OutcomeView::Failed(Failure::NotFound) => (NOT_FOUND@, "404 Not Found"@),
        OutcomeView::Failed(Failure::InternalFailure) => (INTERNAL_SERVER_ERROR@, Seq::empty()),
    }
}

/// Reads the user that the body of a request gives.
pub fn get_user_request_body(request: &str) -> (user: Option<User>)
    ensures
        user_view(user) == payload_of(body_of(request@)),
{
    payload(request_body(request))
}

/// Plans to create the user that a body gave.
pub fn plan_create(payload: Option<User>) -> (plan: Result<Command, Failure>)
    ensures
        plan_view(plan) == create_plan(user_view(payload)),
{
    match payload {
        Some(user) => Ok(Command::Insert { name: user.name, age: user.age }),
        None => Err(Failure::MalformedInput),
    }
}

/// Plans to update the user that a path named as a body said.
pub fn plan_update(id: Option<i64>, payload: Option<User>) -> (plan: Result<Command, Failure>)
    ensures
        plan_view(plan) == update_plan(id, user_view(payload)),
{
    match (id, payload) {
        (Some(id), Some(user)) => Ok(
            Command::Update { id, name: user.name, age: user.age },
        ),
        _ => Err(Failure::MalformedInput),
    }
}

/// Plans to delete the user that a path named.
pub fn plan_delete(id: Option<i64>) -> (plan: Result<Command, Failure>)
    ensures
        plan_view(plan) == delete_plan(id),
{
    match id {
        Some(id) => Ok(Command::Delete { id }),
        None => Err(Failure::MalformedInput),
    }
}

/// Plans a request that creates a user.
pub fn create_command(request: &str) -> (plan: Result<Command, Failure>)
    ensures
        plan_view(plan) == create_of(request@),
{
    plan_create(get_user_request_body(request))
}

/// Plans a request that updates a user. Where the path names no identifier,
/// the body is not looked at.
pub fn update_command(request: &str) -> (plan: Result<Command, Failure>)
    ensures
        plan_view(plan) == update_of(request@),
{
    match request_id(request) {
        Some(id) => plan_update(Some(id), get_user_request_body(request)),
        None => Err(Failure::MalformedInput),
    }
}

/// Plans a request that deletes a user.
pub fn delete_command(request: &str) -> (plan: Result<Command, Failure>)
    ensures
        plan_view(plan) == delete_of(request@),
{
    plan_delete(request_id(request))
}

/// Plans a request.
pub fn plan(request: &str) -> (plan: Result<Command, Failure>)
    ensures
        plan_view(plan) == plan_of(request@),
{
    match route(request) {
        Route::Create => create_command(request),
        Route::List => Ok(Command::SelectAll),
        Route::Update => update_command(request),
        Route::Delete => delete_command(request),
        Route::NotFound => Err(Failure::NotFound),
    }
}

/// Turns the answer of the store to a command into an outcome.
pub fn conclude(command: &Command, answer: Result<Vec<User>, StoreError>) -> (outcome: Outcome)
    ensures
        outcome@ == conclude_of(command@, answer_view(answer)),
{
    match answer {
        Ok(users) => match command {
            Command::SelectAll => Outcome::Users(users),
            _ => Outcome::Done,
        },
        Err(_) => Outcome::Failed(Failure::InternalFailure),
    }
}

/// Carries out a plan: a command goes to the store, a failure stays what it
/// is.
pub fn carry_out(db: &sqlite::Connection, plan: Result<Command, Failure>) -> (outcome: Outcome)
    ensures
        possible(plan_view(plan), outcome@),
{
    match plan {
        Ok(command) => {
            let answer = run(db, &command);
            conclude(&command, answer)
        },
        Err(failure) => Outcome::Failed(failure),
    }
}

/// Lists the users: every record that the store hands out, in the order in
/// which it hands them out, each with its identifier, name and age.
pub fn get_users(db: &sqlite::Connection) -> (outcome: Outcome)
    ensures
        possible(Ok(CommandView::SelectAll), outcome@),
{
    carry_out(db, Ok(Command::SelectAll))
}

/// Creates the user that the body of the request gives. The store chooses the
/// identifier, and the response does not tell it.
pub fn post_user(db: &sqlite::Connection, request: &str) -> (outcome: Outcome)
    ensures
        possible(create_of(request@), outcome@),
{
    carry_out(db, create_command(request))
}

/// Gives the user that the path names the name and age in the body. No check
/// is made that there is such a user: if there is none, nothing changes and
/// the outcome is a success all the same.
pub fn put_user(db: &sqlite::Connection, request: &str) -> (outcome: Outcome)
    ensures
        possible(update_of(request@), outcome@),
{
    carry_out(db, update_command(request))
}

/// Deletes the user that the path names. No check is made that there is such
/// a user: if there is none, nothing changes and the outcome is a success all
/// the same.
pub fn delete_user(db: &sqlite::Connection, request: &str) -> (outcome: Outcome)
    ensures
        possible(delete_of(request@), outcome@),
{
    carry_out(db, delete_command(request))
}

/// Routes a request to its operation and answers what came of it.
pub fn serve(request: &str, db: &sqlite::Connection) -> (outcome: Outcome)
    ensures
        possible(plan_of(request@), outcome@),
{
    match route(request) {
        Route::Create => post_user(db, request),
        Route::List => get_users(db),
        Route::Update => put_user(db, request),
        Route::Delete => delete_user(db, request),
        Route::NotFound => Outcome::Failed(Failure::NotFound),
    }
}

/// Writes the response to an outcome: the status line with its headers, and
/// the body. A list of users that cannot be written as JSON is answered as a
/// failure of the service.
pub fn response(outcome: &Outcome) -> (reply: (String, String))
    ensures
        (reply.0@, reply.1@) == response_of(outcome@),
{
    match outcome {
        Outcome::Users(users) => match users_to_json(users) {
            Some(json) => (String::from_str(OK_RESPONSE), json),
            None => (String::from_str(INTERNAL_SERVER_ERROR), String::new()),
        },
        Outcome::Done => (String::from_str(OK_RESPONSE), String::new()),
        Outcome::Failed(Failure::MalformedInput) => (String::from_str(BAD_REQUEST), String::new()),
        Outcome::Failed(Failure::NotFound) => (
            String::from_str(NOT_FOUND),
            String::from_str("404 Not Found"),
        ),
        Outcome::Failed(Failure::InternalFailure) => (
            String::from_str(INTERNAL_SERVER_ERROR),
            String::new(),
        ),
    }
}

/// Handles a request: routes it, carries out its operation and writes the
/// response, as status line and body.
pub fn handle_routes(request: &str, db: &sqlite::Connection) -> (reply: (String, String))
    ensures
        exists|outcome: OutcomeView|
            possible(plan_of(request@), outcome) && (reply.0@, reply.1@) == #[trigger] response_of(
                outcome,
            ),
{
    let outcome = serve(request, db);
    response(&outcome)
}

/// A response as it goes over the connection: the status line with its
/// headers, then the body.
pub fn reply_text(reply: &(String, String)) -> (text: String)
    ensures
        text@ == reply.0@ + reply.1@,
{
    let mut text = reply.0.clone();
    text.append(reply.1.as_str());
    text
}

/// Answers what was read from a connection: decodes it, handles it as a
/// request and puts the response together.
pub fn respond(bytes: &[u8], db: &sqlite::Connection) -> (text: String)
    ensures
        exists|outcome: OutcomeView|
            possible(plan_of(request_of(bytes@)), outcome) && text@ == (#[trigger] response_of(
                outcome,
            )).0 + response_of(outcome).1,
{
    let request = decode_request(bytes);
    let reply = handle_routes(request.as_str(), db);
    reply_text(&reply)
}

} // verus!
