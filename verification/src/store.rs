//! The record store: one table `users` with the columns `id`, `name` and
//! `age`, kept by SQLite.
//!
//! Each operation of the service is one command, and each command is one
//! statement with parameters bound to it. No text that a client sent is ever
//! made part of a statement.

use vstd::prelude::*;
use vstd::string::StringSliceAdditionalSpecFns;
use vstd::utf8::encode_utf8;
use crate::user::{views, User, UserView};

verus! {

/// The table that the statements speak of. The store gives each new record
/// an identifier that no record had before.
pub const SCHEMA: &'static str =
    "CREATE TABLE users (id INTEGER PRIMARY KEY AUTOINCREMENT, name TEXT, age INTEGER)";

/// The longest text, in bytes, that can be bound to a statement.
pub const TEXT_LIMIT: usize = 0x7fff_ffff;

/// `sqlite::Connection`, a connection to a database. Nothing of its inside is
/// seen here, and what it holds changes behind it: no contract speaks of it.
#[verifier::external_type_specification]
#[verifier::external_body]
pub struct ExConnection(sqlite::Connection);

/// `sqlite::Statement`, a prepared statement. Nothing of its inside is seen
/// here.
#[verifier::external_type_specification]
#[verifier::external_body]
pub struct ExStatement<'l>(sqlite::Statement<'l>);

/// `sqlite::Error`, what SQLite reports when a call fails. Nothing of its
/// inside is seen here.
#[verifier::external_type_specification]
#[verifier::external_body]
pub struct ExStoreFault(sqlite::Error);

/// Whether a statement stands at a row: its last step gave one, and nothing
/// was bound to it since.
pub uninterp spec fn at_row(statement: &sqlite::Statement) -> bool;

/// The text that `sqlite::Statement::read` finds in a column of the row that
/// a statement stands at; `None` where it reports an error.
pub uninterp spec fn row_text(statement: &sqlite::Statement, column: Seq<char>) -> Option<
    Seq<char>,
>;

/// The integer that `sqlite::Statement::read` finds in a column of the row
/// that a statement stands at; `None` where it reports an error.
pub uninterp spec fn row_integer(statement: &sqlite::Statement, column: Seq<char>) -> Option<i64>;

/// How far a statement has come after a step.
enum Step {
    /// It stands at a row that can be read.
    Row,
    /// It has run to its end.
    Done,
}

/// Where the store failed.
#[derive(Clone, Copy, Debug, PartialEq, Eq, Structural)]
pub enum StoreError {
    /// The store did not take the statement or one of its parameters: nothing
    /// was run.
    Rejected,
    /// The statement failed while it ran.
    Failed,
    /// A row could not be read, or there were more rows than a list can hold.
    Unreadable,
}

/// A value bound to a statement.
#[derive(Debug, PartialEq, Eq)]
pub enum Parameter {
    Text(String),
    Integer(i64),
}

/// What a parameter holds.
pub enum ParameterView {
    Text(Seq<char>),
    Integer(i64),
}

impl View for Parameter {
    type V = ParameterView;

    open spec fn view(&self) -> ParameterView {
        match self {
            Parameter::Text(text) => ParameterView::Text(text@),
            Parameter::Integer(number) => ParameterView::Integer(*number),
        }
    }
}

/// What a list of parameters holds, one by one.
pub open spec fn parameter_views(parameters: Seq<Parameter>) -> Seq<ParameterView> {
    parameters.map_values(|parameter: Parameter| parameter@)
}

/// What is asked of the store.
#[derive(Debug, PartialEq, Eq)]
pub enum Command {
    /// Add a record; the store gives it its identifier.
    Insert { name: String, age: i64 },
    /// Hand out every record.
    SelectAll,
    /// Give the record with this identifier a new name and age.
    Update { id: i64, name: String, age: i64 },
    /// Remove the record with this identifier.
    Delete { id: i64 },
}

/// What a command holds.
pub enum CommandView {
    Insert { name: Seq<char>, age: i64 },
    SelectAll,
    Update { id: i64, name: Seq<char>, age: i64 },
    Delete { id: i64 },
}

impl View for Command {
    type V = CommandView;

    open spec fn view(&self) -> CommandView {
        match self {
            Command::Insert { name, age } => CommandView::Insert { name: name@, age: *age },
            Command::SelectAll => CommandView::SelectAll,
            Command::Update { id, name, age } => CommandView::Update {
                id: *id,
                name: name@,
                age: *age,
            },
            Command::Delete { id } => CommandView::Delete { id: *id },
        }
    }
}

impl CommandView {
    /// The length in bytes of the text that a command holds, as UTF-8.
    pub open spec fn text_length(self) -> nat {
        match self {
            CommandView::Insert { name, .. } => encode_utf8(name).len(),
            CommandView::Update { name, .. } => encode_utf8(name).len(),
            _ => 0,
        }
    }

    /// The statement of a command. Each `?` stands for one parameter.
    pub open spec fn sql(self) -> Seq<char> {
        match self {
            CommandView::Insert { .. } => "INSERT INTO users (name, age) VALUES (?, ?)"@,
            CommandView::SelectAll => "SELECT * FROM users"@,
            CommandView::Update { .. } => "UPDATE users SET name = ?, age = ? WHERE id = ?"@,
            CommandView::Delete { .. } => "DELETE FROM users WHERE id = ?"@,
        }
    }

    /// The parameters of a command, in the order of the `?` in its statement.
    pub open spec fn parameters(self) -> Seq<ParameterView> {
        match self {
            CommandView::Insert { name, age } => seq![
                ParameterView::Text(name),
                ParameterView::Integer(age),
            ],
            CommandView::SelectAll => seq![],
            CommandView::Update { id, name, age } => seq![
                ParameterView::Text(name),
                ParameterView::Integer(age),
                ParameterView::Integer(id),
            ],
            CommandView::Delete { id } => seq![ParameterView::Integer(id)],
        }
    }
}

impl Command {
    /// The statement of this command.
    pub fn sql(&self) -> (text: &'static str)
        ensures
            text@ == self@.sql(),
    {
        match self {
            Command::Insert { .. } => "INSERT INTO users (name, age) VALUES (?, ?)",
            Command::SelectAll => "SELECT * FROM users",
            Command::Update { .. } => "UPDATE users SET name = ?, age = ? WHERE id = ?",
            Command::Delete { .. } => "DELETE FROM users WHERE id = ?",
        }
    }

    /// The parameters of this command.
    pub fn parameters(&self) -> (list: Vec<Parameter>)
        ensures
            parameter_views(list@) == self@.parameters(),
    {
        let mut list: Vec<Parameter> = Vec::new();
        match self {
            Command::Insert { name, age } => {
                list.push(Parameter::Text(name.clone()));
                list.push(Parameter::Integer(*age));
            },
            Command::SelectAll => {},
            Command::Update { id, name, age } => {
                list.push(Parameter::Text(name.clone()));
                list.push(Parameter::Integer(*age));
                list.push(Parameter::Integer(*id));
            },
            Command::Delete { id } => {
                list.push(Parameter::Integer(*id));
            },
        }
        assert(parameter_views(list@) =~= self@.parameters());
        list
    }

    /// The parameters of this command, each with the place that it is bound
    /// to. The first `?` of the statement has the place 1.
    pub fn bindings(&self) -> (list: Vec<(usize, Parameter)>)
        ensures
            list@.len() == self@.parameters().len(),
            forall|k: int|
                0 <= k < list@.len() ==> (#[trigger] list@[k]).0 == k + 1 && list@[k].1@
                    == self@.parameters()[k],
    {
        let mut list: Vec<(usize, Parameter)> = Vec::new();
        match self {
            Command::Insert { name, age } => {
                list.push((1, Parameter::Text(name.clone())));
                list.push((2, Parameter::Integer(*age)));
            },
            Command::SelectAll => {},
            Command::Update { id, name, age } => {
                list.push((1, Parameter::Text(name.clone())));
                list.push((2, Parameter::Integer(*age)));
                list.push((3, Parameter::Integer(*id)));
            },
            Command::Delete { id } => {
                list.push((1, Parameter::Integer(*id)));
            },
        }
        list
    }
}

/// The text of a command is its first parameter.
proof fn lemma_text_comes_first(command: CommandView)
    ensures
        command.parameters().len() == 0 ==> command.text_length() == 0,
        command.parameters().len() > 0 ==> command.text_length() == match command.parameters()[0] {
            ParameterView::Text(text) => encode_utf8(text).len(),
            ParameterView::Integer(_) => 0,
        },
{
}

/// Calls `sqlite::Connection::prepare`. It hands the text to SQLite and
/// answers a statement, or the error that SQLite reports. Nothing is claimed
/// of the outcome.
#[verifier::external_body]
fn prepare<'l>(db: &'l sqlite::Connection, sql: &str) -> (statement: Result<
    sqlite::Statement<'l>,
    sqlite::Error,
>) {
    db.prepare(sql)
}

/// Calls `sqlite::Statement::bind` with an index and a text. The first
/// parameter has index 1. The length of the text is handed to SQLite as a
/// 32-bit number, so a text that is longer than that can say is left out.
/// Nothing is claimed of the outcome.
#[verifier::external_body]
fn bind_text(statement: &mut sqlite::Statement, index: usize, value: &str) -> (bound: Result<
    (),
    sqlite::Error,
>)
    requires
        value.spec_bytes().len() <= TEXT_LIMIT,
{
    statement.bind((index, value))
}

/// Calls `sqlite::Statement::bind` with an index and an integer. The first
/// parameter has index 1. Nothing is claimed of the outcome.
#[verifier::external_body]
fn bind_integer(statement: &mut sqlite::Statement, index: usize, value: i64) -> (bound: Result<
    (),
    sqlite::Error,
>) {
    statement.bind((index, value))
}

/// Calls `sqlite::Statement::next`, which runs the statement up to its next
/// row or to its end. Trusted: that after the answer `Row` the statement
/// stands at a row.
#[verifier::external_body]
fn step(statement: &mut sqlite::Statement) -> (state: Result<Step, sqlite::Error>)
    ensures
        state matches Ok(Step::Row) ==> at_row(final(statement)),
{
    match statement.next()? {
        sqlite::State::Row => Ok(Step::Row),
        sqlite::State::Done => Ok(Step::Done),
    }
}

/// Calls `sqlite::Statement::read` for a text, with the name of a column.
/// SQLite leaves open what is read from a statement that stands at no row, so
/// one is asked for. Which row the statement stands at is the store's doing;
/// what that row holds stays as it is until the statement is stepped again.
/// Trusted: that what is read depends on the statement as it stands and on
/// the column alone.
#[verifier::external_body]
fn read_text(statement: &sqlite::Statement, column: &str) -> (value: Result<String, sqlite::Error>)
    requires
        at_row(statement),
    ensures
        match value {
            Ok(text) => row_text(statement, column@) == Some(text@),
            Err(_) => row_text(statement, column@) is None,
        },
{
    statement.read::<String, _>(column)
}

/// Calls `sqlite::Statement::read` for an integer, with the name of a column.
/// SQLite leaves open what is read from a statement that stands at no row, so
/// one is asked for. Which row the statement stands at is the store's doing;
/// what that row holds stays as it is until the statement is stepped again.
/// Trusted: that what is read depends on the statement as it stands and on
/// the column alone.
#[verifier::external_body]
fn read_integer(statement: &sqlite::Statement, column: &str) -> (value: Result<i64, sqlite::Error>)
    requires
        at_row(statement),
    ensures
        match value {
            Ok(number) => row_integer(statement, column@) == Some(number),
            Err(_) => row_integer(statement, column@) is None,
        },
{
    statement.read::<i64, _>(column)
}

/// The record that a name, an age and an identifier make, as they were read
/// from a row: all three are needed, and the record has its identifier.
pub open spec fn record_of(name: Option<Seq<char>>, age: Option<i64>, id: Option<i64>) -> Result<
    UserView,
    StoreError,
> {
    match (name, age, id) {
        (Some(name), Some(age), Some(id)) => Ok(UserView { id: Some(id), name, age }),
        _ => Err(StoreError::Unreadable),
    }
}

/// The record in the row that a statement stands at: its columns `name`,
/// `age` and `id`.
pub open spec fn row_user(statement: &sqlite::Statement) -> Result<UserView, StoreError> {
    record_of(
        row_text(statement, "name"@),
        row_integer(statement, "age"@),
        row_integer(statement, "id"@),
    )
}

/// What a record that was read holds, or why none was read.
pub open spec fn record_view(record: Result<User, StoreError>) -> Result<UserView, StoreError> {
    match record {
        Ok(user) => Ok(user@),
        Err(error) => Err(error),
    }
}

/// What a text that was read holds, where one was read.
pub open spec fn read_view(text: Option<String>) -> Option<Seq<char>> {
    match text {
        Some(text) => Some(text@),
        None => None,
    }
}

/// Makes a record of what was read from a row.
pub fn record(name: Option<String>, age: Option<i64>, id: Option<i64>) -> (user: Result<
    User,
    StoreError,
>)
    ensures
        record_view(user) == record_of(read_view(name), age, id),
{
    match (name, age, id) {
        (Some(name), Some(age), Some(id)) => Ok(User { id: Some(id), name, age }),
        _ => Err(StoreError::Unreadable),
    }
}

/// Reads the record in the row that a statement stands at.
fn read_user(statement: &sqlite::Statement) -> (user: Result<User, StoreError>)
    requires
        at_row(statement),
    ensures
        record_view(user) == row_user(statement),
{
    let name = match read_text(statement, "name") {
        Ok(name) => Some(name),
        Err(_) => None,
    };
    let age = match read_integer(statement, "age") {
        Ok(age) => Some(age),
        Err(_) => None,
    };
    let id = match read_integer(statement, "id") {
        Ok(id) => Some(id),
        Err(_) => None,
    };
    record(name, age, id)
}

/// What an answer of the store holds.
pub open spec fn answer_view(answer: Result<Vec<User>, StoreError>) -> Result<
    Seq<UserView>,
    StoreError,
> {
    match answer {
        Ok(users) => Ok(views(users@)),
        Err(error) => Err(error),
    }
}

/// What came of a step holds: a record that was read or the reason why none
/// was, where the statement came to a row; nothing, where it came to its end;
/// the error, where it failed.
pub open spec fn stepped_view(stepped: Result<Option<Result<User, StoreError>>, StoreError>)
    -> Result<Option<Result<UserView, StoreError>>, StoreError> {
    match stepped {
        Ok(Some(record)) => Ok(Some(record_view(record))),
        Ok(None) => Ok(None),
        Err(error) => Err(error),
    }
}

/// What the reading of a list has come to holds: the answer, where it is
/// over, or the list so far.
pub open spec fn next_view(next: Result<Result<Vec<User>, StoreError>, Vec<User>>) -> Result<
    Result<Seq<UserView>, StoreError>,
    Seq<UserView>,
> {
    match next {
        Ok(answer) => Ok(answer_view(answer)),
        Err(users) => Err(views(users@)),
    }
}

/// What a step means for a list that is being read. A row that could be read
/// puts its record at the end of the list, and the reading goes on. The end
/// of the statement answers the list as it is. A row that could not be read,
/// or a step that failed, answers that error, and the list so far is given
/// up: no part of a list is ever answered as a whole one.
pub open spec fn gathered(
    users: Seq<UserView>,
    stepped: Result<Option<Result<UserView, StoreError>>, StoreError>,
) -> Result<Result<Seq<UserView>, StoreError>, Seq<UserView>> {
    match stepped {
        Ok(Some(Ok(user))) => Err(users.push(user)),
        Ok(Some(Err(error))) => Ok(Err(error)),
        Ok(None) => Ok(Ok(users)),
        Err(error) => Ok(Err(error)),
    }
}

/// Takes one step of the reading of a list: `Err` holds the list with which
/// the reading goes on, `Ok` the answer with which it is over.
pub fn gather(users: Vec<User>, stepped: Result<Option<Result<User, StoreError>>, StoreError>) -> (next:
    Result<Result<Vec<User>, StoreError>, Vec<User>>)
    ensures
        next_view(next) == gathered(views(users@), stepped_view(stepped)),
{
    match stepped {
        Ok(Some(Ok(user))) => {
            let mut users = users;
            let ghost before = users@;
            users.push(user);
            assert(views(users@) =~= views(before).push(user@));
            Err(users)
        },
        Ok(Some(Err(error))) => Ok(Err(error)),
        Ok(None) => Ok(Ok(users)),
        Err(error) => Ok(Err(error)),
    }
}

/// A list of records that all have an identifier.
pub open spec fn all_stored(users: Seq<UserView>) -> bool {
    forall|i: int| 0 <= i < users.len() ==> (#[trigger] users[i]).id is Some
}

/// Reads the records in all rows that a statement still gives: it steps the
/// statement, reads the record where it came to a row, and lets `gather` say
/// what that means for the list.
fn read_users(statement: &mut sqlite::Statement) -> (users: Result<Vec<User>, StoreError>)
    ensures
        users matches Ok(users) ==> all_stored(views(users@)),
{
    let mut users: Vec<User> = Vec::new();
    while users.len() < usize::MAX
        invariant
            all_stored(views(users@)),
        decreases usize::MAX - users.len(),
    {
        let stepped = match step(statement) {
            Ok(Step::Row) => Ok(Some(read_user(statement))),
            Ok(Step::Done) => Ok(None),
            Err(_) => Err(StoreError::Failed),
        };
        let ghost before = views(users@);
        match gather(users, stepped) {
            Ok(answer) => {
                return answer;
            },
            Err(list) => {
                assert(all_stored(views(list@))) by {
                    assert forall|i: int| 0 <= i < views(list@).len() implies (
                    #[trigger] views(list@)[i]).id is Some by {
                        if i < before.len() {
                            assert(before[i].id is Some);
                        }
                    }
                }
                users = list;
            },
        }
    }
    Err(StoreError::Unreadable)
}

/// Has the store carry out a command: prepares its statement, binds each of
/// its parameters to its place as `bindings` gives them and runs it. A `SelectAll` answers the records
/// that the store hands out, in the order in which it hands them out, each
/// with its identifier; the other commands answer no record.
///
/// What the store holds decides the rest. A command that changes no record,
/// as an `Update` or `Delete` of an identifier that the store does not hold,
/// is no error. A text of more than `TEXT_LIMIT` bytes is rejected.
pub fn run(db: &sqlite::Connection, command: &Command) -> (answer: Result<Vec<User>, StoreError>)
    ensures
        answer matches Ok(users) ==> {
            &&& command !is SelectAll ==> users@.len() == 0
            &&& all_stored(views(users@))
        },
        command@.text_length() > TEXT_LIMIT ==> answer == Err::<Vec<User>, StoreError>(
            StoreError::Rejected,
        ),
{
    let mut statement = match prepare(db, command.sql()) {
        Ok(statement) => statement,
        Err(_) => {
            return Err(StoreError::Rejected);
        },
    };
    let bindings = command.bindings();
    let mut i: usize = 0;
    while i < bindings.len()
        invariant
            i <= bindings.len(),
            bindings@.len() == command@.parameters().len(),
            forall|k: int|
                0 <= k < bindings@.len() ==> (#[trigger] bindings@[k]).0 == k + 1 && bindings@[k].1@
                    == command@.parameters()[k],
            i == 0 || command@.text_length() <= TEXT_LIMIT,
        decreases bindings.len() - i,
    {
        proof {
            lemma_text_comes_first(command@);
        }
        let place = bindings[i].0;
        let bound = match &bindings[i].1 {
            Parameter::Text(text) => {
                if text.as_str().as_bytes().len() > TEXT_LIMIT {
                    return Err(StoreError::Rejected);
                }
                bind_text(&mut statement, place, text.as_str())
            },
            Parameter::Integer(number) => bind_integer(&mut statement, place, *number),
        };
        if bound.is_err() {
            return Err(StoreError::Rejected);
        }
        i += 1;
    }
    proof {
        lemma_text_comes_first(command@);
    }
    match command {
        Command::SelectAll => read_users(&mut statement),
        _ => match step(&mut statement) {
            Ok(_) => {
                let none: Vec<User> = Vec::new();
                assert(views(none@).len() == 0);
                Ok(none)
            },
            Err(_) => Err(StoreError::Failed),
        },
    }
}

} // verus!
