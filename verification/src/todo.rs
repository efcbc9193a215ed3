//! Todos and their rows in the database.

use vstd::prelude::*;
use crate::context::Context;
use crate::failure::{Failure, StoreError};
use crate::id::ID;
use crate::migrator::failing;
use crate::path::{path_from_title, spec_path};
use crate::sqlite::{execute, query_integer, query_todos, Param};
use crate::timestamp::TimeStamp;

verus! {

/// Inserts a todo with the bound title, path and opening time, and yields the
/// identifier it got.
pub const INSERT_TODO: &'static str =
    "
            INSERT INTO todos
                (title, path, opened)
            VALUES
                (?, ?, ?)
            RETURNING id;
            ";

/// Selects the todo with the bound identifier.
pub const SELECT_TODO: &'static str =
    "
            SELECT
                id,
                title,
                path,
                scheduled,
                deadline,
                opened,
                closed
            FROM todos
            WHERE id = ? LIMIT 1;
            ";

/// Selects every todo.
pub const SELECT_TODOS: &'static str =
    "
            SELECT
                id,
                title,
                path,
                scheduled,
                deadline,
                opened,
                closed
            FROM todos;
            ";

/// Overwrites the todo with the identifier bound last.
pub const UPDATE_TODO: &'static str =
    "
            UPDATE todos SET
                title = ?,
                path = ?,
                scheduled = ?,
                deadline = ?,
                opened = ?,
                closed = ?
            WHERE id = ?;
            ";

/// The kind of thing that a todo's identifier identifies.
#[derive(Debug, PartialEq, Eq, Clone, Copy)]
pub struct TodoTag {}

/// Something to do.
#[derive(Debug, PartialEq, Eq)]
pub struct Todo {
    pub id: ID<TodoTag>,
    pub title: String,
    pub path: String,
    pub scheduled: Option<TimeStamp>,
    pub deadline: Option<TimeStamp>,
    pub opened: TimeStamp,
    pub closed: Option<TimeStamp>,
}

/// A todo as plain values: what its row in the database holds.
pub struct TodoRow {
    pub id: i64,
    pub title: Seq<char>,
    pub path: Seq<char>,
    pub scheduled: Option<i64>,
    pub deadline: Option<i64>,
    pub opened: i64,
    pub closed: Option<i64>,
}

/// The seconds of a time that may be missing.
pub open spec fn spec_seconds(time: Option<TimeStamp>) -> Option<i64> {
    match time {
        Some(stamp) => Some(stamp@),
        None => None,
    }
}

/// The database value for a time that may be missing.
pub open spec fn spec_time_param(time: Option<TimeStamp>) -> Param {
    match time {
        Some(stamp) => Param::Integer(stamp@),
        None => Param::Null,
    }
}

/// The time that a nullable integer column holds.
pub fn time_of(seconds: Option<i64>) -> (time: Option<TimeStamp>)
    ensures
        spec_seconds(time) == seconds,
{
    match seconds {
        Some(s) => Some(TimeStamp::from_seconds(s)),
        None => None,
    }
}

/// The database value for a time that may be missing.
pub fn time_param(time: Option<TimeStamp>) -> (param: Param)
    ensures
        param == spec_time_param(time),
{
    match time {
        Some(stamp) => Param::Integer(stamp.seconds()),
        None => Param::Null,
    }
}

impl View for Todo {
    type V = TodoRow;

    open spec fn view(&self) -> TodoRow {
        TodoRow {
            id: self.id@,
            title: self.title@,
            path: self.path@,
            scheduled: spec_seconds(self.scheduled),
            deadline: spec_seconds(self.deadline),
            opened: self.opened@,
            closed: spec_seconds(self.closed),
        }
    }
}

impl Clone for Todo {
    /// A todo with the same row.
    fn clone(&self) -> (r: Todo)
        ensures
            r@ == self@,
    {
        Todo {
            id: self.id,
            title: self.title.clone(),
            path: self.path.clone(),
            scheduled: self.scheduled,
            deadline: self.deadline,
            opened: self.opened,
            closed: self.closed,
        }
    }
}

/// The first of the todos that a query found, if it found any.
pub fn first_found(found: Vec<Todo>) -> (r: Result<Todo, StoreError>)
    ensures
        found@.len() == 0 ==> r == Err::<Todo, StoreError>(StoreError::NotFound),
        found@.len() > 0 ==> r == Ok::<Todo, StoreError>(found@[0]),
{
    let mut found = found;
    if found.len() == 0 {
        Err(StoreError::NotFound)
    } else {
        Ok(found.remove(0))
    }
}

/// What a statement on todos yielded, a failure being a database error.
pub open spec fn spec_stored<T>(result: Result<T, Failure>) -> Result<T, StoreError> {
    match result {
        Ok(value) => Ok(value),
        Err(cause) => Err(StoreError::Database(cause)),
    }
}

/// What a statement on todos yielded, a failure being a database error.
pub fn stored<T>(result: Result<T, Failure>) -> (r: Result<T, StoreError>)
    ensures
        r == spec_stored(result),
{
    match result {
        Ok(value) => Ok(value),
        Err(cause) => Err(StoreError::Database(cause)),
    }
}

/// What a fetch by identifier makes of what its query yielded.
pub open spec fn spec_fetched(found: Result<Vec<Todo>, Failure>) -> Result<Todo, StoreError> {
    match found {
        Ok(rows) => if rows@.len() == 0 {
            Err(StoreError::NotFound)
        } else {
            Ok(rows@[0])
        },
        Err(cause) => Err(StoreError::Database(cause)),
    }
}

/// What a fetch by identifier makes of what its query yielded: the first row
/// found, `NotFound` when none was found, the failure as a database error.
pub fn fetched(found: Result<Vec<Todo>, Failure>) -> (r: Result<Todo, StoreError>)
    ensures
        r == spec_fetched(found),
{
    match found {
        Ok(rows) => first_found(rows),
        Err(cause) => Err(StoreError::Database(cause)),
    }
}

/// What an update makes of what its statement yielded: the number of rows
/// changed is dropped, the failure is a database error.
pub open spec fn spec_updated(changed: Result<usize, Failure>) -> Result<(), StoreError> {
    match changed {
        Ok(_) => Ok(()),
        Err(cause) => Err(StoreError::Database(cause)),
    }
}

/// What an update makes of what its statement yielded.
pub fn updated(changed: Result<usize, Failure>) -> (r: Result<(), StoreError>)
    ensures
        r == spec_updated(changed),
{
    match changed {
        Ok(_) => Ok(()),
        Err(cause) => Err(StoreError::Database(cause)),
    }
}

impl Todo {
    /// The todo that a row with these columns holds.
    pub fn from_columns(
        id: i64,
        title: String,
        path: String,
        scheduled: Option<i64>,
        deadline: Option<i64>,
        opened: i64,
        closed: Option<i64>,
    ) -> (todo: Todo)
        ensures
            todo@ == (TodoRow {
                id,
                title: title@,
                path: path@,
                scheduled,
                deadline,
                opened,
                closed,
            }),
    {
        Todo {
            id: ID::new(id),
            title,
            path,
            scheduled: time_of(scheduled),
            deadline: time_of(deadline),
            opened: TimeStamp::from_seconds(opened),
            closed: time_of(closed),
        }
    }

    /// A todo as it is when it has just been opened: kept under the path made
    /// from its title, neither scheduled nor due nor closed.
    pub fn opened_at(id: i64, title: String, opened: TimeStamp) -> (todo: Todo)
        ensures
            todo@ == (TodoRow {
                id,
                title: title@,
                path: spec_path(title@),
                scheduled: None,
                deadline: None,
                opened: opened@,
                closed: None,
            }),
    {
        let path = path_from_title(title.as_str());
        Todo { id: ID::new(id), title, path, scheduled: None, deadline: None, opened, closed: None }
    }

    /// The values that an update binds, in the order of its placeholders: the
    /// six columns that can change, then the identifier.
    pub fn update_params(&self) -> (params: Vec<Param>)
        ensures
            params@.len() == 7,
            params@[0] matches Param::Text(title) && title@ == self@.title,
            params@[1] matches Param::Text(path) && path@ == self@.path,
            params@[2] == spec_time_param(self.scheduled),
            params@[3] == spec_time_param(self.deadline),
            params@[4] == Param::Integer(self@.opened),
            params@[5] == spec_time_param(self.closed),
            params@[6] == Param::Integer(self@.id),
    {
        let mut params: Vec<Param> = Vec::new();
        params.push(Param::Text(self.title.clone()));
        params.push(Param::Text(self.path.clone()));
        params.push(time_param(self.scheduled));
        params.push(time_param(self.deadline));
        params.push(Param::Integer(self.opened.seconds()));
        params.push(time_param(self.closed));
        params.push(Param::Integer(self.id.value()));
        params
    }

    /// The values that an insert binds: title, path and opening time.
    pub fn insert_params(title: &String, opened: TimeStamp) -> (params: Vec<Param>)
        ensures
            params@.len() == 3,
            params@[0] matches Param::Text(text) && text@ == title@,
            params@[1] matches Param::Text(path) && path@ == spec_path(title@),
            params@[2] == Param::Integer(opened@),
    {
        let mut params: Vec<Param> = Vec::new();
        params.push(Param::Text(title.clone()));
        params.push(Param::Text(path_from_title(title.as_str())));
        params.push(Param::Integer(opened.seconds()));
        params
    }

    /// Opens a todo with this title now and stores it. The database chooses
    /// the identifier.
    pub fn create(context: &Context, title: String) -> (r: Result<Todo, StoreError>)
        ensures
            match r {
                Ok(todo) => {
                    &&& todo@.title == title@
                    &&& todo@.path == spec_path(title@)
                    &&& todo@.scheduled is None
                    &&& todo@.deadline is None
                    &&& todo@.closed is None
                    &&& todo@.opened >= 0
                },
                Err(error) => error is Database,
            },
    {
        let opened = TimeStamp::now();
        let params = Todo::insert_params(&title, opened);
        match stored(failing(query_integer(&context.db, INSERT_TODO, &params))) {
            Ok(id) => Ok(Todo::opened_at(id, title, opened)),
            Err(error) => Err(error),
        }
    }

    /// Fetches the todo with this identifier.
    pub fn fetch(context: &Context, id: ID<TodoTag>) -> (r: Result<Todo, StoreError>) {
        let mut params: Vec<Param> = Vec::new();
        params.push(Param::Integer(id.value()));
        fetched(failing(query_todos(&context.db, SELECT_TODO, &params)))
    }

    /// Fetches every todo, in the order in which the database hands them out.
    pub fn fetch_all(context: &Context) -> (r: Result<Vec<Todo>, StoreError>)
        ensures
            r matches Err(error) ==> error is Database,
    {
        stored(failing(query_todos(&context.db, SELECT_TODOS, &Vec::new())))
    }

    /// Overwrites the stored todo that has this one's identifier with this one.
    pub fn update(&self, context: &Context) -> (r: Result<(), StoreError>)
        ensures
            r matches Err(error) ==> error is Database,
    {
        let params = self.update_params();
        updated(failing(execute(&context.db, UPDATE_TODO, &params)))
    }
}

} // verus!
