//! A todo list kept in SQLite: items with a title, description, priority,
//! order and tags, a trash that deleted items go to and come back from, and
//! the state the application shows.
use vstd::prelude::*;

pub mod app_state;
pub mod clock;
pub mod database;
pub mod error;
pub mod requests;
pub mod sqlite;
pub mod statements;
pub mod text;
pub mod todo;
