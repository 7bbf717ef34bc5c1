//! The store of the program model that keeps whole programs under one name:
//! the connection with its four tables, and the stored row, which is the
//! primary key of a record together with the record.

use vstd::prelude::*;
use crate::database::error::DatabaseError;
use crate::database::rules::store_answer;
use crate::database::sqlite::open_connection;
use crate::database::store::{execute, store_failed};

verus! {

/// The statement that creates the table of programs where it is missing.
pub fn programs_table() -> (r: &'static str)
    ensures
        r@ == "CREATE TABLE IF NOT EXISTS Programs (id INTEGER PRIMARY KEY AUTOINCREMENT, name TEXT, description TEXT)"@,
{
    "CREATE TABLE IF NOT EXISTS Programs (id INTEGER PRIMARY KEY AUTOINCREMENT, name TEXT, description TEXT)"
}

/// The statement that creates the table of steps where it is missing.
pub fn steps_table() -> (r: &'static str)
    ensures
        r@ == "CREATE TABLE IF NOT EXISTS Steps (id INTEGER PRIMARY KEY AUTOINCREMENT, program_id INTEGER, step_no INTEGER, target REAL, ramp_rate REAL, hold_time INTEGER)"@,
{
    "CREATE TABLE IF NOT EXISTS Steps (id INTEGER PRIMARY KEY AUTOINCREMENT, program_id INTEGER, step_no INTEGER, target REAL, ramp_rate REAL, hold_time INTEGER)"
}

/// The statement that creates the table of projects where it is missing.
pub fn projects_table() -> (r: &'static str)
    ensures
        r@ == "CREATE TABLE IF NOT EXISTS Projects (id INTEGER PRIMARY KEY AUTOINCREMENT, name TEXT, description TEXT, program_id INTEGER)"@,
{
    "CREATE TABLE IF NOT EXISTS Projects (id INTEGER PRIMARY KEY AUTOINCREMENT, name TEXT, description TEXT, program_id INTEGER)"
}

/// The statement that creates the table of images where it is missing.
pub fn images_table() -> (r: &'static str)
    ensures
        r@ == "CREATE TABLE IF NOT EXISTS Images (id INTEGER PRIMARY KEY AUTOINCREMENT, project_id INTEGER, path TEXT)"@,
{
    "CREATE TABLE IF NOT EXISTS Images (id INTEGER PRIMARY KEY AUTOINCREMENT, project_id INTEGER, path TEXT)"
}

/// A connection to a store of programs. Opening one creates the tables
/// `Programs`, `Steps`, `Projects` and `Images` where they are missing.
pub struct Database {
    pub connection: rusqlite::Connection,
}

impl Database {
    /// Creates the table of programs. The only refusal is a failure of the
    /// store.
    fn create_programs(connection: &rusqlite::Connection) -> (r: Result<(), DatabaseError>)
        ensures
            r is Err ==> store_failed(r->Err_0@),
    {
        execute(connection, programs_table())?;
        Ok(())
    }

    /// Creates the table of steps. The only refusal is a failure of the
    /// store.
    fn create_steps(connection: &rusqlite::Connection) -> (r: Result<(), DatabaseError>)
        ensures
            r is Err ==> store_failed(r->Err_0@),
    {
        execute(connection, steps_table())?;
        Ok(())
    }

    /// Creates the table of projects. The only refusal is a failure of the
    /// store.
    fn create_projects(connection: &rusqlite::Connection) -> (r: Result<(), DatabaseError>)
        ensures
            r is Err ==> store_failed(r->Err_0@),
    {
        execute(connection, projects_table())?;
        Ok(())
    }

    /// Creates the table of images. The only refusal is a failure of the
    /// store.
    fn create_images(connection: &rusqlite::Connection) -> (r: Result<(), DatabaseError>)
        ensures
            r is Err ==> store_failed(r->Err_0@),
    {
        execute(connection, images_table())?;
        Ok(())
    }

    /// Opens the connection and creates the four tables in turn; the first
    /// statement that the store refuses ends the attempt. The only refusal
    /// is a failure of the store.
    fn open(filename: &str) -> (r: Result<rusqlite::Connection, DatabaseError>)
        ensures
            r is Err ==> store_failed(r->Err_0@),
    {
        let connection = store_answer(open_connection(filename))?;

        Self::create_programs(&connection)?;
        Self::create_steps(&connection)?;
        Self::create_projects(&connection)?;
        Self::create_images(&connection)?;

        Ok(connection)
    }

    /// Opens the store in the file `filename`. On success the database holds
    /// the connection that was opened; otherwise the failure is returned as
    /// the driver reported it.
    pub fn new(filename: &str) -> (r: Result<Database, rusqlite::Error>) {
        match Self::open(filename) {
            Ok(connection) => Ok(Database { connection }),
            Err(DatabaseError::SqlError(failure)) => Err(failure),
            Err(_) => unreached(),
        }
    }
}

/// A record of type `T` paired with the primary key it is stored under.
#[derive(Debug)]
pub struct Row<T> where T: Clone {
    id: u32,
    row: T,
}

impl<T> Clone for Row<T> where T: Clone {
    fn clone(&self) -> (r: Row<T>)
        ensures
            r.key() == self.key(),
            cloned(self.record(), r.record()),
    {
        Row { id: self.id, row: self.row.clone() }
    }
}

impl<T> Row<T> where T: Clone {
    /// The primary key of this row, for contracts to speak of.
    pub closed spec fn key(&self) -> u32 {
        self.id
    }

    /// The record of this row, for contracts to speak of.
    pub closed spec fn record(&self) -> T {
        self.row
    }

    /// Pairs `row` with the key `id`.
    pub fn new(id: u32, row: T) -> (r: Row<T>)
        ensures
            r.key() == id,
            r.record() == row,
    {
        Row { id, row }
    }

    /// The primary key.
    pub fn id(&self) -> (r: u32)
        ensures
            r == self.key(),
    {
        self.id
    }

    /// A clone of the record.
    #[allow(non_snake_case)]
    pub fn Contents(&self) -> (r: T)
        ensures
            cloned(self.record(), r),
    {
        self.row.clone()
    }
}

} // verus!
