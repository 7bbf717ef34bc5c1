//! The store handle: schema, reconstitution of aggregates and the mutation
//! engine, over one SQLite connection.
//!
//! What the store answers depends on what it holds, and another writer may
//! change that between any two statements. So no function here can promise
//! success, and each is built of three parts that are fixed apart from it.
//! What it hands to the store is made by the functions of
//! [`crate::database::statements`], whose contracts spell out each statement
//! and the values bound to it, in their order; one loop here binds a list of
//! values in that order and one reads the columns of a row in theirs. What
//! follows from each answer of the store is decided by the functions of
//! [`crate::database::rules`] and [`crate::database::rows`], whose contracts
//! are exact. And its own contract says what holds whatever the store
//! answered: which refusals can come out and what they carry, and what a
//! returned aggregate is guaranteed to look like.

use vstd::prelude::*;
use crate::database::entities::{FiringStep, Kiln};
use crate::database::error::{DatabaseError, DatabaseErrorView};
use crate::database::laws::{
    lemma_images_keep_their_bytes, lemma_program_of_rows_is_consistent,
};
use crate::database::lexical::{ascending, sort_texts, text_views};
use crate::database::program::{same_settings, step_views, KilnProgram};
use crate::database::project::KilnProject;
use crate::database::rows::{
    attach_firing, count_from_first, firing_row_from_values, firings_stand_for,
    header_row_from_first, header_row_view, image_row_from_values, images_from_rows,
    kiln_from_row, name_from_values, named_row_from_first, program_from_answer,
    program_of_insert, program_of_rows, project_from_row, project_of_insert, row_or_refusal,
    step_of_insert, step_row_from_values, FiringRow, HeaderRow, ImageRow, NamedRow, StepRow,
};
use crate::database::rules::{
    check_project, column_answer, replacement_target, resolve_kiln, resolve_program,
    resolve_project, store_answer, unique_name,
};
use crate::database::sqlite::{
    begin, bind_blob, bind_integer, bind_text, bind_unsigned, column_blob, column_integer,
    column_text, column_unsigned, commit, connection_of, last_rowid, next_row, open_connection,
    prepare, rows_of, run,
};
use crate::database::statements::{
    count_kilns_named, count_kinds, count_programs_named, count_programs_values,
    count_projects_named, delete_steps, firing_row_kinds, firings_of_project, header_by_names,
    header_row_kinds, header_values, id_values, image_row_kinds, images_of_project,
    insert_firing, insert_firing_values, insert_image, insert_image_values, insert_kiln,
    insert_kiln_values, insert_program, insert_program_values, insert_project,
    insert_project_values, insert_step, insert_step_values, kiln_by_name, kiln_names,
    name_kinds, name_values, named_row_kinds, program_names_of_kiln, project_by_name,
    schema_statement, step_row_kinds, steps_of_sequence,
};
use crate::database::values::{kinds_of, value_views, SqlKind, SqlValue};
use rusqlite::Row as SqlRow;

verus! {

/// A refusal that reports a failure of the store itself.
pub open spec fn store_failed(error: DatabaseErrorView) -> bool {
    error is SqlError
}

/// A refusal that reports a row which is no `entity`.
pub open spec fn row_failed(error: DatabaseErrorView, entity: Seq<char>) -> bool {
    error == DatabaseErrorView::FailedDeserialization(entity)
}

/// A refusal that can come out of reading a program: the store failed, or a
/// row was no kiln, no program header or no step.
pub open spec fn program_read_failed(error: DatabaseErrorView) -> bool {
    ||| store_failed(error)
    ||| row_failed(error, "Kiln"@)
    ||| row_failed(error, "FiringSequence"@)
    ||| row_failed(error, "FiringStep"@)
}

/// A refusal that can come out of reading a project: what can come out of
/// reading one of its programs, a row that was no project, no firing link or
/// no image, or a firing whose program does not resolve.
pub open spec fn project_read_failed(error: DatabaseErrorView) -> bool {
    ||| program_read_failed(error)
    ||| row_failed(error, "Project"@)
    ||| row_failed(error, "ProjectFiringSteps"@)
    ||| row_failed(error, "ProjectImage"@)
    ||| error is NoSuchProgram
}

/// A handle to a kiln database.
pub struct KilnDatabase {
    db: rusqlite::Connection,
}

/// Runs one statement that takes no parameters and returns no rows. The only
/// refusal is a failure of the store.
pub(crate) fn execute(db: &rusqlite::Connection, sql: &str) -> (r: Result<(), DatabaseError>)
    ensures
        r is Err ==> store_failed(r->Err_0@),
{
    let mut stmt = store_answer(prepare(db, sql))?;
    store_answer(run(&mut stmt))?;
    Ok(())
}

/// Binds `values` to the parameters of `stmt` in their order: the value at
/// position `i` of the list goes to the parameter numbered `i + 1`. With no
/// value to bind nothing is asked of the store. The only refusal is a
/// failure of the store.
fn bind_values(stmt: &mut rusqlite::Statement<'_>, values: &Vec<SqlValue>) -> (r: Result<
    (),
    DatabaseError,
>)
    ensures
        values@.len() == 0 ==> r is Ok,
        r is Err ==> store_failed(r->Err_0@),
{
    let mut i: usize = 0;
    while i < values.len()
        invariant
            i <= values.len(),
        decreases values.len() - i,
    {
        let parameter = i + 1;
        match &values[i] {
            SqlValue::Text(text) => {
                store_answer(bind_text(stmt, parameter, text.as_str()))?;
            },
            SqlValue::Unsigned(number) => {
                store_answer(bind_unsigned(stmt, parameter, *number))?;
            },
            SqlValue::Integer(number) => {
                store_answer(bind_integer(stmt, parameter, *number))?;
            },
            SqlValue::Blob(bytes) => {
                store_answer(bind_blob(stmt, parameter, bytes))?;
            },
        }
        i += 1;
    }
    Ok(())
}

/// Prepares `sql` on `db` and binds `values` to its parameters in their
/// order. The only refusal is a failure of the store.
fn prepared<'a>(db: &'a rusqlite::Connection, sql: &str, values: &Vec<SqlValue>) -> (r: Result<
    rusqlite::Statement<'a>,
    DatabaseError,
>)
    ensures
        r is Err ==> store_failed(r->Err_0@),
{
    let mut stmt = store_answer(prepare(db, sql))?;
    bind_values(&mut stmt, values)?;
    Ok(stmt)
}

/// Reads the columns of `row` in their order, the column at position `i` as
/// a value of the kind at position `i` of `kinds`. The values that come back
/// are as many as the kinds and of those kinds; a column that cannot be read
/// as its kind means that the row is no `entity`.
fn read_values(row: &SqlRow<'_>, kinds: &Vec<SqlKind>, entity: &str) -> (r: Result<
    Vec<SqlValue>,
    DatabaseError,
>)
    ensures
        kinds@.len() == 0 ==> r is Ok,
        r matches Ok(values) ==> kinds_of(value_views(values@)) == kinds@,
        r is Err ==> row_failed(r->Err_0@, entity@),
{
    let mut values: Vec<SqlValue> = Vec::new();
    let mut i: usize = 0;
    while i < kinds.len()
        invariant
            i <= kinds.len(),
            values@.len() == i,
            forall|k: int| 0 <= k < i ==> (#[trigger] values@[k])@.kind() == kinds@[k],
        decreases kinds.len() - i,
    {
        let value = match kinds[i] {
            SqlKind::Text => SqlValue::Text(column_answer(column_text(row, i), entity)?),
            SqlKind::Unsigned => SqlValue::Unsigned(
                column_answer(column_unsigned(row, i), entity)?,
            ),
            SqlKind::Integer => SqlValue::Integer(
                column_answer(column_integer(row, i), entity)?,
            ),
            SqlKind::Blob => SqlValue::Blob(column_answer(column_blob(row, i), entity)?),
        };
        values.push(value);
        i += 1;
    }
    assert(kinds_of(value_views(values@)) =~= kinds@);
    Ok(values)
}

/// Runs a prepared query and reads its first row, if it yields one, as
/// values of `kinds`.
fn first_of(stmt: &mut rusqlite::Statement<'_>, kinds: &Vec<SqlKind>, entity: &str) -> (r: Result<
    Option<Vec<SqlValue>>,
    DatabaseError,
>)
    ensures
        r is Err ==> store_failed(r->Err_0@) || row_failed(r->Err_0@, entity@),
{
    let mut rows = rows_of(stmt);
    let first = match store_answer(next_row(&mut rows))? {
        Some(row) => Some(read_values(row, kinds, entity)?),
        None => None,
    };
    Ok(first)
}

/// Runs a prepared query whose single result is a count. A query that
/// yields no row counted nothing.
fn count_of(stmt: &mut rusqlite::Statement<'_>, entity: &str) -> (r: Result<u64, DatabaseError>)
    ensures
        r is Err ==> store_failed(r->Err_0@) || row_failed(r->Err_0@, entity@),
{
    let first = first_of(stmt, &count_kinds(), entity)?;
    count_from_first(&first, entity)
}

/// Runs a prepared lookup by name and reads the id and the description of
/// the first row that the store yields, if it yields one.
fn named_row_of(stmt: &mut rusqlite::Statement<'_>, entity: &str) -> (r: Result<
    Option<NamedRow>,
    DatabaseError,
>)
    ensures
        r is Err ==> store_failed(r->Err_0@) || row_failed(r->Err_0@, entity@),
{
    let first = first_of(stmt, &named_row_kinds(), entity)?;
    named_row_from_first(&first, entity)
}

/// Runs a prepared query and collects the text in the one column of every
/// row, in the order in which the store yields the rows.
fn texts_of(stmt: &mut rusqlite::Statement<'_>, entity: &str) -> (r: Result<
    Vec<String>,
    DatabaseError,
>)
    ensures
        r is Err ==> store_failed(r->Err_0@) || row_failed(r->Err_0@, entity@),
{
    let kinds = name_kinds();
    let mut rows = rows_of(stmt);
    let mut texts: Vec<String> = Vec::new();
    while texts.len() < usize::MAX
        decreases usize::MAX - texts.len(),
    {
        match store_answer(next_row(&mut rows))? {
            None => {
                return Ok(texts);
            },
            Some(row) => {
                let values = read_values(row, &kinds, entity)?;
                let text = row_or_refusal(name_from_values(&values), entity)?;
                texts.push(text);
            },
        }
    }
    Ok(texts)
}

impl KilnDatabase {
    /// Creates each of the six tables unless it is there already: the six
    /// statements of [`schema_statement`] are run in their order, and the
    /// first that the store refuses ends the attempt. The only refusal is a
    /// failure of the store.
    fn make_schema(db: &rusqlite::Connection) -> (r: Result<(), DatabaseError>)
        ensures
            r is Err ==> store_failed(r->Err_0@),
    {
        let mut index: usize = 0;
        while index < 6
            invariant
                index <= 6,
            decreases 6 - index,
        {
            match schema_statement(index) {
                Some(statement) => {
                    execute(db, statement)?;
                },
                None => {},
            }
            index += 1;
        }
        Ok(())
    }

    /// Opens the store at `path`, creating it and its tables where they are
    /// missing. The only refusal is a failure of the store.
    pub fn new(path: &str) -> (r: Result<KilnDatabase, DatabaseError>)
        ensures
            r is Err ==> store_failed(r->Err_0@),
    {
        let db = store_answer(open_connection(path))?;
        Self::make_schema(&db)?;
        Ok(KilnDatabase { db })
    }

    /// The connection that the handle works on, for contracts to speak of. It
    /// stands for the open connection and not for what the store holds: a
    /// write leaves it as it was.
    pub closed spec fn handle(&self) -> rusqlite::Connection {
        self.db
    }

    /// The connection that the handle works on.
    pub fn connection(&self) -> (r: &rusqlite::Connection)
        ensures
            *r == self.handle(),
    {
        &self.db
    }

    /// The row that the store yields for the kiln called `name`, if it
    /// yields one.
    fn get_kiln_row(&self, name: &str) -> (r: Result<Option<NamedRow>, DatabaseError>)
        ensures
            r is Err ==> store_failed(r->Err_0@) || row_failed(r->Err_0@, "Kiln"@),
    {
        let mut stmt = prepared(&self.db, kiln_by_name(), &name_values(name))?;
        named_row_of(&mut stmt, "Kiln")
    }

    /// Looks a kiln up by its exact name. `None` means that no kiln carries
    /// the name. A kiln that is returned carries the name that was asked for.
    pub fn get_kiln(&self, name: &str) -> (r: Result<Option<Kiln>, DatabaseError>)
        ensures
            r matches Ok(Some(kiln)) ==> kiln@.name == name@,
            r is Err ==> store_failed(r->Err_0@) || row_failed(r->Err_0@, "Kiln"@),
    {
        let row = self.get_kiln_row(name)?;
        Ok(kiln_from_row(name, &row))
    }

    /// The names of all kilns in ascending order. A store without kilns
    /// gives the empty list. The store is asked for the names in order, and
    /// the order of the list does not rest on that: the names are put in
    /// order here wherever the store did not.
    pub fn list_kilns(&self) -> (r: Result<Vec<String>, DatabaseError>)
        ensures
            r matches Ok(names) ==> ascending(text_views(names@)),
            r is Err ==> store_failed(r->Err_0@) || row_failed(r->Err_0@, "Kiln"@),
    {
        let mut stmt = prepared(&self.db, kiln_names(), &Vec::new())?;
        let names = texts_of(&mut stmt, "Kiln")?;
        Ok(sort_texts(names))
    }

    /// How many kilns the store counts under `name`.
    fn count_kilns(&self, name: &str) -> (r: Result<u64, DatabaseError>)
        ensures
            r is Err ==> store_failed(r->Err_0@) || row_failed(r->Err_0@, "Kiln"@),
    {
        let mut stmt = prepared(&self.db, count_kilns_named(), &name_values(name))?;
        count_of(&mut stmt, "Kiln")
    }

    /// Adds a kiln. The name must be free: when the store counts a kiln
    /// under it, the kiln is refused as a duplicate and nothing is written.
    pub fn add_kiln(&mut self, name: &str, description: &str) -> (r: Result<(), DatabaseError>)
        ensures
            final(self).handle() == old(self).handle(),
            r is Err ==> store_failed(r->Err_0@) || row_failed(r->Err_0@, "Kiln"@) || r->Err_0@
                == DatabaseErrorView::DuplicateName(name@),
    {
        let count = self.count_kilns(name)?;
        unique_name(count, name)?;
        let mut stmt = prepared(&self.db, insert_kiln(), &insert_kiln_values(name, description))?;
        store_answer(run(&mut stmt))?;
        Ok(())
    }

    /// The names of the programs of the kiln called `kiln_name` in ascending
    /// order. A kiln without programs gives the empty list, and so does a
    /// name that no kiln carries. The store is asked for the names in order,
    /// and the names are put in order here wherever the store did not.
    pub fn list_programs(&self, kiln_name: &str) -> (r: Result<Vec<String>, DatabaseError>)
        ensures
            r matches Ok(names) ==> ascending(text_views(names@)),
            r is Err ==> store_failed(r->Err_0@) || row_failed(r->Err_0@, "FiringSequence"@),
    {
        let mut stmt = prepared(&self.db, program_names_of_kiln(), &name_values(kiln_name))?;
        let names = texts_of(&mut stmt, "FiringSequence")?;
        Ok(sort_texts(names))
    }

    /// The row that the join of kilns and programs yields for the program
    /// called `program_name` on the kiln called `kiln_name`, if it yields
    /// one.
    fn get_header_row(&self, kiln_name: &str, program_name: &str) -> (r: Result<
        Option<HeaderRow>,
        DatabaseError,
    >)
        ensures
            r is Err ==> store_failed(r->Err_0@) || row_failed(r->Err_0@, "FiringSequence"@),
    {
        let mut stmt = prepared(
            &self.db,
            header_by_names(),
            &header_values(kiln_name, program_name),
        )?;
        let first = first_of(&mut stmt, &header_row_kinds(), "FiringSequence")?;
        header_row_from_first(&first)
    }

    /// The rows of the steps stored for the header `sequence_id`, in
    /// ascending order of their ids as the store yields them.
    fn get_step_rows(&self, sequence_id: u64) -> (r: Result<Vec<StepRow>, DatabaseError>)
        ensures
            r is Err ==> store_failed(r->Err_0@) || row_failed(r->Err_0@, "FiringStep"@),
    {
        let mut stmt = prepared(&self.db, steps_of_sequence(), &id_values(sequence_id))?;
        let kinds = step_row_kinds();
        let mut rows = rows_of(&mut stmt);
        let mut steps: Vec<StepRow> = Vec::new();
        while steps.len() < usize::MAX
            decreases usize::MAX - steps.len(),
        {
            match store_answer(next_row(&mut rows))? {
                None => {
                    return Ok(steps);
                },
                Some(row) => {
                    let values = read_values(row, &kinds, "FiringStep")?;
                    let step = row_or_refusal(step_row_from_values(&values), "FiringStep")?;
                    steps.push(step);
                },
            }
        }
        Ok(steps)
    }

    /// Looks a program up by the exact names of its kiln and of itself, and
    /// reads its steps in a second query. `None` means that the pair of names
    /// resolves to no program. A program that is returned carries the names
    /// that were asked for, its header belongs to its kiln and each of its
    /// steps belongs to its header.
    pub fn get_program(&self, kiln_name: &str, program_name: &str) -> (r: Result<
        Option<KilnProgram>,
        DatabaseError,
    >)
        ensures
            r matches Ok(Some(program)) ==> program@.kiln.name == kiln_name@
                && program@.sequence.name == program_name@ && program@.consistent(),
            r is Err ==> program_read_failed(r->Err_0@),
    {
        let header = self.get_header_row(kiln_name, program_name)?;
        let rows = match &header {
            Some(header) => self.get_step_rows(header.sequence_id)?,
            None => Vec::new(),
        };
        proof {
            if header is Some {
                let answer = header_row_view(header)->Some_0;
                if program_of_rows(kiln_name@, program_name@, answer, rows@) is Some {
                    lemma_program_of_rows_is_consistent(
                        kiln_name@,
                        program_name@,
                        answer,
                        rows@,
                    );
                }
            }
        }
        program_from_answer(kiln_name, program_name, &header, &rows)
    }

    /// How many programs the store counts under `program_name` on the kiln
    /// with the id `kiln_id`.
    fn count_programs(&self, kiln_id: u64, program_name: &str) -> (r: Result<u64, DatabaseError>)
        ensures
            r is Err ==> store_failed(r->Err_0@) || row_failed(r->Err_0@, "FiringSequence"@),
    {
        let mut stmt = prepared(
            &self.db,
            count_programs_named(),
            &count_programs_values(kiln_id, program_name),
        )?;
        count_of(&mut stmt, "FiringSequence")
    }

    /// Adds a program without steps to the kiln called `kiln_name`. The kiln
    /// must exist and the program's name must be free on that kiln. The
    /// program that is returned is empty, carries what was asked for and is
    /// bound to the kiln as stored and to the id that the store assigned.
    pub fn add_program(&mut self, kiln_name: &str, program_name: &str, description: &str) -> (r:
        Result<KilnProgram, DatabaseError>)
        ensures
            final(self).handle() == old(self).handle(),
            r matches Ok(program) ==> program@.kiln.name == kiln_name@ && program@.sequence.name
                == program_name@ && program@.sequence.description == description@
                && program@.steps.len() == 0 && program@.consistent(),
            r is Err ==> store_failed(r->Err_0@) || row_failed(r->Err_0@, "Kiln"@) || row_failed(
                r->Err_0@,
                "FiringSequence"@,
            ) || r->Err_0@ == DatabaseErrorView::NoSuchName(kiln_name@) || r->Err_0@
                == DatabaseErrorView::DuplicateName(program_name@),
    {
        let kiln = resolve_kiln(self.get_kiln(kiln_name)?, kiln_name)?;
        let count = self.count_programs(kiln.id(), program_name)?;
        unique_name(count, program_name)?;
        let mut stmt = prepared(
            &self.db,
            insert_program(),
            &insert_program_values(program_name, description, kiln.id()),
        )?;
        store_answer(run(&mut stmt))?;
        program_of_insert(kiln, last_rowid(&self.db), program_name, description)
    }

    /// Replaces the steps of a stored program, inside a transaction that the
    /// caller has opened on `db`: every stored step of the program goes, and
    /// each step of `steps` is written in order under an id that the store
    /// assigns. The program that is returned has the stored header and the
    /// settings of `steps` in their order, each under its new id.
    fn replace_steps(
        db: &rusqlite::Connection,
        stored: &KilnProgram,
        steps: &Vec<FiringStep>,
    ) -> (r: Result<KilnProgram, DatabaseError>)
        ensures
            r matches Ok(fresh) ==> fresh@.same_header(stored@) && same_settings(
                fresh@.steps,
                step_views(steps@),
            ) && forall|i: int|
                0 <= i < fresh@.steps.len() ==> (#[trigger] fresh@.steps[i]).sequence_id
                    == stored@.sequence.id,
            r is Err ==> store_failed(r->Err_0@) || row_failed(r->Err_0@, "FiringStep"@),
    {
        let sequence_id = stored.sequence_id();
        let mut wipe = prepared(db, delete_steps(), &id_values(sequence_id))?;
        store_answer(run(&mut wipe))?;
        let mut write = store_answer(prepare(db, insert_step()))?;
        let mut fresh = KilnProgram::new(stored.owner(), stored.sequence());
        let mut i: usize = 0;
        while i < steps.len()
            invariant
                i <= steps.len(),
                sequence_id == stored@.sequence.id,
                fresh@.same_header(stored@),
                fresh@.steps.len() == i,
                forall|k: int|
                    0 <= k < i ==> (#[trigger] fresh@.steps[k]).settings()
                        == steps@[k]@.settings(),
                forall|k: int|
                    0 <= k < i ==> (#[trigger] fresh@.steps[k]).sequence_id == sequence_id,
            decreases steps.len() - i,
        {
            let step = steps[i];
            bind_values(&mut write, &insert_step_values(sequence_id, &step))?;
            store_answer(run(&mut write))?;
            fresh.add_step(step_of_insert(&step, last_rowid(db), sequence_id)?);
            i += 1;
        }
        Ok(fresh)
    }

    /// Replaces the steps of the program called `program_name` on the kiln
    /// called `kiln_name` by the steps of `program`, all or nothing.
    ///
    /// The stored program is read again first. When the names resolve to no
    /// program the call is refused with the pair of names; when the kiln or
    /// the header that `program` carries differs from the stored one in any
    /// field, it is refused with the names of the stored program. Otherwise
    /// the steps are replaced inside one transaction, which is rolled back
    /// when any statement fails.
    ///
    /// The program that is returned is the stored one as committed: the
    /// header that the caller held, and the caller's steps in their order,
    /// each under the id that the store assigned.
    pub fn update_program(
        &mut self,
        kiln_name: &str,
        program_name: &str,
        program: &KilnProgram,
    ) -> (r: Result<KilnProgram, DatabaseError>)
        ensures
            r matches Ok(fresh) ==> fresh@.same_header(program@) && fresh@.kiln.name == kiln_name@
                && fresh@.sequence.name == program_name@ && fresh@.consistent() && same_settings(
                fresh@.steps,
                program@.steps,
            ),
            r is Err ==> program_read_failed(r->Err_0@) || r->Err_0@
                == DatabaseErrorView::NoSuchProgram(kiln_name@, program_name@) || r->Err_0@
                == DatabaseErrorView::InconsistentProgram(kiln_name@, program_name@),
    {
        let found = self.get_program(kiln_name, program_name)?;
        let stored = replacement_target(found, program, kiln_name, program_name)?;
        let steps = program.steps();
        let transaction = store_answer(begin(&mut self.db))?;
        let fresh = Self::replace_steps(connection_of(&transaction), &stored, &steps)?;
        store_answer(commit(transaction))?;
        Ok(fresh)
    }

    /// How many projects the store counts under `name`.
    fn count_projects(&self, name: &str) -> (r: Result<u64, DatabaseError>)
        ensures
            r is Err ==> store_failed(r->Err_0@) || row_failed(r->Err_0@, "Project"@),
    {
        let mut stmt = prepared(&self.db, count_projects_named(), &name_values(name))?;
        count_of(&mut stmt, "Project")
    }

    /// Adds a project. The name must be free: when the store counts a
    /// project under it, the project is refused as a duplicate and nothing is
    /// written. The project that is returned has no firings and no pictures,
    /// carries what was asked for and the id that the store assigned.
    pub fn add_project(&mut self, name: &str, description: &str) -> (r: Result<
        KilnProject,
        DatabaseError,
    >)
        ensures
            final(self).handle() == old(self).handle(),
            r matches Ok(project) ==> project@.project.name == name@
                && project@.project.description == description@ && project@.firings.len() == 0
                && project@.pictures.len() == 0 && project@.consistent(),
            r is Err ==> store_failed(r->Err_0@) || row_failed(r->Err_0@, "Project"@) || r->Err_0@
                == DatabaseErrorView::DuplicateName(name@),
    {
        let count = self.count_projects(name)?;
        unique_name(count, name)?;
        let mut stmt = prepared(
            &self.db,
            insert_project(),
            &insert_project_values(name, description),
        )?;
        store_answer(run(&mut stmt))?;
        project_of_insert(last_rowid(&self.db), name, description)
    }

    /// The row that the store yields for the project called `name`, if it
    /// yields one.
    fn get_project_row(&self, name: &str) -> (r: Result<Option<NamedRow>, DatabaseError>)
        ensures
            r is Err ==> store_failed(r->Err_0@) || row_failed(r->Err_0@, "Project"@),
    {
        let mut stmt = prepared(&self.db, project_by_name(), &name_values(name))?;
        named_row_of(&mut stmt, "Project")
    }

    /// The firings linked to the project with the id `project_id`, each as
    /// the name of its kiln, the name of its program and its comment, in
    /// ascending order of the programs' ids as the store yields them.
    fn get_firing_rows(&self, project_id: u64) -> (r: Result<Vec<FiringRow>, DatabaseError>)
        ensures
            r is Err ==> store_failed(r->Err_0@) || row_failed(
                r->Err_0@,
                "ProjectFiringSteps"@,
            ),
    {
        let mut stmt = prepared(&self.db, firings_of_project(), &id_values(project_id))?;
        let kinds = firing_row_kinds();
        let mut rows = rows_of(&mut stmt);
        let mut firings: Vec<FiringRow> = Vec::new();
        while firings.len() < usize::MAX
            decreases usize::MAX - firings.len(),
        {
            match store_answer(next_row(&mut rows))? {
                None => {
                    return Ok(firings);
                },
                Some(row) => {
                    let values = read_values(row, &kinds, "ProjectFiringSteps")?;
                    let firing = row_or_refusal(
                        firing_row_from_values(&values),
                        "ProjectFiringSteps",
                    )?;
                    firings.push(firing);
                },
            }
        }
        Ok(firings)
    }

    /// The rows of the images stored for the project with the id
    /// `project_id`, in ascending order of their ids as the store yields them.
    fn get_image_rows(&self, project_id: u64) -> (r: Result<Vec<ImageRow>, DatabaseError>)
        ensures
            r is Err ==> store_failed(r->Err_0@) || row_failed(r->Err_0@, "ProjectImage"@),
    {
        let mut stmt = prepared(&self.db, images_of_project(), &id_values(project_id))?;
        let kinds = image_row_kinds();
        let mut rows = rows_of(&mut stmt);
        let mut images: Vec<ImageRow> = Vec::new();
        while images.len() < usize::MAX
            decreases usize::MAX - images.len(),
        {
            match store_answer(next_row(&mut rows))? {
                None => {
                    return Ok(images);
                },
                Some(row) => {
                    let values = read_values(row, &kinds, "ProjectImage")?;
                    let image = row_or_refusal(image_row_from_values(&values), "ProjectImage")?;
                    images.push(image);
                },
            }
        }
        Ok(images)
    }

    /// Resolves the firings of `rows` to their full programs, one lookup for
    /// each row, and appends them to `project` in the order of the rows. The
    /// firings that `project` had stay in front as they were. The firing
    /// added for a row carries the comment of that row and the program that
    /// the names of that row resolve to. A row whose names resolve to no
    /// program is refused with those names.
    pub fn attach_firings(&self, project: &mut KilnProject, rows: &Vec<FiringRow>) -> (r: Result<
        (),
        DatabaseError,
    >)
        ensures
            rows@.len() == 0 ==> r is Ok,
            final(project)@.project == old(project)@.project,
            final(project)@.pictures == old(project)@.pictures,
            old(project)@.firings.len() <= final(project)@.firings.len(),
            final(project)@.firings.subrange(0, old(project)@.firings.len() as int)
                == old(project)@.firings,
            r is Ok ==> final(project)@.firings.len() == old(project)@.firings.len() + rows@.len(),
            r is Ok ==> firings_stand_for(
                final(project)@.firings.subrange(
                    old(project)@.firings.len() as int,
                    final(project)@.firings.len() as int,
                ),
                rows@,
            ),
            r is Err ==> program_read_failed(r->Err_0@) || r->Err_0@ is NoSuchProgram,
    {
        let ghost held = project@.firings;
        let mut i: usize = 0;
        while i < rows.len()
            invariant
                i <= rows.len(),
                held == old(project)@.firings,
                project@.project == old(project)@.project,
                project@.pictures == old(project)@.pictures,
                project@.firings.len() == held.len() + i,
                project@.firings.subrange(0, held.len() as int) == held,
                firings_stand_for(
                    project@.firings.subrange(held.len() as int, held.len() + i),
                    rows@.subrange(0, i as int),
                ),
            decreases rows.len() - i,
        {
            let found = self.get_program(
                rows[i].kiln_name.as_str(),
                rows[i].program_name.as_str(),
            )?;
            let ghost before = project@.firings;
            attach_firing(project, &rows[i], found)?;
            proof {
                let after = project@.firings;
                assert(after.subrange(0, held.len() as int) =~= before.subrange(
                    0,
                    held.len() as int,
                ));
                let added = after.subrange(held.len() as int, held.len() + i + 1);
                let earlier = before.subrange(held.len() as int, held.len() + i);
                assert forall|k: int| 0 <= k < i + 1 implies {
                    let firing = #[trigger] added[k];
                    &&& firing.comment == rows@.subrange(0, i + 1)[k].comment@
                    &&& firing.program.kiln.name == rows@.subrange(0, i + 1)[k].kiln_name@
                    &&& firing.program.sequence.name == rows@.subrange(0, i + 1)[k].program_name@
                    &&& firing.program.consistent()
                } by {
                    if k < i {
                        assert(added[k] == earlier[k]);
                        assert(rows@.subrange(0, i + 1)[k] == rows@.subrange(0, i as int)[k]);
                    }
                }
            }
            i += 1;
        }
        assert(rows@.subrange(0, i as int) =~= rows@);
        Ok(())
    }

    /// Looks a project up by its exact name and unpacks it in three stages:
    /// the project row, then its firings, each resolved to its full program,
    /// then its pictures. `None` means that no project carries the name. The
    /// stages are separate reads; a firing whose program no longer resolves
    /// is refused with the names of that program.
    ///
    /// A project that is returned carries the name that was asked for, each
    /// of its programs is consistent in itself and each of its pictures
    /// belongs to it.
    pub fn get_project(&self, name: &str) -> (r: Result<Option<KilnProject>, DatabaseError>)
        ensures
            r matches Ok(Some(project)) ==> project@.project.name == name@
                && project@.consistent(),
            r is Err ==> project_read_failed(r->Err_0@),
    {
        let row = self.get_project_row(name)?;
        let mut project = match project_from_row(name, &row) {
            Some(project) => project,
            None => {
                return Ok(None);
            },
        };
        let firings = self.get_firing_rows(project.id())?;
        self.attach_firings(&mut project, &firings)?;
        assert forall|k: int| 0 <= k < project@.firings.len() implies (
        #[trigger] project@.firings[k]).program.consistent() by {
            assert(project@.firings[k] == project@.firings.subrange(
                0,
                project@.firings.len() as int,
            )[k]);
        }
        let rows = self.get_image_rows(project.id())?;
        let images = images_from_rows(project.id(), &rows);
        project.add_pictures(&images);
        proof {
            lemma_images_keep_their_bytes(rows@, project@.project.id);
        }
        Ok(Some(project))
    }

    /// Links one more firing to a stored project. The program must resolve,
    /// and the project is read again first: it must still exist under its
    /// name and carry the id that the caller holds. The link is then written
    /// and the project is read once more and returned as stored.
    pub fn add_project_firing(
        &mut self,
        project: &KilnProject,
        kiln_name: &str,
        program_name: &str,
        comment: &str,
    ) -> (r: Result<KilnProject, DatabaseError>)
        ensures
            final(self).handle() == old(self).handle(),
            r matches Ok(fresh) ==> fresh@.project.name == project@.project.name
                && fresh@.consistent(),
            r is Err ==> project_read_failed(r->Err_0@) || r->Err_0@
                == DatabaseErrorView::NoSuchName(project@.project.name) || r->Err_0@
                == DatabaseErrorView::InconsistentProject(project@.project.name),
    {
        let found = self.get_program(kiln_name, program_name)?;
        let program = resolve_program(found, kiln_name, program_name)?;
        let project_name = project.name();
        let stored = resolve_project(
            self.get_project(project_name.as_str())?,
            project_name.as_str(),
        )?;
        check_project(project, &stored)?;
        let mut stmt = prepared(
            &self.db,
            insert_firing(),
            &insert_firing_values(stored.id(), program.sequence_id(), comment),
        )?;
        store_answer(run(&mut stmt))?;
        resolve_project(self.get_project(project_name.as_str())?, project_name.as_str())
    }

    /// Stores one more image for a project, under the id that the caller
    /// holds; the project is not read again before the write. The project is
    /// then read by its name and returned as stored.
    pub fn add_project_image(
        &mut self,
        project: &KilnProject,
        name: &str,
        description: &str,
        contents: &Vec<u8>,
    ) -> (r: Result<KilnProject, DatabaseError>)
        ensures
            final(self).handle() == old(self).handle(),
            r matches Ok(fresh) ==> fresh@.project.name == project@.project.name
                && fresh@.consistent(),
            r is Err ==> project_read_failed(r->Err_0@) || r->Err_0@
                == DatabaseErrorView::NoSuchName(project@.project.name),
    {
        let mut stmt = prepared(
            &self.db,
            insert_image(),
            &insert_image_values(project.id(), name, description, contents),
        )?;
        store_answer(run(&mut stmt))?;
        let project_name = project.name();
        resolve_project(self.get_project(project_name.as_str())?, project_name.as_str())
    }
}

} // verus!
