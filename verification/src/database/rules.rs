//! The decisions of the mutation engine.
//!
//! The store answers a question, and what happens next depends on the
//! answer. Every function here takes such an answer as an argument and says
//! exactly what follows from it, so the decision is fixed for every answer
//! the store could give.

use vstd::prelude::*;
use crate::database::entities::Kiln;
use crate::database::error::{DatabaseError, DatabaseErrorView};
use crate::database::program::{KilnProgram, KilnProgramView};
use crate::database::project::{KilnProject, KilnProjectView};

verus! {

/// Passes a driver's answer on, with its failure as a store failure.
pub fn store_answer<T>(answer: Result<T, rusqlite::Error>) -> (r: Result<T, DatabaseError>)
    ensures
        match answer {
            Ok(value) => r == Ok::<T, DatabaseError>(value),
            Err(failure) => r == Err::<T, DatabaseError>(DatabaseError::SqlError(failure)),
        },
{
    match answer {
        Ok(value) => Ok(value),
        Err(failure) => Err(DatabaseError::SqlError(failure)),
    }
}

/// Passes the value of a column on; a column that could not be read means
/// that the row is no `entity`.
pub fn column_answer<T>(answer: Result<T, rusqlite::Error>, entity: &str) -> (r: Result<
    T,
    DatabaseError,
>)
    ensures
        match answer {
            Ok(value) => r == Ok::<T, DatabaseError>(value),
            Err(_) => r is Err && r->Err_0@ == DatabaseErrorView::FailedDeserialization(entity@),
        },
{
    match answer {
        Ok(value) => Ok(value),
        Err(_) => Err(DatabaseError::FailedDeserialization(entity.to_owned())),
    }
}

/// A name is free when the store counted no row that carries it; otherwise
/// the name is a duplicate.
pub fn unique_name(count: u64, name: &str) -> (r: Result<(), DatabaseError>)
    ensures
        count == 0 <==> r is Ok,
        r is Err ==> r->Err_0@ == DatabaseErrorView::DuplicateName(name@),
{
    if count == 0 {
        Ok(())
    } else {
        Err(DatabaseError::DuplicateName(name.to_owned()))
    }
}

/// The kiln that a lookup by `kiln_name` found, or the refusal that there is
/// no kiln of that name.
pub fn resolve_kiln(found: Option<Kiln>, kiln_name: &str) -> (r: Result<Kiln, DatabaseError>)
    ensures
        match found {
            Some(kiln) => r == Ok::<Kiln, DatabaseError>(kiln),
            None => r is Err && r->Err_0@ == DatabaseErrorView::NoSuchName(kiln_name@),
        },
{
    match found {
        Some(kiln) => Ok(kiln),
        None => Err(DatabaseError::NoSuchName(kiln_name.to_owned())),
    }
}

/// The program that a lookup by `kiln_name` and `program_name` found, or the
/// refusal that the pair resolves to no program.
pub fn resolve_program(found: Option<KilnProgram>, kiln_name: &str, program_name: &str) -> (r:
    Result<KilnProgram, DatabaseError>)
    ensures
        match found {
            Some(program) => r == Ok::<KilnProgram, DatabaseError>(program),
            None => r is Err && r->Err_0@ == DatabaseErrorView::NoSuchProgram(
                kiln_name@,
                program_name@,
            ),
        },
{
    match found {
        Some(program) => Ok(program),
        None => Err(
            DatabaseError::NoSuchProgram((kiln_name.to_owned(), program_name.to_owned())),
        ),
    }
}

/// The project that a lookup by `project_name` found, or the refusal that
/// there is no project of that name.
pub fn resolve_project(found: Option<KilnProject>, project_name: &str) -> (r: Result<
    KilnProject,
    DatabaseError,
>)
    ensures
        match found {
            Some(project) => r == Ok::<KilnProject, DatabaseError>(project),
            None => r is Err && r->Err_0@ == DatabaseErrorView::NoSuchName(project_name@),
        },
{
    match found {
        Some(project) => Ok(project),
        None => Err(DatabaseError::NoSuchName(project_name.to_owned())),
    }
}

/// What is held against a program that a caller submits steps under, given
/// the stored program of that name: nothing when kiln and header agree field
/// for field, otherwise a refusal that names the stored kiln and program.
pub open spec fn header_refusal(program: KilnProgramView, stored: KilnProgramView) -> Option<
    DatabaseErrorView,
> {
    if program.same_header(stored) {
        None
    } else {
        Some(DatabaseErrorView::InconsistentProgram(stored.kiln.name, stored.sequence.name))
    }
}

/// What is held against a replacement of steps, given what the lookup of the
/// pair of names found: a refusal with the pair when nothing was found,
/// otherwise what is held against the header.
pub open spec fn replacement_refusal(
    found: Option<KilnProgramView>,
    program: KilnProgramView,
    kiln_name: Seq<char>,
    program_name: Seq<char>,
) -> Option<DatabaseErrorView> {
    match found {
        None => Some(DatabaseErrorView::NoSuchProgram(kiln_name, program_name)),
        Some(stored) => header_refusal(program, stored),
    }
}

/// Holds the header that a caller submits steps under against the stored
/// one. The steps are accepted exactly when kiln and program header agree
/// field for field; a refusal names the stored kiln and program, never what
/// the caller wrote.
pub fn check_header(program: &KilnProgram, stored: &KilnProgram) -> (r: Result<
    (),
    DatabaseError,
>)
    ensures
        r is Ok <==> header_refusal(program@, stored@) is None,
        r is Err ==> Some(r->Err_0@) == header_refusal(program@, stored@),
{
    if program.same_header(stored) {
        Ok(())
    } else {
        Err(DatabaseError::InconsistentProgram((stored.kiln_name(), stored.program_name())))
    }
}

/// Decides whether the steps of `program` may replace those of the program
/// that the lookup of `kiln_name` and `program_name` found. The stored
/// program is handed back when they may; otherwise the refusal says why.
pub fn replacement_target(
    found: Option<KilnProgram>,
    program: &KilnProgram,
    kiln_name: &str,
    program_name: &str,
) -> (r: Result<KilnProgram, DatabaseError>)
    ensures
        match replacement_refusal(
            match found {
                Some(stored) => Some(stored@),
                None => None,
            },
            program@,
            kiln_name@,
            program_name@,
        ) {
            None => r == Ok::<KilnProgram, DatabaseError>(found->Some_0),
            Some(refusal) => r is Err && r->Err_0@ == refusal,
        },
{
    let stored = resolve_program(found, kiln_name, program_name)?;
    check_header(program, &stored)?;
    Ok(stored)
}

/// What is held against a firing that a caller adds to a project, given the
/// stored project of that name: nothing when both carry the same id,
/// otherwise a refusal that names the project.
pub open spec fn project_refusal(project: KilnProjectView, stored: KilnProjectView) -> Option<
    DatabaseErrorView,
> {
    if project.project.id == stored.project.id {
        None
    } else {
        Some(DatabaseErrorView::InconsistentProject(project.project.name))
    }
}

/// Holds the project that a caller adds a firing to against the stored one
/// of the same name. The firing is accepted exactly when the two carry the
/// same id; a refusal names the project.
pub fn check_project(project: &KilnProject, stored: &KilnProject) -> (r: Result<
    (),
    DatabaseError,
>)
    ensures
        r is Ok <==> project_refusal(project@, stored@) is None,
        r is Err ==> Some(r->Err_0@) == project_refusal(project@, stored@),
{
    if project.id() == stored.id() {
        Ok(())
    } else {
        Err(DatabaseError::InconsistentProject(project.name()))
    }
}

} // verus!
