//! The failures that the database reports to its callers.

use vstd::prelude::*;

verus! {

/// What can go wrong in the kiln database. Every fallible operation returns
/// one of these instead of aborting.
#[derive(Debug)]
pub enum DatabaseError {
    /// The driver or the store failed; the failure is passed on as it came.
    SqlError(rusqlite::Error),
    /// A create operation found the name already taken in its scope.
    DuplicateName(String),
    /// A kiln or project that was referred to by name does not exist.
    NoSuchName(String),
    /// The pair of kiln name and program name does not resolve to a program.
    NoSuchProgram((String, String)),
    /// The header of a program held in memory disagrees with the stored one.
    InconsistentProgram((String, String)),
    /// The id of a project held in memory disagrees with the stored one.
    InconsistentProject(String),
    /// A list edit was given a position outside the list.
    InvalidIndex(usize),
    /// A row could not be mapped back to the named entity.
    FailedDeserialization(String),
}

/// What a [`DatabaseError`] holds: the same variants, with every text as its
/// characters.
pub enum DatabaseErrorView {
    SqlError(rusqlite::Error),
    DuplicateName(Seq<char>),
    NoSuchName(Seq<char>),
    NoSuchProgram(Seq<char>, Seq<char>),
    InconsistentProgram(Seq<char>, Seq<char>),
    InconsistentProject(Seq<char>),
    InvalidIndex(usize),
    FailedDeserialization(Seq<char>),
}

impl View for DatabaseError {
    type V = DatabaseErrorView;

    open spec fn view(&self) -> DatabaseErrorView {
        match *self {
            DatabaseError::SqlError(failure) => DatabaseErrorView::SqlError(failure),
            DatabaseError::DuplicateName(name) => DatabaseErrorView::DuplicateName(name@),
            DatabaseError::NoSuchName(name) => DatabaseErrorView::NoSuchName(name@),
            DatabaseError::NoSuchProgram(pair) => DatabaseErrorView::NoSuchProgram(
                pair.0@,
                pair.1@,
            ),
            DatabaseError::InconsistentProgram(pair) => DatabaseErrorView::InconsistentProgram(
                pair.0@,
                pair.1@,
            ),
            DatabaseError::InconsistentProject(name) => DatabaseErrorView::InconsistentProject(
                name@,
            ),
            DatabaseError::InvalidIndex(index) => DatabaseErrorView::InvalidIndex(index),
            DatabaseError::FailedDeserialization(entity) => {
                DatabaseErrorView::FailedDeserialization(entity@)
            },
        }
    }
}

impl DatabaseError {
    /// The failure in words, for a person to read. A store failure is worded
    /// exactly as the driver words it; a refused index is written as std
    /// writes a number, behind the text that names the kind; every other
    /// text is fixed letter for letter.
    pub fn message(&self) -> (r: String)
        ensures
            self matches DatabaseError::SqlError(failure)
                ==> vstd::string::to_string_from_display_ensures::<rusqlite::Error>(&failure, r),
            self matches DatabaseError::InvalidIndex(index) ==> exists|digits: String|
                #[trigger] vstd::string::to_string_from_display_ensures::<usize>(&index, digits)
                    && r@ == message_of(self@) + digits@,
            !(self is SqlError) && !(self is InvalidIndex) ==> r@ == message_of(self@),
    {
        match self {
            DatabaseError::SqlError(failure) => failure.to_string(),
            DatabaseError::DuplicateName(name) => "Duplicate name: ".to_owned().concat(
                name.as_str(),
            ),
            DatabaseError::NoSuchName(name) => "No such name: ".to_owned().concat(name.as_str()),
            DatabaseError::NoSuchProgram(pair) => "No such program: ".to_owned().concat(
                pair.1.as_str(),
            ).concat(" on kiln ").concat(pair.0.as_str()),
            DatabaseError::InconsistentProgram(pair) => "Inconsistent program: ".to_owned().concat(
                pair.1.as_str(),
            ).concat(" on kiln ").concat(pair.0.as_str()),
            DatabaseError::InconsistentProject(name) => "Inconsistent project: ".to_owned().concat(
                name.as_str(),
            ),
            DatabaseError::InvalidIndex(index) => "Invalid index: ".to_owned().concat(
                index.to_string().as_str(),
            ),
            DatabaseError::FailedDeserialization(entity) => "Failed to deserialize: ".to_owned()
                .concat(entity.as_str()),
        }
    }
}

/// The text of a failure that the store did not word itself; for a refused
/// index, the text that the index follows.
pub open spec fn message_of(error: DatabaseErrorView) -> Seq<char> {
    match error {
        DatabaseErrorView::SqlError(_) => Seq::empty(),
        DatabaseErrorView::DuplicateName(name) => "Duplicate name: "@ + name,
        DatabaseErrorView::NoSuchName(name) => "No such name: "@ + name,
        DatabaseErrorView::NoSuchProgram(kiln, program) => "No such program: "@ + program
            + " on kiln "@ + kiln,
        DatabaseErrorView::InconsistentProgram(kiln, program) => "Inconsistent program: "@
            + program + " on kiln "@ + kiln,
        DatabaseErrorView::InconsistentProject(name) => "Inconsistent project: "@ + name,
        DatabaseErrorView::InvalidIndex(_) => "Invalid index: "@,
        DatabaseErrorView::FailedDeserialization(entity) => "Failed to deserialize: "@ + entity,
    }
}

} // verus!
