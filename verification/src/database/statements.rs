//! The statements that are handed to the store, word for word.
//!
//! Every text that the library sends is given here by a function whose
//! contract spells it out, so that what reaches the store is fixed by a
//! contract and not by a body alone. Parameters are numbered from one, in the
//! order in which each statement's description names them.

use vstd::prelude::*;
use crate::database::entities::{copy_bytes, FiringStep, FiringStepView};
use crate::database::rows::{columns_of, step_to_columns};
use crate::database::values::{value_views, SqlKind, SqlValue, SqlValueView};

verus! {

/// The six statements that create the tables, in the order in which they
/// are run. Each creates its table only where it is missing.
pub open spec fn schema_texts() -> Seq<Seq<char>> {
    seq![
        "CREATE TABLE IF NOT EXISTS Kilns (id INTEGER PRIMARY KEY AUTOINCREMENT, name TEXT, description TEXT)"@,
        "CREATE TABLE IF NOT EXISTS Firing_sequences (id INTEGER PRIMARY KEY AUTOINCREMENT, name TEXT, description TEXT, kiln_id INTEGER)"@,
        "CREATE TABLE IF NOT EXISTS Firing_steps (id INTEGER PRIMARY KEY AUTOINCREMENT, sequence_id INTEGER, ramp_rate INTEGER, target_temp INTEGER, dwell_time INTEGER)"@,
        "CREATE TABLE IF NOT EXISTS Projects (id INTEGER PRIMARY KEY AUTOINCREMENT, name TEXT, description TEXT)"@,
        "CREATE TABLE IF NOT EXISTS Project_firings (id INTEGER PRIMARY KEY AUTOINCREMENT, project_id INTEGER, firing_sequence_id INTEGER, comment TEXT)"@,
        "CREATE TABLE IF NOT EXISTS Project_images (id INTEGER PRIMARY KEY AUTOINCREMENT, project_id INTEGER, name TEXT, caption TEXT, contents BLOB)"@,
    ]
}

/// The statement at `index` among those that create the tables; `None` once
/// `index` is past the last of the six.
pub fn schema_statement(index: usize) -> (r: Option<&'static str>)
    ensures
        schema_texts().len() == 6,
        index < 6 <==> r is Some,
        r is Some ==> r->Some_0@ == schema_texts()[index as int],
{
    if index == 0 {
        Some("CREATE TABLE IF NOT EXISTS Kilns (id INTEGER PRIMARY KEY AUTOINCREMENT, name TEXT, description TEXT)")
    } else if index == 1 {
        Some("CREATE TABLE IF NOT EXISTS Firing_sequences (id INTEGER PRIMARY KEY AUTOINCREMENT, name TEXT, description TEXT, kiln_id INTEGER)")
    } else if index == 2 {
        Some("CREATE TABLE IF NOT EXISTS Firing_steps (id INTEGER PRIMARY KEY AUTOINCREMENT, sequence_id INTEGER, ramp_rate INTEGER, target_temp INTEGER, dwell_time INTEGER)")
    } else if index == 3 {
        Some("CREATE TABLE IF NOT EXISTS Projects (id INTEGER PRIMARY KEY AUTOINCREMENT, name TEXT, description TEXT)")
    } else if index == 4 {
        Some("CREATE TABLE IF NOT EXISTS Project_firings (id INTEGER PRIMARY KEY AUTOINCREMENT, project_id INTEGER, firing_sequence_id INTEGER, comment TEXT)")
    } else if index == 5 {
        Some("CREATE TABLE IF NOT EXISTS Project_images (id INTEGER PRIMARY KEY AUTOINCREMENT, project_id INTEGER, name TEXT, caption TEXT, contents BLOB)")
    } else {
        None
    }
}

/// The lookup of one kiln by its exact name: its id and its description.
pub fn kiln_by_name() -> (r: &'static str)
    ensures
        r@ == "SELECT id, description FROM Kilns WHERE name = ?1 ORDER BY id ASC"@,
{
    "SELECT id, description FROM Kilns WHERE name = ?1 ORDER BY id ASC"
}

/// The names of all kilns, in ascending order.
pub fn kiln_names() -> (r: &'static str)
    ensures
        r@ == "SELECT name FROM Kilns ORDER BY name ASC"@,
{
    "SELECT name FROM Kilns ORDER BY name ASC"
}

/// The count of the kilns that carry a name.
pub fn count_kilns_named() -> (r: &'static str)
    ensures
        r@ == "SELECT COUNT(*) FROM Kilns WHERE name = ?1"@,
{
    "SELECT COUNT(*) FROM Kilns WHERE name = ?1"
}

/// The insertion of a kiln with its name and its description.
pub fn insert_kiln() -> (r: &'static str)
    ensures
        r@ == "INSERT INTO Kilns (name, description) VALUES (?1, ?2)"@,
{
    "INSERT INTO Kilns (name, description) VALUES (?1, ?2)"
}

/// The names of the programs of the kiln of a name, in ascending order.
pub fn program_names_of_kiln() -> (r: &'static str)
    ensures
        r@ == "SELECT Firing_sequences.name FROM Firing_sequences INNER JOIN Kilns ON Kilns.id = Firing_sequences.kiln_id WHERE Kilns.name = ?1 ORDER BY Firing_sequences.name ASC"@,
{
    "SELECT Firing_sequences.name FROM Firing_sequences INNER JOIN Kilns ON Kilns.id = Firing_sequences.kiln_id WHERE Kilns.name = ?1 ORDER BY Firing_sequences.name ASC"
}

/// The join of a kiln with one of its programs, by the exact names of both: the
/// ids and the descriptions of the two.
pub fn header_by_names() -> (r: &'static str)
    ensures
        r@ == "SELECT Kilns.id, Kilns.description, Firing_sequences.id, Firing_sequences.description FROM Kilns INNER JOIN Firing_sequences ON Firing_sequences.kiln_id = Kilns.id WHERE Kilns.name = ?1 AND Firing_sequences.name = ?2 ORDER BY Firing_sequences.id ASC"@,
{
    "SELECT Kilns.id, Kilns.description, Firing_sequences.id, Firing_sequences.description FROM Kilns INNER JOIN Firing_sequences ON Firing_sequences.kiln_id = Kilns.id WHERE Kilns.name = ?1 AND Firing_sequences.name = ?2 ORDER BY Firing_sequences.id ASC"
}

/// The steps of one program, in ascending order of their ids.
pub fn steps_of_sequence() -> (r: &'static str)
    ensures
        r@ == "SELECT id, ramp_rate, target_temp, dwell_time FROM Firing_steps WHERE sequence_id = ?1 ORDER BY id ASC"@,
{
    "SELECT id, ramp_rate, target_temp, dwell_time FROM Firing_steps WHERE sequence_id = ?1 ORDER BY id ASC"
}

/// The count of the programs of one kiln that carry a name.
pub fn count_programs_named() -> (r: &'static str)
    ensures
        r@ == "SELECT COUNT(*) FROM Firing_sequences WHERE kiln_id = ?1 AND name = ?2"@,
{
    "SELECT COUNT(*) FROM Firing_sequences WHERE kiln_id = ?1 AND name = ?2"
}

/// The insertion of a program header with its name, its description and the id
/// of its kiln.
pub fn insert_program() -> (r: &'static str)
    ensures
        r@ == "INSERT INTO Firing_sequences (name, description, kiln_id) VALUES (?1, ?2, ?3)"@,
{
    "INSERT INTO Firing_sequences (name, description, kiln_id) VALUES (?1, ?2, ?3)"
}

/// The removal of every step of one program.
pub fn delete_steps() -> (r: &'static str)
    ensures
        r@ == "DELETE FROM Firing_steps WHERE sequence_id = ?1"@,
{
    "DELETE FROM Firing_steps WHERE sequence_id = ?1"
}

/// The insertion of one step of a program with its three columns.
pub fn insert_step() -> (r: &'static str)
    ensures
        r@ == "INSERT INTO Firing_steps (sequence_id, ramp_rate, target_temp, dwell_time) VALUES (?1, ?2, ?3, ?4)"@,
{
    "INSERT INTO Firing_steps (sequence_id, ramp_rate, target_temp, dwell_time) VALUES (?1, ?2, ?3, ?4)"
}

/// The count of the projects that carry a name.
pub fn count_projects_named() -> (r: &'static str)
    ensures
        r@ == "SELECT COUNT(*) FROM Projects WHERE name = ?1"@,
{
    "SELECT COUNT(*) FROM Projects WHERE name = ?1"
}

/// The insertion of a project with its name and its description.
pub fn insert_project() -> (r: &'static str)
    ensures
        r@ == "INSERT INTO Projects (name, description) VALUES (?1, ?2)"@,
{
    "INSERT INTO Projects (name, description) VALUES (?1, ?2)"
}

/// The lookup of one project by its exact name: its id and its description.
pub fn project_by_name() -> (r: &'static str)
    ensures
        r@ == "SELECT id, description FROM Projects WHERE name = ?1 ORDER BY id ASC"@,
{
    "SELECT id, description FROM Projects WHERE name = ?1 ORDER BY id ASC"
}

/// The firings of one project, each as the name of its kiln, the name of its
/// program and its comment, in ascending order of the programs' ids and, for
/// one program, of the links' ids.
pub fn firings_of_project() -> (r: &'static str)
    ensures
        r@ == "SELECT Kilns.name, Firing_sequences.name, Project_firings.comment FROM Project_firings INNER JOIN Firing_sequences ON Firing_sequences.id = Project_firings.firing_sequence_id INNER JOIN Kilns ON Kilns.id = Firing_sequences.kiln_id WHERE Project_firings.project_id = ?1 ORDER BY Project_firings.firing_sequence_id ASC, Project_firings.id ASC"@,
{
    "SELECT Kilns.name, Firing_sequences.name, Project_firings.comment FROM Project_firings INNER JOIN Firing_sequences ON Firing_sequences.id = Project_firings.firing_sequence_id INNER JOIN Kilns ON Kilns.id = Firing_sequences.kiln_id WHERE Project_firings.project_id = ?1 ORDER BY Project_firings.firing_sequence_id ASC, Project_firings.id ASC"
}

/// The images of one project, in ascending order of their ids.
pub fn images_of_project() -> (r: &'static str)
    ensures
        r@ == "SELECT id, name, caption, contents FROM Project_images WHERE project_id = ?1 ORDER BY id ASC"@,
{
    "SELECT id, name, caption, contents FROM Project_images WHERE project_id = ?1 ORDER BY id ASC"
}

/// The insertion of one firing link with its project, its program and its
/// comment.
pub fn insert_firing() -> (r: &'static str)
    ensures
        r@ == "INSERT INTO Project_firings (project_id, firing_sequence_id, comment) VALUES (?1, ?2, ?3)"@,
{
    "INSERT INTO Project_firings (project_id, firing_sequence_id, comment) VALUES (?1, ?2, ?3)"
}

/// The insertion of one image with its project, its name, its caption and its
/// bytes.
pub fn insert_image() -> (r: &'static str)
    ensures
        r@ == "INSERT INTO Project_images (project_id, name, caption, contents) VALUES (?1, ?2, ?3, ?4)"@,
{
    "INSERT INTO Project_images (project_id, name, caption, contents) VALUES (?1, ?2, ?3, ?4)"
}

/// The one value of a statement that asks by a name.
pub fn name_values(name: &str) -> (r: Vec<SqlValue>)
    ensures
        value_views(r@) == seq![SqlValueView::Text(name@)],
{
    let mut values: Vec<SqlValue> = Vec::new();
    values.push(SqlValue::Text(name.to_owned()));
    assert(value_views(values@) =~= seq![SqlValueView::Text(name@)]);
    values
}

/// The one value of a statement that asks by an id.
pub fn id_values(id: u64) -> (r: Vec<SqlValue>)
    ensures
        value_views(r@) == seq![SqlValueView::Unsigned(id)],
{
    let mut values: Vec<SqlValue> = Vec::new();
    values.push(SqlValue::Unsigned(id));
    assert(value_views(values@) =~= seq![SqlValueView::Unsigned(id)]);
    values
}

/// The values of [`insert_kiln`]: the name, then the description.
pub fn insert_kiln_values(name: &str, description: &str) -> (r: Vec<SqlValue>)
    ensures
        value_views(r@) == seq![SqlValueView::Text(name@), SqlValueView::Text(description@)],
{
    let mut values: Vec<SqlValue> = Vec::new();
    values.push(SqlValue::Text(name.to_owned()));
    values.push(SqlValue::Text(description.to_owned()));
    assert(value_views(values@) =~= seq![
        SqlValueView::Text(name@),
        SqlValueView::Text(description@),
    ]);
    values
}

/// The values of [`insert_project`]: the name, then the description.
pub fn insert_project_values(name: &str, description: &str) -> (r: Vec<SqlValue>)
    ensures
        value_views(r@) == seq![SqlValueView::Text(name@), SqlValueView::Text(description@)],
{
    insert_kiln_values(name, description)
}

/// The values of [`header_by_names`]: the name of the kiln, then the name of
/// the program.
pub fn header_values(kiln_name: &str, program_name: &str) -> (r: Vec<SqlValue>)
    ensures
        value_views(r@) == seq![
            SqlValueView::Text(kiln_name@),
            SqlValueView::Text(program_name@),
        ],
{
    let mut values: Vec<SqlValue> = Vec::new();
    values.push(SqlValue::Text(kiln_name.to_owned()));
    values.push(SqlValue::Text(program_name.to_owned()));
    assert(value_views(values@) =~= seq![
        SqlValueView::Text(kiln_name@),
        SqlValueView::Text(program_name@),
    ]);
    values
}

/// The values of [`count_programs_named`]: the id of the kiln, then the name
/// of the program.
pub fn count_programs_values(kiln_id: u64, program_name: &str) -> (r: Vec<SqlValue>)
    ensures
        value_views(r@) == seq![
            SqlValueView::Unsigned(kiln_id),
            SqlValueView::Text(program_name@),
        ],
{
    let mut values: Vec<SqlValue> = Vec::new();
    values.push(SqlValue::Unsigned(kiln_id));
    values.push(SqlValue::Text(program_name.to_owned()));
    assert(value_views(values@) =~= seq![
        SqlValueView::Unsigned(kiln_id),
        SqlValueView::Text(program_name@),
    ]);
    values
}

/// The values of [`insert_program`]: the name of the program, its
/// description, then the id of its kiln.
pub fn insert_program_values(program_name: &str, description: &str, kiln_id: u64) -> (r: Vec<
    SqlValue,
>)
    ensures
        value_views(r@) == seq![
            SqlValueView::Text(program_name@),
            SqlValueView::Text(description@),
            SqlValueView::Unsigned(kiln_id),
        ],
{
    let mut values: Vec<SqlValue> = Vec::new();
    values.push(SqlValue::Text(program_name.to_owned()));
    values.push(SqlValue::Text(description.to_owned()));
    values.push(SqlValue::Unsigned(kiln_id));
    assert(value_views(values@) =~= seq![
        SqlValueView::Text(program_name@),
        SqlValueView::Text(description@),
        SqlValueView::Unsigned(kiln_id),
    ]);
    values
}

/// What [`insert_step`] is handed for a step of the program `sequence_id`:
/// the id of the program, then the column that encodes the ramp rate, the
/// target temperature and the dwell time. The step's own ids are left out.
pub open spec fn step_values(sequence_id: u64, step: FiringStepView) -> Seq<SqlValueView> {
    seq![
        SqlValueView::Unsigned(sequence_id),
        SqlValueView::Integer(columns_of(step).0 as i64),
        SqlValueView::Integer(columns_of(step).1 as i64),
        SqlValueView::Integer(columns_of(step).2 as i64),
    ]
}

/// The values of [`insert_step`] for `step` as a step of the program
/// `sequence_id`.
pub fn insert_step_values(sequence_id: u64, step: &FiringStep) -> (r: Vec<SqlValue>)
    ensures
        value_views(r@) == step_values(sequence_id, step@),
{
    let mut values: Vec<SqlValue> = Vec::new();
    let columns = step_to_columns(step);
    values.push(SqlValue::Unsigned(sequence_id));
    values.push(SqlValue::Integer(columns.0));
    values.push(SqlValue::Integer(columns.1));
    values.push(SqlValue::Integer(columns.2));
    assert(value_views(values@) =~= step_values(sequence_id, step@));
    values
}

/// The values of [`insert_firing`]: the id of the project, the id of the
/// program, then the comment.
pub fn insert_firing_values(project_id: u64, firing_sequence_id: u64, comment: &str) -> (r: Vec<
    SqlValue,
>)
    ensures
        value_views(r@) == seq![
            SqlValueView::Unsigned(project_id),
            SqlValueView::Unsigned(firing_sequence_id),
            SqlValueView::Text(comment@),
        ],
{
    let mut values: Vec<SqlValue> = Vec::new();
    values.push(SqlValue::Unsigned(project_id));
    values.push(SqlValue::Unsigned(firing_sequence_id));
    values.push(SqlValue::Text(comment.to_owned()));
    assert(value_views(values@) =~= seq![
        SqlValueView::Unsigned(project_id),
        SqlValueView::Unsigned(firing_sequence_id),
        SqlValueView::Text(comment@),
    ]);
    values
}

/// The values of [`insert_image`]: the id of the project, the name of the
/// image, its caption, then its bytes as they are.
pub fn insert_image_values(project_id: u64, name: &str, caption: &str, contents: &Vec<u8>) -> (r:
    Vec<SqlValue>)
    ensures
        value_views(r@) == seq![
            SqlValueView::Unsigned(project_id),
            SqlValueView::Text(name@),
            SqlValueView::Text(caption@),
            SqlValueView::Blob(contents@),
        ],
{
    let mut values: Vec<SqlValue> = Vec::new();
    values.push(SqlValue::Unsigned(project_id));
    values.push(SqlValue::Text(name.to_owned()));
    values.push(SqlValue::Text(caption.to_owned()));
    values.push(SqlValue::Blob(copy_bytes(contents)));
    assert(value_views(values@) =~= seq![
        SqlValueView::Unsigned(project_id),
        SqlValueView::Text(name@),
        SqlValueView::Text(caption@),
        SqlValueView::Blob(contents@),
    ]);
    values
}

/// The one column of a counting query: the count.
pub fn count_kinds() -> (r: Vec<SqlKind>)
    ensures
        r@ == seq![SqlKind::Unsigned],
{
    let mut kinds: Vec<SqlKind> = Vec::new();
    kinds.push(SqlKind::Unsigned);
    assert(kinds@ =~= seq![SqlKind::Unsigned]);
    kinds
}

/// The one column of a listing of names: the name.
pub fn name_kinds() -> (r: Vec<SqlKind>)
    ensures
        r@ == seq![SqlKind::Text],
{
    let mut kinds: Vec<SqlKind> = Vec::new();
    kinds.push(SqlKind::Text);
    assert(kinds@ =~= seq![SqlKind::Text]);
    kinds
}

/// The columns of a lookup by name: the id, then the description.
pub fn named_row_kinds() -> (r: Vec<SqlKind>)
    ensures
        r@ == seq![SqlKind::Unsigned, SqlKind::Text],
{
    let mut kinds: Vec<SqlKind> = Vec::new();
    kinds.push(SqlKind::Unsigned);
    kinds.push(SqlKind::Text);
    assert(kinds@ =~= seq![SqlKind::Unsigned, SqlKind::Text]);
    kinds
}

/// The columns of [`header_by_names`]: the kiln's id and description, then the
/// program's id and description.
pub fn header_row_kinds() -> (r: Vec<SqlKind>)
    ensures
        r@ == seq![SqlKind::Unsigned, SqlKind::Text, SqlKind::Unsigned, SqlKind::Text],
{
    let mut kinds: Vec<SqlKind> = Vec::new();
    kinds.push(SqlKind::Unsigned);
    kinds.push(SqlKind::Text);
    kinds.push(SqlKind::Unsigned);
    kinds.push(SqlKind::Text);
    assert(kinds@ =~= seq![SqlKind::Unsigned, SqlKind::Text, SqlKind::Unsigned, SqlKind::Text]);
    kinds
}

/// The columns of [`steps_of_sequence`]: the step's id, then its ramp rate, its
/// target temperature and its dwell time.
pub fn step_row_kinds() -> (r: Vec<SqlKind>)
    ensures
        r@ == seq![SqlKind::Unsigned, SqlKind::Integer, SqlKind::Integer, SqlKind::Integer],
{
    let mut kinds: Vec<SqlKind> = Vec::new();
    kinds.push(SqlKind::Unsigned);
    kinds.push(SqlKind::Integer);
    kinds.push(SqlKind::Integer);
    kinds.push(SqlKind::Integer);
    assert(kinds@ =~= seq![SqlKind::Unsigned, SqlKind::Integer, SqlKind::Integer, SqlKind::Integer]);
    kinds
}

/// The columns of [`firings_of_project`]: the name of the kiln, the name of the
/// program, then the comment.
pub fn firing_row_kinds() -> (r: Vec<SqlKind>)
    ensures
        r@ == seq![SqlKind::Text, SqlKind::Text, SqlKind::Text],
{
    let mut kinds: Vec<SqlKind> = Vec::new();
    kinds.push(SqlKind::Text);
    kinds.push(SqlKind::Text);
    kinds.push(SqlKind::Text);
    assert(kinds@ =~= seq![SqlKind::Text, SqlKind::Text, SqlKind::Text]);
    kinds
}

/// The columns of [`images_of_project`]: the image's id, its name, its caption,
/// then its bytes.
pub fn image_row_kinds() -> (r: Vec<SqlKind>)
    ensures
        r@ == seq![SqlKind::Unsigned, SqlKind::Text, SqlKind::Text, SqlKind::Blob],
{
    let mut kinds: Vec<SqlKind> = Vec::new();
    kinds.push(SqlKind::Unsigned);
    kinds.push(SqlKind::Text);
    kinds.push(SqlKind::Text);
    kinds.push(SqlKind::Blob);
    assert(kinds@ =~= seq![SqlKind::Unsigned, SqlKind::Text, SqlKind::Text, SqlKind::Blob]);
    kinds
}

} // verus!
