//! Rows as the store yields them, and the entities that they stand for.
//!
//! Reading an aggregate is two things: asking the store for rows, and
//! turning the rows into entities. The second is done here, on plain values,
//! so that it is fixed for every list of rows the store could yield: rows
//! become entities one for one, in the order in which they came.

use vstd::prelude::*;
use crate::database::entities::{
    copy_bytes, FiringSequence, FiringSequenceView, FiringStep, FiringStepView, Kiln, KilnView,
    Project, ProjectImage, ProjectImageView, ProjectView,
};
use crate::database::error::{DatabaseError, DatabaseErrorView};
use crate::database::program::{step_views, KilnProgram, KilnProgramView};
use crate::database::project::{image_views, FiringView, KilnProject, KilnProjectView};
use crate::database::ramp::{column_of, rate_of, RampRate};
use crate::database::values::{
    blob_at, blob_in, integer_at, integer_in, text_at, text_in, unsigned_at, unsigned_in,
    value_views, SqlValue, SqlValueView,
};

verus! {

/// What a [`NamedRow`] holds.
pub struct NamedRowView {
    pub id: u64,
    pub description: Seq<char>,
}

/// The row that a lookup by name yields for a kiln or for a project: what
/// the entity holds besides the name that it was asked for by.
#[derive(Debug, PartialEq)]
pub struct NamedRow {
    pub id: u64,
    pub description: String,
}

impl View for NamedRow {
    type V = NamedRowView;

    open spec fn view(&self) -> NamedRowView {
        NamedRowView { id: self.id, description: self.description@ }
    }
}

/// The view of a row that may be missing.
pub open spec fn named_row_view(row: Option<NamedRow>) -> Option<NamedRowView> {
    match row {
        Some(row) => Some(row@),
        None => None,
    }
}

/// The values of a first row that may be missing, each as what it holds.
pub open spec fn first_views(first: Option<Vec<SqlValue>>) -> Option<Seq<SqlValueView>> {
    match first {
        Some(values) => Some(value_views(values@)),
        None => None,
    }
}

/// A row that was read, or the refusal that what was read is no `entity`.
pub fn row_or_refusal<T>(row: Option<T>, entity: &str) -> (r: Result<T, DatabaseError>)
    ensures
        match row {
            Some(row) => r == Ok::<T, DatabaseError>(row),
            None => r is Err && r->Err_0@ == DatabaseErrorView::FailedDeserialization(entity@),
        },
{
    match row {
        Some(row) => Ok(row),
        None => Err(DatabaseError::FailedDeserialization(entity.to_owned())),
    }
}

/// The count that a counting query found, given the values of its first row
/// or the absence of any row: nothing was counted where the query yielded no
/// row, and the count is the one unsigned number of the row where it yielded
/// one. `None` where the row is of another shape.
pub open spec fn count_of_first(first: Option<Seq<SqlValueView>>) -> Option<u64> {
    match first {
        None => Some(0),
        Some(values) => if values.len() == 1 {
            unsigned_in(values, 0)
        } else {
            None
        },
    }
}

/// Turns what a counting query yielded into the count; a row of another
/// shape than one unsigned number is refused as no `entity`.
pub fn count_from_first(first: &Option<Vec<SqlValue>>, entity: &str) -> (r: Result<
    u64,
    DatabaseError,
>)
    ensures
        match count_of_first(first_views(*first)) {
            Some(count) => r == Ok::<u64, DatabaseError>(count),
            None => r is Err && r->Err_0@ == DatabaseErrorView::FailedDeserialization(entity@),
        },
{
    match first {
        None => Ok(0),
        Some(values) => {
            if values.len() == 1 {
                row_or_refusal(unsigned_at(values, 0), entity)
            } else {
                row_or_refusal(None, entity)
            }
        },
    }
}

/// The row of a lookup by name that `values` stand for: the id in the first
/// column and the description in the second. `None` where the values are of
/// another shape.
pub open spec fn named_row_of_values(values: Seq<SqlValueView>) -> Option<NamedRowView> {
    if values.len() == 2 && unsigned_in(values, 0) is Some && text_in(values, 1) is Some {
        Some(
            NamedRowView {
                id: unsigned_in(values, 0)->Some_0,
                description: text_in(values, 1)->Some_0,
            },
        )
    } else {
        None
    }
}

/// What a lookup by name yielded, as a row: no row where it yielded none,
/// the row that the values stand for where it yielded one, and a refusal
/// where the values are of another shape.
pub open spec fn named_row_of_first(first: Option<Seq<SqlValueView>>) -> Option<
    Option<NamedRowView>,
> {
    match first {
        None => Some(None),
        Some(values) => match named_row_of_values(values) {
            Some(row) => Some(Some(row)),
            None => None,
        },
    }
}

/// Turns what a lookup by name yielded into its row, if it yielded one;
/// values of another shape are refused as no `entity`.
pub fn named_row_from_first(first: &Option<Vec<SqlValue>>, entity: &str) -> (r: Result<
    Option<NamedRow>,
    DatabaseError,
>)
    ensures
        match named_row_of_first(first_views(*first)) {
            Some(Some(row)) => r matches Ok(Some(found)) && found@ == row,
            Some(None) => r matches Ok(None),
            None => r is Err && r->Err_0@ == DatabaseErrorView::FailedDeserialization(entity@),
        },
{
    match first {
        None => Ok(None),
        Some(values) => {
            if values.len() != 2 {
                return row_or_refusal(None, entity);
            }
            match (unsigned_at(values, 0), text_at(values, 1)) {
                (Some(id), Some(description)) => Ok(Some(NamedRow { id, description })),
                _ => row_or_refusal(None, entity),
            }
        },
    }
}

/// The kiln that a lookup by `name` found: the kiln of that name with the id
/// and the description of the row, and no kiln where there was no row.
pub open spec fn kiln_of_row(name: Seq<char>, row: Option<NamedRowView>) -> Option<KilnView> {
    match row {
        Some(row) => Some(KilnView { id: row.id, name, description: row.description }),
        None => None,
    }
}

/// Turns what a lookup by `name` yielded into the kiln that was found, or
/// into `None` where the lookup yielded no row.
pub fn kiln_from_row(name: &str, row: &Option<NamedRow>) -> (r: Option<Kiln>)
    ensures
        match kiln_of_row(name@, named_row_view(*row)) {
            Some(kiln) => r is Some && r->Some_0@ == kiln,
            None => r is None,
        },
{
    match row {
        Some(row) => Some(Kiln::new(row.id, name, row.description.as_str())),
        None => None,
    }
}

/// The project that a lookup by `name` found, before its firings and its
/// pictures are read: the project of that name with the id and the
/// description of the row, and no project where there was no row.
pub open spec fn project_of_row(name: Seq<char>, row: Option<NamedRowView>) -> Option<
    KilnProjectView,
> {
    match row {
        Some(row) => Some(
            KilnProjectView {
                project: ProjectView { id: row.id, name, description: row.description },
                firings: Seq::empty(),
                pictures: Seq::empty(),
            },
        ),
        None => None,
    }
}

/// Turns what a lookup by `name` yielded into the project that was found,
/// still without firings and pictures, or into `None` where the lookup
/// yielded no row.
pub fn project_from_row(name: &str, row: &Option<NamedRow>) -> (r: Option<KilnProject>)
    ensures
        match project_of_row(name@, named_row_view(*row)) {
            Some(project) => r is Some && r->Some_0@ == project,
            None => r is None,
        },
{
    match row {
        Some(row) => Some(KilnProject::new(Project::new(row.id, name, row.description.as_str()))),
        None => None,
    }
}

/// The identifier that a row id stands for. The store hands out row ids as
/// signed integers; one below zero is no identifier, and the row is then no
/// `entity`.
pub fn id_from_rowid(rowid: i64, entity: &str) -> (r: Result<u64, DatabaseError>)
    ensures
        rowid >= 0 <==> r is Ok,
        r is Ok ==> r->Ok_0 == rowid,
        r is Err ==> r->Err_0@ == DatabaseErrorView::FailedDeserialization(entity@),
{
    if rowid >= 0 {
        Ok(rowid as u64)
    } else {
        Err(DatabaseError::FailedDeserialization(entity.to_owned()))
    }
}

/// Whether a column value is a temperature or a time that a step can hold.
pub open spec fn fits_step(column: int) -> bool {
    0 <= column <= u32::MAX
}

/// The three columns that hold the settings of a step: the encoded ramp
/// rate, the target temperature and the dwell time.
pub open spec fn columns_of(step: FiringStepView) -> (int, int, int) {
    (column_of(step.ramp_rate), step.target_temp as int, step.dwell_time as int)
}

/// The step that a stored row stands for, under the ids `id` and
/// `sequence_id`: the row is a step exactly when its ramp column encodes a
/// rate and its temperature and time are in range.
pub open spec fn step_of(id: u64, sequence_id: u64, columns: (int, int, int)) -> Option<
    FiringStepView,
> {
    if rate_of(columns.0) is Some && fits_step(columns.1) && fits_step(columns.2) {
        Some(
            FiringStepView {
                id,
                sequence_id,
                ramp_rate: rate_of(columns.0)->Some_0,
                target_temp: columns.1 as u32,
                dwell_time: columns.2 as u32,
            },
        )
    } else {
        None
    }
}

/// The columns under which the settings of `step` are stored.
pub fn step_to_columns(step: &FiringStep) -> (r: (i64, i64, i64))
    ensures
        (r.0 as int, r.1 as int, r.2 as int) == columns_of(step@),
{
    (step.ramp_rate().to_column(), step.target_temp() as i64, step.dwell_time() as i64)
}

/// The step that the columns of one stored row stand for; a row that stands
/// for no step is refused.
pub fn step_from_columns(id: u64, sequence_id: u64, ramp: i64, target: i64, dwell: i64) -> (r:
    Result<FiringStep, DatabaseError>)
    ensures
        match step_of(id, sequence_id, (ramp as int, target as int, dwell as int)) {
            Some(step) => r is Ok && r->Ok_0@ == step,
            None => r is Err && r->Err_0@ == DatabaseErrorView::FailedDeserialization(
                "FiringStep"@,
            ),
        },
{
    let rate = RampRate::from_column(ramp);
    match rate {
        Some(ramp_rate) => {
            if 0 <= target && target <= 0xffff_ffff && 0 <= dwell && dwell <= 0xffff_ffff {
                Ok(FiringStep::new(id, sequence_id, ramp_rate, target as u32, dwell as u32))
            } else {
                Err(DatabaseError::FailedDeserialization("FiringStep".to_owned()))
            }
        },
        None => Err(DatabaseError::FailedDeserialization("FiringStep".to_owned())),
    }
}

/// One row of stored steps: the step's id and the three columns that hold
/// its settings.
#[derive(Debug, Clone, Copy, PartialEq)]
pub struct StepRow {
    pub id: u64,
    pub ramp_rate: i64,
    pub target_temp: i64,
    pub dwell_time: i64,
}

impl StepRow {
    /// The three columns that hold the settings.
    pub open spec fn columns(self) -> (int, int, int) {
        (self.ramp_rate as int, self.target_temp as int, self.dwell_time as int)
    }
}

/// The row of stored steps that `values` stand for: the id in the first
/// column, then the ramp rate, the target temperature and the dwell time.
/// `None` where the values are of another shape.
pub open spec fn step_row_of_values(values: Seq<SqlValueView>) -> Option<StepRow> {
    if values.len() == 4 && unsigned_in(values, 0) is Some && integer_in(values, 1) is Some
        && integer_in(values, 2) is Some && integer_in(values, 3) is Some {
        Some(
            StepRow {
                id: unsigned_in(values, 0)->Some_0,
                ramp_rate: integer_in(values, 1)->Some_0,
                target_temp: integer_in(values, 2)->Some_0,
                dwell_time: integer_in(values, 3)->Some_0,
            },
        )
    } else {
        None
    }
}

/// Turns the values of one row of stored steps into the row, column by
/// column.
pub fn step_row_from_values(values: &Vec<SqlValue>) -> (r: Option<StepRow>)
    ensures
        r == step_row_of_values(value_views(values@)),
{
    if values.len() != 4 {
        return None;
    }
    match (
        unsigned_at(values, 0),
        integer_at(values, 1),
        integer_at(values, 2),
        integer_at(values, 3),
    ) {
        (Some(id), Some(ramp_rate), Some(target_temp), Some(dwell_time)) => Some(
            StepRow { id, ramp_rate, target_temp, dwell_time },
        ),
        _ => None,
    }
}

/// The step of the program `sequence_id` that `row` stands for, if it stands
/// for one.
pub open spec fn step_of_row(sequence_id: u64, row: StepRow) -> Option<FiringStepView> {
    step_of(row.id, sequence_id, row.columns())
}

/// The steps of the program `sequence_id` that `rows` stand for, in the order
/// of the rows; nothing when one of the rows stands for no step.
pub open spec fn steps_of_rows(sequence_id: u64, rows: Seq<StepRow>) -> Option<
    Seq<FiringStepView>,
> {
    if forall|i: int| 0 <= i < rows.len() ==> step_of_row(sequence_id, #[trigger] rows[i]) is Some {
        Some(rows.map_values(|row: StepRow| step_of_row(sequence_id, row)->Some_0))
    } else {
        None
    }
}

/// Turns the rows stored for the program `sequence_id` into its steps, one
/// for one and in the order of the rows. A single row that stands for no
/// step refuses the whole list.
pub fn steps_from_rows(sequence_id: u64, rows: &Vec<StepRow>) -> (r: Result<
    Vec<FiringStep>,
    DatabaseError,
>)
    ensures
        match steps_of_rows(sequence_id, rows@) {
            Some(steps) => r is Ok && step_views(r->Ok_0@) == steps,
            None => r is Err && r->Err_0@ == DatabaseErrorView::FailedDeserialization(
                "FiringStep"@,
            ),
        },
{
    let mut steps: Vec<FiringStep> = Vec::new();
    let mut i: usize = 0;
    while i < rows.len()
        invariant
            i <= rows.len(),
            steps@.len() == i,
            forall|k: int| 0 <= k < i ==> step_of_row(sequence_id, #[trigger] rows@[k]) is Some,
            forall|k: int|
                0 <= k < i ==> (#[trigger] steps@[k])@ == step_of_row(
                    sequence_id,
                    rows@[k],
                )->Some_0,
        decreases rows.len() - i,
    {
        let row = rows[i];
        let step = step_from_columns(
            row.id,
            sequence_id,
            row.ramp_rate,
            row.target_temp,
            row.dwell_time,
        )?;
        steps.push(step);
        i += 1;
    }
    assert(step_views(steps@) =~= steps_of_rows(sequence_id, rows@)->Some_0);
    Ok(steps)
}

/// What a [`HeaderRow`] holds.
pub struct HeaderRowView {
    pub kiln_id: u64,
    pub kiln_description: Seq<char>,
    pub sequence_id: u64,
    pub sequence_description: Seq<char>,
}

/// The one row that the join of a kiln with one of its programs yields for a
/// pair of names: what the kiln and the program header hold besides their
/// names and besides the header's kiln id, which the join has matched.
#[derive(Debug, PartialEq)]
pub struct HeaderRow {
    pub kiln_id: u64,
    pub kiln_description: String,
    pub sequence_id: u64,
    pub sequence_description: String,
}

impl View for HeaderRow {
    type V = HeaderRowView;

    open spec fn view(&self) -> HeaderRowView {
        HeaderRowView {
            kiln_id: self.kiln_id,
            kiln_description: self.kiln_description@,
            sequence_id: self.sequence_id,
            sequence_description: self.sequence_description@,
        }
    }
}

/// The row of the join that `values` stand for: the kiln's id and
/// description in the first two columns, the program's id and description in
/// the next two. `None` where the values are of another shape.
pub open spec fn header_row_of_values(values: Seq<SqlValueView>) -> Option<HeaderRowView> {
    if values.len() == 4 && unsigned_in(values, 0) is Some && text_in(values, 1) is Some
        && unsigned_in(values, 2) is Some && text_in(values, 3) is Some {
        Some(
            HeaderRowView {
                kiln_id: unsigned_in(values, 0)->Some_0,
                kiln_description: text_in(values, 1)->Some_0,
                sequence_id: unsigned_in(values, 2)->Some_0,
                sequence_description: text_in(values, 3)->Some_0,
            },
        )
    } else {
        None
    }
}

/// What the join yielded, as a row: no row where it yielded none, the row
/// that the values stand for where it yielded one, and a refusal where the
/// values are of another shape.
pub open spec fn header_row_of_first(first: Option<Seq<SqlValueView>>) -> Option<
    Option<HeaderRowView>,
> {
    match first {
        None => Some(None),
        Some(values) => match header_row_of_values(values) {
            Some(row) => Some(Some(row)),
            None => None,
        },
    }
}

/// Turns what the join yielded into its row, if it yielded one; values of
/// another shape are refused as no program header.
pub fn header_row_from_first(first: &Option<Vec<SqlValue>>) -> (r: Result<
    Option<HeaderRow>,
    DatabaseError,
>)
    ensures
        match header_row_of_first(first_views(*first)) {
            Some(Some(row)) => r matches Ok(Some(found)) && found@ == row,
            Some(None) => r matches Ok(None),
            None => r is Err && r->Err_0@ == DatabaseErrorView::FailedDeserialization(
                "FiringSequence"@,
            ),
        },
{
    match first {
        None => Ok(None),
        Some(values) => {
            if values.len() != 4 {
                return row_or_refusal(None, "FiringSequence");
            }
            match (
                unsigned_at(values, 0),
                text_at(values, 1),
                unsigned_at(values, 2),
                text_at(values, 3),
            ) {
                (
                    Some(kiln_id),
                    Some(kiln_description),
                    Some(sequence_id),
                    Some(sequence_description),
                ) => Ok(
                    Some(
                        HeaderRow {
                            kiln_id,
                            kiln_description,
                            sequence_id,
                            sequence_description,
                        },
                    ),
                ),
                _ => row_or_refusal(None, "FiringSequence"),
            }
        },
    }
}

/// The program that the row of the join and the rows of the steps stand for,
/// under the names that they were asked for by: the kiln and the header of
/// the row, the header bound to that kiln, and the steps of the rows in their
/// order, each bound to that header. Nothing when a row stands for no step.
pub open spec fn program_of_rows(
    kiln_name: Seq<char>,
    program_name: Seq<char>,
    header: HeaderRowView,
    rows: Seq<StepRow>,
) -> Option<KilnProgramView> {
    match steps_of_rows(header.sequence_id, rows) {
        Some(steps) => Some(
            KilnProgramView {
                kiln: KilnView {
                    id: header.kiln_id,
                    name: kiln_name,
                    description: header.kiln_description,
                },
                sequence: FiringSequenceView {
                    id: header.sequence_id,
                    name: program_name,
                    description: header.sequence_description,
                    kiln_id: header.kiln_id,
                },
                steps,
            },
        ),
        None => None,
    }
}

/// Puts a program together from the rows that the store yielded for the
/// names `kiln_name` and `program_name`. A row that stands for no step
/// refuses the program.
pub fn program_from_rows(
    kiln_name: &str,
    program_name: &str,
    header: &HeaderRow,
    rows: &Vec<StepRow>,
) -> (r: Result<KilnProgram, DatabaseError>)
    ensures
        match program_of_rows(kiln_name@, program_name@, header@, rows@) {
            Some(program) => r is Ok && r->Ok_0@ == program,
            None => r is Err && r->Err_0@ == DatabaseErrorView::FailedDeserialization(
                "FiringStep"@,
            ),
        },
{
    let steps = steps_from_rows(header.sequence_id, rows)?;
    let kiln = Kiln::new(header.kiln_id, kiln_name, header.kiln_description.as_str());
    let sequence = FiringSequence::new(
        header.sequence_id,
        program_name,
        header.sequence_description.as_str(),
        header.kiln_id,
    );
    let mut program = KilnProgram::new(kiln, sequence);
    program.add_steps(&steps);
    assert(program@.steps =~= step_views(steps@));
    Ok(program)
}

/// The view of a header row that may be missing.
pub open spec fn header_row_view(header: Option<HeaderRow>) -> Option<HeaderRowView> {
    match header {
        Some(header) => Some(header@),
        None => None,
    }
}

/// What a lookup of a program by two names comes to, given the row of the
/// join and the rows of the steps: no program where the join yielded no row,
/// otherwise the program that the rows stand for, or a refusal where a row
/// stands for no step.
pub open spec fn program_of_answer(
    kiln_name: Seq<char>,
    program_name: Seq<char>,
    header: Option<HeaderRowView>,
    rows: Seq<StepRow>,
) -> Result<Option<KilnProgramView>, DatabaseErrorView> {
    match header {
        None => Ok(None),
        Some(header) => match program_of_rows(kiln_name, program_name, header, rows) {
            Some(program) => Ok(Some(program)),
            None => Err(DatabaseErrorView::FailedDeserialization("FiringStep"@)),
        },
    }
}

/// Turns what the store yielded for the names `kiln_name` and `program_name`
/// into the result of the lookup. The step rows are looked at only where
/// there is a header row.
pub fn program_from_answer(
    kiln_name: &str,
    program_name: &str,
    header: &Option<HeaderRow>,
    rows: &Vec<StepRow>,
) -> (r: Result<Option<KilnProgram>, DatabaseError>)
    ensures
        match program_of_answer(kiln_name@, program_name@, header_row_view(*header), rows@) {
            Ok(Some(program)) => r matches Ok(Some(found)) && found@ == program,
            Ok(None) => r matches Ok(None),
            Err(refusal) => r is Err && r->Err_0@ == refusal,
        },
{
    match header {
        None => Ok(None),
        Some(header) => {
            let program = program_from_rows(kiln_name, program_name, header, rows)?;
            Ok(Some(program))
        },
    }
}

/// Adds to `project` the firing that `row` stands for, given what the lookup
/// of the row's program found. The firing carries the comment of the row and
/// the program that was found; where no program was found the firing is
/// refused with the names of the row and the project stays as it was.
pub fn attach_firing(project: &mut KilnProject, row: &FiringRow, found: Option<KilnProgram>) -> (r:
    Result<(), DatabaseError>)
    ensures
        match found {
            Some(program) => r is Ok && final(project)@ == (KilnProjectView {
                firings: old(project)@.firings.push(
                    FiringView { comment: row.comment@, program: program@ },
                ),
                ..old(project)@
            }),
            None => r is Err && r->Err_0@ == DatabaseErrorView::NoSuchProgram(
                row.kiln_name@,
                row.program_name@,
            ) && *final(project) == *old(project),
        },
{
    match found {
        Some(program) => {
            project.add_firing(program, row.comment.as_str());
            Ok(())
        },
        None => Err(
            DatabaseError::NoSuchProgram((row.kiln_name.clone(), row.program_name.clone())),
        ),
    }
}

/// What an [`ImageRow`] holds.
pub struct ImageRowView {
    pub id: u64,
    pub name: Seq<char>,
    pub caption: Seq<char>,
    pub contents: Seq<u8>,
}

/// One row of stored images: the image's id, its file name, its caption and
/// its bytes.
#[derive(Debug, PartialEq)]
pub struct ImageRow {
    pub id: u64,
    pub name: String,
    pub caption: String,
    pub contents: Vec<u8>,
}

impl View for ImageRow {
    type V = ImageRowView;

    open spec fn view(&self) -> ImageRowView {
        ImageRowView {
            id: self.id,
            name: self.name@,
            caption: self.caption@,
            contents: self.contents@,
        }
    }
}

/// The row of stored images that `values` stand for: the id in the first
/// column, then the name, the caption and the bytes. `None` where the values
/// are of another shape.
pub open spec fn image_row_of_values(values: Seq<SqlValueView>) -> Option<ImageRowView> {
    if values.len() == 4 && unsigned_in(values, 0) is Some && text_in(values, 1) is Some
        && text_in(values, 2) is Some && blob_in(values, 3) is Some {
        Some(
            ImageRowView {
                id: unsigned_in(values, 0)->Some_0,
                name: text_in(values, 1)->Some_0,
                caption: text_in(values, 2)->Some_0,
                contents: blob_in(values, 3)->Some_0,
            },
        )
    } else {
        None
    }
}

/// Turns the values of one row of stored images into the row, column by
/// column; the bytes are taken as they are.
pub fn image_row_from_values(values: &Vec<SqlValue>) -> (r: Option<ImageRow>)
    ensures
        match image_row_of_values(value_views(values@)) {
            Some(row) => r is Some && r->Some_0@ == row,
            None => r is None,
        },
{
    if values.len() != 4 {
        return None;
    }
    match (unsigned_at(values, 0), text_at(values, 1), text_at(values, 2), blob_at(values, 3)) {
        (Some(id), Some(name), Some(caption), Some(contents)) => Some(
            ImageRow { id, name, caption, contents },
        ),
        _ => None,
    }
}

/// The image of the project `project_id` that `row` stands for: the row's
/// name, caption and bytes as they are.
pub open spec fn image_of_row(project_id: u64, row: ImageRowView) -> ProjectImageView {
    ProjectImageView {
        id: row.id,
        project_id,
        name: row.name,
        description: row.caption,
        contents: row.contents,
    }
}

/// The images of the project `project_id` that `rows` stand for, in the
/// order of the rows.
pub open spec fn images_of_rows(project_id: u64, rows: Seq<ImageRow>) -> Seq<ProjectImageView> {
    rows.map_values(|row: ImageRow| image_of_row(project_id, row@))
}

/// Turns the rows stored for the project `project_id` into its images, one
/// for one and in the order of the rows. Every byte of every row is kept.
pub fn images_from_rows(project_id: u64, rows: &Vec<ImageRow>) -> (r: Vec<ProjectImage>)
    ensures
        image_views(r@) == images_of_rows(project_id, rows@),
{
    let mut images: Vec<ProjectImage> = Vec::new();
    let mut i: usize = 0;
    while i < rows.len()
        invariant
            i <= rows.len(),
            images@.len() == i,
            forall|k: int|
                0 <= k < i ==> (#[trigger] images@[k])@ == image_of_row(project_id, rows@[k]@),
        decreases rows.len() - i,
    {
        let row = &rows[i];
        images.push(
            ProjectImage::new(
                row.id,
                project_id,
                row.name.as_str(),
                row.caption.as_str(),
                copy_bytes(&row.contents),
            ),
        );
        i += 1;
    }
    assert(image_views(images@) =~= images_of_rows(project_id, rows@));
    images
}

/// One row of the firings of a project: the names that the fired program
/// resolves by, and the comment of the firing.
#[derive(Debug, PartialEq)]
pub struct FiringRow {
    pub kiln_name: String,
    pub program_name: String,
    pub comment: String,
}

/// What a [`FiringRow`] holds.
pub struct FiringRowView {
    pub kiln_name: Seq<char>,
    pub program_name: Seq<char>,
    pub comment: Seq<char>,
}

impl View for FiringRow {
    type V = FiringRowView;

    open spec fn view(&self) -> FiringRowView {
        FiringRowView {
            kiln_name: self.kiln_name@,
            program_name: self.program_name@,
            comment: self.comment@,
        }
    }
}

/// The row of firings that `values` stand for: the name of the kiln in the
/// first column, then the name of the program, then the comment. `None`
/// where the values are of another shape.
pub open spec fn firing_row_of_values(values: Seq<SqlValueView>) -> Option<FiringRowView> {
    if values.len() == 3 && text_in(values, 0) is Some && text_in(values, 1) is Some && text_in(
        values,
        2,
    ) is Some {
        Some(
            FiringRowView {
                kiln_name: text_in(values, 0)->Some_0,
                program_name: text_in(values, 1)->Some_0,
                comment: text_in(values, 2)->Some_0,
            },
        )
    } else {
        None
    }
}

/// Turns the values of one row of firings into the row, column by column.
pub fn firing_row_from_values(values: &Vec<SqlValue>) -> (r: Option<FiringRow>)
    ensures
        match firing_row_of_values(value_views(values@)) {
            Some(row) => r is Some && r->Some_0@ == row,
            None => r is None,
        },
{
    if values.len() != 3 {
        return None;
    }
    match (text_at(values, 0), text_at(values, 1), text_at(values, 2)) {
        (Some(kiln_name), Some(program_name), Some(comment)) => Some(
            FiringRow { kiln_name, program_name, comment },
        ),
        _ => None,
    }
}

/// The name that the one value of a row of a listing stands for. `None`
/// where the row is of another shape than one text.
pub open spec fn name_of_values(values: Seq<SqlValueView>) -> Option<Seq<char>> {
    if values.len() == 1 {
        text_in(values, 0)
    } else {
        None
    }
}

/// Turns the values of one row of a listing into the name.
pub fn name_from_values(values: &Vec<SqlValue>) -> (r: Option<String>)
    ensures
        match name_of_values(value_views(values@)) {
            Some(name) => r is Some && r->Some_0@ == name,
            None => r is None,
        },
{
    if values.len() != 1 {
        return None;
    }
    text_at(values, 0)
}

/// The empty program that an insertion of its header made: the kiln as it
/// was found, and a header that carries the row id of the insertion as its
/// id, the name and the description that were written, and the id of the
/// kiln. A row id below zero is no id, and the insertion is then refused as
/// no program header.
pub fn program_of_insert(kiln: Kiln, rowid: i64, program_name: &str, description: &str) -> (r:
    Result<KilnProgram, DatabaseError>)
    ensures
        rowid >= 0 <==> r is Ok,
        r is Ok ==> r->Ok_0@ == (KilnProgramView {
            kiln: kiln@,
            sequence: FiringSequenceView {
                id: rowid as u64,
                name: program_name@,
                description: description@,
                kiln_id: kiln@.id,
            },
            steps: Seq::empty(),
        }),
        r is Err ==> r->Err_0@ == DatabaseErrorView::FailedDeserialization("FiringSequence"@),
{
    let id = id_from_rowid(rowid, "FiringSequence")?;
    let sequence = FiringSequence::new(id, program_name, description, kiln.id());
    Ok(KilnProgram::new(kiln, sequence))
}

/// The empty project that an insertion made: it carries the row id of the
/// insertion as its id and the name and the description that were written.
/// A row id below zero is no id, and the insertion is then refused as no
/// project.
pub fn project_of_insert(rowid: i64, name: &str, description: &str) -> (r: Result<
    KilnProject,
    DatabaseError,
>)
    ensures
        rowid >= 0 <==> r is Ok,
        r is Ok ==> r->Ok_0@ == (KilnProjectView {
            project: ProjectView { id: rowid as u64, name: name@, description: description@ },
            firings: Seq::empty(),
            pictures: Seq::empty(),
        }),
        r is Err ==> r->Err_0@ == DatabaseErrorView::FailedDeserialization("Project"@),
{
    let id = id_from_rowid(rowid, "Project")?;
    Ok(KilnProject::new(Project::new(id, name, description)))
}

/// The step as it stands in the store after its insertion into the program
/// `sequence_id`: the settings of `step` under the row id of the insertion
/// and under that program. A row id below zero is no id, and the insertion
/// is then refused as no step.
pub fn step_of_insert(step: &FiringStep, rowid: i64, sequence_id: u64) -> (r: Result<
    FiringStep,
    DatabaseError,
>)
    ensures
        rowid >= 0 <==> r is Ok,
        r is Ok ==> r->Ok_0@ == (FiringStepView { id: rowid as u64, sequence_id, ..step@ }),
        r is Err ==> r->Err_0@ == DatabaseErrorView::FailedDeserialization("FiringStep"@),
{
    let id = id_from_rowid(rowid, "FiringStep")?;
    Ok(step.rebound(id, sequence_id))
}

/// Whether `firings` stand for `rows`, position by position: there is one
/// firing for each row, it carries the comment of its row, and its program
/// is a consistent one of the kiln and under the name that the row gives.
pub open spec fn firings_stand_for(firings: Seq<FiringView>, rows: Seq<FiringRow>) -> bool {
    &&& firings.len() == rows.len()
    &&& forall|k: int|
        0 <= k < rows.len() ==> {
            let firing = #[trigger] firings[k];
            &&& firing.comment == rows[k].comment@
            &&& firing.program.kiln.name == rows[k].kiln_name@
            &&& firing.program.sequence.name == rows[k].program_name@
            &&& firing.program.consistent()
        }
}

} // verus!
