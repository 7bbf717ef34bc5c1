//! What holds of the model and of the rules, whatever the values.

use vstd::prelude::*;
use crate::database::entities::FiringStepView;
use crate::database::error::DatabaseErrorView;
use crate::database::lexical::{ascending, lemma_ascending_list_is_one};
use crate::database::program::{same_settings, KilnProgramView};
use crate::database::project::{FiringView, KilnProject, KilnProjectView};
use crate::database::ramp::{column_of, rate_of, RampRate};
use crate::database::rows::{
    columns_of, images_of_rows, program_of_rows, step_of, step_of_row, step_row_of_values,
    steps_of_rows, HeaderRowView, ImageRow, StepRow,
};
use crate::database::statements::step_values;
use crate::database::values::SqlValueView;
use crate::database::rules::{header_refusal, project_refusal, replacement_refusal};

verus! {

/// A listing does not depend on the order in which the names were stored:
/// whenever the store yields the same names, each as often, in whatever
/// order, the listing is the same, and it is the ascending list of those
/// names. Here `listed_first` and `listed_second` are what the listing makes
/// of the two answers of the store: ascending, and holding what the answer
/// held.
pub proof fn lemma_listing_does_not_depend_on_order(
    first: Seq<Seq<char>>,
    second: Seq<Seq<char>>,
    listed_first: Seq<Seq<char>>,
    listed_second: Seq<Seq<char>>,
)
    requires
        first.to_multiset() == second.to_multiset(),
        ascending(listed_first),
        listed_first.to_multiset() == first.to_multiset(),
        ascending(listed_second),
        listed_second.to_multiset() == second.to_multiset(),
    ensures
        listed_first == listed_second,
        listed_first.len() == first.len(),
{
    lemma_ascending_list_is_one(listed_first, listed_second);
    vstd::seq_lib::to_multiset_len(first);
    vstd::seq_lib::to_multiset_len(listed_first);
}

/// Every ramp rate survives storage: decoding the column that a rate encodes
/// to gives that rate again.
pub proof fn lemma_rate_survives_storage(rate: RampRate)
    ensures
        rate_of(column_of(rate)) == Some(rate),
{
}

/// Every column that stands for a rate is the one that the rate encodes to:
/// no two columns decode to the same rate.
pub proof fn lemma_column_survives_decoding(column: int)
    requires
        rate_of(column) is Some,
    ensures
        column_of(rate_of(column)->Some_0) == column,
{
}

/// The encoding keeps rates apart: two rates with the same column are the
/// same rate, so no regulated rate, however slow, is taken for as fast as
/// possible.
pub proof fn lemma_columns_tell_rates_apart(first: RampRate, second: RampRate)
    requires
        column_of(first) == column_of(second),
    ensures
        first == second,
{
}

/// The settings of every step survive storage: the columns that a step is
/// written under are read back as a step with the same ramp rate, target
/// temperature and dwell time, under the ids given to the reader.
pub proof fn lemma_step_survives_storage(step: FiringStepView, id: u64, sequence_id: u64)
    ensures
        step_of(id, sequence_id, columns_of(step)) == Some(
            FiringStepView { id, sequence_id, ..step },
        ),
        step_of(id, sequence_id, columns_of(step))->Some_0.settings() == step.settings(),
{
}

/// What is written for a step is read back as that step: when the store
/// yields for a row the three values that were bound for the settings of a
/// step, behind the id of the row, the row is read as a step with the same
/// ramp rate, target temperature and dwell time, under that id and under the
/// program that was asked for.
pub proof fn lemma_written_step_is_read_back(step: FiringStepView, sequence_id: u64, id: u64)
    ensures
        ({
            let written = step_values(sequence_id, step);
            let read = seq![SqlValueView::Unsigned(id), written[1], written[2], written[3]];
            &&& written.len() == 4
            &&& written[0] == SqlValueView::Unsigned(sequence_id)
            &&& step_row_of_values(read) is Some
            &&& step_row_of_values(read)->Some_0.columns() == columns_of(step)
            &&& step_of_row(sequence_id, step_row_of_values(read)->Some_0) == Some(
                FiringStepView { id, sequence_id, ..step },
            )
        }),
{
    lemma_step_survives_storage(step, id, sequence_id);
}

/// The steps of every program survive storage, in their order: when the
/// store yields, row for row, the columns that the steps were written under,
/// the rows are read back as steps with the same ramp rates, target
/// temperatures and dwell times in the same order, each under the id of its
/// row and all under the program that was asked for.
pub proof fn lemma_stored_steps_come_back(
    steps: Seq<FiringStepView>,
    rows: Seq<StepRow>,
    sequence_id: u64,
)
    requires
        rows.len() == steps.len(),
        forall|i: int|
            0 <= i < rows.len() ==> (#[trigger] rows[i]).columns() == columns_of(steps[i]),
    ensures
        steps_of_rows(sequence_id, rows) is Some,
        same_settings(steps_of_rows(sequence_id, rows)->Some_0, steps),
        forall|i: int|
            0 <= i < rows.len() ==> (#[trigger] steps_of_rows(sequence_id, rows)->Some_0[i]).id
                == rows[i].id && steps_of_rows(sequence_id, rows)->Some_0[i].sequence_id
                == sequence_id,
{
    assert forall|i: int| 0 <= i < rows.len() implies step_of_row(
        sequence_id,
        #[trigger] rows[i],
    ) is Some by {
        lemma_step_survives_storage(steps[i], rows[i].id, sequence_id);
    }
    let read = steps_of_rows(sequence_id, rows)->Some_0;
    assert forall|i: int| 0 <= i < rows.len() implies (#[trigger] read[i]).settings()
        == steps[i].settings() by {
        lemma_step_survives_storage(steps[i], rows[i].id, sequence_id);
    }
}

/// Rows that the store yields in some order are read as steps in that
/// order: as many steps as rows, the step at a position standing for the row
/// at that position.
pub proof fn lemma_rows_keep_their_order(rows: Seq<StepRow>, sequence_id: u64)
    requires
        steps_of_rows(sequence_id, rows) is Some,
    ensures
        steps_of_rows(sequence_id, rows)->Some_0.len() == rows.len(),
        forall|i: int|
            0 <= i < rows.len() ==> Some(#[trigger] steps_of_rows(sequence_id, rows)->Some_0[i])
                == step_of_row(sequence_id, rows[i]),
{
}

/// Every program that is put together from rows is consistent: it carries
/// the names it was asked for by, its header belongs to its kiln, and each of
/// its steps belongs to its header, one step for each row.
pub proof fn lemma_program_of_rows_is_consistent(
    kiln_name: Seq<char>,
    program_name: Seq<char>,
    header: HeaderRowView,
    rows: Seq<StepRow>,
)
    requires
        program_of_rows(kiln_name, program_name, header, rows) is Some,
    ensures
        program_of_rows(kiln_name, program_name, header, rows)->Some_0.consistent(),
        program_of_rows(kiln_name, program_name, header, rows)->Some_0.kiln.name == kiln_name,
        program_of_rows(kiln_name, program_name, header, rows)->Some_0.sequence.name
            == program_name,
        program_of_rows(kiln_name, program_name, header, rows)->Some_0.steps.len() == rows.len(),
{
    lemma_rows_keep_their_order(rows, header.sequence_id);
}

/// Every image comes back as it was stored: the images stand for the rows
/// one for one and in order, each with the name, the caption and the bytes
/// of its row, byte for byte.
pub proof fn lemma_images_keep_their_bytes(rows: Seq<ImageRow>, project_id: u64)
    ensures
        images_of_rows(project_id, rows).len() == rows.len(),
        forall|i: int|
            0 <= i < rows.len() ==> {
                let image = #[trigger] images_of_rows(project_id, rows)[i];
                &&& image.contents == rows[i]@.contents
                &&& image.name == rows[i]@.name
                &&& image.description == rows[i]@.caption
                &&& image.id == rows[i]@.id
                &&& image.project_id == project_id
            },
{
}

/// A program that differs from the stored one in any single field of its
/// kiln or of its header (the kiln's id, name or description, the header's
/// id, name, description or kiln id) is refused as inconsistent, and the
/// refusal carries the names of the stored program, whatever the caller's
/// program says.
pub proof fn lemma_altered_header_is_refused(program: KilnProgramView, stored: KilnProgramView)
    requires
        program.kiln.id != stored.kiln.id || program.kiln.name != stored.kiln.name
            || program.kiln.description != stored.kiln.description || program.sequence.id
            != stored.sequence.id || program.sequence.name != stored.sequence.name
            || program.sequence.description != stored.sequence.description
            || program.sequence.kiln_id != stored.sequence.kiln_id,
    ensures
        header_refusal(program, stored) == Some(
            DatabaseErrorView::InconsistentProgram(stored.kiln.name, stored.sequence.name),
        ),
        replacement_refusal(Some(stored), program, stored.kiln.name, stored.sequence.name)
            == Some(
            DatabaseErrorView::InconsistentProgram(stored.kiln.name, stored.sequence.name),
        ),
{
}

/// A program that agrees with the stored one in kiln and header is never
/// refused, whatever its steps are.
pub proof fn lemma_same_header_is_accepted(program: KilnProgramView, stored: KilnProgramView)
    requires
        program.kiln == stored.kiln,
        program.sequence == stored.sequence,
    ensures
        header_refusal(program, stored) is None,
{
}

/// A replacement under names that resolve to no program is refused with
/// exactly that pair of names, whatever the program says.
pub proof fn lemma_unknown_names_are_refused(
    program: KilnProgramView,
    kiln_name: Seq<char>,
    program_name: Seq<char>,
)
    ensures
        replacement_refusal(None, program, kiln_name, program_name) == Some(
            DatabaseErrorView::NoSuchProgram(kiln_name, program_name),
        ),
{
}

/// A firing is refused exactly when the caller's project and the stored one
/// carry different ids, and the refusal names the caller's project.
pub proof fn lemma_stale_project_is_refused(project: KilnProjectView, stored: KilnProjectView)
    ensures
        project_refusal(project, stored) is Some <==> project.project.id != stored.project.id,
        project_refusal(project, stored) is Some ==> project_refusal(project, stored)
            == Some(DatabaseErrorView::InconsistentProject(project.project.name)),
{
}

/// In every project the comments and the programs of the firings run in
/// lockstep: there are as many of the one as of the other, and the comment
/// at a position belongs to the program at that position.
pub proof fn lemma_firings_in_lockstep(project: KilnProject)
    ensures
        project@.firing_comments().len() == project@.programs().len(),
        project@.firing_comments().len() == project@.firings.len(),
        forall|i: int|
            0 <= i < project@.firings.len() ==> project@.firing_comments()[i]
                == project@.firings[i].comment && project@.programs()[i]
                == project@.firings[i].program,
{
}

/// Adding a firing lengthens comments and programs by one each and leaves
/// the earlier pairs where they were.
pub proof fn lemma_added_firing_keeps_pairs(
    before: KilnProjectView,
    comment: Seq<char>,
    program: KilnProgramView,
)
    ensures
        ({
            let after = KilnProjectView {
                firings: before.firings.push(FiringView { comment, program }),
                ..before
            };
            &&& after.firing_comments() == before.firing_comments().push(comment)
            &&& after.programs() == before.programs().push(program)
        }),
{
    let after = KilnProjectView {
        firings: before.firings.push(FiringView { comment, program }),
        ..before
    };
    assert(after.firing_comments() =~= before.firing_comments().push(comment));
    assert(after.programs() =~= before.programs().push(program));
}

/// Inserting a firing at a position inserts its comment and its program at
/// that position, and every other pair stays together.
pub proof fn lemma_inserted_firing_keeps_pairs(
    before: KilnProjectView,
    comment: Seq<char>,
    program: KilnProgramView,
    index: int,
)
    requires
        0 <= index <= before.firings.len(),
    ensures
        ({
            let after = KilnProjectView {
                firings: before.firings.insert(index, FiringView { comment, program }),
                ..before
            };
            &&& after.firing_comments() == before.firing_comments().insert(index, comment)
            &&& after.programs() == before.programs().insert(index, program)
        }),
{
    let after = KilnProjectView {
        firings: before.firings.insert(index, FiringView { comment, program }),
        ..before
    };
    assert(after.firing_comments() =~= before.firing_comments().insert(index, comment));
    assert(after.programs() =~= before.programs().insert(index, program));
}

/// Deleting the firing at a position takes out its comment and its program,
/// both at that position, and every other pair stays together.
pub proof fn lemma_deleted_firing_keeps_pairs(before: KilnProjectView, index: int)
    requires
        0 <= index < before.firings.len(),
    ensures
        ({
            let after = KilnProjectView { firings: before.firings.remove(index), ..before };
            &&& after.firing_comments() == before.firing_comments().remove(index)
            &&& after.programs() == before.programs().remove(index)
        }),
{
    let after = KilnProjectView { firings: before.firings.remove(index), ..before };
    assert(after.firing_comments() =~= before.firing_comments().remove(index));
    assert(after.programs() =~= before.programs().remove(index));
}

} // verus!
