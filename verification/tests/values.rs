use kiln::database::statements::{
    count_kinds, count_programs_values, firing_row_kinds, header_row_kinds, header_values,
    id_values, image_row_kinds, insert_firing_values, insert_image_values, insert_kiln_values,
    insert_program_values, insert_project_values, insert_step_values, name_kinds, name_values,
    named_row_kinds, step_row_kinds,
};
use kiln::database::values::{blob_at, integer_at, text_at, unsigned_at, SqlKind, SqlValue};
use kiln::database::{FiringStep, RampRate};

fn text(value: &str) -> SqlValue {
    SqlValue::Text(value.to_string())
}

#[test]
fn values_are_found_by_position_and_kind() {
    let values = vec![text("a"), SqlValue::Unsigned(7), SqlValue::Integer(-3), SqlValue::Blob(vec![1, 2])];
    assert_eq!(text_at(&values, 0), Some("a".to_string()));
    assert_eq!(unsigned_at(&values, 1), Some(7));
    assert_eq!(integer_at(&values, 2), Some(-3));
    assert_eq!(blob_at(&values, 3), Some(vec![1, 2]));
    for index in 0..6 {
        if index != 0 {
            assert_eq!(text_at(&values, index), None);
        }
        if index != 1 {
            assert_eq!(unsigned_at(&values, index), None);
        }
        if index != 2 {
            assert_eq!(integer_at(&values, index), None);
        }
        if index != 3 {
            assert_eq!(blob_at(&values, index), None);
        }
    }
    assert_eq!(text_at(&values, usize::MAX), None);
}

#[test]
fn lookups_are_handed_the_name_or_the_id() {
    assert_eq!(name_values("Kiln1"), vec![text("Kiln1")]);
    assert_eq!(name_values(""), vec![text("")]);
    assert_eq!(id_values(7), vec![SqlValue::Unsigned(7)]);
    assert_eq!(header_values("Kiln1", "Slump"), vec![text("Kiln1"), text("Slump")]);
    assert_eq!(
        count_programs_values(3, "Slump"),
        vec![SqlValue::Unsigned(3), text("Slump")]
    );
}

#[test]
fn insertions_are_handed_their_values_in_the_order_of_the_columns() {
    assert_eq!(
        insert_kiln_values("Kiln1", "Large-ish kiln on 120V"),
        vec![text("Kiln1"), text("Large-ish kiln on 120V")]
    );
    assert_eq!(insert_project_values("Bowl", "small"), vec![text("Bowl"), text("small")]);
    assert_eq!(
        insert_program_values("Slump", "slumping", 3),
        vec![text("Slump"), text("slumping"), SqlValue::Unsigned(3)]
    );
    assert_eq!(
        insert_firing_values(1, 8, "why"),
        vec![SqlValue::Unsigned(1), SqlValue::Unsigned(8), text("why")]
    );
    assert_eq!(
        insert_image_values(1, "final.jpg", "The result", &vec![0, 255]),
        vec![SqlValue::Unsigned(1), text("final.jpg"), text("The result"), SqlValue::Blob(vec![0, 255])]
    );
}

#[test]
fn a_step_is_handed_over_as_its_program_and_its_three_columns() {
    let afap = FiringStep::new(5, 6, RampRate::AFAP, 1000, 30);
    assert_eq!(
        insert_step_values(8, &afap),
        vec![
            SqlValue::Unsigned(8),
            SqlValue::Integer(-1),
            SqlValue::Integer(1000),
            SqlValue::Integer(30),
        ]
    );
    let rated = FiringStep::new(5, 6, RampRate::DegPerSec(300), 1250, 15);
    assert_eq!(
        insert_step_values(9, &rated),
        vec![
            SqlValue::Unsigned(9),
            SqlValue::Integer(300),
            SqlValue::Integer(1250),
            SqlValue::Integer(15),
        ]
    );
}

#[test]
fn rows_are_read_as_the_kinds_of_their_columns() {
    assert_eq!(count_kinds(), vec![SqlKind::Unsigned]);
    assert_eq!(name_kinds(), vec![SqlKind::Text]);
    assert_eq!(named_row_kinds(), vec![SqlKind::Unsigned, SqlKind::Text]);
    assert_eq!(
        header_row_kinds(),
        vec![SqlKind::Unsigned, SqlKind::Text, SqlKind::Unsigned, SqlKind::Text]
    );
    assert_eq!(
        step_row_kinds(),
        vec![SqlKind::Unsigned, SqlKind::Integer, SqlKind::Integer, SqlKind::Integer]
    );
    assert_eq!(firing_row_kinds(), vec![SqlKind::Text, SqlKind::Text, SqlKind::Text]);
    assert_eq!(
        image_row_kinds(),
        vec![SqlKind::Unsigned, SqlKind::Text, SqlKind::Text, SqlKind::Blob]
    );
}
