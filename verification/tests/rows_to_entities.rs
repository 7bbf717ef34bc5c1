use kiln::database::rows::{
    attach_firing, count_from_first, firing_row_from_values, header_row_from_first,
    image_row_from_values, images_from_rows, kiln_from_row, name_from_values,
    named_row_from_first, program_from_answer, program_from_rows, program_of_insert,
    project_from_row, project_of_insert, row_or_refusal, step_of_insert, step_row_from_values,
    step_to_columns, steps_from_rows, FiringRow, HeaderRow, ImageRow, NamedRow, StepRow,
};
use kiln::database::values::SqlValue;
use kiln::database::{
    DatabaseError, FiringSequence, FiringStep, Kiln, KilnProgram, KilnProject, Project,
    ProjectImage, RampRate,
};

fn row(id: u64, ramp_rate: i64, target_temp: i64, dwell_time: i64) -> StepRow {
    StepRow { id, ramp_rate, target_temp, dwell_time }
}

#[test]
fn step_rows_become_steps_in_their_order() {
    let rows = vec![row(7, -1, 1000, 30), row(3, 300, 1250, 15), row(9, 0, 0, 0)];
    assert_eq!(
        steps_from_rows(4, &rows).unwrap(),
        vec![
            FiringStep::new(7, 4, RampRate::AFAP, 1000, 30),
            FiringStep::new(3, 4, RampRate::DegPerSec(300), 1250, 15),
            FiringStep::new(9, 4, RampRate::DegPerSec(0), 0, 0),
        ]
    );
    assert_eq!(steps_from_rows(4, &vec![]).unwrap(), Vec::<FiringStep>::new());
}

#[test]
fn one_row_that_is_no_step_refuses_the_list() {
    let lists = vec![
        vec![row(1, -2, 1000, 30)],
        vec![row(1, -1, 1000, 30), row(2, 300, -1, 15)],
        vec![row(1, -1, 1000, 30), row(2, 300, 1250, 15), row(3, 1, 1, 4_294_967_296)],
    ];
    for rows in lists.iter() {
        match steps_from_rows(4, rows) {
            Err(DatabaseError::FailedDeserialization(entity)) => assert_eq!(entity, "FiringStep"),
            other => panic!("expected a failed deserialization, got {:?}", other),
        }
    }
}

#[test]
fn written_steps_come_back_in_order_with_their_settings() {
    let steps = vec![
        FiringStep::new(0, 0, RampRate::AFAP, 1000, 30),
        FiringStep::new(0, 0, RampRate::DegPerSec(300), 1250, 15),
    ];
    let rows: Vec<StepRow> = steps
        .iter()
        .enumerate()
        .map(|(i, step)| {
            let (ramp_rate, target_temp, dwell_time) = step_to_columns(step);
            StepRow { id: 10 + i as u64, ramp_rate, target_temp, dwell_time }
        })
        .collect();
    assert_eq!(
        steps_from_rows(6, &rows).unwrap(),
        vec![steps[0].rebound(10, 6), steps[1].rebound(11, 6)]
    );
}

#[test]
fn image_rows_become_images_byte_for_byte() {
    let rows = vec![
        ImageRow {
            id: 5,
            name: "final.jpg".to_string(),
            caption: "The result".to_string(),
            contents: vec![0, 255, 1, 0],
        },
        ImageRow { id: 2, name: "b.jpg".to_string(), caption: String::new(), contents: vec![] },
    ];
    assert_eq!(
        images_from_rows(8, &rows),
        vec![
            ProjectImage::new(5, 8, "final.jpg", "The result", vec![0, 255, 1, 0]),
            ProjectImage::new(2, 8, "b.jpg", "", vec![]),
        ]
    );
    assert_eq!(images_from_rows(8, &vec![]), Vec::<ProjectImage>::new());
}

fn header() -> HeaderRow {
    HeaderRow {
        kiln_id: 3,
        kiln_description: "big".to_string(),
        sequence_id: 8,
        sequence_description: "fusing".to_string(),
    }
}

#[test]
fn a_program_is_put_together_from_its_rows() {
    let rows = vec![row(21, -1, 1000, 30), row(22, 300, 1250, 15)];
    let program = program_from_rows("Kiln1", "Full fuse", &header(), &rows).unwrap();
    assert_eq!(program.owner(), Kiln::new(3, "Kiln1", "big"));
    assert_eq!(program.sequence(), FiringSequence::new(8, "Full fuse", "fusing", 3));
    assert_eq!(
        program.steps(),
        vec![
            FiringStep::new(21, 8, RampRate::AFAP, 1000, 30),
            FiringStep::new(22, 8, RampRate::DegPerSec(300), 1250, 15),
        ]
    );
    let empty = program_from_rows("Kiln1", "Full fuse", &header(), &vec![]).unwrap();
    assert_eq!(empty.len(), 0);
    assert_eq!(empty.sequence().kiln_id(), empty.owner().id());
}

#[test]
fn a_program_with_a_row_that_is_no_step_is_refused() {
    let rows = vec![row(21, -1, 1000, 30), row(22, -7, 1250, 15)];
    match program_from_rows("Kiln1", "Full fuse", &header(), &rows) {
        Err(DatabaseError::FailedDeserialization(entity)) => assert_eq!(entity, "FiringStep"),
        other => panic!("expected a failed deserialization, got {:?}", other),
    }
}

#[test]
fn no_row_counts_as_nothing() {
    assert_eq!(count_from_first(&None, "Kiln").unwrap(), 0);
    assert_eq!(count_from_first(&Some(vec![SqlValue::Unsigned(0)]), "Kiln").unwrap(), 0);
    assert_eq!(count_from_first(&Some(vec![SqlValue::Unsigned(1)]), "Kiln").unwrap(), 1);
    assert_eq!(
        count_from_first(&Some(vec![SqlValue::Unsigned(u64::MAX)]), "Kiln").unwrap(),
        u64::MAX
    );
}

#[test]
fn a_count_row_of_another_shape_is_refused() {
    let shapes = vec![
        vec![],
        vec![SqlValue::Integer(1)],
        vec![SqlValue::Text("1".to_string())],
        vec![SqlValue::Unsigned(1), SqlValue::Unsigned(2)],
    ];
    for values in shapes {
        match count_from_first(&Some(values), "Project") {
            Err(DatabaseError::FailedDeserialization(entity)) => assert_eq!(entity, "Project"),
            other => panic!("expected a failed deserialization, got {:?}", other),
        }
    }
}

#[test]
fn a_named_row_is_read_column_by_column() {
    assert_eq!(named_row_from_first(&None, "Kiln").unwrap(), None);
    let values = vec![SqlValue::Unsigned(4), SqlValue::Text("big".to_string())];
    assert_eq!(
        named_row_from_first(&Some(values), "Kiln").unwrap(),
        Some(NamedRow { id: 4, description: "big".to_string() })
    );
    let swapped = vec![SqlValue::Text("big".to_string()), SqlValue::Unsigned(4)];
    match named_row_from_first(&Some(swapped), "Kiln") {
        Err(DatabaseError::FailedDeserialization(entity)) => assert_eq!(entity, "Kiln"),
        other => panic!("expected a failed deserialization, got {:?}", other),
    }
    let short = vec![SqlValue::Unsigned(4)];
    assert!(named_row_from_first(&Some(short), "Kiln").is_err());
}

#[test]
fn a_header_row_is_read_column_by_column() {
    assert_eq!(header_row_from_first(&None).unwrap(), None);
    let values = vec![
        SqlValue::Unsigned(3),
        SqlValue::Text("big".to_string()),
        SqlValue::Unsigned(8),
        SqlValue::Text("fusing".to_string()),
    ];
    assert_eq!(header_row_from_first(&Some(values)).unwrap(), Some(header()));
    let wrong = vec![
        SqlValue::Unsigned(3),
        SqlValue::Text("big".to_string()),
        SqlValue::Integer(8),
        SqlValue::Text("fusing".to_string()),
    ];
    match header_row_from_first(&Some(wrong)) {
        Err(DatabaseError::FailedDeserialization(entity)) => assert_eq!(entity, "FiringSequence"),
        other => panic!("expected a failed deserialization, got {:?}", other),
    }
}

#[test]
fn a_step_row_is_read_column_by_column() {
    let values = vec![
        SqlValue::Unsigned(7),
        SqlValue::Integer(-1),
        SqlValue::Integer(1000),
        SqlValue::Integer(30),
    ];
    assert_eq!(step_row_from_values(&values), Some(row(7, -1, 1000, 30)));
    assert_eq!(step_row_from_values(&values[..3].iter().map(copy).collect()), None);
    let wrong = vec![
        SqlValue::Integer(7),
        SqlValue::Integer(-1),
        SqlValue::Integer(1000),
        SqlValue::Integer(30),
    ];
    assert_eq!(step_row_from_values(&wrong), None);
}

fn copy(value: &SqlValue) -> SqlValue {
    match value {
        SqlValue::Text(text) => SqlValue::Text(text.clone()),
        SqlValue::Unsigned(number) => SqlValue::Unsigned(*number),
        SqlValue::Integer(number) => SqlValue::Integer(*number),
        SqlValue::Blob(bytes) => SqlValue::Blob(bytes.clone()),
    }
}

#[test]
fn a_firing_row_and_an_image_row_are_read_column_by_column() {
    let firing = vec![
        SqlValue::Text("Kiln1".to_string()),
        SqlValue::Text("Slump".to_string()),
        SqlValue::Text("why".to_string()),
    ];
    assert_eq!(firing_row_from_values(&firing), Some(firing_row("Slump", "why")));
    assert_eq!(firing_row_from_values(&vec![]), None);
    let image = vec![
        SqlValue::Unsigned(5),
        SqlValue::Text("final.jpg".to_string()),
        SqlValue::Text("The result".to_string()),
        SqlValue::Blob(vec![0, 255, 1]),
    ];
    assert_eq!(
        image_row_from_values(&image),
        Some(ImageRow {
            id: 5,
            name: "final.jpg".to_string(),
            caption: "The result".to_string(),
            contents: vec![0, 255, 1],
        })
    );
    assert_eq!(image_row_from_values(&firing), None);
    assert_eq!(name_from_values(&vec![SqlValue::Text("Kiln1".to_string())]), Some("Kiln1".to_string()));
    assert_eq!(name_from_values(&vec![SqlValue::Unsigned(1)]), None);
    assert_eq!(name_from_values(&vec![]), None);
}

#[test]
fn what_an_insertion_made_carries_its_row_id() {
    let program = program_of_insert(Kiln::new(3, "Kiln1", "big"), 8, "Slump", "slumping").unwrap();
    assert_eq!(program.owner(), Kiln::new(3, "Kiln1", "big"));
    assert_eq!(program.sequence(), FiringSequence::new(8, "Slump", "slumping", 3));
    assert_eq!(program.len(), 0);

    let project = project_of_insert(12, "Bowl", "A small bowl").unwrap();
    assert_eq!(project, KilnProject::new(Project::new(12, "Bowl", "A small bowl")));

    let step = FiringStep::new(0, 0, RampRate::DegPerSec(300), 1250, 15);
    assert_eq!(
        step_of_insert(&step, 41, 8).unwrap(),
        FiringStep::new(41, 8, RampRate::DegPerSec(300), 1250, 15)
    );
    assert_eq!(
        step_of_insert(&step, i64::MAX, 8).unwrap().id(),
        9_223_372_036_854_775_807
    );
}

#[test]
fn a_row_id_below_zero_refuses_what_was_inserted() {
    match program_of_insert(Kiln::new(3, "Kiln1", "big"), -1, "Slump", "") {
        Err(DatabaseError::FailedDeserialization(entity)) => assert_eq!(entity, "FiringSequence"),
        other => panic!("expected a failed deserialization, got {:?}", other),
    }
    match project_of_insert(-1, "Bowl", "") {
        Err(DatabaseError::FailedDeserialization(entity)) => assert_eq!(entity, "Project"),
        other => panic!("expected a failed deserialization, got {:?}", other),
    }
    let step = FiringStep::new(0, 0, RampRate::AFAP, 1, 1);
    match step_of_insert(&step, i64::MIN, 8) {
        Err(DatabaseError::FailedDeserialization(entity)) => assert_eq!(entity, "FiringStep"),
        other => panic!("expected a failed deserialization, got {:?}", other),
    }
}

#[test]
fn a_missing_row_is_refused_as_no_entity() {
    assert_eq!(row_or_refusal(Some(3u8), "Kiln").unwrap(), 3);
    match row_or_refusal(None::<u8>, "Kiln") {
        Err(DatabaseError::FailedDeserialization(entity)) => assert_eq!(entity, "Kiln"),
        other => panic!("expected a failed deserialization, got {:?}", other),
    }
}

#[test]
fn no_row_means_no_kiln() {
    assert_eq!(kiln_from_row("Kiln1", &None), None);
    let row = NamedRow { id: 4, description: "big".to_string() };
    assert_eq!(kiln_from_row("Kiln1", &Some(row)), Some(Kiln::new(4, "Kiln1", "big")));
}

#[test]
fn no_row_means_no_project() {
    assert_eq!(project_from_row("Bowl", &None), None);
    let row = NamedRow { id: 9, description: "A small bowl".to_string() };
    let project = project_from_row("Bowl", &Some(row)).unwrap();
    assert_eq!(project, KilnProject::new(Project::new(9, "Bowl", "A small bowl")));
    assert_eq!(project.firing_count(), 0);
    assert_eq!(project.picture_count(), 0);
}

#[test]
fn no_header_row_means_no_program_whatever_the_step_rows() {
    let rows = vec![row(21, -1, 1000, 30), row(22, -7, 1250, 15)];
    assert_eq!(program_from_answer("Kiln1", "Full fuse", &None, &rows).unwrap(), None);
    assert_eq!(program_from_answer("Kiln1", "Full fuse", &None, &vec![]).unwrap(), None);
}

#[test]
fn a_header_row_means_the_program_of_the_rows() {
    let rows = vec![row(21, -1, 1000, 30)];
    let found = program_from_answer("Kiln1", "Full fuse", &Some(header()), &rows).unwrap();
    assert_eq!(found, Some(program_from_rows("Kiln1", "Full fuse", &header(), &rows).unwrap()));
    let bad = vec![row(21, -9, 1000, 30)];
    match program_from_answer("Kiln1", "Full fuse", &Some(header()), &bad) {
        Err(DatabaseError::FailedDeserialization(entity)) => assert_eq!(entity, "FiringStep"),
        other => panic!("expected a failed deserialization, got {:?}", other),
    }
}

fn firing_row(program_name: &str, comment: &str) -> FiringRow {
    FiringRow {
        kiln_name: "Kiln1".to_string(),
        program_name: program_name.to_string(),
        comment: comment.to_string(),
    }
}

fn named(name: &str) -> KilnProgram {
    KilnProgram::new(Kiln::new(1, "Kiln1", "big"), FiringSequence::new(2, name, "", 1))
}

#[test]
fn a_firing_row_is_paired_with_the_program_that_was_found() {
    let mut project = KilnProject::new(Project::new(1, "Bowl", ""));
    attach_firing(&mut project, &firing_row("Full fuse", "first"), Some(named("Full fuse")))
        .unwrap();
    attach_firing(&mut project, &firing_row("Slump", "second"), Some(named("Slump"))).unwrap();
    assert_eq!(project.firing_comments(), vec!["first".to_string(), "second".to_string()]);
    assert_eq!(project.firings(), vec![named("Full fuse"), named("Slump")]);
}

#[test]
fn a_firing_row_without_its_program_is_refused_with_its_names() {
    let mut project = KilnProject::new(Project::new(1, "Bowl", ""));
    attach_firing(&mut project, &firing_row("Full fuse", "first"), Some(named("Full fuse")))
        .unwrap();
    let before = project.clone();
    match attach_firing(&mut project, &firing_row("Slump", "second"), None) {
        Err(DatabaseError::NoSuchProgram((kiln, program))) => {
            assert_eq!(kiln, "Kiln1");
            assert_eq!(program, "Slump");
        },
        other => panic!("expected a missing program, got {:?}", other),
    }
    assert_eq!(project, before);
}
