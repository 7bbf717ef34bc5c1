use kiln::database::rows::{id_from_rowid, step_from_columns, step_to_columns};
use kiln::database::rules::{
    check_header, check_project, column_answer, replacement_target, resolve_kiln,
    resolve_program, resolve_project, store_answer, unique_name,
};
use kiln::database::{
    DatabaseError, FiringSequence, FiringStep, Kiln, KilnProgram, KilnProject, Project, RampRate,
};

fn held(kiln: Kiln, sequence: FiringSequence) -> KilnProgram {
    KilnProgram::new(kiln, sequence)
}

fn stored() -> KilnProgram {
    held(Kiln::new(1, "Kiln1", "big"), FiringSequence::new(2, "Full fuse", "fusing", 1))
}

#[test]
fn rates_are_encoded_as_one_signed_integer() {
    assert_eq!(RampRate::AFAP.to_column(), -1);
    assert_eq!(RampRate::DegPerSec(0).to_column(), 0);
    assert_eq!(RampRate::DegPerSec(300).to_column(), 300);
    assert_eq!(RampRate::DegPerSec(u32::MAX).to_column(), 4_294_967_295);
}

#[test]
fn rates_are_decoded_from_one_signed_integer() {
    assert_eq!(RampRate::from_column(-1), Some(RampRate::AFAP));
    assert_eq!(RampRate::from_column(0), Some(RampRate::DegPerSec(0)));
    assert_eq!(RampRate::from_column(300), Some(RampRate::DegPerSec(300)));
    assert_eq!(RampRate::from_column(4_294_967_295), Some(RampRate::DegPerSec(u32::MAX)));
    assert_eq!(RampRate::from_column(4_294_967_296), None);
    assert_eq!(RampRate::from_column(-2), None);
    assert_eq!(RampRate::from_column(i64::MIN), None);
    assert_eq!(RampRate::from_column(i64::MAX), None);
}

#[test]
fn rates_survive_the_round_trip() {
    let rates = [
        RampRate::AFAP,
        RampRate::DegPerSec(0),
        RampRate::DegPerSec(1),
        RampRate::DegPerSec(300),
        RampRate::DegPerSec(u32::MAX),
    ];
    for rate in rates {
        assert_eq!(RampRate::from_column(rate.to_column()), Some(rate));
    }
    assert_ne!(RampRate::DegPerSec(0).to_column(), RampRate::AFAP.to_column());
}

#[test]
fn a_free_name_is_counted_zero_times() {
    assert!(unique_name(0, "Kiln1").is_ok());
    for count in [1, 2, u64::MAX] {
        match unique_name(count, "Kiln1") {
            Err(DatabaseError::DuplicateName(name)) => assert_eq!(name, "Kiln1"),
            other => panic!("expected a duplicate, got {:?}", other),
        }
    }
}

#[test]
fn a_lookup_that_found_nothing_is_refused_by_name() {
    match resolve_kiln(None, "Kiln1") {
        Err(DatabaseError::NoSuchName(name)) => assert_eq!(name, "Kiln1"),
        other => panic!("expected a missing kiln, got {:?}", other),
    }
    match resolve_program(None, "Kiln1", "Slump") {
        Err(DatabaseError::NoSuchProgram((kiln, program))) => {
            assert_eq!(kiln, "Kiln1");
            assert_eq!(program, "Slump");
        },
        other => panic!("expected a missing program, got {:?}", other),
    }
    match resolve_project(None, "Bowl") {
        Err(DatabaseError::NoSuchName(name)) => assert_eq!(name, "Bowl"),
        other => panic!("expected a missing project, got {:?}", other),
    }
}

#[test]
fn a_lookup_that_found_something_hands_it_on() {
    assert_eq!(resolve_kiln(Some(Kiln::new(1, "a", "b")), "x").unwrap(), Kiln::new(1, "a", "b"));
    assert_eq!(resolve_program(Some(stored()), "x", "y").unwrap(), stored());
    let project = KilnProject::new(Project::new(1, "Bowl", ""));
    assert_eq!(resolve_project(Some(project.clone()), "x").unwrap(), project);
}

#[test]
fn the_same_header_is_accepted_whatever_the_steps() {
    let mut program = stored();
    program.add_step(FiringStep::new(9, 9, RampRate::AFAP, 1, 1));
    assert!(check_header(&program, &stored()).is_ok());
    assert_eq!(replacement_target(Some(stored()), &program, "a", "b").unwrap(), stored());
}

#[test]
fn every_altered_field_is_refused_with_the_stored_names() {
    let forged = vec![
        held(Kiln::new(9, "Kiln1", "big"), FiringSequence::new(2, "Full fuse", "fusing", 1)),
        held(Kiln::new(1, "Forged", "big"), FiringSequence::new(2, "Full fuse", "fusing", 1)),
        held(Kiln::new(1, "Kiln1", "small"), FiringSequence::new(2, "Full fuse", "fusing", 1)),
        held(Kiln::new(1, "Kiln1", "big"), FiringSequence::new(9, "Full fuse", "fusing", 1)),
        held(Kiln::new(1, "Kiln1", "big"), FiringSequence::new(2, "Forged", "fusing", 1)),
        held(Kiln::new(1, "Kiln1", "big"), FiringSequence::new(2, "Full fuse", "other", 1)),
        held(Kiln::new(1, "Kiln1", "big"), FiringSequence::new(2, "Full fuse", "fusing", 9)),
    ];
    for program in forged.iter() {
        match check_header(program, &stored()) {
            Err(DatabaseError::InconsistentProgram((kiln, name))) => {
                assert_eq!(kiln, "Kiln1");
                assert_eq!(name, "Full fuse");
            },
            other => panic!("expected an inconsistent program, got {:?}", other),
        }
        match replacement_target(Some(stored()), program, "asked kiln", "asked program") {
            Err(DatabaseError::InconsistentProgram((kiln, name))) => {
                assert_eq!(kiln, "Kiln1");
                assert_eq!(name, "Full fuse");
            },
            other => panic!("expected an inconsistent program, got {:?}", other),
        }
    }
}

#[test]
fn a_replacement_without_a_stored_program_is_refused_with_the_pair() {
    match replacement_target(None, &stored(), "Kiln9", "Slump") {
        Err(DatabaseError::NoSuchProgram((kiln, name))) => {
            assert_eq!(kiln, "Kiln9");
            assert_eq!(name, "Slump");
        },
        other => panic!("expected a missing program, got {:?}", other),
    }
}

#[test]
fn a_project_is_held_to_its_stored_id() {
    let held = KilnProject::new(Project::new(3, "Bowl", "mine"));
    let same = KilnProject::new(Project::new(3, "Bowl", "stored"));
    let other = KilnProject::new(Project::new(4, "Bowl", "mine"));
    assert!(check_project(&held, &same).is_ok());
    match check_project(&held, &other) {
        Err(DatabaseError::InconsistentProject(name)) => assert_eq!(name, "Bowl"),
        other => panic!("expected an inconsistent project, got {:?}", other),
    }
}

#[test]
fn row_ids_below_zero_are_no_identifiers() {
    assert_eq!(id_from_rowid(0, "Kiln").unwrap(), 0);
    assert_eq!(id_from_rowid(1, "Kiln").unwrap(), 1);
    assert_eq!(id_from_rowid(i64::MAX, "Kiln").unwrap(), 9_223_372_036_854_775_807);
    for rowid in [-1, i64::MIN] {
        match id_from_rowid(rowid, "Project") {
            Err(DatabaseError::FailedDeserialization(entity)) => assert_eq!(entity, "Project"),
            other => panic!("expected a failed deserialization, got {:?}", other),
        }
    }
}

#[test]
fn steps_are_written_as_three_columns() {
    assert_eq!(step_to_columns(&FiringStep::new(1, 2, RampRate::AFAP, 1000, 30)), (-1, 1000, 30));
    assert_eq!(
        step_to_columns(&FiringStep::new(1, 2, RampRate::DegPerSec(300), 1250, 15)),
        (300, 1250, 15)
    );
    assert_eq!(
        step_to_columns(&FiringStep::new(1, 2, RampRate::DegPerSec(0), u32::MAX, u32::MAX)),
        (0, 4_294_967_295, 4_294_967_295)
    );
}

#[test]
fn steps_are_read_from_their_columns() {
    assert_eq!(
        step_from_columns(7, 2, -1, 1000, 30).unwrap(),
        FiringStep::new(7, 2, RampRate::AFAP, 1000, 30)
    );
    assert_eq!(
        step_from_columns(8, 2, 300, 1250, 15).unwrap(),
        FiringStep::new(8, 2, RampRate::DegPerSec(300), 1250, 15)
    );
    assert_eq!(
        step_from_columns(8, 2, 0, 0, 4_294_967_295).unwrap(),
        FiringStep::new(8, 2, RampRate::DegPerSec(0), 0, u32::MAX)
    );
}

#[test]
fn rows_that_are_no_steps_are_refused() {
    let rows = [
        (-2, 1000, 30),
        (4_294_967_296, 1000, 30),
        (300, -1, 30),
        (300, 4_294_967_296, 30),
        (300, 1000, -1),
        (300, 1000, 4_294_967_296),
    ];
    for (ramp, target, dwell) in rows {
        match step_from_columns(1, 2, ramp, target, dwell) {
            Err(DatabaseError::FailedDeserialization(entity)) => assert_eq!(entity, "FiringStep"),
            other => panic!("expected a failed deserialization, got {:?}", other),
        }
    }
}

#[test]
fn written_steps_are_read_back_with_their_settings() {
    let steps = [
        FiringStep::new(0, 0, RampRate::AFAP, 1000, 30),
        FiringStep::new(0, 0, RampRate::DegPerSec(300), 1250, 15),
    ];
    for step in steps {
        let (ramp, target, dwell) = step_to_columns(&step);
        assert_eq!(step_from_columns(5, 6, ramp, target, dwell).unwrap(), step.rebound(5, 6));
    }
}

#[test]
fn store_failures_are_passed_on_as_they_came() {
    assert_eq!(store_answer(Ok::<u8, rusqlite::Error>(3)).unwrap(), 3);
    match store_answer(Err::<u8, rusqlite::Error>(rusqlite::Error::QueryReturnedNoRows)) {
        Err(DatabaseError::SqlError(failure)) => {
            assert_eq!(failure, rusqlite::Error::QueryReturnedNoRows)
        },
        other => panic!("expected a store failure, got {:?}", other),
    }
}

#[test]
fn unreadable_columns_name_their_entity() {
    assert_eq!(column_answer(Ok::<u8, rusqlite::Error>(3), "Kiln").unwrap(), 3);
    match column_answer(Err::<u8, rusqlite::Error>(rusqlite::Error::InvalidColumnIndex(4)), "Kiln")
    {
        Err(DatabaseError::FailedDeserialization(entity)) => assert_eq!(entity, "Kiln"),
        other => panic!("expected a failed deserialization, got {:?}", other),
    }
}

#[test]
fn messages_name_the_kind_and_what_it_carries() {
    assert_eq!(
        DatabaseError::DuplicateName("Kiln1".to_string()).message(),
        "Duplicate name: Kiln1"
    );
    assert_eq!(DatabaseError::NoSuchName("Kiln1".to_string()).message(), "No such name: Kiln1");
    assert_eq!(
        DatabaseError::NoSuchProgram(("Kiln1".to_string(), "Slump".to_string())).message(),
        "No such program: Slump on kiln Kiln1"
    );
    assert_eq!(
        DatabaseError::InconsistentProgram(("Kiln1".to_string(), "Slump".to_string())).message(),
        "Inconsistent program: Slump on kiln Kiln1"
    );
    assert_eq!(
        DatabaseError::InconsistentProject("Bowl".to_string()).message(),
        "Inconsistent project: Bowl"
    );
    assert_eq!(DatabaseError::InvalidIndex(12).message(), "Invalid index: 12");
    assert_eq!(
        DatabaseError::FailedDeserialization("Kiln".to_string()).message(),
        "Failed to deserialize: Kiln"
    );
    assert_eq!(
        DatabaseError::SqlError(rusqlite::Error::QueryReturnedNoRows).message(),
        rusqlite::Error::QueryReturnedNoRows.to_string()
    );
}
