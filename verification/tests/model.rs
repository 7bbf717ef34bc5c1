use kiln::database::{
    DatabaseError, FiringSequence, FiringStep, Kiln, KilnProgram, KilnProject, Project,
    ProjectFiringSteps, ProjectImage, RampRate,
};

fn program() -> KilnProgram {
    KilnProgram::new(Kiln::new(1, "Kiln1", "big"), FiringSequence::new(2, "Full fuse", "fusing", 1))
}

fn step(target: u32) -> FiringStep {
    FiringStep::new(0, 2, RampRate::DegPerSec(300), target, 15)
}

fn image(name: &str) -> ProjectImage {
    ProjectImage::new(0, 1, name, "caption", vec![1, 2, 3])
}

fn expect_invalid_index(result: Result<(), DatabaseError>, index: usize) {
    match result {
        Err(DatabaseError::InvalidIndex(found)) => assert_eq!(found, index),
        other => panic!("expected an invalid index, got {:?}", other),
    }
}

#[test]
fn mod_new_1() {
    let result = Kiln::new(1, "Akiln", "A description");
    assert_eq!(result, Kiln::new(1, "Akiln", "A description"));
    assert_eq!(result.id(), 1);
    assert_eq!(result.name(), String::from("Akiln"));
    assert_eq!(result.description(), String::from("A description"));
}

#[test]
fn selector_1() {
    let result = Kiln::new(1, "AKiln", "A description");
    assert_eq!(result.id(), 1);
}

#[test]
fn selector_2() {
    let result = Kiln::new(1, "AKiln", "A description");
    assert_eq!(result.name(), "AKiln");
}

#[test]
fn selector_3() {
    let result = Kiln::new(1, "AKiln", "A description");
    assert_eq!(result.description(), "A description")
}

#[test]
fn mutator_1() {
    let mut kiln = Kiln::new(1, "AKiln", "A description");
    kiln.set_name("Kiln1");
    assert_eq!(kiln.name(), "Kiln1");
}

#[test]
fn mutator_2() {
    let mut kiln = Kiln::new(1, "AKiln", "A description");
    kiln.set_description("A new description for the kiln");
    assert_eq!(kiln.description(), "A new description for the kiln");
}

#[test]
fn kiln_mutators_leave_the_rest_alone() {
    let mut kiln = Kiln::new(7, "AKiln", "A description");
    kiln.set_name("Kiln1");
    assert_eq!(kiln, Kiln::new(7, "Kiln1", "A description"));
    kiln.set_description("other");
    assert_eq!(kiln, Kiln::new(7, "Kiln1", "other"));
    assert!(kiln.same_as(&kiln.clone()));
    assert!(!kiln.same_as(&Kiln::new(8, "Kiln1", "other")));
    assert!(!kiln.same_as(&Kiln::new(7, "kiln1", "other")));
    assert!(!kiln.same_as(&Kiln::new(7, "Kiln1", "Other")));
}

#[test]
fn firing_sequence_holds_its_fields() {
    let mut sequence = FiringSequence::new(3, "Slump", "slumping", 9);
    assert_eq!(sequence.id(), 3);
    assert_eq!(sequence.name(), "Slump");
    assert_eq!(sequence.description(), "slumping");
    assert_eq!(sequence.kiln_id(), 9);
    sequence.set_name("Drape");
    sequence.set_description("draping");
    assert_eq!(sequence, FiringSequence::new(3, "Drape", "draping", 9));
    assert!(sequence.same_as(&sequence.clone()));
    assert!(!sequence.same_as(&FiringSequence::new(3, "Drape", "draping", 8)));
    assert!(!sequence.same_as(&FiringSequence::new(4, "Drape", "draping", 9)));
}

#[test]
fn firing_step_holds_its_fields() {
    let step = FiringStep::new(4, 2, RampRate::AFAP, 1000, 30);
    assert_eq!(step.id(), 4);
    assert_eq!(step.sequence_id(), 2);
    assert_eq!(step.ramp_rate(), RampRate::AFAP);
    assert_eq!(step.target_temp(), 1000);
    assert_eq!(step.dwell_time(), 30);
    assert_eq!(step.rebound(9, 8), FiringStep::new(9, 8, RampRate::AFAP, 1000, 30));
}

#[test]
fn project_and_link_hold_their_fields() {
    let mut project = Project::new(5, "Bowl", "A small bowl");
    assert_eq!(project.id(), 5);
    assert_eq!(project.name(), "Bowl");
    assert_eq!(project.description(), "A small bowl");
    project.set_name("Plate");
    project.set_description("A plate");
    assert_eq!(project, Project::new(5, "Plate", "A plate"));

    let mut link = ProjectFiringSteps::new(1, 5, 2, "Full fuse");
    assert_eq!(link.id(), 1);
    assert_eq!(link.project_id(), 5);
    assert_eq!(link.firing_sequence_id(), 2);
    assert_eq!(link.comment(), "Full fuse");
    link.set_comment("Slump");
    assert_eq!(link, ProjectFiringSteps::new(1, 5, 2, "Slump"));
    assert_eq!(link.clone(), link);
}

#[test]
fn project_image_holds_its_bytes() {
    let mut image = ProjectImage::new(1, 5, "final.jpg", "The result", vec![0, 255, 7]);
    assert_eq!(image.id(), 1);
    assert_eq!(image.project_id(), 5);
    assert_eq!(image.name(), "final.jpg");
    assert_eq!(image.description(), "The result");
    assert_eq!(image.contents(), vec![0, 255, 7]);
    image.set_description("Before");
    assert_eq!(image, ProjectImage::new(1, 5, "final.jpg", "Before", vec![0, 255, 7]));
    assert_eq!(image.clone(), image);
}

#[test]
fn new_program_is_empty() {
    let program = program();
    assert_eq!(program.len(), 0);
    assert_eq!(program.steps(), Vec::<FiringStep>::new());
    assert_eq!(program.owner(), Kiln::new(1, "Kiln1", "big"));
    assert_eq!(program.sequence(), FiringSequence::new(2, "Full fuse", "fusing", 1));
    assert_eq!(program.kiln_name(), "Kiln1");
    assert_eq!(program.program_name(), "Full fuse");
    assert_eq!(program.sequence_id(), 2);
}

#[test]
fn steps_are_appended_in_order() {
    let mut program = program();
    program.add_step(step(1000));
    program.add_steps(&vec![step(1250), step(1450)]);
    program.add_steps(&vec![]);
    assert_eq!(program.steps(), vec![step(1000), step(1250), step(1450)]);
    assert_eq!(program.len(), 3);
    assert_eq!(program.step(1), step(1250));
    assert_eq!(program.clone(), program);
}

#[test]
fn remove_step_shifts_the_rest_left() {
    let mut program = program();
    program.add_steps(&vec![step(1), step(2), step(3), step(4)]);
    assert!(program.remove_step(1).is_ok());
    assert_eq!(program.steps(), vec![step(1), step(3), step(4)]);
    assert!(program.remove_step(2).is_ok());
    assert_eq!(program.steps(), vec![step(1), step(3)]);
    assert!(program.remove_step(0).is_ok());
    assert_eq!(program.steps(), vec![step(3)]);
}

#[test]
fn remove_step_refuses_positions_outside() {
    let mut program = program();
    expect_invalid_index(program.remove_step(0), 0);
    program.add_steps(&vec![step(1), step(2)]);
    let before = program.clone();
    expect_invalid_index(program.remove_step(2), 2);
    expect_invalid_index(program.remove_step(usize::MAX), usize::MAX);
    assert_eq!(program, before);
}

#[test]
fn insert_step_shifts_the_rest_right() {
    let mut program = program();
    assert!(program.insert_step(step(2), 0).is_ok());
    assert!(program.insert_step(step(1), 0).is_ok());
    assert!(program.insert_step(step(4), 2).is_ok());
    assert!(program.insert_step(step(3), 2).is_ok());
    assert_eq!(program.steps(), vec![step(1), step(2), step(3), step(4)]);
}

#[test]
fn insert_step_refuses_positions_beyond_the_end() {
    let mut program = program();
    expect_invalid_index(program.insert_step(step(1), 1), 1);
    assert_eq!(program.len(), 0);
    program.add_steps(&vec![step(1), step(2)]);
    let before = program.clone();
    expect_invalid_index(program.insert_step(step(3), 3), 3);
    assert_eq!(program, before);
    assert!(program.insert_step(step(3), 2).is_ok());
    assert_eq!(program.len(), 3);
}

#[test]
fn same_header_looks_at_kiln_and_header_only() {
    let mut first = program();
    let second = program();
    first.add_step(step(1));
    assert!(first.same_header(&second));
    let other = KilnProgram::new(
        Kiln::new(1, "Kiln1", "big"),
        FiringSequence::new(2, "Full fuse", "fusing", 3),
    );
    assert!(!first.same_header(&other));
}

fn project() -> KilnProject {
    KilnProject::new(Project::new(1, "Bowl", "A small bowl"))
}

fn named(name: &str) -> KilnProgram {
    KilnProgram::new(Kiln::new(1, "Kiln1", "big"), FiringSequence::new(2, name, "", 1))
}

fn assert_lockstep(project: &KilnProject, names: &[&str]) {
    let comments = project.firing_comments();
    let programs = project.firings();
    assert_eq!(comments.len(), programs.len());
    assert_eq!(comments.len(), project.firing_count());
    assert_eq!(comments.len(), names.len());
    for (i, name) in names.iter().enumerate() {
        assert_eq!(&programs[i].program_name(), name);
        assert_eq!(comments[i], format!("why {}", name));
    }
}

#[test]
fn new_project_is_empty() {
    let project = project();
    assert_eq!(project.project(), Project::new(1, "Bowl", "A small bowl"));
    assert_eq!(project.id(), 1);
    assert_eq!(project.name(), "Bowl");
    assert_eq!(project.firing_comments().len(), 0);
    assert_eq!(project.firings().len(), 0);
    assert_eq!(project.pictures().len(), 0);
    assert_lockstep(&project, &[]);
}

#[test]
fn firings_stay_in_lockstep_through_every_edit() {
    let mut project = project();
    project.add_firing(named("b"), "why b");
    assert_lockstep(&project, &["b"]);
    assert!(project.insert_firing(named("a"), "why a", 0).is_ok());
    assert_lockstep(&project, &["a", "b"]);
    assert!(project.insert_firing(named("d"), "why d", 2).is_ok());
    assert_lockstep(&project, &["a", "b", "d"]);
    assert!(project.insert_firing(named("c"), "why c", 2).is_ok());
    assert_lockstep(&project, &["a", "b", "c", "d"]);
    assert!(project.delete_firing(1).is_ok());
    assert_lockstep(&project, &["a", "c", "d"]);
    expect_invalid_index(project.delete_firing(3), 3);
    assert_lockstep(&project, &["a", "c", "d"]);
    expect_invalid_index(project.insert_firing(named("e"), "why e", 4), 4);
    assert_lockstep(&project, &["a", "c", "d"]);
    assert!(project.delete_firing(2).is_ok());
    assert!(project.delete_firing(0).is_ok());
    assert!(project.delete_firing(0).is_ok());
    assert_lockstep(&project, &[]);
    expect_invalid_index(project.delete_firing(0), 0);
}

#[test]
fn firing_edits_leave_the_pictures_alone() {
    let mut project = project();
    project.add_picture(image("a.jpg"));
    project.add_firing(named("a"), "why a");
    assert_eq!(project.picture_count(), 1);
    project.delete_firing(0).unwrap();
    assert_eq!(project.pictures(), vec![image("a.jpg")]);
    assert_eq!(project.project(), Project::new(1, "Bowl", "A small bowl"));
}

#[test]
fn pictures_are_edited_by_position() {
    let mut project = project();
    project.add_picture(image("b.jpg"));
    assert!(project.insert_picture(image("a.jpg"), 0).is_ok());
    assert!(project.insert_picture(image("c.jpg"), 2).is_ok());
    assert_eq!(project.pictures(), vec![image("a.jpg"), image("b.jpg"), image("c.jpg")]);
    assert_eq!(project.picture(1), image("b.jpg"));
    assert!(project.delete_picture(1).is_ok());
    assert_eq!(project.pictures(), vec![image("a.jpg"), image("c.jpg")]);
    assert_eq!(project.clone(), project);
}

#[test]
fn pictures_are_appended_in_order() {
    let mut project = project();
    project.add_picture(image("a.jpg"));
    project.add_pictures(&vec![image("b.jpg"), image("c.jpg")]);
    project.add_pictures(&vec![]);
    assert_eq!(project.pictures(), vec![image("a.jpg"), image("b.jpg"), image("c.jpg")]);
    assert_eq!(project.firing_count(), 0);
}

#[test]
fn picture_edits_refuse_positions_outside() {
    let mut project = project();
    expect_invalid_index(project.delete_picture(0), 0);
    expect_invalid_index(project.insert_picture(image("a.jpg"), 1), 1);
    assert_eq!(project.picture_count(), 0);
    project.add_picture(image("a.jpg"));
    let before = project.clone();
    expect_invalid_index(project.delete_picture(1), 1);
    expect_invalid_index(project.insert_picture(image("b.jpg"), 2), 2);
    assert_eq!(project, before);
}
