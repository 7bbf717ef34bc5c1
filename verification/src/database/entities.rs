//! The stored entities as plain values.
//!
//! Constructors take data as it is: nothing is validated here. Identifiers
//! are assigned by the store and never change once a value is built.

use vstd::prelude::*;
use crate::database::ramp::RampRate;

verus! {

/// What a [`Kiln`] holds.
pub struct KilnView {
    pub id: u64,
    pub name: Seq<char>,
    pub description: Seq<char>,
}

/// A physical firing device.
#[derive(Debug, PartialEq)]
pub struct Kiln {
    id: u64,
    name: String,
    description: String,
}

impl View for Kiln {
    type V = KilnView;

    closed spec fn view(&self) -> KilnView {
        KilnView { id: self.id, name: self.name@, description: self.description@ }
    }
}

impl Clone for Kiln {
    fn clone(&self) -> (r: Kiln)
        ensures
            r@ == self@,
    {
        Kiln { id: self.id, name: self.name.clone(), description: self.description.clone() }
    }
}

impl Kiln {
    /// Builds a kiln from its three fields.
    pub fn new(id: u64, name: &str, description: &str) -> (r: Kiln)
        ensures
            r@ == (KilnView { id, name: name@, description: description@ }),
    {
        Kiln { id, name: name.to_owned(), description: description.to_owned() }
    }

    /// The identifier the store assigned.
    pub fn id(&self) -> (r: u64)
        ensures
            r == self@.id,
    {
        self.id
    }

    /// The kiln's name.
    pub fn name(&self) -> (r: String)
        ensures
            r@ == self@.name,
    {
        self.name.clone()
    }

    /// The kiln's description.
    pub fn description(&self) -> (r: String)
        ensures
            r@ == self@.description,
    {
        self.description.clone()
    }

    /// Renames the kiln; nothing else changes.
    pub fn set_name(&mut self, new_name: &str)
        ensures
            final(self)@ == (KilnView { name: new_name@, ..old(self)@ }),
    {
        self.name = new_name.to_owned();
    }

    /// Replaces the description; nothing else changes.
    pub fn set_description(&mut self, new_description: &str)
        ensures
            final(self)@ == (KilnView { description: new_description@, ..old(self)@ }),
    {
        self.description = new_description.to_owned();
    }

    /// Whether two kilns agree in every field.
    pub fn same_as(&self, other: &Kiln) -> (r: bool)
        ensures
            r == (self@ == other@),
    {
        self.id == other.id && self.name == other.name && self.description == other.description
    }
}

/// What a [`FiringSequence`] holds.
pub struct FiringSequenceView {
    pub id: u64,
    pub name: Seq<char>,
    pub description: Seq<char>,
    pub kiln_id: u64,
}

/// The header of a firing program: its name, unique within the kiln that
/// owns it, and the kiln it belongs to.
#[derive(Debug, PartialEq)]
pub struct FiringSequence {
    id: u64,
    name: String,
    description: String,
    kiln_id: u64,
}

impl View for FiringSequence {
    type V = FiringSequenceView;

    closed spec fn view(&self) -> FiringSequenceView {
        FiringSequenceView {
            id: self.id,
            name: self.name@,
            description: self.description@,
            kiln_id: self.kiln_id,
        }
    }
}

impl Clone for FiringSequence {
    fn clone(&self) -> (r: FiringSequence)
        ensures
            r@ == self@,
    {
        FiringSequence {
            id: self.id,
            name: self.name.clone(),
            description: self.description.clone(),
            kiln_id: self.kiln_id,
        }
    }
}

impl FiringSequence {
    /// Builds a program header from its four fields.
    pub fn new(id: u64, name: &str, description: &str, kiln_id: u64) -> (r: FiringSequence)
        ensures
            r@ == (FiringSequenceView { id, name: name@, description: description@, kiln_id }),
    {
        FiringSequence { id, name: name.to_owned(), description: description.to_owned(), kiln_id }
    }

    /// The identifier the store assigned.
    pub fn id(&self) -> (r: u64)
        ensures
            r == self@.id,
    {
        self.id
    }

    /// The program's name.
    pub fn name(&self) -> (r: String)
        ensures
            r@ == self@.name,
    {
        self.name.clone()
    }

    /// The program's description.
    pub fn description(&self) -> (r: String)
        ensures
            r@ == self@.description,
    {
        self.description.clone()
    }

    /// The identifier of the kiln that owns the program.
    pub fn kiln_id(&self) -> (r: u64)
        ensures
            r == self@.kiln_id,
    {
        self.kiln_id
    }

    /// Renames the program; nothing else changes.
    pub fn set_name(&mut self, new_name: &str)
        ensures
            final(self)@ == (FiringSequenceView { name: new_name@, ..old(self)@ }),
    {
        self.name = new_name.to_owned();
    }

    /// Replaces the description; nothing else changes.
    pub fn set_description(&mut self, new_description: &str)
        ensures
            final(self)@ == (FiringSequenceView { description: new_description@, ..old(self)@ }),
    {
        self.description = new_description.to_owned();
    }

    /// Whether two headers agree in every field.
    pub fn same_as(&self, other: &FiringSequence) -> (r: bool)
        ensures
            r == (self@ == other@),
    {
        self.id == other.id && self.name == other.name && self.description == other.description
            && self.kiln_id == other.kiln_id
    }
}

/// What a [`FiringStep`] holds.
pub struct FiringStepView {
    pub id: u64,
    pub sequence_id: u64,
    pub ramp_rate: RampRate,
    pub target_temp: u32,
    pub dwell_time: u32,
}

impl FiringStepView {
    /// What the step tells the kiln to do: its ramp rate, its target
    /// temperature and its dwell time, without the identifiers.
    pub open spec fn settings(self) -> (RampRate, u32, u32) {
        (self.ramp_rate, self.target_temp, self.dwell_time)
    }
}

/// One stage of a program: ramp to a target temperature in degrees, then hold
/// it for a dwell time in minutes.
#[derive(Debug, Clone, Copy, PartialEq)]
pub struct FiringStep {
    id: u64,
    sequence_id: u64,
    ramp_rate: RampRate,
    target_temp: u32,
    dwell_time: u32,
}

impl View for FiringStep {
    type V = FiringStepView;

    closed spec fn view(&self) -> FiringStepView {
        FiringStepView {
            id: self.id,
            sequence_id: self.sequence_id,
            ramp_rate: self.ramp_rate,
            target_temp: self.target_temp,
            dwell_time: self.dwell_time,
        }
    }
}

impl FiringStep {
    /// Builds a step from its five fields.
    pub fn new(
        id: u64,
        sequence_id: u64,
        ramp_rate: RampRate,
        target_temp: u32,
        dwell_time: u32,
    ) -> (r: FiringStep)
        ensures
            r@ == (FiringStepView { id, sequence_id, ramp_rate, target_temp, dwell_time }),
    {
        FiringStep { id, sequence_id, ramp_rate, target_temp, dwell_time }
    }

    /// The identifier the store assigned.
    pub fn id(&self) -> (r: u64)
        ensures
            r == self@.id,
    {
        self.id
    }

    /// The identifier of the program that the step belongs to.
    pub fn sequence_id(&self) -> (r: u64)
        ensures
            r == self@.sequence_id,
    {
        self.sequence_id
    }

    /// The rate at which the step approaches its target.
    pub fn ramp_rate(&self) -> (r: RampRate)
        ensures
            r == self@.ramp_rate,
    {
        self.ramp_rate
    }

    /// The target temperature in degrees.
    pub fn target_temp(&self) -> (r: u32)
        ensures
            r == self@.target_temp,
    {
        self.target_temp
    }

    /// The time to hold the target temperature, in minutes.
    pub fn dwell_time(&self) -> (r: u32)
        ensures
            r == self@.dwell_time,
    {
        self.dwell_time
    }

    /// The same settings under other identifiers.
    pub fn rebound(&self, id: u64, sequence_id: u64) -> (r: FiringStep)
        ensures
            r@ == (FiringStepView { id, sequence_id, ..self@ }),
    {
        FiringStep { id, sequence_id, ..*self }
    }
}

/// What a [`Project`] holds.
pub struct ProjectView {
    pub id: u64,
    pub name: Seq<char>,
    pub description: Seq<char>,
}

/// A tracked piece of glass.
#[derive(Debug, PartialEq)]
pub struct Project {
    id: u64,
    name: String,
    description: String,
}

impl View for Project {
    type V = ProjectView;

    closed spec fn view(&self) -> ProjectView {
        ProjectView { id: self.id, name: self.name@, description: self.description@ }
    }
}

impl Clone for Project {
    fn clone(&self) -> (r: Project)
        ensures
            r@ == self@,
    {
        Project { id: self.id, name: self.name.clone(), description: self.description.clone() }
    }
}

impl Project {
    /// Builds a project from its three fields.
    pub fn new(id: u64, name: &str, description: &str) -> (r: Project)
        ensures
            r@ == (ProjectView { id, name: name@, description: description@ }),
    {
        Project { id, name: name.to_owned(), description: description.to_owned() }
    }

    /// The identifier the store assigned.
    pub fn id(&self) -> (r: u64)
        ensures
            r == self@.id,
    {
        self.id
    }

    /// The project's name.
    pub fn name(&self) -> (r: String)
        ensures
            r@ == self@.name,
    {
        self.name.clone()
    }

    /// The project's description.
    pub fn description(&self) -> (r: String)
        ensures
            r@ == self@.description,
    {
        self.description.clone()
    }

    /// Renames the project; nothing else changes.
    pub fn set_name(&mut self, new_name: &str)
        ensures
            final(self)@ == (ProjectView { name: new_name@, ..old(self)@ }),
    {
        self.name = new_name.to_owned();
    }

    /// Replaces the description; nothing else changes.
    pub fn set_description(&mut self, new_description: &str)
        ensures
            final(self)@ == (ProjectView { description: new_description@, ..old(self)@ }),
    {
        self.description = new_description.to_owned();
    }
}

/// What a [`ProjectFiringSteps`] link holds.
pub struct ProjectFiringStepsView {
    pub id: u64,
    pub project_id: u64,
    pub firing_sequence_id: u64,
    pub comment: Seq<char>,
}

/// The link between a project and one firing of a program, with a comment
/// that says why the firing was done.
#[derive(Debug, PartialEq)]
pub struct ProjectFiringSteps {
    id: u64,
    project_id: u64,
    firing_sequence_id: u64,
    comment: String,
}

impl View for ProjectFiringSteps {
    type V = ProjectFiringStepsView;

    closed spec fn view(&self) -> ProjectFiringStepsView {
        ProjectFiringStepsView {
            id: self.id,
            project_id: self.project_id,
            firing_sequence_id: self.firing_sequence_id,
            comment: self.comment@,
        }
    }
}

impl Clone for ProjectFiringSteps {
    fn clone(&self) -> (r: ProjectFiringSteps)
        ensures
            r@ == self@,
    {
        ProjectFiringSteps {
            id: self.id,
            project_id: self.project_id,
            firing_sequence_id: self.firing_sequence_id,
            comment: self.comment.clone(),
        }
    }
}

impl ProjectFiringSteps {
    /// Builds a link from its four fields.
    pub fn new(id: u64, project_id: u64, firing_sequence_id: u64, comment: &str) -> (r:
        ProjectFiringSteps)
        ensures
            r@ == (ProjectFiringStepsView {
                id,
                project_id,
                firing_sequence_id,
                comment: comment@,
            }),
    {
        ProjectFiringSteps { id, project_id, firing_sequence_id, comment: comment.to_owned() }
    }

    /// The identifier the store assigned.
    pub fn id(&self) -> (r: u64)
        ensures
            r == self@.id,
    {
        self.id
    }

    /// The identifier of the project that was fired.
    pub fn project_id(&self) -> (r: u64)
        ensures
            r == self@.project_id,
    {
        self.project_id
    }

    /// The identifier of the program that was run.
    pub fn firing_sequence_id(&self) -> (r: u64)
        ensures
            r == self@.firing_sequence_id,
    {
        self.firing_sequence_id
    }

    /// Why the firing was done.
    pub fn comment(&self) -> (r: String)
        ensures
            r@ == self@.comment,
    {
        self.comment.clone()
    }

    /// Replaces the comment; nothing else changes.
    pub fn set_comment(&mut self, new_comment: &str)
        ensures
            final(self)@ == (ProjectFiringStepsView { comment: new_comment@, ..old(self)@ }),
    {
        self.comment = new_comment.to_owned();
    }
}

/// What a [`ProjectImage`] holds.
pub struct ProjectImageView {
    pub id: u64,
    pub project_id: u64,
    pub name: Seq<char>,
    pub description: Seq<char>,
    pub contents: Seq<u8>,
}

/// A picture of a project: the file name it came from, a caption and the
/// bytes of the image, which are never interpreted.
#[derive(Debug, PartialEq)]
pub struct ProjectImage {
    id: u64,
    project_id: u64,
    name: String,
    description: String,
    contents: Vec<u8>,
}

impl View for ProjectImage {
    type V = ProjectImageView;

    closed spec fn view(&self) -> ProjectImageView {
        ProjectImageView {
            id: self.id,
            project_id: self.project_id,
            name: self.name@,
            description: self.description@,
            contents: self.contents@,
        }
    }
}

/// A copy of the bytes in `bytes`.
pub fn copy_bytes(bytes: &Vec<u8>) -> (r: Vec<u8>)
    ensures
        r@ == bytes@,
{
    let mut copy: Vec<u8> = Vec::new();
    let mut i: usize = 0;
    while i < bytes.len()
        invariant
            i <= bytes.len(),
            copy@ == bytes@.subrange(0, i as int),
        decreases bytes.len() - i,
    {
        copy.push(bytes[i]);
        i += 1;
        assert(copy@ =~= bytes@.subrange(0, i as int));
    }
    assert(bytes@.subrange(0, i as int) =~= bytes@);
    copy
}

impl Clone for ProjectImage {
    fn clone(&self) -> (r: ProjectImage)
        ensures
            r@ == self@,
    {
        ProjectImage {
            id: self.id,
            project_id: self.project_id,
            name: self.name.clone(),
            description: self.description.clone(),
            contents: copy_bytes(&self.contents),
        }
    }
}

impl ProjectImage {
    /// Builds an image from its five fields; the bytes are taken as they are.
    pub fn new(id: u64, project_id: u64, name: &str, description: &str, contents: Vec<u8>) -> (r:
        ProjectImage)
        ensures
            r@ == (ProjectImageView {
                id,
                project_id,
                name: name@,
                description: description@,
                contents: contents@,
            }),
    {
        ProjectImage {
            id,
            project_id,
            name: name.to_owned(),
            description: description.to_owned(),
            contents,
        }
    }

    /// The identifier the store assigned.
    pub fn id(&self) -> (r: u64)
        ensures
            r == self@.id,
    {
        self.id
    }

    /// The identifier of the project that the image shows.
    pub fn project_id(&self) -> (r: u64)
        ensures
            r == self@.project_id,
    {
        self.project_id
    }

    /// The file name the image came from.
    pub fn name(&self) -> (r: String)
        ensures
            r@ == self@.name,
    {
        self.name.clone()
    }

    /// The caption.
    pub fn description(&self) -> (r: String)
        ensures
            r@ == self@.description,
    {
        self.description.clone()
    }

    /// The bytes of the image.
    pub fn contents(&self) -> (r: Vec<u8>)
        ensures
            r@ == self@.contents,
    {
        copy_bytes(&self.contents)
    }

    /// Replaces the caption; nothing else changes.
    pub fn set_description(&mut self, new_description: &str)
        ensures
            final(self)@ == (ProjectImageView { description: new_description@, ..old(self)@ }),
    {
        self.description = new_description.to_owned();
    }
}

} // verus!
