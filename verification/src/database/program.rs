//! A kiln program: a kiln, a program header and the ordered steps.

use vstd::prelude::*;
use crate::database::entities::{
    FiringSequence, FiringSequenceView, FiringStep, FiringStepView, Kiln, KilnView,
};
use crate::database::error::DatabaseError;

verus! {

/// The steps of `steps`, each as what it holds.
pub open spec fn step_views(steps: Seq<FiringStep>) -> Seq<FiringStepView> {
    steps.map_values(|step: FiringStep| step@)
}

/// Whether two lists of steps tell the kiln to do the same: they are of the
/// same length and the steps at each position have the same ramp rate,
/// target temperature and dwell time. The identifiers are not looked at.
pub open spec fn same_settings(first: Seq<FiringStepView>, second: Seq<FiringStepView>) -> bool {
    &&& first.len() == second.len()
    &&& forall|i: int|
        0 <= i < first.len() ==> (#[trigger] first[i]).settings() == second[i].settings()
}

/// What a [`KilnProgram`] holds.
pub struct KilnProgramView {
    pub kiln: KilnView,
    pub sequence: FiringSequenceView,
    pub steps: Seq<FiringStepView>,
}

impl KilnProgramView {
    /// The header belongs to the kiln and every step belongs to the header.
    pub open spec fn consistent(self) -> bool {
        &&& self.sequence.kiln_id == self.kiln.id
        &&& forall|i: int|
            0 <= i < self.steps.len() ==> (#[trigger] self.steps[i]).sequence_id
                == self.sequence.id
    }

    /// Whether this program and `other` have the same kiln and header.
    pub open spec fn same_header(self, other: KilnProgramView) -> bool {
        self.kiln == other.kiln && self.sequence == other.sequence
    }
}

/// A full kiln program. The steps are kept in the order in which they run.
#[derive(Debug, PartialEq)]
pub struct KilnProgram {
    kiln: Kiln,
    sequence: FiringSequence,
    steps: Vec<FiringStep>,
}

impl View for KilnProgram {
    type V = KilnProgramView;

    closed spec fn view(&self) -> KilnProgramView {
        KilnProgramView {
            kiln: self.kiln@,
            sequence: self.sequence@,
            steps: step_views(self.steps@),
        }
    }
}

/// A copy of `steps`.
pub fn copy_steps(steps: &Vec<FiringStep>) -> (r: Vec<FiringStep>)
    ensures
        r@ == steps@,
{
    let mut copy: Vec<FiringStep> = Vec::new();
    let mut i: usize = 0;
    while i < steps.len()
        invariant
            i <= steps.len(),
            copy@ == steps@.subrange(0, i as int),
        decreases steps.len() - i,
    {
        copy.push(steps[i]);
        i += 1;
        assert(copy@ =~= steps@.subrange(0, i as int));
    }
    assert(steps@.subrange(0, i as int) =~= steps@);
    copy
}

impl Clone for KilnProgram {
    fn clone(&self) -> (r: KilnProgram)
        ensures
            r@ == self@,
    {
        KilnProgram {
            kiln: self.kiln.clone(),
            sequence: self.sequence.clone(),
            steps: copy_steps(&self.steps),
        }
    }
}

impl KilnProgram {
    /// A program for `sequence` on `kiln` with no steps yet.
    pub fn new(kiln: Kiln, sequence: FiringSequence) -> (r: KilnProgram)
        ensures
            r@ == (KilnProgramView { kiln: kiln@, sequence: sequence@, steps: Seq::empty() }),
    {
        let r = KilnProgram { kiln, sequence, steps: Vec::new() };
        assert(step_views(r.steps@) =~= Seq::empty());
        r
    }

    /// The kiln that owns the program.
    pub fn owner(&self) -> (r: Kiln)
        ensures
            r@ == self@.kiln,
    {
        self.kiln.clone()
    }

    /// The program's header.
    pub fn sequence(&self) -> (r: FiringSequence)
        ensures
            r@ == self@.sequence,
    {
        self.sequence.clone()
    }

    /// Whether this program and `other` have the same kiln and the same
    /// header, field for field.
    pub fn same_header(&self, other: &KilnProgram) -> (r: bool)
        ensures
            r == self@.same_header(other@),
    {
        self.kiln.same_as(&other.kiln) && self.sequence.same_as(&other.sequence)
    }

    /// The name of the kiln that the program runs on.
    pub fn kiln_name(&self) -> (r: String)
        ensures
            r@ == self@.kiln.name,
    {
        self.kiln.name()
    }

    /// The name of the program.
    pub fn program_name(&self) -> (r: String)
        ensures
            r@ == self@.sequence.name,
    {
        self.sequence.name()
    }

    /// The identifier of the program's header.
    pub fn sequence_id(&self) -> (r: u64)
        ensures
            r == self@.sequence.id,
    {
        self.sequence.id()
    }

    /// The steps in order.
    pub fn steps(&self) -> (r: Vec<FiringStep>)
        ensures
            step_views(r@) == self@.steps,
    {
        copy_steps(&self.steps)
    }

    /// How many steps the program has.
    pub fn len(&self) -> (r: usize)
        ensures
            r == self@.steps.len(),
    {
        self.steps.len()
    }

    /// The step at `index`, which must be a position in the program.
    pub fn step(&self, index: usize) -> (r: FiringStep)
        requires
            index < self@.steps.len(),
        ensures
            r@ == self@.steps[index as int],
    {
        self.steps[index]
    }

    /// Appends `step`.
    pub fn add_step(&mut self, step: FiringStep)
        ensures
            final(self)@ == (KilnProgramView {
                steps: old(self)@.steps.push(step@),
                ..old(self)@
            }),
    {
        self.steps.push(step);
        assert(step_views(self.steps@) =~= step_views(old(self).steps@).push(step@));
    }

    /// Appends every step of `steps`, in order.
    pub fn add_steps(&mut self, steps: &Vec<FiringStep>)
        ensures
            final(self)@ == (KilnProgramView {
                steps: old(self)@.steps + step_views(steps@),
                ..old(self)@
            }),
    {
        let mut i: usize = 0;
        while i < steps.len()
            invariant
                i <= steps.len(),
                self.kiln == old(self).kiln,
                self.sequence == old(self).sequence,
                self.steps@ == old(self).steps@ + steps@.subrange(0, i as int),
            decreases steps.len() - i,
        {
            self.steps.push(steps[i]);
            i += 1;
            assert(self.steps@ =~= old(self).steps@ + steps@.subrange(0, i as int));
        }
        assert(steps@.subrange(0, i as int) =~= steps@);
        assert(step_views(self.steps@) =~= step_views(old(self).steps@) + step_views(steps@));
    }

    /// Removes the step at `index` and closes the gap. An `index` that is no
    /// position in the program is refused and the program stays as it was.
    pub fn remove_step(&mut self, index: usize) -> (r: Result<(), DatabaseError>)
        ensures
            index < old(self)@.steps.len() <==> r is Ok,
            r is Ok ==> final(self)@ == (KilnProgramView {
                steps: old(self)@.steps.remove(index as int),
                ..old(self)@
            }),
            r is Err ==> r == Err::<(), DatabaseError>(DatabaseError::InvalidIndex(index))
                && *final(self) == *old(self),
    {
        if index >= self.steps.len() {
            return Err(DatabaseError::InvalidIndex(index));
        }
        self.steps.remove(index);
        assert(step_views(self.steps@) =~= step_views(old(self).steps@).remove(index as int));
        Ok(())
    }

    /// Inserts `step` before the step at `index`; an `index` equal to the
    /// number of steps appends. A larger `index` is refused and the program
    /// stays as it was.
    pub fn insert_step(&mut self, step: FiringStep, index: usize) -> (r: Result<(), DatabaseError>)
        ensures
            index <= old(self)@.steps.len() <==> r is Ok,
            r is Ok ==> final(self)@ == (KilnProgramView {
                steps: old(self)@.steps.insert(index as int, step@),
                ..old(self)@
            }),
            r is Err ==> r == Err::<(), DatabaseError>(DatabaseError::InvalidIndex(index))
                && *final(self) == *old(self),
    {
        if index > self.steps.len() {
            return Err(DatabaseError::InvalidIndex(index));
        }
        self.steps.insert(index, step);
        assert(step_views(self.steps@) =~= step_views(old(self).steps@).insert(
            index as int,
            step@,
        ));
        Ok(())
    }
}

} // verus!
