//! A kiln project: a project, its firings and its pictures.
//!
//! A firing is one run of a program together with the comment that says why
//! it was run. The two are kept as one record, so a comment can never be
//! separated from its program.

use vstd::prelude::*;
use crate::database::entities::{Project, ProjectImage, ProjectImageView, ProjectView};
use crate::database::error::DatabaseError;
use crate::database::lexical::text_views;
use crate::database::program::{KilnProgram, KilnProgramView};

verus! {

/// One firing of a project: the comment and the program that was run.
pub struct FiringView {
    pub comment: Seq<char>,
    pub program: KilnProgramView,
}

/// What a [`KilnProject`] holds.
pub struct KilnProjectView {
    pub project: ProjectView,
    pub firings: Seq<FiringView>,
    pub pictures: Seq<ProjectImageView>,
}

impl KilnProjectView {
    /// The comments of the firings, in order.
    pub open spec fn firing_comments(self) -> Seq<Seq<char>> {
        self.firings.map_values(|firing: FiringView| firing.comment)
    }

    /// The programs of the firings, in order.
    pub open spec fn programs(self) -> Seq<KilnProgramView> {
        self.firings.map_values(|firing: FiringView| firing.program)
    }

    /// Every program of the project is consistent in itself and every
    /// picture belongs to the project.
    pub open spec fn consistent(self) -> bool {
        &&& forall|i: int|
            0 <= i < self.firings.len() ==> (#[trigger] self.firings[i]).program.consistent()
        &&& forall|i: int|
            0 <= i < self.pictures.len() ==> (#[trigger] self.pictures[i]).project_id
                == self.project.id
    }
}

/// The programs of `programs`, each as what it holds.
pub open spec fn program_views(programs: Seq<KilnProgram>) -> Seq<KilnProgramView> {
    programs.map_values(|program: KilnProgram| program@)
}

/// The images of `images`, each as what it holds.
pub open spec fn image_views(images: Seq<ProjectImage>) -> Seq<ProjectImageView> {
    images.map_values(|image: ProjectImage| image@)
}

/// One firing as a project holds it: the comment and the program together.
#[derive(Debug, PartialEq)]
struct Firing {
    comment: String,
    program: KilnProgram,
}

impl View for Firing {
    type V = FiringView;

    closed spec fn view(&self) -> FiringView {
        FiringView { comment: self.comment@, program: self.program@ }
    }
}

/// The firings of `firings`, each as what it holds.
spec fn firing_views(firings: Seq<Firing>) -> Seq<FiringView> {
    firings.map_values(|firing: Firing| firing@)
}

/// A project unpacked in full. Firings and pictures are kept in order.
#[derive(Debug, PartialEq)]
pub struct KilnProject {
    project: Project,
    firings: Vec<Firing>,
    pictures: Vec<ProjectImage>,
}

impl View for KilnProject {
    type V = KilnProjectView;

    closed spec fn view(&self) -> KilnProjectView {
        KilnProjectView {
            project: self.project@,
            firings: firing_views(self.firings@),
            pictures: image_views(self.pictures@),
        }
    }
}

impl Clone for KilnProject {
    fn clone(&self) -> (r: KilnProject)
        ensures
            r@ == self@,
    {
        let mut firings: Vec<Firing> = Vec::new();
        let mut i: usize = 0;
        while i < self.firings.len()
            invariant
                i <= self.firings.len(),
                firings@.len() == i,
                forall|k: int| 0 <= k < i ==> (#[trigger] firings@[k])@ == self.firings@[k]@,
            decreases self.firings.len() - i,
        {
            let firing = Firing {
                comment: self.firings[i].comment.clone(),
                program: self.firings[i].program.clone(),
            };
            firings.push(firing);
            i += 1;
        }
        assert(firing_views(firings@) =~= firing_views(self.firings@));
        let mut pictures: Vec<ProjectImage> = Vec::new();
        let mut j: usize = 0;
        while j < self.pictures.len()
            invariant
                j <= self.pictures.len(),
                pictures@.len() == j,
                forall|k: int| 0 <= k < j ==> (#[trigger] pictures@[k])@ == self.pictures@[k]@,
            decreases self.pictures.len() - j,
        {
            pictures.push(self.pictures[j].clone());
            j += 1;
        }
        assert(image_views(pictures@) =~= image_views(self.pictures@));
        KilnProject { project: self.project.clone(), firings, pictures }
    }
}

impl KilnProject {
    /// A project with no firings and no pictures yet.
    pub fn new(project: Project) -> (r: KilnProject)
        ensures
            r@ == (KilnProjectView {
                project: project@,
                firings: Seq::empty(),
                pictures: Seq::empty(),
            }),
    {
        let r = KilnProject { project, firings: Vec::new(), pictures: Vec::new() };
        assert(firing_views(r.firings@) =~= Seq::empty());
        assert(image_views(r.pictures@) =~= Seq::empty());
        r
    }

    /// The project itself.
    pub fn project(&self) -> (r: Project)
        ensures
            r@ == self@.project,
    {
        self.project.clone()
    }

    /// The identifier of the project.
    pub fn id(&self) -> (r: u64)
        ensures
            r == self@.project.id,
    {
        self.project.id()
    }

    /// The name of the project.
    pub fn name(&self) -> (r: String)
        ensures
            r@ == self@.project.name,
    {
        self.project.name()
    }

    /// How many firings the project has.
    pub fn firing_count(&self) -> (r: usize)
        ensures
            r == self@.firings.len(),
    {
        self.firings.len()
    }

    /// How many pictures the project has.
    pub fn picture_count(&self) -> (r: usize)
        ensures
            r == self@.pictures.len(),
    {
        self.pictures.len()
    }

    /// The comments of the firings, in order: one for each firing.
    pub fn firing_comments(&self) -> (r: Vec<String>)
        ensures
            text_views(r@) == self@.firing_comments(),
            r@.len() == self@.firings.len(),
    {
        let mut comments: Vec<String> = Vec::new();
        let mut i: usize = 0;
        while i < self.firings.len()
            invariant
                i <= self.firings.len(),
                comments@.len() == i,
                forall|k: int|
                    0 <= k < i ==> (#[trigger] comments@[k])@ == self.firings@[k].comment@,
            decreases self.firings.len() - i,
        {
            comments.push(self.firings[i].comment.clone());
            i += 1;
        }
        assert(text_views(comments@) =~= self@.firing_comments());
        comments
    }

    /// The programs of the firings, in order: one for each firing.
    pub fn firings(&self) -> (r: Vec<KilnProgram>)
        ensures
            program_views(r@) == self@.programs(),
            r@.len() == self@.firings.len(),
    {
        let mut programs: Vec<KilnProgram> = Vec::new();
        let mut i: usize = 0;
        while i < self.firings.len()
            invariant
                i <= self.firings.len(),
                programs@.len() == i,
                forall|k: int|
                    0 <= k < i ==> (#[trigger] programs@[k])@ == self.firings@[k].program@,
            decreases self.firings.len() - i,
        {
            programs.push(self.firings[i].program.clone());
            i += 1;
        }
        assert(program_views(programs@) =~= self@.programs());
        programs
    }

    /// The pictures, in order.
    pub fn pictures(&self) -> (r: Vec<ProjectImage>)
        ensures
            image_views(r@) == self@.pictures,
    {
        let mut pictures: Vec<ProjectImage> = Vec::new();
        let mut i: usize = 0;
        while i < self.pictures.len()
            invariant
                i <= self.pictures.len(),
                pictures@.len() == i,
                forall|k: int| 0 <= k < i ==> (#[trigger] pictures@[k])@ == self.pictures@[k]@,
            decreases self.pictures.len() - i,
        {
            pictures.push(self.pictures[i].clone());
            i += 1;
        }
        assert(image_views(pictures@) =~= self@.pictures);
        pictures
    }

    /// The program of the firing at `index`, which must be a position among
    /// the firings.
    pub fn firing(&self, index: usize) -> (r: KilnProgram)
        requires
            index < self@.firings.len(),
        ensures
            r@ == self@.firings[index as int].program,
    {
        self.firings[index].program.clone()
    }

    /// The comment of the firing at `index`, which must be a position among
    /// the firings.
    pub fn firing_comment(&self, index: usize) -> (r: String)
        requires
            index < self@.firings.len(),
        ensures
            r@ == self@.firings[index as int].comment,
    {
        self.firings[index].comment.clone()
    }

    /// The picture at `index`, which must be a position among the pictures.
    pub fn picture(&self, index: usize) -> (r: ProjectImage)
        requires
            index < self@.pictures.len(),
        ensures
            r@ == self@.pictures[index as int],
    {
        self.pictures[index].clone()
    }

    /// Appends a firing of `program` with its `comment`.
    pub fn add_firing(&mut self, program: KilnProgram, comment: &str)
        ensures
            final(self)@ == (KilnProjectView {
                firings: old(self)@.firings.push(
                    FiringView { comment: comment@, program: program@ },
                ),
                ..old(self)@
            }),
    {
        let firing = Firing { comment: comment.to_owned(), program };
        self.firings.push(firing);
        assert(firing_views(self.firings@) =~= firing_views(old(self).firings@).push(firing@));
    }

    /// Removes the firing at `index`, comment and program together, and
    /// closes the gap. An `index` that is no position among the firings is
    /// refused and the project stays as it was.
    pub fn delete_firing(&mut self, index: usize) -> (r: Result<(), DatabaseError>)
        ensures
            index < old(self)@.firings.len() <==> r is Ok,
            r is Ok ==> final(self)@ == (KilnProjectView {
                firings: old(self)@.firings.remove(index as int),
                ..old(self)@
            }),
            r is Err ==> r == Err::<(), DatabaseError>(DatabaseError::InvalidIndex(index))
                && *final(self) == *old(self),
    {
        if index >= self.firings.len() {
            return Err(DatabaseError::InvalidIndex(index));
        }
        self.firings.remove(index);
        assert(firing_views(self.firings@) =~= firing_views(old(self).firings@).remove(
            index as int,
        ));
        Ok(())
    }

    /// Inserts a firing of `program` with its `comment` before the firing at
    /// `index`; an `index` equal to the number of firings appends. A larger
    /// `index` is refused and the project stays as it was.
    pub fn insert_firing(&mut self, program: KilnProgram, comment: &str, index: usize) -> (r:
        Result<(), DatabaseError>)
        ensures
            index <= old(self)@.firings.len() <==> r is Ok,
            r is Ok ==> final(self)@ == (KilnProjectView {
                firings: old(self)@.firings.insert(
                    index as int,
                    FiringView { comment: comment@, program: program@ },
                ),
                ..old(self)@
            }),
            r is Err ==> r == Err::<(), DatabaseError>(DatabaseError::InvalidIndex(index))
                && *final(self) == *old(self),
    {
        if index > self.firings.len() {
            return Err(DatabaseError::InvalidIndex(index));
        }
        let firing = Firing { comment: comment.to_owned(), program };
        self.firings.insert(index, firing);
        assert(firing_views(self.firings@) =~= firing_views(old(self).firings@).insert(
            index as int,
            firing@,
        ));
        Ok(())
    }

    /// Appends `image`.
    pub fn add_picture(&mut self, image: ProjectImage)
        ensures
            final(self)@ == (KilnProjectView {
                pictures: old(self)@.pictures.push(image@),
                ..old(self)@
            }),
    {
        self.pictures.push(image);
        assert(image_views(self.pictures@) =~= image_views(old(self).pictures@).push(image@));
    }

    /// Appends every image of `images`, in order.
    pub fn add_pictures(&mut self, images: &Vec<ProjectImage>)
        ensures
            final(self)@ == (KilnProjectView {
                pictures: old(self)@.pictures + image_views(images@),
                ..old(self)@
            }),
    {
        let mut i: usize = 0;
        while i < images.len()
            invariant
                i <= images.len(),
                self.project == old(self).project,
                self.firings == old(self).firings,
                self.pictures@.len() == old(self).pictures@.len() + i,
                forall|k: int|
                    0 <= k < old(self).pictures@.len() ==> (#[trigger] self.pictures@[k])@ == old(
                        self,
                    ).pictures@[k]@,
                forall|k: int|
                    old(self).pictures@.len() <= k < old(self).pictures@.len() + i ==> (
                    #[trigger] self.pictures@[k])@ == images@[k - old(self).pictures@.len()]@,
            decreases images.len() - i,
        {
            self.pictures.push(images[i].clone());
            i += 1;
        }
        assert(image_views(self.pictures@) =~= image_views(old(self).pictures@) + image_views(
            images@,
        ));
    }

    /// Removes the picture at `index` and closes the gap. An `index` that is
    /// no position among the pictures is refused and the project stays as it
    /// was.
    pub fn delete_picture(&mut self, index: usize) -> (r: Result<(), DatabaseError>)
        ensures
            index < old(self)@.pictures.len() <==> r is Ok,
            r is Ok ==> final(self)@ == (KilnProjectView {
                pictures: old(self)@.pictures.remove(index as int),
                ..old(self)@
            }),
            r is Err ==> r == Err::<(), DatabaseError>(DatabaseError::InvalidIndex(index))
                && *final(self) == *old(self),
    {
        if index >= self.pictures.len() {
            return Err(DatabaseError::InvalidIndex(index));
        }
        self.pictures.remove(index);
        assert(image_views(self.pictures@) =~= image_views(old(self).pictures@).remove(
            index as int,
        ));
        Ok(())
    }

    /// Inserts `image` before the picture at `index`; an `index` equal to the
    /// number of pictures appends. A larger `index` is refused and the
    /// project stays as it was.
    pub fn insert_picture(&mut self, image: ProjectImage, index: usize) -> (r: Result<
        (),
        DatabaseError,
    >)
        ensures
            index <= old(self)@.pictures.len() <==> r is Ok,
            r is Ok ==> final(self)@ == (KilnProjectView {
                pictures: old(self)@.pictures.insert(index as int, image@),
                ..old(self)@
            }),
            r is Err ==> r == Err::<(), DatabaseError>(DatabaseError::InvalidIndex(index))
                && *final(self) == *old(self),
    {
        if index > self.pictures.len() {
            return Err(DatabaseError::InvalidIndex(index));
        }
        self.pictures.insert(index, image);
        assert(image_views(self.pictures@) =~= image_views(old(self).pictures@).insert(
            index as int,
            image@,
        ));
        Ok(())
    }
}

} // verus!
