//! Projects: named roots with the buffers opened under them.

pub mod project_manager;

use crate::buffer::BufferId;
use crate::buffer::path_view;
use vstd::prelude::*;

verus! {

/// The identity of a project.
#[derive(Debug, Clone, Copy, PartialEq, Eq, Structural, Hash)]
pub struct ProjectId(pub u64);

/// A project.
#[derive(Debug, Clone)]
pub struct Project {
    pub id: ProjectId,
    pub name: String,
    pub root: Option<String>,
    pub buffers: Vec<BufferId>,
}

/// What a [`Project`] stands for.
#[verifier::ext_equal]
pub struct ProjectView {
    pub id: ProjectId,
    pub name: Seq<char>,
    pub root: Option<Seq<char>>,
    pub buffers: Seq<BufferId>,
}

impl View for Project {
    type V = ProjectView;

    open spec fn view(&self) -> ProjectView {
        ProjectView {
            id: self.id,
            name: self.name@,
            root: path_view(self.root),
            buffers: self.buffers@,
        }
    }
}

impl Project {
    /// A copy of the project.
    pub fn duplicate(&self) -> (copy: Project)
        ensures
            copy@ == self@,
    {
        let mut buffers: Vec<BufferId> = Vec::new();
        let mut i: usize = 0;
        while i < self.buffers.len()
            invariant
                i <= self.buffers.len(),
                buffers@ == self.buffers@.subrange(0, i as int),
            decreases self.buffers.len() - i,
        {
            buffers.push(self.buffers[i]);
            assert(self.buffers@.subrange(0, i + 1) =~= self.buffers@.subrange(0, i as int).push(
                self.buffers@[i as int],
            ));
            i = i + 1;
        }
        assert(self.buffers@.subrange(0, self.buffers.len() as int) =~= self.buffers@);
        Project {
            id: self.id,
            name: self.name.clone(),
            root: match &self.root {
                Some(r) => Some(r.clone()),
                None => None,
            },
            buffers,
        }
    }
}

} // verus!
