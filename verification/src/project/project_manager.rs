//! The projects of an editor, one of which is current.

use crate::buffer::BufferId;
use crate::project::{Project, ProjectId, ProjectView};
use vstd::prelude::*;

verus! {

/// The number of the project that always exists and has no root.
pub const DEFAULT_PROJECT: u64 = 0;

/// The projects in the order in which they were added.
#[derive(Debug, Clone)]
pub struct ProjectManager {
    pub(crate) projects: Vec<Project>,
    pub(crate) current: ProjectId,
    pub(crate) next_id: u64,
}

/// What a [`ProjectManager`] stands for.
#[verifier::ext_equal]
pub struct ProjectsView {
    pub projects: Seq<ProjectView>,
    pub current: ProjectId,
    pub next_id: u64,
}

/// The place of the first project at or after `from` with the identity `id`,
/// or the number of projects.
pub open spec fn project_index(projects: Seq<ProjectView>, id: ProjectId, from: int) -> int
    decreases projects.len() - from,
{
    if from < 0 || from >= projects.len() {
        projects.len() as int
    } else if projects[from].id == id {
        from
    } else {
        project_index(projects, id, from + 1)
    }
}

/// The place of the first project at or after `from` with the name `name`,
/// or the number of projects.
pub open spec fn project_name_index(projects: Seq<ProjectView>, name: Seq<char>, from: int) -> int
    decreases projects.len() - from,
{
    if from < 0 || from >= projects.len() {
        projects.len() as int
    } else if projects[from].name == name {
        from
    } else {
        project_name_index(projects, name, from + 1)
    }
}

pub proof fn lemma_project_index(projects: Seq<ProjectView>, id: ProjectId, from: int)
    requires
        0 <= from <= projects.len(),
    ensures
        from <= project_index(projects, id, from) <= projects.len(),
        project_index(projects, id, from) < projects.len() ==> projects[project_index(
            projects,
            id,
            from,
        )].id == id,
        forall|i: int| from <= i < project_index(projects, id, from) ==> (#[trigger] projects[i]).id != id,
    decreases projects.len() - from,
{
    if from < projects.len() && projects[from].id != id {
        lemma_project_index(projects, id, from + 1);
    }
}

/// The names and paths of a list of entries.
pub open spec fn entry_views(entries: Seq<(String, String)>) -> Seq<(Seq<char>, Seq<char>)> {
    entries.map_values(|e: (String, String)| (e.0@, e.1@))
}

/// The test that a buffer is another one than `id`.
pub open spec fn other_than(id: BufferId) -> spec_fn(BufferId) -> bool {
    |b: BufferId| b != id
}

impl ProjectsView {
    /// The projects have identities of their own, all of them given out
    /// already, and the current project is among them.
    pub open spec fn wf(self) -> bool {
        &&& forall|i: int, j: int|
            0 <= i < j < self.projects.len() ==> (#[trigger] self.projects[i]).id != (
            #[trigger] self.projects[j]).id
        &&& forall|i: int| 0 <= i < self.projects.len() ==> (#[trigger] self.projects[i]).id.0 < self.next_id
        &&& project_index(self.projects, self.current, 0) < self.projects.len()
    }

    /// The place of the current project.
    pub open spec fn current_index(self) -> int {
        project_index(self.projects, self.current, 0)
    }

    /// The current project.
    pub open spec fn current_project(self) -> ProjectView {
        self.projects[self.current_index()]
    }

    /// The manager as it is made: the default project alone, and current.
    pub open spec fn fresh() -> ProjectsView {
        ProjectsView {
            projects: seq![
                ProjectView {
                    id: ProjectId(DEFAULT_PROJECT),
                    name: "empty"@,
                    root: None,
                    buffers: Seq::empty(),
                },
            ],
            current: ProjectId(DEFAULT_PROJECT),
            next_id: 1,
        }
    }

    /// A new project at the end, with the next identity.
    pub open spec fn add(self, name: Seq<char>, root: Seq<char>) -> ProjectsView {
        ProjectsView {
            projects: self.projects.push(
                ProjectView {
                    id: ProjectId(self.next_id),
                    name,
                    root: Some(root),
                    buffers: Seq::empty(),
                },
            ),
            next_id: (self.next_id + 1) as u64,
            ..self
        }
    }

    /// The project `id` made current, if there is one.
    pub open spec fn switch_by_id(self, id: ProjectId) -> ProjectsView {
        if project_index(self.projects, id, 0) < self.projects.len() {
            ProjectsView { current: id, ..self }
        } else {
            self
        }
    }

    /// The first project named `name` made current, if there is one.
    pub open spec fn switch_by_name(self, name: Seq<char>) -> ProjectsView {
        let i = project_name_index(self.projects, name, 0);
        if i < self.projects.len() {
            self.switch_by_id(self.projects[i].id)
        } else {
            self
        }
    }

    /// `id` added to the buffers of the current project.
    pub open spec fn add_buffer_to_current(self, id: BufferId) -> ProjectsView {
        let i = self.current_index();
        ProjectsView {
            projects: self.projects.update(
                i,
                ProjectView { buffers: self.projects[i].buffers.push(id), ..self.projects[i] },
            ),
            ..self
        }
    }

    /// A project added for each entry, a name and a path, whose name no
    /// project has yet, as long as identities are left.
    pub open spec fn discover(self, entries: Seq<(Seq<char>, Seq<char>)>) -> ProjectsView
        decreases entries.len(),
    {
        if entries.len() == 0 {
            self
        } else {
            let found = self.discover(entries.drop_last());
            let entry = entries.last();
            if project_name_index(found.projects, entry.0, 0) < found.projects.len()
                || found.next_id == u64::MAX {
                found
            } else {
                found.add(entry.0, entry.1)
            }
        }
    }

    /// `id` taken out of the buffers of the current project.
    pub open spec fn remove_buffer_from_current(self, id: BufferId) -> ProjectsView {
        let i = self.current_index();
        ProjectsView {
            projects: self.projects.update(
                i,
                ProjectView {
                    buffers: self.projects[i].buffers.filter(other_than(id)),
                    ..self.projects[i]
                },
            ),
            ..self
        }
    }

    /// The identity of the project after the current one, in a circle.
    pub open spec fn next_project_id(self) -> ProjectId {
        self.projects[(self.current_index() + 1) % (self.projects.len() as int)].id
    }

    /// The identity of the project before the current one, in a circle.
    pub open spec fn previous_project_id(self) -> ProjectId {
        self.projects[(self.current_index() + self.projects.len() - 1) % (
        self.projects.len() as int)].id
    }

    /// Without the project `id`; the default project becomes current where
    /// the current one goes.
    pub open spec fn without(self, id: ProjectId) -> ProjectsView {
        let i = project_index(self.projects, id, 0);
        ProjectsView {
            projects: self.projects.remove(i),
            current: if self.current == id {
                ProjectId(DEFAULT_PROJECT)
            } else {
                self.current
            },
            ..self
        }
    }
}

impl View for ProjectManager {
    type V = ProjectsView;

    open(crate) spec fn view(&self) -> ProjectsView {
        ProjectsView {
            projects: self.projects@.map_values(|p: Project| p@),
            current: self.current,
            next_id: self.next_id,
        }
    }
}

/// Why a project cannot be closed.
#[derive(Debug, Clone, Copy, PartialEq, Eq, Structural)]
pub enum CloseProjectError {
    /// The default project stays.
    DefaultProject,
    /// There is no such project.
    NotFound,
}

impl CloseProjectError {
    pub fn message(&self) -> (text: String)
        ensures
            text@ == match *self {
                CloseProjectError::DefaultProject => "Cannot close the default project"@,
                CloseProjectError::NotFound => "Project not found"@,
            },
    {
        match self {
            CloseProjectError::DefaultProject => String::from_str(
                "Cannot close the default project",
            ),
            CloseProjectError::NotFound => String::from_str("Project not found"),
        }
    }
}

impl ProjectManager {
    /// The manager is well formed, and the default project is one of its
    /// projects.
    pub open(crate) spec fn wf(&self) -> bool {
        self@.wf() && project_index(self@.projects, ProjectId(DEFAULT_PROJECT), 0) < self@.projects.len()
    }

    pub fn new() -> (manager: ProjectManager)
        ensures
            manager.wf(),
            manager@ == ProjectsView::fresh(),
    {
        let default_project = Project {
            id: ProjectId(DEFAULT_PROJECT),
            name: String::from_str("empty"),
            root: None,
            buffers: Vec::new(),
        };
        let mut projects: Vec<Project> = Vec::new();
        projects.push(default_project);
        let manager = ProjectManager { projects, current: ProjectId(DEFAULT_PROJECT), next_id: 1 };
        assert(manager@.projects =~= ProjectsView::fresh().projects);
        manager
    }

    /// Whether another project can be added.
    pub fn has_free_id(&self) -> (free: bool)
        ensures
            free == (self@.next_id < u64::MAX),
    {
        self.next_id < u64::MAX
    }

    pub fn add(&mut self, name: String, root: String) -> (id: ProjectId)
        requires
            old(self).wf(),
            old(self)@.next_id < u64::MAX,
        ensures
            final(self).wf(),
            final(self)@ == old(self)@.add(name@, root@),
            id == ProjectId(old(self)@.next_id),
    {
        let id = ProjectId(self.next_id);
        self.next_id = self.next_id + 1;
        let project = Project { id, name, root: Some(root), buffers: Vec::new() };
        self.projects.push(project);
        proof {
            let before = old(self)@;
            let after = self@;
            assert(after.projects =~= before.add(name@, root@).projects);
            lemma_index_survives_push(before.projects, after.projects[before.projects.len() as int], before.current);
            lemma_index_survives_push(before.projects, after.projects[before.projects.len() as int], ProjectId(DEFAULT_PROJECT));
            assert forall|i: int, j: int| 0 <= i < j < after.projects.len() implies (
            #[trigger] after.projects[i]).id != (#[trigger] after.projects[j]).id by {
                assert(after.projects[i] == before.projects[i]);
                if j < before.projects.len() {
                    assert(after.projects[j] == before.projects[j]);
                }
            }
            assert forall|i: int| 0 <= i < after.projects.len() implies (
            #[trigger] after.projects[i]).id.0 < after.next_id by {
                if i < before.projects.len() {
                    assert(after.projects[i] == before.projects[i]);
                }
            }
        }
        id
    }

    pub fn len(&self) -> (n: usize)
        ensures
            n == self@.projects.len(),
    {
        self.projects.len()
    }

    /// The place of the project `id`, or the number of projects.
    pub fn index_of(&self, id: ProjectId) -> (i: usize)
        ensures
            i == project_index(self@.projects, id, 0),
            i <= self@.projects.len(),
            i < self@.projects.len() ==> self@.projects[i as int].id == id,
    {
        let mut i: usize = 0;
        while i < self.projects.len()
            invariant
                i <= self.projects.len(),
                project_index(self@.projects, id, i as int) == project_index(self@.projects, id, 0),
            decreases self.projects.len() - i,
        {
            assert(self@.projects[i as int] == self.projects@[i as int]@);
            if self.projects[i].id == id {
                return i;
            }
            i = i + 1;
        }
        i
    }

    pub fn current(&self) -> (project: &Project)
        requires
            self.wf(),
        ensures
            project@ == self@.current_project(),
    {
        let i = self.index_of(self.current);
        assert(self@.projects[i as int] == self.projects@[i as int]@);
        &self.projects[i]
    }

    pub fn current_mut(&mut self) -> (project: &mut Project)
        requires
            old(self).wf(),
        ensures
            project@ == old(self)@.current_project(),
            final(self)@ == (ProjectsView {
                projects: old(self)@.projects.update(old(self)@.current_index(), final(project)@),
                ..old(self)@
            }),
    {
        let i = self.index_of(self.current);
        assert(self@.projects[i as int] == self.projects@[i as int]@);
        &mut self.projects[i]
    }

    pub fn current_name(&self) -> (name: String)
        requires
            self.wf(),
        ensures
            name@ == self@.current_project().name,
    {
        self.current().name.clone()
    }

    pub fn current_id(&self) -> (id: ProjectId)
        ensures
            id == self@.current,
    {
        self.current
    }

    /// Makes the project `id` current and hands it out, if there is one.
    pub fn switch_by_id(&mut self, id: ProjectId) -> (project: Option<&Project>)
        requires
            old(self).wf(),
        ensures
            final(self).wf(),
            final(self)@ == old(self)@.switch_by_id(id),
            match project {
                Some(p) => project_index(old(self)@.projects, id, 0) < old(self)@.projects.len()
                    && p@ == old(self)@.projects[project_index(old(self)@.projects, id, 0)],
                None => project_index(old(self)@.projects, id, 0) >= old(self)@.projects.len(),
            },
    {
        let i = self.index_of(id);
        if i < self.projects.len() {
            self.current = id;
            assert(self@.projects[i as int] == self.projects@[i as int]@);
            Some(&self.projects[i])
        } else {
            None
        }
    }

    /// Makes the first project named `name` current and hands it out, if
    /// there is one.
    pub fn switch_by_name(&mut self, name: &str) -> (project: Option<&Project>)
        requires
            old(self).wf(),
        ensures
            final(self).wf(),
            final(self)@ == old(self)@.switch_by_name(name@),
            match project {
                Some(p) => project_name_index(old(self)@.projects, name@, 0)
                    < old(self)@.projects.len() && p@.name == name@,
                None => project_name_index(old(self)@.projects, name@, 0)
                    >= old(self)@.projects.len(),
            },
    {
        let wanted = String::from_str(name);
        let mut i: usize = 0;
        while i < self.projects.len()
            invariant
                i <= self.projects.len(),
                *self == *old(self),
                self.wf(),
                wanted@ == name@,
                project_name_index(self@.projects, name@, i as int) == project_name_index(
                    self@.projects,
                    name@,
                    0,
                ),
            decreases self.projects.len() - i,
        {
            assert(self@.projects[i as int] == self.projects@[i as int]@);
            if self.projects[i].name == wanted {
                let id = self.projects[i].id;
                proof {
                    lemma_project_index(self@.projects, id, 0);
                    assert(project_name_index(self@.projects, name@, i as int) == i);
                }
                let found = self.switch_by_id(id);
                return found;
            }
            i = i + 1;
        }
        None
    }

    /// The projects, in the order in which they were added.
    pub fn get_projects(&self) -> (projects: Vec<&Project>)
        ensures
            projects.len() == self@.projects.len(),
            forall|i: int| 0 <= i < projects.len() ==> (#[trigger] projects[i])@ == self@.projects[i],
    {
        let mut out: Vec<&Project> = Vec::new();
        let mut i: usize = 0;
        while i < self.projects.len()
            invariant
                i <= self.projects.len(),
                out.len() == i,
                forall|k: int| 0 <= k < i ==> (#[trigger] out[k])@ == self@.projects[k],
            decreases self.projects.len() - i,
        {
            assert(self@.projects[i as int] == self.projects@[i as int]@);
            out.push(&self.projects[i]);
            i = i + 1;
        }
        out
    }

    /// Copies of the projects, in the order in which they were added.
    pub fn get_projects_cloned(&self) -> (projects: Vec<Project>)
        ensures
            projects@.map_values(|p: Project| p@) == self@.projects,
    {
        let mut out: Vec<Project> = Vec::new();
        let mut i: usize = 0;
        while i < self.projects.len()
            invariant
                i <= self.projects.len(),
                out.len() == i,
                forall|k: int| 0 <= k < i ==> (#[trigger] out[k])@ == self@.projects[k],
            decreases self.projects.len() - i,
        {
            assert(self@.projects[i as int] == self.projects@[i as int]@);
            out.push(self.projects[i].duplicate());
            i = i + 1;
        }
        assert(out@.map_values(|p: Project| p@) =~= self@.projects);
        out
    }

    pub fn add_buffer_to_current(&mut self, id: BufferId)
        requires
            old(self).wf(),
        ensures
            final(self).wf(),
            final(self)@ == old(self)@.add_buffer_to_current(id),
    {
        let i = self.index_of(self.current);
        assert(self@.projects[i as int] == self.projects@[i as int]@);
        self.projects[i].buffers.push(id);
        proof {
            let before = old(self)@;
            let after = self@;
            assert(after.projects =~= before.add_buffer_to_current(id).projects);
            lemma_index_survives_update(before.projects, i as int, after.projects[i as int], before.current);
            lemma_index_survives_update(before.projects, i as int, after.projects[i as int], ProjectId(DEFAULT_PROJECT));
            assert forall|a: int, b: int| 0 <= a < b < after.projects.len() implies (
            #[trigger] after.projects[a]).id != (#[trigger] after.projects[b]).id by {
                assert(after.projects[a].id == before.projects[a].id);
                assert(after.projects[b].id == before.projects[b].id);
            }
            assert forall|a: int| 0 <= a < after.projects.len() implies (
            #[trigger] after.projects[a]).id.0 < after.next_id by {
                assert(after.projects[a].id == before.projects[a].id);
            }
        }
    }

    /// Takes `id` out of the buffers of the current project.
    pub fn remove_buffer_from_current(&mut self, id: BufferId)
        requires
            old(self).wf(),
        ensures
            final(self).wf(),
            final(self)@ == old(self)@.remove_buffer_from_current(id),
    {
        let i = self.index_of(self.current);
        assert(self@.projects[i as int] == self.projects@[i as int]@);
        let ghost all = self.projects[i as int].buffers@;
        let ghost keep = other_than(id);
        let mut kept: Vec<BufferId> = Vec::new();
        let mut k: usize = 0;
        assert(all.take(0) =~= Seq::<BufferId>::empty());
        while k < self.projects[i].buffers.len()
            invariant
                i < self.projects.len(),
                *self == *old(self),
                all == self.projects[i as int].buffers@,
                keep == other_than(id),
                k <= all.len(),
                kept@ == all.take(k as int).filter(keep),
            decreases all.len() - k,
        {
            let b = self.projects[i].buffers[k];
            proof {
                assert(all.take(k + 1) =~= all.take(k as int).push(all[k as int]));
                crate::mini_buffer::lemma_filter_push(all.take(k as int), all[k as int], keep);
            }
            if b != id {
                kept.push(b);
            }
            k = k + 1;
        }
        assert(all.take(all.len() as int) =~= all);
        self.projects[i].buffers = kept;
        proof {
            let before = old(self)@;
            let after = self@;
            assert(after.projects =~= before.remove_buffer_from_current(id).projects);
            lemma_index_survives_update(before.projects, i as int, after.projects[i as int], before.current);
            lemma_index_survives_update(before.projects, i as int, after.projects[i as int], ProjectId(DEFAULT_PROJECT));
            assert forall|a: int, b: int| 0 <= a < b < after.projects.len() implies (
            #[trigger] after.projects[a]).id != (#[trigger] after.projects[b]).id by {
                assert(after.projects[a].id == before.projects[a].id);
                assert(after.projects[b].id == before.projects[b].id);
            }
            assert forall|a: int| 0 <= a < after.projects.len() implies (
            #[trigger] after.projects[a]).id.0 < after.next_id by {
                assert(after.projects[a].id == before.projects[a].id);
            }
        }
    }

    pub fn next_project_id(&self) -> (id: ProjectId)
        requires
            self.wf(),
        ensures
            id == self@.next_project_id(),
    {
        let pos = self.index_of(self.current);
        let len = self.projects.len();
        let next = if pos + 1 == len {
            0
        } else {
            pos + 1
        };
        assert(next == (pos + 1) % (len as int)) by (nonlinear_arith)
            requires
                0 <= pos < len,
                next == if pos + 1 == len {
                    0
                } else {
                    pos + 1
                },
        ;
        assert(self@.projects[next as int] == self.projects@[next as int]@);
        self.projects[next].id
    }

    pub fn previous_project_id(&self) -> (id: ProjectId)
        requires
            self.wf(),
        ensures
            id == self@.previous_project_id(),
    {
        let pos = self.index_of(self.current);
        let len = self.projects.len();
        let prev = if pos == 0 {
            len - 1
        } else {
            pos - 1
        };
        assert(prev == (pos + len - 1) % (len as int)) by (nonlinear_arith)
            requires
                0 <= pos < len,
                prev == if pos == 0 {
                    len - 1
                } else {
                    pos - 1
                },
        ;
        assert(self@.projects[prev as int] == self.projects@[prev as int]@);
        self.projects[prev].id
    }

    /// Adds a project for each entry whose name no project has yet. An entry
    /// is the name and the path of a directory.
    pub fn discover(&mut self, entries: Vec<(String, String)>) -> (added: usize)
        requires
            old(self).wf(),
        ensures
            final(self).wf(),
            final(self)@ == old(self)@.discover(entry_views(entries@)),
            added == final(self)@.projects.len() - old(self)@.projects.len(),
    {
        let mut added: usize = 0;
        let mut i: usize = 0;
        let ghost all = entry_views(entries@);
        assert(all.take(0) =~= Seq::<(Seq<char>, Seq<char>)>::empty());
        while i < entries.len()
            invariant
                i <= entries.len(),
                added <= i,
                self.wf(),
                all == entry_views(entries@),
                self@ == old(self)@.discover(all.take(i as int)),
                added == self@.projects.len() - old(self)@.projects.len(),
            decreases entries.len() - i,
        {
            proof {
                assert(all.take(i + 1).drop_last() =~= all.take(i as int));
                assert(all.take(i + 1).last() == (entries@[i as int].0@, entries@[i as int].1@));
            }
            let known = self.has_name(entries[i].0.as_str());
            if !known && self.has_free_id() {
                self.add(entries[i].0.clone(), entries[i].1.clone());
                added = added + 1;
            }
            i = i + 1;
        }
        assert(all.take(all.len() as int) =~= all);
        added
    }

    /// Whether a project has the name `name`.
    pub fn has_name(&self, name: &str) -> (known: bool)
        ensures
            known == (project_name_index(self@.projects, name@, 0) < self@.projects.len()),
    {
        let wanted = String::from_str(name);
        let mut i: usize = 0;
        while i < self.projects.len()
            invariant
                i <= self.projects.len(),
                wanted@ == name@,
                project_name_index(self@.projects, name@, i as int) == project_name_index(
                    self@.projects,
                    name@,
                    0,
                ),
            decreases self.projects.len() - i,
        {
            assert(self@.projects[i as int] == self.projects@[i as int]@);
            if self.projects[i].name == wanted {
                assert(project_name_index(self@.projects, name@, i as int) == i);
                return true;
            }
            i = i + 1;
        }
        false
    }

    /// Closes the project `id` and hands out the buffers that the current
    /// project had. The default project cannot be closed. Where the current
    /// project is closed, the default project becomes current.
    pub fn close_project(&mut self, id: ProjectId) -> (closed: Result<Vec<BufferId>, CloseProjectError>)
        requires
            old(self).wf(),
        ensures
            final(self).wf(),
            match closed {
                Ok(buffers) => id != ProjectId(DEFAULT_PROJECT) && project_index(
                    old(self)@.projects,
                    id,
                    0,
                ) < old(self)@.projects.len() && final(self)@ == old(self)@.without(id)
                    && buffers@ == old(self)@.current_project().buffers,
                Err(e) => final(self)@ == old(self)@ && e == if id == ProjectId(DEFAULT_PROJECT) {
                    CloseProjectError::DefaultProject
                } else {
                    CloseProjectError::NotFound
                } && (id == ProjectId(DEFAULT_PROJECT) || project_index(old(self)@.projects, id, 0)
                    >= old(self)@.projects.len()),
            },
    {
        if id == ProjectId(DEFAULT_PROJECT) {
            return Err(CloseProjectError::DefaultProject);
        }
        let i = self.index_of(id);
        if i >= self.projects.len() {
            return Err(CloseProjectError::NotFound);
        }
        let buffers = self.current().duplicate().buffers;
        let ghost before = self@;
        self.projects.remove(i);
        if self.current == id {
            self.current = ProjectId(DEFAULT_PROJECT);
        }
        proof {
            let after = self@;
            assert(after.projects =~= before.projects.remove(i as int));
            lemma_project_index(before.projects, id, 0);
            lemma_index_survives_remove(before.projects, i as int, ProjectId(DEFAULT_PROJECT));
            if before.current != id {
                lemma_index_survives_remove(before.projects, i as int, before.current);
            }
            assert forall|a: int, b: int| 0 <= a < b < after.projects.len() implies (
            #[trigger] after.projects[a]).id != (#[trigger] after.projects[b]).id by {
                let a0 = if a < i { a } else { a + 1 };
                let b0 = if b < i { b } else { b + 1 };
                assert(after.projects[a] == before.projects[a0]);
                assert(after.projects[b] == before.projects[b0]);
            }
            assert forall|a: int| 0 <= a < after.projects.len() implies (
            #[trigger] after.projects[a]).id.0 < after.next_id by {
                let a0 = if a < i { a } else { a + 1 };
                assert(after.projects[a] == before.projects[a0]);
            }
        }
        Ok(buffers)
    }
}

/// A project that is found is still found after another is added.
pub proof fn lemma_index_survives_push(projects: Seq<ProjectView>, added: ProjectView, id: ProjectId)
    requires
        project_index(projects, id, 0) < projects.len(),
    ensures
        project_index(projects.push(added), id, 0) == project_index(projects, id, 0),
{
    lemma_index_prefix(projects, projects.push(added), id, 0);
}

/// The search for a project goes the same way in two lists that agree on
/// the identities up to where it is found.
pub proof fn lemma_index_prefix(a: Seq<ProjectView>, b: Seq<ProjectView>, id: ProjectId, from: int)
    requires
        0 <= from,
        a.len() <= b.len(),
        forall|i: int| 0 <= i < a.len() ==> (#[trigger] a[i]).id == b[i].id,
        project_index(a, id, from) < a.len(),
    ensures
        project_index(b, id, from) == project_index(a, id, from),
    decreases a.len() - from,
{
    if from < a.len() {
        assert(a[from].id == b[from].id);
        if a[from].id != id {
            lemma_index_prefix(a, b, id, from + 1);
        }
    }
}

/// A project that is found is still found after a project is replaced by
/// one of the same identity.
pub proof fn lemma_index_survives_update(
    projects: Seq<ProjectView>,
    at: int,
    replaced: ProjectView,
    id: ProjectId,
)
    requires
        0 <= at < projects.len(),
        replaced.id == projects[at].id,
        project_index(projects, id, 0) < projects.len(),
    ensures
        project_index(projects.update(at, replaced), id, 0) == project_index(projects, id, 0),
{
    let b = projects.update(at, replaced);
    assert forall|i: int| 0 <= i < projects.len() implies (#[trigger] projects[i]).id == b[i].id by {}
    lemma_index_prefix(projects, b, id, 0);
}

/// A project that is found is still found after another project is
/// removed.
pub proof fn lemma_index_survives_remove(projects: Seq<ProjectView>, at: int, id: ProjectId)
    requires
        0 <= at < projects.len(),
        projects[at].id != id,
        project_index(projects, id, 0) < projects.len(),
    ensures
        project_index(projects.remove(at), id, 0) < projects.remove(at).len(),
{
    lemma_project_index(projects, id, 0);
    let i = project_index(projects, id, 0);
    let b = projects.remove(at);
    let j = if i < at { i } else { i - 1 };
    assert(b[j] == projects[i]);
    lemma_index_found(b, id, 0, j);
}

/// A project that occurs at or after `from` is found.
pub proof fn lemma_index_found(projects: Seq<ProjectView>, id: ProjectId, from: int, at: int)
    requires
        0 <= from <= at < projects.len(),
        projects[at].id == id,
    ensures
        project_index(projects, id, from) <= at,
    decreases projects.len() - from,
{
    if from < at && projects[from].id != id {
        lemma_index_found(projects, id, from + 1, at);
    }
}

} // verus!
