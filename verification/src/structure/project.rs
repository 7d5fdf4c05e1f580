//! A project: a name, a description, the tasks still open and the tasks
//! done. A task changes sides by leaving one sequence and joining the end of
//! the other.

use crate::structure::task::{
    clone_tasks, lemma_tasks_view_push, lemma_tasks_view_remove, tasks_view, Task, TaskView,
};
use crate::structure::TaskContainer;
use vstd::prelude::*;
use vstd::string::StringExecFns;

verus! {

#[derive(Debug, PartialEq, Eq)]
pub struct Project {
    pub name: String,
    pub description: String,
    pub active_tasks: Vec<Task>,
    pub completed_tasks: Vec<Task>,
}

/// What a project is, as a mathematical value.
pub ghost struct ProjectView {
    pub name: Seq<char>,
    pub description: Seq<char>,
    pub active_tasks: Seq<TaskView>,
    pub completed_tasks: Seq<TaskView>,
}

impl ProjectView {
    /// The project that `Project::new` makes.
    pub open spec fn fresh(name: Seq<char>) -> ProjectView {
        ProjectView {
            name,
            description: "Sample description"@,
            active_tasks: Seq::empty(),
            completed_tasks: Seq::empty(),
        }
    }

    /// The project that `Project::default` makes.
    pub open spec fn empty() -> ProjectView {
        ProjectView {
            name: Seq::empty(),
            description: Seq::empty(),
            active_tasks: Seq::empty(),
            completed_tasks: Seq::empty(),
        }
    }

    /// The project with one more open task at the end.
    pub open spec fn with_task(self, task: TaskView) -> ProjectView {
        ProjectView { active_tasks: self.active_tasks.push(task), ..self }
    }

    /// The open task at `index` moved to the end of the tasks done; an index
    /// past the end changes nothing.
    pub open spec fn completed(self, index: int) -> ProjectView {
        if 0 <= index < self.active_tasks.len() {
            ProjectView {
                active_tasks: self.active_tasks.remove(index),
                completed_tasks: self.completed_tasks.push(self.active_tasks[index]),
                ..self
            }
        } else {
            self
        }
    }

    /// The task done at `index` moved to the end of the open tasks; an index
    /// past the end changes nothing.
    pub open spec fn uncompleted(self, index: int) -> ProjectView {
        if 0 <= index < self.completed_tasks.len() {
            ProjectView {
                active_tasks: self.active_tasks.push(self.completed_tasks[index]),
                completed_tasks: self.completed_tasks.remove(index),
                ..self
            }
        } else {
            self
        }
    }
}

impl View for Project {
    type V = ProjectView;

    open spec fn view(&self) -> ProjectView {
        ProjectView {
            name: self.name@,
            description: self.description@,
            active_tasks: tasks_view(self.active_tasks@),
            completed_tasks: tasks_view(self.completed_tasks@),
        }
    }
}

/// The views of a sequence of projects, in the same order.
pub open spec fn projects_view(projects: Seq<Project>) -> Seq<ProjectView> {
    Seq::new(projects.len(), |i: int| projects[i]@)
}

/// A task marked as done and at once marked as open again is an open task
/// again, now the last one; the tasks done are what they were.
pub proof fn lemma_complete_then_uncomplete(project: ProjectView, index: int)
    requires
        0 <= index < project.active_tasks.len(),
    ensures
        project.completed(index).uncompleted(project.completed_tasks.len() as int) == (ProjectView {
            active_tasks: project.active_tasks.remove(index).push(project.active_tasks[index]),
            ..project
        }),
        project.completed(index).uncompleted(
            project.completed_tasks.len() as int,
        ).completed_tasks.len() == project.completed_tasks.len(),
        project.completed(index).uncompleted(
            project.completed_tasks.len() as int,
        ).active_tasks.len() == project.active_tasks.len(),
{
    let moved = project.completed(index);
    let last = project.completed_tasks.len() as int;
    assert(moved.completed_tasks.remove(last) =~= project.completed_tasks);
}

/// A task marked as open and at once marked as done again is a task done
/// again, now the last one; the open tasks are what they were.
pub proof fn lemma_uncomplete_then_complete(project: ProjectView, index: int)
    requires
        0 <= index < project.completed_tasks.len(),
    ensures
        project.uncompleted(index).completed(project.active_tasks.len() as int) == (ProjectView {
            completed_tasks: project.completed_tasks.remove(index).push(
                project.completed_tasks[index],
            ),
            ..project
        }),
        project.uncompleted(index).completed(
            project.active_tasks.len() as int,
        ).active_tasks.len() == project.active_tasks.len(),
        project.uncompleted(index).completed(
            project.active_tasks.len() as int,
        ).completed_tasks.len() == project.completed_tasks.len(),
{
    let moved = project.uncompleted(index);
    let last = project.active_tasks.len() as int;
    assert(moved.active_tasks.remove(last) =~= project.active_tasks);
}

/// Marking a task as done or as open moves one task and loses none: the two
/// sequences together are as long as before.
pub proof fn lemma_moves_keep_task_count(project: ProjectView, index: int)
    ensures
        project.completed(index).active_tasks.len() + project.completed(
            index,
        ).completed_tasks.len() == project.active_tasks.len() + project.completed_tasks.len(),
        project.uncompleted(index).active_tasks.len() + project.uncompleted(
            index,
        ).completed_tasks.len() == project.active_tasks.len() + project.completed_tasks.len(),
{
}

impl Clone for Project {
    fn clone(&self) -> (copy: Project)
        ensures
            copy@ == self@,
    {
        Project {
            name: self.name.clone(),
            description: self.description.clone(),
            active_tasks: clone_tasks(&self.active_tasks),
            completed_tasks: clone_tasks(&self.completed_tasks),
        }
    }
}

impl Default for Project {
    /// The project with an empty name, an empty description and no tasks.
    fn default() -> (project: Project)
        ensures
            project@ == ProjectView::empty(),
    {
        let project = Project {
            name: String::new(),
            description: String::new(),
            active_tasks: Vec::new(),
            completed_tasks: Vec::new(),
        };
        assert(project@.active_tasks =~= Seq::empty());
        assert(project@.completed_tasks =~= Seq::empty());
        project
    }
}

/// A copy of each project, in the same order.
pub fn clone_projects(projects: &Vec<Project>) -> (copy: Vec<Project>)
    ensures
        projects_view(copy@) == projects_view(projects@),
{
    let mut copy: Vec<Project> = Vec::new();
    let mut i: usize = 0;
    while i < projects.len()
        invariant
            i <= projects.len(),
            copy@.len() == i,
            forall|j: int| 0 <= j < i ==> copy@[j]@ == projects@[j]@,
        decreases projects.len() - i,
    {
        copy.push(projects[i].clone());
        i += 1;
    }
    assert(projects_view(copy@) =~= projects_view(projects@));
    copy
}

impl Project {
    /// A project of the given name with the description that every new
    /// project starts with, and no tasks.
    pub fn new(project_name: String) -> (project: Project)
        ensures
            project@ == ProjectView::fresh(project_name@),
    {
        let project = Project {
            name: project_name,
            description: String::from_str("Sample description"),
            active_tasks: Vec::new(),
            completed_tasks: Vec::new(),
        };
        assert(project@.active_tasks =~= Seq::empty());
        assert(project@.completed_tasks =~= Seq::empty());
        project
    }

    /// Marks the open task at `index` as done: it leaves the open tasks and
    /// joins the end of the tasks done. Returns whether there was such a
    /// task.
    pub fn complete_task(&mut self, index: usize) -> (moved: bool)
        ensures
            moved == (index < old(self)@.active_tasks.len()),
            final(self)@ == old(self)@.completed(index as int),
    {
        if index < self.active_tasks.len() {
            proof {
                lemma_tasks_view_remove(self.active_tasks@, index as int);
                lemma_tasks_view_push(self.completed_tasks@, self.active_tasks@[index as int]);
            }
            let task = self.active_tasks.remove(index);
            self.completed_tasks.push(task);
            true
        } else {
            false
        }
    }

    /// Marks the task done at `index` as open: it leaves the tasks done and
    /// joins the end of the open tasks. Returns whether there was such a
    /// task.
    pub fn uncomplete_task(&mut self, index: usize) -> (moved: bool)
        ensures
            moved == (index < old(self)@.completed_tasks.len()),
            final(self)@ == old(self)@.uncompleted(index as int),
    {
        if index < self.completed_tasks.len() {
            proof {
                lemma_tasks_view_remove(self.completed_tasks@, index as int);
                lemma_tasks_view_push(self.active_tasks@, self.completed_tasks@[index as int]);
            }
            let task = self.completed_tasks.remove(index);
            self.active_tasks.push(task);
            true
        } else {
            false
        }
    }
}

impl TaskContainer for Project {
    open spec fn contained_tasks(&self) -> Seq<TaskView> {
        self@.active_tasks
    }

    /// Appends the fresh task to the open tasks and leaves the rest alone.
    fn add_task(&mut self, task_name: String, task_description: String)
        ensures
            final(self)@ == old(self)@.with_task(TaskView::fresh(task_name@, task_description@)),
    {
        let task = Task::new(task_name, task_description);
        proof {
            lemma_tasks_view_push(self.active_tasks@, task);
        }
        self.active_tasks.push(task);
    }
}

} // verus!
