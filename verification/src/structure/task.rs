//! A task: a name, a description, the time spent and estimated, and the
//! sub-tasks nested below it.

use crate::structure::TaskContainer;
use vstd::prelude::*;

verus! {

#[derive(Debug, PartialEq, Eq)]
pub struct Task {
    pub name: String,
    pub description: String,
    pub time_spent: i32,
    pub estimate: i32,
    pub sub_tasks: Vec<Task>,
}

/// What a task is, as a mathematical value.
pub ghost struct TaskView {
    pub name: Seq<char>,
    pub description: Seq<char>,
    pub time_spent: i32,
    pub estimate: i32,
    pub sub_tasks: Seq<TaskView>,
}

impl TaskView {
    /// The task that `Task::new` makes.
    pub open spec fn fresh(name: Seq<char>, description: Seq<char>) -> TaskView {
        TaskView { name, description, time_spent: 0, estimate: 0, sub_tasks: Seq::empty() }
    }
}

/// The views of a sequence of tasks, in the same order.
pub open spec fn tasks_view(tasks: Seq<Task>) -> Seq<TaskView>
    decreases tasks, 1nat,
{
    Seq::new(
        tasks.len(),
        |i: int|
            if 0 <= i < tasks.len() {
                task_view(tasks[i])
            } else {
                arbitrary()
            },
    )
}

pub open spec fn task_view(task: Task) -> TaskView
    decreases task, 0nat,
{
    TaskView {
        name: task.name@,
        description: task.description@,
        time_spent: task.time_spent,
        estimate: task.estimate,
        sub_tasks: tasks_view(task.sub_tasks@),
    }
}

impl View for Task {
    type V = TaskView;

    open spec fn view(&self) -> TaskView {
        task_view(*self)
    }
}

/// Appending a task appends its view.
pub proof fn lemma_tasks_view_push(tasks: Seq<Task>, task: Task)
    ensures
        tasks_view(tasks.push(task)) == tasks_view(tasks).push(task@),
{
    assert(tasks_view(tasks.push(task)) =~= tasks_view(tasks).push(task@));
}

/// Removing the task at an index removes its view.
pub proof fn lemma_tasks_view_remove(tasks: Seq<Task>, index: int)
    requires
        0 <= index < tasks.len(),
    ensures
        tasks_view(tasks.remove(index)) == tasks_view(tasks).remove(index),
{
    assert(tasks_view(tasks.remove(index)) =~= tasks_view(tasks).remove(index));
}

/// Replacing the task at an index replaces its view.
pub proof fn lemma_tasks_view_update(tasks: Seq<Task>, index: int, task: Task)
    requires
        0 <= index < tasks.len(),
    ensures
        tasks_view(tasks.update(index, task)) == tasks_view(tasks).update(index, task@),
{
    assert(tasks_view(tasks.update(index, task)) =~= tasks_view(tasks).update(index, task@));
}

/// A copy of each task, in the same order.
pub fn clone_tasks(tasks: &Vec<Task>) -> (copy: Vec<Task>)
    ensures
        tasks_view(copy@) == tasks_view(tasks@),
    decreases tasks, 1nat,
{
    let mut copy: Vec<Task> = Vec::new();
    let mut i: usize = 0;
    while i < tasks.len()
        invariant
            i <= tasks.len(),
            copy@.len() == i,
            forall|j: int| 0 <= j < i ==> copy@[j]@ == tasks@[j]@,
        decreases tasks.len() - i,
    {
        copy.push(tasks[i].clone());
        i += 1;
    }
    assert(tasks_view(copy@) =~= tasks_view(tasks@));
    copy
}

/// The names of a sequence of tasks, in the same order.
pub open spec fn task_names(tasks: Seq<TaskView>) -> Seq<Seq<char>> {
    Seq::new(tasks.len(), |i: int| tasks[i].name)
}

/// The texts of a sequence of strings, in the same order.
pub open spec fn texts_of(strings: Seq<String>) -> Seq<Seq<char>> {
    Seq::new(strings.len(), |i: int| strings[i]@)
}

/// The name of each task, in the same order.
pub fn names_of_tasks(tasks: &Vec<Task>) -> (names: Vec<String>)
    ensures
        texts_of(names@) == task_names(tasks_view(tasks@)),
{
    let mut names: Vec<String> = Vec::new();
    let mut i: usize = 0;
    while i < tasks.len()
        invariant
            i <= tasks.len(),
            names@.len() == i,
            forall|j: int| 0 <= j < i ==> names@[j]@ == tasks@[j]@.name,
        decreases tasks.len() - i,
    {
        names.push(tasks[i].name.clone());
        i += 1;
    }
    assert(texts_of(names@) =~= task_names(tasks_view(tasks@)));
    names
}

impl Clone for Task {
    fn clone(&self) -> (copy: Task)
        ensures
            copy@ == self@,
        decreases self, 0nat,
    {
        Task {
            name: self.name.clone(),
            description: self.description.clone(),
            time_spent: self.time_spent,
            estimate: self.estimate,
            sub_tasks: clone_tasks(&self.sub_tasks),
        }
    }
}

impl Default for Task {
    /// The task with an empty name and an empty description.
    fn default() -> (task: Task)
        ensures
            task@ == TaskView::fresh(Seq::empty(), Seq::empty()),
    {
        let task = Task {
            name: String::new(),
            description: String::new(),
            time_spent: 0,
            estimate: 0,
            sub_tasks: Vec::new(),
        };
        assert(task@.sub_tasks =~= Seq::empty());
        task
    }
}

impl Task {
    /// A task with nothing spent, nothing estimated and no sub-tasks.
    pub fn new(task_name: String, task_description: String) -> (task: Task)
        ensures
            task@ == TaskView::fresh(task_name@, task_description@),
    {
        let task = Task {
            name: task_name,
            description: task_description,
            time_spent: 0,
            estimate: 0,
            sub_tasks: Vec::new(),
        };
        assert(task@.sub_tasks =~= Seq::empty());
        task
    }
}

impl TaskContainer for Task {
    open spec fn contained_tasks(&self) -> Seq<TaskView> {
        self@.sub_tasks
    }

    /// Appends the fresh task to the sub-tasks and leaves the rest alone.
    fn add_task(&mut self, task_name: String, task_description: String)
        ensures
            final(self)@ == (TaskView {
                sub_tasks: old(self)@.sub_tasks.push(
                    TaskView::fresh(task_name@, task_description@),
                ),
                ..old(self)@
            }),
    {
        let task = Task::new(task_name, task_description);
        proof {
            lemma_tasks_view_push(self.sub_tasks@, task);
        }
        self.sub_tasks.push(task);
    }
}

} // verus!
