//! The records that the views show and edit: tasks, projects, and the state
//! that the views share.

use vstd::prelude::*;

pub mod application;
pub mod project;
pub mod task;

use task::TaskView;

verus! {

/// Something that holds an ordered sequence of tasks and can take one more.
pub trait TaskContainer {
    /// The tasks that `add_task` appends to.
    spec fn contained_tasks(&self) -> Seq<TaskView>;

    /// Appends a fresh task with the given name and description: no time
    /// spent, no estimate, no sub-tasks.
    fn add_task(&mut self, task_name: String, task_description: String)
        ensures
            final(self).contained_tasks() == old(self).contained_tasks().push(
                TaskView::fresh(task_name@, task_description@),
            ),
    ;
}

} // verus!
