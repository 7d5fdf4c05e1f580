//! The task view: the open tasks and the tasks done of one project, side by
//! side, with one of the two lists in focus.
//!
//! Every change goes to storage first and is shown only once storage has
//! taken it: the view asks for the changed project to be written, and after
//! that for the project to be read again.

use crate::keys::Key;
use crate::popups::{InputWindow, InputWindowView, MessageWindow, MessageWindowView};
use crate::services::Service;
use crate::storage::{
    load_project_from_path, request_view, StorageReply, StorageReplyView, StorageRequest,
    StorageRequestView,
};
use crate::structure::application::{ApplicationState, ApplicationStateView};
use crate::structure::project::{Project, ProjectView};
use crate::structure::task::{
    clone_tasks, lemma_tasks_view_update, tasks_view, Task, TaskView,
};
use crate::structure::TaskContainer;
use crate::ui::{Completable, DisplayList, InputMode, InputReceptor, InputReturn, ListView};
use crate::utils::file_name_of;
use vstd::prelude::*;
use vstd::string::StringExecFns;

verus! {

/// What the text popup of the task view is open for.
#[derive(Clone, Copy, Debug, PartialEq, Eq, Structural)]
pub enum TaskInputChoice {
    AddName,
    EditDescription,
}

impl Default for TaskInputChoice {
    fn default() -> (choice: TaskInputChoice)
        ensures
            choice == TaskInputChoice::AddName,
    {
        TaskInputChoice::AddName
    }
}

/// What the task view waits on.
#[derive(Debug, PartialEq, Eq)]
pub enum TaskPending {
    /// Nothing.
    Idle,
    /// The changed project is being written. `from_popup` says whether the
    /// change came from the text popup.
    Saving { project: Project, from_popup: bool },
    /// The project is being read.
    Loading,
}

/// What the task view waits on, as a mathematical value.
pub ghost enum TaskPendingView {
    Idle,
    Saving { project: ProjectView, from_popup: bool },
    Loading,
}

impl View for TaskPending {
    type V = TaskPendingView;

    open spec fn view(&self) -> TaskPendingView {
        match *self {
            TaskPending::Idle => TaskPendingView::Idle,
            TaskPending::Saving { project, from_popup } => TaskPendingView::Saving {
                project: project@,
                from_popup,
            },
            TaskPending::Loading => TaskPendingView::Loading,
        }
    }
}

/// A list of tasks with its selection, each task by its view.
pub open spec fn task_list_view(list: ListView<Task>) -> ListView<TaskView> {
    ListView { items: tasks_view(list.items), selected: list.selected }
}

/// The tasks with the description of the one at `index` replaced; an index
/// past the end changes nothing.
pub open spec fn with_description_at(
    tasks: Seq<TaskView>,
    index: int,
    description: Seq<char>,
) -> Seq<TaskView> {
    if 0 <= index < tasks.len() {
        tasks.update(index, TaskView { description, ..tasks[index] })
    } else {
        tasks
    }
}

/// The task view, as a mathematical value.
pub ghost struct TaskServiceView {
    pub working_path: Seq<char>,
    pub selected_project: ProjectView,
    pub active_tasks_list: ListView<TaskView>,
    pub completed_tasks_list: ListView<TaskView>,
    pub focused_on_active: bool,
    pub input_mode: InputMode,
    pub input_popup: InputWindowView,
    pub input_popup_type: TaskInputChoice,
    pub message_popup: MessageWindowView,
    pub pending: TaskPendingView,
}

impl TaskServiceView {
    /// The view that `TaskService::default` makes: no project, no popup,
    /// waiting on nothing.
    pub open spec fn initial() -> TaskServiceView {
        TaskServiceView {
            working_path: Seq::empty(),
            selected_project: ProjectView::empty(),
            active_tasks_list: ListView::of(Seq::empty()),
            completed_tasks_list: ListView::of(Seq::empty()),
            focused_on_active: false,
            input_mode: InputMode::CommandMode,
            input_popup: InputWindowView::hidden(),
            input_popup_type: TaskInputChoice::AddName,
            message_popup: MessageWindowView::hidden(),
            pending: TaskPendingView::Idle,
        }
    }

    /// The view that `TaskService::new` makes: it knows the name of its
    /// project and waits for the project to be read.
    pub open spec fn opened(working_path: Seq<char>, project_name: Seq<char>) -> TaskServiceView {
        TaskServiceView {
            working_path,
            selected_project: ProjectView { name: project_name, ..ProjectView::empty() },
            focused_on_active: true,
            pending: TaskPendingView::Loading,
            ..TaskServiceView::initial()
        }
    }

    /// What holds of the view at all times: in command mode no popup is
    /// open, no key is ever sent to a nested view, each list has a valid
    /// selection, and the lists show the tasks of the project.
    pub open spec fn wf(self) -> bool {
        &&& self.input_mode == InputMode::CommandMode ==> !self.message_popup.active
            && !self.input_popup.active
        &&& self.input_mode != InputMode::SubWindowInputs
        &&& self.active_tasks_list.wf()
        &&& self.completed_tasks_list.wf()
        &&& self.active_tasks_list.items == self.selected_project.active_tasks
        &&& self.completed_tasks_list.items == self.selected_project.completed_tasks
    }

    /// The list in focus.
    pub open spec fn focused_list(self) -> ListView<TaskView> {
        if self.focused_on_active {
            self.active_tasks_list
        } else {
            self.completed_tasks_list
        }
    }

    /// The view showing the given project, the first task of each list
    /// selected.
    pub open spec fn adopted(self, project: ProjectView) -> TaskServiceView {
        TaskServiceView {
            selected_project: project,
            active_tasks_list: ListView::of(project.active_tasks),
            completed_tasks_list: ListView::of(project.completed_tasks),
            ..self
        }
    }

    /// The view with a message popup open over whatever else is open.
    pub open spec fn with_message(self, text: Seq<char>) -> TaskServiceView {
        TaskServiceView {
            message_popup: MessageWindowView::shown(text),
            input_mode: InputMode::WriteMode,
            ..self
        }
    }

    /// The view back in command mode if no popup is open.
    pub open spec fn settled(self) -> TaskServiceView {
        if !self.message_popup.active && !self.input_popup.active {
            TaskServiceView { input_mode: InputMode::CommandMode, ..self }
        } else {
            self
        }
    }

    /// The view after a key taken as a command, and whether the key was a
    /// command of this view.
    pub open spec fn commanded(self, key: Key) -> (TaskServiceView, bool) {
        match key {
            Key::Left => (TaskServiceView { focused_on_active: true, ..self }, true),
            Key::Right => (TaskServiceView { focused_on_active: false, ..self }, true),
            Key::Up => (
                if self.focused_on_active {
                    TaskServiceView {
                        active_tasks_list: self.active_tasks_list.previous(),
                        ..self
                    }
                } else {
                    TaskServiceView {
                        completed_tasks_list: self.completed_tasks_list.previous(),
                        ..self
                    }
                },
                true,
            ),
            Key::Down => (
                if self.focused_on_active {
                    TaskServiceView { active_tasks_list: self.active_tasks_list.next(), ..self }
                } else {
                    TaskServiceView {
                        completed_tasks_list: self.completed_tasks_list.next(),
                        ..self
                    }
                },
                true,
            ),
            Key::Char(c) => if c == 'a' {
                (
                    TaskServiceView {
                        input_popup_type: TaskInputChoice::AddName,
                        input_mode: InputMode::WriteMode,
                        input_popup: InputWindowView::shown("Enter Task Name"@),
                        ..self
                    },
                    true,
                )
            } else if c == 'c' {
                (
                    match self.active_tasks_list.selected {
                        Some(i) => if self.focused_on_active {
                            TaskServiceView {
                                pending: TaskPendingView::Saving {
                                    project: self.selected_project.completed(i as int),
                                    from_popup: false,
                                },
                                ..self
                            }
                        } else {
                            self
                        },
                        None => self,
                    },
                    true,
                )
            } else if c == 'u' {
                (
                    match self.completed_tasks_list.selected {
                        Some(i) => if !self.focused_on_active {
                            TaskServiceView {
                                pending: TaskPendingView::Saving {
                                    project: self.selected_project.uncompleted(i as int),
                                    from_popup: false,
                                },
                                ..self
                            }
                        } else {
                            self
                        },
                        None => self,
                    },
                    true,
                )
            } else if c == 'e' {
                (
                    match self.focused_list().selected_item() {
                        Some(task) => TaskServiceView {
                            input_popup_type: TaskInputChoice::EditDescription,
                            input_mode: InputMode::WriteMode,
                            input_popup: InputWindowView {
                                input: task.description,
                                ..InputWindowView::shown("Edit tasks description"@)
                            },
                            ..self
                        },
                        None => self,
                    },
                    true,
                )
            } else {
                (self, false)
            },
            _ => (self, false),
        }
    }

    /// The view once the text popup is finished: what was typed becomes a
    /// change of the project, and the view waits for it to be written. Where
    /// a description was typed and no task is selected, a message says so
    /// and the popup is no longer finished.
    pub open spec fn submitted(self) -> TaskServiceView {
        match self.input_popup_type {
            TaskInputChoice::AddName => TaskServiceView {
                pending: TaskPendingView::Saving {
                    project: self.selected_project.with_task(
                        TaskView::fresh(self.input_popup.input, "Description"@),
                    ),
                    from_popup: true,
                },
                ..self
            },
            TaskInputChoice::EditDescription => match self.focused_list().selected {
                Some(i) => TaskServiceView {
                    pending: TaskPendingView::Saving {
                        project: if self.focused_on_active {
                            ProjectView {
                                active_tasks: with_description_at(
                                    self.selected_project.active_tasks,
                                    i as int,
                                    self.input_popup.input,
                                ),
                                ..self.selected_project
                            }
                        } else {
                            ProjectView {
                                completed_tasks: with_description_at(
                                    self.selected_project.completed_tasks,
                                    i as int,
                                    self.input_popup.input,
                                ),
                                ..self.selected_project
                            }
                        },
                        from_popup: true,
                    },
                    ..self
                },
                None => TaskServiceView {
                    input_popup: InputWindowView { completed: false, ..self.input_popup },
                    ..self
                }.with_message("Selected task is invalid"@),
            },
        }
    }

    /// The view after a key that went to the message popup: Enter closes it.
    pub open spec fn message_pressed(self, key: Key) -> TaskServiceView {
        let popup = self.message_popup.pressed(key);
        TaskServiceView {
            message_popup: if popup.completed {
                MessageWindowView { active: false, ..popup }
            } else {
                popup
            },
            ..self
        }
    }

    /// The view after a key that went to the text popup.
    pub open spec fn input_pressed(self, key: Key) -> TaskServiceView {
        let popup = self.input_popup.pressed(key);
        let view = TaskServiceView { input_popup: popup, ..self };
        if popup.active && popup.completed {
            view.submitted()
        } else {
            view.settled()
        }
    }

    /// The view after a key, and whether the view consumed the key.
    ///
    /// A view that waits on storage takes the key and ignores it. In command
    /// mode the key is a command. In write mode the key goes to exactly one
    /// popup, the message popup before the text popup; where none is open,
    /// the view goes back to command mode and takes the key as a command.
    pub open spec fn after_key(self, key: Key) -> (TaskServiceView, bool) {
        if !(self.pending is Idle) {
            (self, true)
        } else {
            match self.input_mode {
                InputMode::CommandMode => self.commanded(key),
                InputMode::WriteMode => if self.message_popup.active {
                    (self.message_pressed(key), true)
                } else if self.input_popup.active {
                    (self.input_pressed(key), true)
                } else {
                    TaskServiceView { input_mode: InputMode::CommandMode, ..self }.commanded(key)
                },
                InputMode::SubWindowInputs => (self, false),
            }
        }
    }

    /// The request that the view waits on.
    pub open spec fn request(self) -> Option<StorageRequestView> {
        match self.pending {
            TaskPendingView::Idle => None,
            TaskPendingView::Saving { project, from_popup } => Some(
                StorageRequestView::Write {
                    folder: self.working_path,
                    file_name: file_name_of(project.name),
                    project,
                },
            ),
            TaskPendingView::Loading => Some(
                StorageRequestView::Load {
                    folder: self.working_path,
                    file_name: file_name_of(self.selected_project.name),
                },
            ),
        }
    }

    /// The view after the answer of storage.
    ///
    /// Written: the text popup, if the change came from it, is retired, and
    /// the view waits for the project to be read. Not written: a message
    /// shows the reason, the text popup stays open with its text and is no
    /// longer finished, and what the view shows is unchanged. Read: the view
    /// shows the project. Not read: a message shows the reason. An answer
    /// that fits no request of the view changes nothing.
    pub open spec fn after_reply(self, reply: StorageReplyView) -> TaskServiceView {
        match self.pending {
            TaskPendingView::Idle => self,
            TaskPendingView::Saving { project, from_popup } => match reply {
                StorageReplyView::Done => if from_popup {
                    TaskServiceView {
                        input_popup: self.input_popup.retired(),
                        pending: TaskPendingView::Loading,
                        ..self
                    }.settled()
                } else {
                    TaskServiceView { pending: TaskPendingView::Loading, ..self }
                },
                StorageReplyView::Failed(reason) => TaskServiceView {
                    input_popup: if from_popup {
                        InputWindowView { completed: false, ..self.input_popup }
                    } else {
                        self.input_popup
                    },
                    pending: TaskPendingView::Idle,
                    ..self
                }.with_message(reason),
                _ => self,
            },
            TaskPendingView::Loading => match reply {
                StorageReplyView::Loaded(project) => TaskServiceView {
                    pending: TaskPendingView::Idle,
                    ..self
                }.adopted(project),
                StorageReplyView::Failed(reason) => TaskServiceView {
                    pending: TaskPendingView::Idle,
                    ..self
                }.with_message(reason),
                _ => self,
            },
        }
    }

    /// The shared state after the view has lost the focus: the task selected
    /// in the list in focus, if there is one, is the task last selected.
    pub open spec fn published(self, state: ApplicationStateView) -> ApplicationStateView {
        match self.focused_list().selected_item() {
            Some(task) => ApplicationStateView { selected_task: task, ..state },
            None => state,
        }
    }

    /// The view after it has gained the focus: it works in the folder of the
    /// shared state and shows the project last selected, the open tasks in
    /// focus; where that project has a name, the view waits for it to be
    /// read.
    pub open spec fn focused(self, state: ApplicationStateView) -> TaskServiceView {
        TaskServiceView {
            working_path: state.folder_path,
            focused_on_active: true,
            pending: if state.selected_project.name.len() > 0 {
                TaskPendingView::Loading
            } else {
                TaskPendingView::Idle
            },
            ..self
        }.adopted(state.selected_project)
    }

    /// The line of keys that mean something now: those of the popup that
    /// takes the keys, else the commands of the view.
    pub open spec fn controls(self) -> Seq<char> {
        if self.message_popup.active {
            "Press enter to continue"@
        } else if self.input_popup.active {
            "esc - Cancel | Enter - Confirm entry"@
        } else {
            "Navigate with arrows | C: Mark as completed | U: Mark as incomplete | A: Add task | E: Edit task description | Tab: Back To Projects"@
        }
    }

    /// The description that the view shows below the lists.
    pub open spec fn shown_description(self) -> Seq<char> {
        match self.focused_list().selected_item() {
            Some(task) => task.description,
            None => "No task selected"@,
        }
    }
}

/// The view keeps what holds of it at all times through every key.
pub proof fn lemma_task_view_key_keeps_wf(view: TaskServiceView, key: Key)
    requires
        view.wf(),
    ensures
        view.after_key(key).0.wf(),
{
}

/// The view keeps what holds of it at all times through every answer of
/// storage and through gaining the focus, whatever project comes with
/// either.
pub proof fn lemma_task_view_reply_keeps_wf(
    view: TaskServiceView,
    reply: StorageReplyView,
    state: ApplicationStateView,
)
    requires
        view.wf(),
    ensures
        view.after_reply(reply).wf(),
        view.focused(state).wf(),
{
}

/// While a popup is open or the view waits on storage, the view consumes
/// every key: no key reaches a global binding.
pub proof fn lemma_task_view_popup_takes_every_key(view: TaskServiceView, key: Key)
    requires
        view.wf(),
        view.message_popup.active || view.input_popup.active || !(view.pending is Idle),
    ensures
        view.after_key(key).1,
{
}

/// While the message popup is open, a key changes nothing but the message
/// popup: the text popup under it keeps what was typed.
pub proof fn lemma_task_view_message_goes_first(view: TaskServiceView, key: Key)
    requires
        view.wf(),
        view.message_popup.active,
    ensures
        view.after_key(key).0 == (TaskServiceView {
            message_popup: view.after_key(key).0.message_popup,
            ..view
        }),
{
}

/// A key that the view does not consume changes nothing but the mode, and
/// the view is in command mode after it.
pub proof fn lemma_task_view_unconsumed_key(view: TaskServiceView, key: Key)
    requires
        view.wf(),
        !view.after_key(key).1,
    ensures
        view.after_key(key).0 == (TaskServiceView { input_mode: InputMode::CommandMode, ..view }),
        view.pending is Idle,
{
}

/// The view of the open tasks and the tasks done of one project.
pub struct TaskService {
    working_path: String,
    selected_project: Project,
    active_tasks_list: DisplayList<Task>,
    completed_tasks_list: DisplayList<Task>,
    focused_on_active: bool,
    input_mode: InputMode,
    input_popup: InputWindow,
    input_popup_type: TaskInputChoice,
    message_popup: MessageWindow,
    pending: TaskPending,
}

impl View for TaskService {
    type V = TaskServiceView;

    closed spec fn view(&self) -> TaskServiceView {
        TaskServiceView {
            working_path: self.working_path@,
            selected_project: self.selected_project@,
            active_tasks_list: task_list_view(self.active_tasks_list@),
            completed_tasks_list: task_list_view(self.completed_tasks_list@),
            focused_on_active: self.focused_on_active,
            input_mode: self.input_mode,
            input_popup: self.input_popup@,
            input_popup_type: self.input_popup_type,
            message_popup: self.message_popup@,
            pending: self.pending@,
        }
    }
}

impl Default for TaskService {
    fn default() -> (service: TaskService)
        ensures
            service@ == TaskServiceView::initial(),
    {
        let service = TaskService {
            working_path: String::new(),
            selected_project: Project::default(),
            active_tasks_list: DisplayList::from(Vec::new()),
            completed_tasks_list: DisplayList::from(Vec::new()),
            focused_on_active: false,
            input_mode: InputMode::CommandMode,
            input_popup: InputWindow::default(),
            input_popup_type: TaskInputChoice::AddName,
            message_popup: MessageWindow::default(),
            pending: TaskPending::Idle,
        };
        assert(tasks_view(Seq::<Task>::empty()) =~= Seq::empty());
        service
    }
}

impl TaskService {
    /// The view of the project of the given name in the given folder. It
    /// waits for the project to be read.
    pub fn new(working_path: String, project_name: String) -> (service: TaskService)
        ensures
            service@ == TaskServiceView::opened(working_path@, project_name@),
    {
        let mut service = TaskService::default();
        service.working_path = working_path;
        service.selected_project.name = project_name;
        service.focused_on_active = true;
        service.pending = TaskPending::Loading;
        service
    }

    /// The list of open tasks.
    pub fn active_tasks_list(&self) -> (list: &DisplayList<Task>)
        ensures
            task_list_view(list@) == self@.active_tasks_list,
    {
        &self.active_tasks_list
    }

    /// The list of tasks done.
    pub fn completed_tasks_list(&self) -> (list: &DisplayList<Task>)
        ensures
            task_list_view(list@) == self@.completed_tasks_list,
    {
        &self.completed_tasks_list
    }

    /// Whether the list of open tasks is the one in focus.
    pub fn focused_on_active(&self) -> (on_active: bool)
        ensures
            on_active == self@.focused_on_active,
    {
        self.focused_on_active
    }

    /// The project whose tasks the view shows.
    pub fn selected_project(&self) -> (project: &Project)
        ensures
            project@ == self@.selected_project,
    {
        &self.selected_project
    }

    /// The folder of the project.
    pub fn working_path(&self) -> (path: &String)
        ensures
            path@ == self@.working_path,
    {
        &self.working_path
    }

    /// The text popup.
    pub fn input_popup(&self) -> (popup: &InputWindow)
        ensures
            popup@ == self@.input_popup,
    {
        &self.input_popup
    }

    /// The message popup.
    pub fn message_popup(&self) -> (popup: &MessageWindow)
        ensures
            popup@ == self@.message_popup,
    {
        &self.message_popup
    }

    /// The description that the view shows below the lists: that of the
    /// task selected in the list in focus, or a note that none is selected.
    pub fn shown_description(&self) -> (description: String)
        ensures
            description@ == self@.shown_description(),
    {
        match self.focused_task() {
            Some(task) => task.description.clone(),
            None => String::from_str("No task selected"),
        }
    }

    fn add_task_command(&mut self)
        ensures
            final(self)@ == (TaskServiceView {
                input_popup_type: TaskInputChoice::AddName,
                input_mode: InputMode::WriteMode,
                input_popup: InputWindowView::shown("Enter Task Name"@),
                ..old(self)@
            }),
    {
        self.input_popup_type = TaskInputChoice::AddName;
        self.input_mode = InputMode::WriteMode;
        self.input_popup = InputWindow::new(String::from_str("Enter Task Name"));
    }

    fn focused_task(&self) -> (task: Option<&Task>)
        ensures
            match task {
                Some(task) => self@.focused_list().selected_item() == Some(task@),
                None => self@.focused_list().selected_item() is None,
            },
    {
        if self.focused_on_active {
            self.active_tasks_list.selected_item()
        } else {
            self.completed_tasks_list.selected_item()
        }
    }

    fn edit_task_description(&mut self)
        ensures
            final(self)@ == old(self)@.commanded(Key::Char('e')).0,
    {
        let description = match self.focused_task() {
            Some(task) => Some(task.description.clone()),
            None => None,
        };
        if let Some(description) = description {
            self.input_popup_type = TaskInputChoice::EditDescription;
            self.input_mode = InputMode::WriteMode;
            self.input_popup = InputWindow::new(String::from_str("Edit tasks description"));
            self.input_popup.set_input_string(description);
        }
    }

    fn mark_selected_task_as_completed(&mut self)
        ensures
            final(self)@ == old(self)@.commanded(Key::Char('c')).0,
    {
        if self.focused_on_active {
            if let Some(index) = self.active_tasks_list.selected() {
                let mut project = self.selected_project.clone();
                project.complete_task(index);
                self.pending = TaskPending::Saving { project, from_popup: false };
            }
        }
    }

    fn mark_selected_task_as_uncompleted(&mut self)
        ensures
            final(self)@ == old(self)@.commanded(Key::Char('u')).0,
    {
        if !self.focused_on_active {
            if let Some(index) = self.completed_tasks_list.selected() {
                let mut project = self.selected_project.clone();
                project.uncomplete_task(index);
                self.pending = TaskPending::Saving { project, from_popup: false };
            }
        }
    }

    fn create_message_popup(&mut self, message: String)
        ensures
            final(self)@ == old(self)@.with_message(message@),
    {
        self.message_popup = MessageWindow::new(message);
        self.input_mode = InputMode::WriteMode;
    }

    fn update_project(&mut self, project: Project)
        ensures
            final(self)@ == old(self)@.adopted(project@),
    {
        self.active_tasks_list = DisplayList::from(clone_tasks(&project.active_tasks));
        self.completed_tasks_list = DisplayList::from(clone_tasks(&project.completed_tasks));
        self.selected_project = project;
    }

    fn settle(&mut self)
        ensures
            final(self)@ == old(self)@.settled(),
    {
        if !self.message_popup.is_active() && !self.input_popup.is_active() {
            self.input_mode = InputMode::CommandMode;
        }
    }

    fn command(&mut self, key_code: Key) -> (consumed: bool)
        ensures
            final(self)@ == old(self)@.commanded(key_code).0,
            consumed == old(self)@.commanded(key_code).1,
    {
        match key_code {
            Key::Left => {
                self.focused_on_active = true;
                true
            },
            Key::Right => {
                self.focused_on_active = false;
                true
            },
            Key::Up => {
                if self.focused_on_active {
                    self.active_tasks_list.previous();
                } else {
                    self.completed_tasks_list.previous();
                }
                true
            },
            Key::Down => {
                if self.focused_on_active {
                    self.active_tasks_list.next();
                } else {
                    self.completed_tasks_list.next();
                }
                true
            },
            Key::Char(c) => {
                if c == 'a' {
                    self.add_task_command();
                    true
                } else if c == 'c' {
                    self.mark_selected_task_as_completed();
                    true
                } else if c == 'u' {
                    self.mark_selected_task_as_uncompleted();
                    true
                } else if c == 'e' {
                    self.edit_task_description();
                    true
                } else {
                    false
                }
            },
            _ => false,
        }
    }

    fn edited_project(&self, index: usize, description: String) -> (project: Project)
        ensures
            project@ == (if self@.focused_on_active {
                ProjectView {
                    active_tasks: with_description_at(
                        self@.selected_project.active_tasks,
                        index as int,
                        description@,
                    ),
                    ..self@.selected_project
                }
            } else {
                ProjectView {
                    completed_tasks: with_description_at(
                        self@.selected_project.completed_tasks,
                        index as int,
                        description@,
                    ),
                    ..self@.selected_project
                }
            }),
    {
        let mut project = self.selected_project.clone();
        if self.focused_on_active {
            if index < project.active_tasks.len() {
                let mut task = project.active_tasks[index].clone();
                task.description = description;
                proof {
                    lemma_tasks_view_update(project.active_tasks@, index as int, task);
                }
                project.active_tasks.set(index, task);
            }
        } else {
            if index < project.completed_tasks.len() {
                let mut task = project.completed_tasks[index].clone();
                task.description = description;
                proof {
                    lemma_tasks_view_update(project.completed_tasks@, index as int, task);
                }
                project.completed_tasks.set(index, task);
            }
        }
        project
    }

    fn submit(&mut self)
        ensures
            final(self)@ == old(self)@.submitted(),
    {
        match self.input_popup_type {
            TaskInputChoice::AddName => {
                let mut project = self.selected_project.clone();
                project.add_task(self.input_popup.get_input_data(), String::from_str("Description"));
                self.pending = TaskPending::Saving { project, from_popup: true };
            },
            TaskInputChoice::EditDescription => {
                let selected = if self.focused_on_active {
                    self.active_tasks_list.selected()
                } else {
                    self.completed_tasks_list.selected()
                };
                match selected {
                    Some(index) => {
                        let project = self.edited_project(index, self.input_popup.get_input_data());
                        self.pending = TaskPending::Saving { project, from_popup: true };
                    },
                    None => {
                        self.input_popup.reset_completion();
                        self.create_message_popup(String::from_str("Selected task is invalid"));
                    },
                }
            },
        }
    }

    fn forward_to_message(&mut self, key_code: Key)
        ensures
            final(self)@ == old(self)@.message_pressed(key_code),
    {
        self.message_popup.handle_input_key(key_code);
        if self.message_popup.is_completed() {
            self.message_popup.set_active(false);
        }
    }

    fn forward_to_input(&mut self, key_code: Key)
        ensures
            final(self)@ == old(self)@.input_pressed(key_code),
    {
        self.input_popup.handle_input_key(key_code);
        if self.input_popup.is_active() && self.input_popup.is_completed() {
            self.submit();
        } else {
            self.settle();
        }
    }

    fn is_idle(&self) -> (idle: bool)
        ensures
            idle == (self@.pending is Idle),
    {
        match &self.pending {
            TaskPending::Idle => true,
            _ => false,
        }
    }
}

impl InputReceptor for TaskService {
    /// Takes one key: see `TaskServiceView::after_key`.
    fn handle_input_key(&mut self, key_code: Key) -> (consumed: bool)
        ensures
            final(self)@ == old(self)@.after_key(key_code).0,
            consumed == old(self)@.after_key(key_code).1,
    {
        if !self.is_idle() {
            return true;
        }
        match self.input_mode {
            InputMode::CommandMode => self.command(key_code),
            InputMode::WriteMode => {
                if self.message_popup.is_active() {
                    self.forward_to_message(key_code);
                    true
                } else if self.input_popup.is_active() {
                    self.forward_to_input(key_code);
                    true
                } else {
                    self.input_mode = InputMode::CommandMode;
                    self.command(key_code)
                }
            },
            InputMode::SubWindowInputs => false,
        }
    }

    fn get_controls_description(&self) -> (controls: String)
        ensures
            controls@ == self@.controls(),
    {
        if self.message_popup.is_active() {
            self.message_popup.get_controls_description()
        } else if self.input_popup.is_active() {
            self.input_popup.get_controls_description()
        } else {
            String::from_str(
                "Navigate with arrows | C: Mark as completed | U: Mark as incomplete | A: Add task | E: Edit task description | Tab: Back To Projects",
            )
        }
    }

    fn get_input_mode(&self) -> (mode: InputMode)
        ensures
            mode == self@.input_mode,
    {
        self.input_mode
    }
}

impl Service for TaskService {
    open spec fn pending_request(&self) -> Option<StorageRequestView> {
        self@.request()
    }

    fn set_working_directory(&mut self, path: String)
        ensures
            final(self)@ == (TaskServiceView { working_path: path@, ..old(self)@ }),
    {
        self.working_path = path;
    }

    fn handle_input(&mut self, key_code: Key) -> (consumed: bool)
        ensures
            final(self)@ == old(self)@.after_key(key_code).0,
            consumed == old(self)@.after_key(key_code).1,
    {
        self.handle_input_key(key_code)
    }

    fn get_input_possibilities(&self) -> (controls: String)
        ensures
            controls@ == self@.controls(),
    {
        self.get_controls_description()
    }

    fn update_application_state(&mut self, application_state: &mut ApplicationState)
        ensures
            final(self)@ == old(self)@,
            final(application_state)@ == old(self)@.published(old(application_state)@),
    {
        let task = match self.focused_task() {
            Some(task) => Some(task.clone()),
            None => None,
        };
        if let Some(task) = task {
            application_state.selected_task = task;
        }
    }

    fn apply_application_state(&mut self, application_state: &ApplicationState)
        ensures
            final(self)@ == old(self)@.focused(application_state@),
    {
        self.working_path = application_state.folder_path.clone();
        self.focused_on_active = true;
        self.pending = if application_state.selected_project.name.as_str().is_empty() {
            TaskPending::Idle
        } else {
            TaskPending::Loading
        };
        self.update_project(application_state.selected_project.clone());
    }

    fn storage_request(&self) -> (request: Option<StorageRequest>) {
        match &self.pending {
            TaskPending::Idle => None,
            TaskPending::Saving { project, from_popup } => Some(
                project.write_project_full_path(self.working_path.clone()),
            ),
            TaskPending::Loading => Some(
                load_project_from_path(
                    self.working_path.clone(),
                    self.selected_project.name.as_str(),
                ),
            ),
        }
    }

    /// Takes the answer of storage: see `TaskServiceView::after_reply`.
    fn handle_storage_reply(&mut self, reply: StorageReply)
        ensures
            final(self)@ == old(self)@.after_reply(reply@),
    {
        let saving = match &self.pending {
            TaskPending::Saving { project, from_popup } => Some(*from_popup),
            _ => None,
        };
        let loading = match &self.pending {
            TaskPending::Loading => true,
            _ => false,
        };
        if let Some(from_popup) = saving {
            match reply {
                StorageReply::Done => {
                    self.pending = TaskPending::Loading;
                    if from_popup {
                        self.input_popup.retire();
                        self.settle();
                    }
                },
                StorageReply::Failed(reason) => {
                    self.pending = TaskPending::Idle;
                    if from_popup {
                        self.input_popup.reset_completion();
                    }
                    self.create_message_popup(reason);
                },
                _ => {},
            }
        } else if loading {
            match reply {
                StorageReply::Loaded(project) => {
                    self.pending = TaskPending::Idle;
                    self.update_project(project);
                },
                StorageReply::Failed(reason) => {
                    self.pending = TaskPending::Idle;
                    self.create_message_popup(reason);
                },
                _ => {},
            }
        }
    }
}

} // verus!
