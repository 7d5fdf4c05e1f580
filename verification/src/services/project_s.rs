//! The project view: the projects of one folder in a list, with the tasks
//! of the selected one beside it.
//!
//! Every change goes to storage first and is shown only once storage has
//! taken it: the view asks for a file to be written, renamed or removed, and
//! after that for the folder to be read again.
//!
//! A project is renamed in two steps, neither of which can lose it: first
//! its file gets the new name, and only then is the project, under its new
//! name, written to that file. Where the second step fails, the view asks
//! for the file to get its old name back, so that the name of the file and
//! the name in it agree again, and then shows why the write failed.

use crate::keys::Key;
use crate::popups::{
    BinaryChoice, BinaryChoiceView, InputWindow, InputWindowView, MessageWindow, MessageWindowView,
};
use crate::services::Service;
use crate::storage::{
    delete_project_of_name, request_view, StorageReply, StorageReplyView, StorageRequest,
    StorageRequestView,
};
use crate::structure::application::{ApplicationState, ApplicationStateView};
use crate::structure::project::{projects_view, Project, ProjectView};
use crate::structure::task::{names_of_tasks, task_names, texts_of};
use crate::ui::{Completable, DisplayList, InputMode, InputReceptor, InputReturn, ListView};
use crate::utils::{file_name_of, project_file_name};
use vstd::prelude::*;
use vstd::string::StringExecFns;

verus! {

/// What the text popup of the project view is open for.
#[derive(Clone, Copy, Debug, PartialEq, Eq, Structural)]
pub enum ProjectInputType {
    ProjectAdd,
    ProjectDescriptionEdit,
    ProjectNameEdit,
}

/// What the project view waits on.
#[derive(Debug, PartialEq, Eq)]
pub enum ProjectPending {
    /// Nothing.
    Idle,
    /// A new project, or a project with a new description, is being
    /// written.
    Saving { project: Project },
    /// The file of a project is getting its new name. `project` has the new
    /// name already.
    Renaming { project: Project, old_name: String },
    /// The renamed project is being written to the file with the new name.
    SavingRenamed { project: Project, old_name: String },
    /// The write of the renamed project failed for `reason`, and the file is
    /// getting its old name back.
    Restoring { old_name: String, new_name: String, reason: String },
    /// The file of a project is being removed.
    Deleting { name: String },
    /// The folder is being read. `selection` names the project to select
    /// once it is.
    Listing { selection: Option<String> },
}

/// What the project view waits on, as a mathematical value.
pub ghost enum ProjectPendingView {
    Idle,
    Saving { project: ProjectView },
    Renaming { project: ProjectView, old_name: Seq<char> },
    SavingRenamed { project: ProjectView, old_name: Seq<char> },
    Restoring { old_name: Seq<char>, new_name: Seq<char>, reason: Seq<char> },
    Deleting { name: Seq<char> },
    Listing { selection: Option<Seq<char>> },
}

impl View for ProjectPending {
    type V = ProjectPendingView;

    open spec fn view(&self) -> ProjectPendingView {
        match *self {
            ProjectPending::Idle => ProjectPendingView::Idle,
            ProjectPending::Saving { project } => ProjectPendingView::Saving { project: project@ },
            ProjectPending::Renaming { project, old_name } => ProjectPendingView::Renaming {
                project: project@,
                old_name: old_name@,
            },
            ProjectPending::SavingRenamed { project, old_name } => {
                ProjectPendingView::SavingRenamed { project: project@, old_name: old_name@ }
            },
            ProjectPending::Restoring { old_name, new_name, reason } => {
                ProjectPendingView::Restoring {
                    old_name: old_name@,
                    new_name: new_name@,
                    reason: reason@,
                }
            },
            ProjectPending::Deleting { name } => ProjectPendingView::Deleting { name: name@ },
            ProjectPending::Listing { selection } => ProjectPendingView::Listing {
                selection: match selection {
                    Some(name) => Some(name@),
                    None => None,
                },
            },
        }
    }
}

/// A list of projects with its selection, each project by its view.
pub open spec fn project_list_view(list: ListView<Project>) -> ListView<ProjectView> {
    ListView { items: projects_view(list.items), selected: list.selected }
}

/// The index of the first project of the given name.
pub open spec fn position_of(projects: Seq<ProjectView>, name: Seq<char>) -> Option<usize>
    decreases projects.len(),
{
    if projects.len() == 0 {
        None
    } else if position_of(projects.drop_last(), name) is Some {
        position_of(projects.drop_last(), name)
    } else if projects.last().name == name {
        Some((projects.len() - 1) as usize)
    } else {
        None
    }
}

/// `position_of` finds a project of the given name, the first one, if and
/// only if there is one.
pub proof fn lemma_position_of(projects: Seq<ProjectView>, name: Seq<char>)
    requires
        projects.len() <= usize::MAX,
    ensures
        match position_of(projects, name) {
            Some(i) => i < projects.len() && projects[i as int].name == name && forall|j: int|
                0 <= j < i ==> projects[j].name != name,
            None => forall|j: int| 0 <= j < projects.len() ==> projects[j].name != name,
        },
    decreases projects.len(),
{
    if projects.len() > 0 {
        let front = projects.drop_last();
        lemma_position_of(front, name);
        match position_of(front, name) {
            Some(i) => {
                assert(front[i as int] == projects[i as int]);
                assert forall|j: int| 0 <= j < i implies projects[j].name != name by {
                    assert(front[j] == projects[j]);
                }
            },
            None => {
                assert forall|j: int| 0 <= j < front.len() implies projects[j].name != name by {
                    assert(front[j] == projects[j]);
                }
            },
        }
    }
}

/// The project view, as a mathematical value.
pub ghost struct ProjectManagementServiceView {
    pub projects_to_display: ListView<ProjectView>,
    pub project_input_popup: InputWindowView,
    pub input_mode: InputMode,
    pub input_type: ProjectInputType,
    pub program_work_path: Seq<char>,
    pub message_popup: MessageWindowView,
    pub delete_project_popup: BinaryChoiceView,
    pub pending: ProjectPendingView,
}

impl ProjectManagementServiceView {
    /// The view that `ProjectManagementService::new` makes: no project yet,
    /// no popup, waiting for the folder to be read.
    pub open spec fn opened(working_path: Seq<char>) -> ProjectManagementServiceView {
        ProjectManagementServiceView {
            projects_to_display: ListView::of(Seq::empty()),
            project_input_popup: InputWindowView::hidden(),
            input_mode: InputMode::CommandMode,
            input_type: ProjectInputType::ProjectAdd,
            program_work_path: working_path,
            message_popup: MessageWindowView::hidden(),
            delete_project_popup: BinaryChoiceView::hidden(),
            pending: ProjectPendingView::Listing { selection: None },
        }
    }

    /// What holds of the view at all times: in command mode no popup is
    /// open, no key is ever sent to a nested view, and the list has a valid
    /// selection.
    pub open spec fn wf(self) -> bool {
        &&& self.input_mode == InputMode::CommandMode ==> !self.message_popup.active
            && !self.project_input_popup.active && !self.delete_project_popup.active
        &&& self.input_mode != InputMode::SubWindowInputs
        &&& self.projects_to_display.wf()
    }

    /// The view with a message popup open over whatever else is open.
    pub open spec fn with_message(self, text: Seq<char>) -> ProjectManagementServiceView {
        ProjectManagementServiceView {
            message_popup: MessageWindowView::shown(text),
            input_mode: InputMode::WriteMode,
            ..self
        }
    }

    /// The view with a message popup open and the text popup no longer
    /// finished: the text stays, to be changed and confirmed again, or given
    /// up.
    pub open spec fn refused(self, text: Seq<char>) -> ProjectManagementServiceView {
        ProjectManagementServiceView {
            project_input_popup: InputWindowView {
                completed: false,
                ..self.project_input_popup
            },
            pending: ProjectPendingView::Idle,
            ..self
        }.with_message(text)
    }

    /// The view back in command mode if no popup is open.
    pub open spec fn settled(self) -> ProjectManagementServiceView {
        if !self.message_popup.active && !self.project_input_popup.active
            && !self.delete_project_popup.active {
            ProjectManagementServiceView { input_mode: InputMode::CommandMode, ..self }
        } else {
            self
        }
    }

    /// The view after a key taken as a command, and whether the key was a
    /// command of this view. The commands that act on the selected project
    /// do nothing where none is selected.
    pub open spec fn commanded(self, key: Key) -> (ProjectManagementServiceView, bool) {
        match key {
            Key::Up => (
                ProjectManagementServiceView {
                    projects_to_display: self.projects_to_display.previous(),
                    ..self
                },
                true,
            ),
            Key::Down => (
                ProjectManagementServiceView {
                    projects_to_display: self.projects_to_display.next(),
                    ..self
                },
                true,
            ),
            Key::Char(c) => if c == 'a' {
                (
                    ProjectManagementServiceView {
                        input_mode: InputMode::WriteMode,
                        input_type: ProjectInputType::ProjectAdd,
                        project_input_popup: InputWindowView::shown("Insert project name"@),
                        ..self
                    },
                    true,
                )
            } else if c == 'd' {
                (
                    match self.projects_to_display.selected_item() {
                        Some(project) => ProjectManagementServiceView {
                            delete_project_popup: BinaryChoiceView::shown(
                                "Delete project: "@ + project.name,
                            ),
                            input_mode: InputMode::WriteMode,
                            ..self
                        },
                        None => self,
                    },
                    true,
                )
            } else if c == 'e' {
                (
                    match self.projects_to_display.selected_item() {
                        Some(project) => ProjectManagementServiceView {
                            input_mode: InputMode::WriteMode,
                            input_type: ProjectInputType::ProjectDescriptionEdit,
                            project_input_popup: InputWindowView {
                                input: project.description,
                                ..InputWindowView::shown("Edit project description"@)
                            },
                            ..self
                        },
                        None => self,
                    },
                    true,
                )
            } else if c == 'n' {
                (
                    match self.projects_to_display.selected_item() {
                        Some(project) => ProjectManagementServiceView {
                            input_mode: InputMode::WriteMode,
                            input_type: ProjectInputType::ProjectNameEdit,
                            project_input_popup: InputWindowView {
                                input: project.name,
                                ..InputWindowView::shown("Edit project name"@)
                            },
                            ..self
                        },
                        None => self,
                    },
                    true,
                )
            } else {
                (self, false)
            },
            _ => (self, false),
        }
    }

    /// Why the view does not take `name` as the name of a project: a project
    /// is found by its name, which is also the name of its file, so the name
    /// is not empty and no project of the list has it.
    pub open spec fn name_refusal(self, name: Seq<char>) -> Option<Seq<char>> {
        if name.len() == 0 {
            Some("Project name is empty"@)
        } else if position_of(self.projects_to_display.items, name) is Some {
            Some("Project name is taken"@)
        } else {
            None
        }
    }

    /// The view once the text popup is finished: what was typed becomes a
    /// request, and the view waits on it. Where the text is refused as a
    /// name, or no project is selected to change, a message says so and the
    /// popup is no longer finished.
    pub open spec fn submitted(self) -> ProjectManagementServiceView {
        let text = self.project_input_popup.input;
        match self.input_type {
            ProjectInputType::ProjectAdd => match self.name_refusal(text) {
                Some(refusal) => self.refused(refusal),
                None => ProjectManagementServiceView {
                    pending: ProjectPendingView::Saving { project: ProjectView::fresh(text) },
                    ..self
                },
            },
            ProjectInputType::ProjectNameEdit => match self.projects_to_display.selected_item() {
                Some(project) => match self.name_refusal(text) {
                    Some(refusal) => self.refused(refusal),
                    None => ProjectManagementServiceView {
                        pending: ProjectPendingView::Renaming {
                            project: ProjectView { name: text, ..project },
                            old_name: project.name,
                        },
                        ..self
                    },
                },
                None => self.refused("Selected project is invalid"@),
            },
            ProjectInputType::ProjectDescriptionEdit => match self.projects_to_display.selected_item() {
                Some(project) => ProjectManagementServiceView {
                    pending: ProjectPendingView::Saving {
                        project: ProjectView { description: text, ..project },
                    },
                    ..self
                },
                None => self.refused("Selected project is invalid"@),
            },
        }
    }

    /// The view after a key that went to the message popup: Enter closes it.
    pub open spec fn message_pressed(self, key: Key) -> ProjectManagementServiceView {
        let popup = self.message_popup.pressed(key);
        ProjectManagementServiceView {
            message_popup: if popup.completed {
                MessageWindowView { active: false, ..popup }
            } else {
                popup
            },
            ..self
        }
    }

    /// The view after a key that went to the text popup.
    pub open spec fn input_pressed(self, key: Key) -> ProjectManagementServiceView {
        let popup = self.project_input_popup.pressed(key);
        let view = ProjectManagementServiceView { project_input_popup: popup, ..self };
        if popup.active && popup.completed {
            view.submitted()
        } else {
            view.settled()
        }
    }

    /// The view after a key that went to the yes-or-no popup: once it is
    /// confirmed it closes, and on "yes" the view waits for the file of the
    /// selected project to be removed.
    pub open spec fn choice_pressed(self, key: Key) -> ProjectManagementServiceView {
        let popup = self.delete_project_popup.pressed(key);
        if popup.completed {
            let view = ProjectManagementServiceView {
                delete_project_popup: BinaryChoiceView { active: false, ..popup },
                ..self
            }.settled();
            match self.projects_to_display.selected_item() {
                Some(project) => if popup.current_choice {
                    ProjectManagementServiceView {
                        pending: ProjectPendingView::Deleting { name: project.name },
                        ..view
                    }
                } else {
                    view
                },
                None => view,
            }
        } else {
            ProjectManagementServiceView { delete_project_popup: popup, ..self }
        }
    }

    /// The view after a key, and whether the view consumed the key.
    ///
    /// A view that waits on storage takes the key and ignores it. In command
    /// mode the key is a command. In write mode the key goes to exactly one
    /// popup: the message popup before the text popup, the text popup before
    /// the yes-or-no popup; where none is open, the view goes back to
    /// command mode and takes the key as a command.
    pub open spec fn after_key(self, key: Key) -> (ProjectManagementServiceView, bool) {
        if !(self.pending is Idle) {
            (self, true)
        } else {
            match self.input_mode {
                InputMode::CommandMode => self.commanded(key),
                InputMode::WriteMode => if self.message_popup.active {
                    (self.message_pressed(key), true)
                } else if self.project_input_popup.active {
                    (self.input_pressed(key), true)
                } else if self.delete_project_popup.active {
                    (self.choice_pressed(key), true)
                } else {
                    ProjectManagementServiceView {
                        input_mode: InputMode::CommandMode,
                        ..self
                    }.commanded(key)
                },
                InputMode::SubWindowInputs => (self, false),
            }
        }
    }

    /// The request that the view waits on.
    pub open spec fn request(self) -> Option<StorageRequestView> {
        let folder = self.program_work_path;
        match self.pending {
            ProjectPendingView::Idle => None,
            ProjectPendingView::Saving { project } => Some(
                StorageRequestView::Write { folder, file_name: file_name_of(project.name), project },
            ),
            ProjectPendingView::Renaming { project, old_name } => Some(
                StorageRequestView::Rename {
                    folder,
                    from: file_name_of(old_name),
                    to: file_name_of(project.name),
                },
            ),
            ProjectPendingView::SavingRenamed { project, old_name } => Some(
                StorageRequestView::Write { folder, file_name: file_name_of(project.name), project },
            ),
            ProjectPendingView::Restoring { old_name, new_name, reason } => Some(
                StorageRequestView::Rename {
                    folder,
                    from: file_name_of(new_name),
                    to: file_name_of(old_name),
                },
            ),
            ProjectPendingView::Deleting { name } => Some(
                StorageRequestView::Delete { folder, file_name: file_name_of(name) },
            ),
            ProjectPendingView::Listing { selection } => Some(StorageRequestView::List { folder }),
        }
    }

    /// The view once what the text popup asked for is in storage: the popup
    /// is retired and the view waits for the folder to be read.
    pub open spec fn stored(self) -> ProjectManagementServiceView {
        ProjectManagementServiceView {
            project_input_popup: self.project_input_popup.retired(),
            pending: ProjectPendingView::Listing { selection: None },
            ..self
        }.settled()
    }

    /// The text of the message for a project that could not be written. For
    /// a new project it names the folder.
    pub open spec fn write_failure(self, reason: Seq<char>) -> Seq<char> {
        if self.input_type == ProjectInputType::ProjectAdd {
            reason + " With path: "@ + self.program_work_path
        } else {
            reason
        }
    }

    /// The view showing the given projects, the first one selected, or the
    /// first one of the given name where a name is given and found.
    pub open spec fn listed(
        self,
        projects: Seq<ProjectView>,
        selection: Option<Seq<char>>,
    ) -> ProjectManagementServiceView {
        ProjectManagementServiceView {
            projects_to_display: match selection {
                Some(name) => match position_of(projects, name) {
                    Some(index) => ListView::of(projects).select(index),
                    None => ListView::of(projects),
                },
                None => ListView::of(projects),
            },
            pending: ProjectPendingView::Idle,
            ..self
        }
    }

    /// The view after the answer of storage.
    ///
    /// Where a request of the text popup fails, a message shows the reason
    /// and the popup stays open with its text, no longer finished. Where the
    /// removal of a file fails, a message shows the reason, and the folder
    /// is read again as after a removal. An answer that fits no request of
    /// the view changes nothing.
    pub open spec fn after_reply(self, reply: StorageReplyView) -> ProjectManagementServiceView {
        match self.pending {
            ProjectPendingView::Idle => self,
            ProjectPendingView::Saving { project } => match reply {
                StorageReplyView::Done => self.stored(),
                StorageReplyView::Failed(reason) => self.refused(self.write_failure(reason)),
                _ => self,
            },
            ProjectPendingView::Renaming { project, old_name } => match reply {
                StorageReplyView::Done => ProjectManagementServiceView {
                    pending: ProjectPendingView::SavingRenamed { project, old_name },
                    ..self
                },
                StorageReplyView::Failed(reason) => self.refused(reason),
                _ => self,
            },
            ProjectPendingView::SavingRenamed { project, old_name } => match reply {
                StorageReplyView::Done => self.stored(),
                StorageReplyView::Failed(reason) => ProjectManagementServiceView {
                    pending: ProjectPendingView::Restoring {
                        old_name,
                        new_name: project.name,
                        reason,
                    },
                    ..self
                },
                _ => self,
            },
            ProjectPendingView::Restoring { old_name, new_name, reason } => match reply {
                StorageReplyView::Done => self.refused(reason),
                StorageReplyView::Failed(other) => self.refused(reason),
                _ => self,
            },
            ProjectPendingView::Deleting { name } => match reply {
                StorageReplyView::Done => ProjectManagementServiceView {
                    pending: ProjectPendingView::Listing { selection: None },
                    ..self
                },
                StorageReplyView::Failed(reason) => ProjectManagementServiceView {
                    pending: ProjectPendingView::Listing { selection: None },
                    ..self
                }.with_message(reason),
                _ => self,
            },
            ProjectPendingView::Listing { selection } => match reply {
                StorageReplyView::Projects(projects) => self.listed(projects, selection),
                StorageReplyView::Failed(reason) => ProjectManagementServiceView {
                    pending: ProjectPendingView::Idle,
                    ..self
                }.with_message(reason),
                _ => self,
            },
        }
    }

    /// The shared state after the view has lost the focus: the selected
    /// project, if there is one, is the project last selected.
    pub open spec fn published(self, state: ApplicationStateView) -> ApplicationStateView {
        match self.projects_to_display.selected_item() {
            Some(project) => ApplicationStateView { selected_project: project, ..state },
            None => state,
        }
    }

    /// The view after it has gained the focus: it waits for the folder to be
    /// read, and will then select the project last selected.
    pub open spec fn focused(self, state: ApplicationStateView) -> ProjectManagementServiceView {
        ProjectManagementServiceView {
            pending: ProjectPendingView::Listing { selection: Some(state.selected_project.name) },
            ..self
        }
    }

    /// The line of keys that mean something now: those of the popup that is
    /// shown on top, else the commands of the view.
    pub open spec fn controls(self) -> Seq<char> {
        if self.message_popup.active {
            "Press enter to continue"@
        } else if self.delete_project_popup.active {
            "<-: Go Left  |  ->: Go Right  |  Enter: Confirm Selection "@
        } else if self.project_input_popup.active {
            "esc - Cancel | Enter - Confirm entry"@
        } else {
            "Q: Quit | A: Add project | D: Delete project | E: Edit Project Description | N: Edit Project name | Tab: Go to Tasks"@
        }
    }
}

/// The view keeps what holds of it at all times through every key.
pub proof fn lemma_project_view_key_keeps_wf(view: ProjectManagementServiceView, key: Key)
    requires
        view.wf(),
    ensures
        view.after_key(key).0.wf(),
{
}

/// The view keeps what holds of it at all times through every answer of
/// storage and through gaining the focus, as long as the folder has no more
/// projects than a list can index.
pub proof fn lemma_project_view_reply_keeps_wf(
    view: ProjectManagementServiceView,
    reply: StorageReplyView,
    state: ApplicationStateView,
)
    requires
        view.wf(),
        reply matches StorageReplyView::Projects(projects) ==> projects.len() <= usize::MAX,
    ensures
        view.after_reply(reply).wf(),
        view.focused(state).wf(),
{
    if let StorageReplyView::Projects(projects) = reply {
        if let ProjectPendingView::Listing { selection: Some(name) } = view.pending {
            lemma_position_of(projects, name);
        }
    }
}

/// While a popup is open or the view waits on storage, the view consumes
/// every key: no key reaches a global binding.
pub proof fn lemma_project_view_popup_takes_every_key(view: ProjectManagementServiceView, key: Key)
    requires
        view.wf(),
        view.message_popup.active || view.project_input_popup.active
            || view.delete_project_popup.active || !(view.pending is Idle),
    ensures
        view.after_key(key).1,
{
}

/// While the message popup is open, a key changes nothing but the message
/// popup: the popup under it keeps what was typed or chosen.
pub proof fn lemma_project_view_message_goes_first(view: ProjectManagementServiceView, key: Key)
    requires
        view.wf(),
        view.message_popup.active,
    ensures
        view.after_key(key).0 == (ProjectManagementServiceView {
            message_popup: view.after_key(key).0.message_popup,
            ..view
        }),
{
}

/// A key that the view does not consume changes nothing but the mode, and
/// the view is in command mode after it.
pub proof fn lemma_project_view_unconsumed_key(view: ProjectManagementServiceView, key: Key)
    requires
        view.wf(),
        !view.after_key(key).1,
    ensures
        view.after_key(key).0 == (ProjectManagementServiceView {
            input_mode: InputMode::CommandMode,
            ..view
        }),
        view.pending is Idle,
{
}

/// A request of the text popup that storage refuses leaves the text in the
/// popup as it was typed, the popup as open as it was and no longer
/// finished, the list as it was, and a message open that begins with the
/// reason storage gave; after a failed attempt to give a file its old name
/// back, the message is the one of the write that failed before it. The view
/// waits on nothing more. The renamed project that cannot be written is no
/// case of this: there the view first asks for the file to get its old name
/// back.
pub proof fn lemma_project_view_failure_keeps_text(
    view: ProjectManagementServiceView,
    reason: Seq<char>,
)
    requires
        view.pending is Saving || view.pending is Renaming || view.pending is Restoring,
    ensures
        ({
            let after = view.after_reply(StorageReplyView::Failed(reason));
            &&& after.project_input_popup.input == view.project_input_popup.input
            &&& after.project_input_popup.active == view.project_input_popup.active
            &&& !after.project_input_popup.completed
            &&& after.message_popup.active
            &&& !after.message_popup.completed
            &&& after.pending is Idle
            &&& after.projects_to_display == view.projects_to_display
            &&& !(view.pending is Restoring) ==> after.message_popup.description.subrange(
                0,
                reason.len() as int,
            ) == reason
        }),
{
    let after = view.after_reply(StorageReplyView::Failed(reason));
    if !(view.pending is Restoring) {
        assert(after.message_popup.description.subrange(0, reason.len() as int) =~= reason);
    }
}

/// The view of the projects of one folder.
pub struct ProjectManagementService {
    projects_to_display: DisplayList<Project>,
    project_input_popup: InputWindow,
    input_mode: InputMode,
    input_type: ProjectInputType,
    program_work_path: String,
    message_popup: MessageWindow,
    delete_project_popup: BinaryChoice,
    pending: ProjectPending,
}

impl View for ProjectManagementService {
    type V = ProjectManagementServiceView;

    closed spec fn view(&self) -> ProjectManagementServiceView {
        ProjectManagementServiceView {
            projects_to_display: project_list_view(self.projects_to_display@),
            project_input_popup: self.project_input_popup@,
            input_mode: self.input_mode,
            input_type: self.input_type,
            program_work_path: self.program_work_path@,
            message_popup: self.message_popup@,
            delete_project_popup: self.delete_project_popup@,
            pending: self.pending@,
        }
    }
}

impl ProjectManagementService {
    /// The view of the projects of the given folder. It waits for the folder
    /// to be read.
    pub fn new(working_path: String) -> (service: ProjectManagementService)
        ensures
            service@ == ProjectManagementServiceView::opened(working_path@),
    {
        let service = ProjectManagementService {
            projects_to_display: DisplayList::from(Vec::new()),
            project_input_popup: InputWindow::default(),
            input_mode: InputMode::CommandMode,
            input_type: ProjectInputType::ProjectAdd,
            program_work_path: working_path,
            message_popup: MessageWindow::default(),
            delete_project_popup: BinaryChoice::default(),
            pending: ProjectPending::Listing { selection: None },
        };
        assert(projects_view(Seq::<Project>::empty()) =~= Seq::empty());
        service
    }

    fn selected_project(&self) -> (project: Option<Project>)
        ensures
            match project {
                Some(project) => self@.projects_to_display.selected_item() == Some(project@),
                None => self@.projects_to_display.selected_item() is None,
            },
    {
        match self.projects_to_display.selected_item() {
            Some(project) => Some(project.clone()),
            None => None,
        }
    }

    /// The name of the selected project.
    pub fn get_selected_project_path_name(&self) -> (name: Option<String>)
        ensures
            match name {
                Some(name) => self@.projects_to_display.selected_item() matches Some(project)
                    && project.name == name@,
                None => self@.projects_to_display.selected_item() is None,
            },
    {
        match self.projects_to_display.selected_item() {
            Some(project) => Some(project.name.clone()),
            None => None,
        }
    }

    /// The list of projects.
    pub fn projects_to_display(&self) -> (list: &DisplayList<Project>)
        ensures
            project_list_view(list@) == self@.projects_to_display,
    {
        &self.projects_to_display
    }

    /// The text popup.
    pub fn project_input_popup(&self) -> (popup: &InputWindow)
        ensures
            popup@ == self@.project_input_popup,
    {
        &self.project_input_popup
    }

    /// The message popup.
    pub fn message_popup(&self) -> (popup: &MessageWindow)
        ensures
            popup@ == self@.message_popup,
    {
        &self.message_popup
    }

    /// The yes-or-no popup.
    pub fn delete_project_popup(&self) -> (popup: &BinaryChoice)
        ensures
            popup@ == self@.delete_project_popup,
    {
        &self.delete_project_popup
    }

    /// The folder whose projects the view shows.
    pub fn program_work_path(&self) -> (path: &String)
        ensures
            path@ == self@.program_work_path,
    {
        &self.program_work_path
    }

    /// The names of the open tasks of the selected project, for the list
    /// beside the projects; none where no project is selected.
    pub fn selected_project_active_tasks(&self) -> (names: Vec<String>)
        ensures
            texts_of(names@) == (match self@.projects_to_display.selected_item() {
                Some(project) => task_names(project.active_tasks),
                None => Seq::empty(),
            }),
    {
        match self.projects_to_display.selected_item() {
            Some(project) => names_of_tasks(&project.active_tasks),
            None => {
                let names: Vec<String> = Vec::new();
                assert(texts_of(names@) =~= Seq::empty());
                names
            },
        }
    }

    /// The names of the tasks done of the selected project, for the list
    /// beside the projects; none where no project is selected.
    pub fn selected_project_completed_tasks(&self) -> (names: Vec<String>)
        ensures
            texts_of(names@) == (match self@.projects_to_display.selected_item() {
                Some(project) => task_names(project.completed_tasks),
                None => Seq::empty(),
            }),
    {
        match self.projects_to_display.selected_item() {
            Some(project) => names_of_tasks(&project.completed_tasks),
            None => {
                let names: Vec<String> = Vec::new();
                assert(texts_of(names@) =~= Seq::empty());
                names
            },
        }
    }

    /// The description of the selected project; empty where no project is
    /// selected.
    pub fn selected_project_description(&self) -> (description: String)
        ensures
            description@ == (match self@.projects_to_display.selected_item() {
                Some(project) => project.description,
                None => Seq::empty(),
            }),
    {
        match self.projects_to_display.selected_item() {
            Some(project) => project.description.clone(),
            None => String::new(),
        }
    }

    fn find_project(&self, name: &String) -> (index: Option<usize>)
        ensures
            index == position_of(self@.projects_to_display.items, name@),
    {
        let projects = self.projects_to_display.items();
        let ghost views = projects_view(projects@);
        let mut i: usize = 0;
        while i < projects.len()
            invariant
                i <= projects.len(),
                views == projects_view(projects@),
                views == self@.projects_to_display.items,
                position_of(views.take(i as int), name@) is None,
            decreases projects.len() - i,
        {
            proof {
                assert(views.take(i + 1).drop_last() =~= views.take(i as int));
            }
            if projects[i].name == *name {
                proof {
                    assert(views[i as int] == projects@[i as int]@);
                    lemma_position_of_prefix(views, (i + 1) as int, name@);
                }
                return Some(i);
            }
            proof {
                assert(views.take(i + 1).last() == projects@[i as int]@);
            }
            i += 1;
        }
        proof {
            assert(views.take(i as int) =~= views);
        }
        None
    }

    fn update_projects(&mut self, projects: Vec<Project>, selection: Option<String>)
        ensures
            final(self)@ == old(self)@.listed(
                projects_view(projects@),
                match selection {
                    Some(name) => Some(name@),
                    None => None,
                },
            ),
    {
        self.projects_to_display = DisplayList::from(projects);
        self.pending = ProjectPending::Idle;
        if let Some(name) = selection {
            if let Some(index) = self.find_project(&name) {
                self.projects_to_display.select(index);
            }
        }
    }

    fn create_popup_with_message(&mut self, message: String)
        ensures
            final(self)@ == old(self)@.with_message(message@),
    {
        self.message_popup = MessageWindow::new(message);
        self.input_mode = InputMode::WriteMode;
    }

    fn refuse(&mut self, message: String)
        ensures
            final(self)@ == old(self)@.refused(message@),
    {
        self.project_input_popup.reset_completion();
        self.pending = ProjectPending::Idle;
        self.create_popup_with_message(message);
    }

    fn settle(&mut self)
        ensures
            final(self)@ == old(self)@.settled(),
    {
        if !self.message_popup.is_active() && !self.project_input_popup.is_active()
            && !self.delete_project_popup.is_active() {
            self.input_mode = InputMode::CommandMode;
        }
    }

    fn add_project_request(&mut self)
        ensures
            final(self)@ == old(self)@.commanded(Key::Char('a')).0,
    {
        self.input_mode = InputMode::WriteMode;
        self.input_type = ProjectInputType::ProjectAdd;
        self.project_input_popup = InputWindow::new(String::from_str("Insert project name"));
    }

    fn delete_selected_project(&mut self)
        ensures
            final(self)@ == old(self)@.commanded(Key::Char('d')).0,
    {
        if let Some(name) = self.get_selected_project_path_name() {
            let popup_description = String::from_str("Delete project: ").concat(name.as_str());
            self.delete_project_popup = BinaryChoice::new(popup_description);
            self.input_mode = InputMode::WriteMode;
        }
    }

    fn edit_selected_project_name(&mut self)
        ensures
            final(self)@ == old(self)@.commanded(Key::Char('n')).0,
    {
        if let Some(name) = self.get_selected_project_path_name() {
            self.input_mode = InputMode::WriteMode;
            self.input_type = ProjectInputType::ProjectNameEdit;
            self.project_input_popup = InputWindow::new(String::from_str("Edit project name"));
            self.project_input_popup.set_input_string(name);
        }
    }

    fn edit_selected_project_description(&mut self)
        ensures
            final(self)@ == old(self)@.commanded(Key::Char('e')).0,
    {
        if let Some(project) = self.selected_project() {
            self.input_mode = InputMode::WriteMode;
            self.input_type = ProjectInputType::ProjectDescriptionEdit;
            self.project_input_popup = InputWindow::new(
                String::from_str("Edit project description"),
            );
            self.project_input_popup.set_input_string(project.description);
        }
    }

    fn command(&mut self, key_code: Key) -> (consumed: bool)
        ensures
            final(self)@ == old(self)@.commanded(key_code).0,
            consumed == old(self)@.commanded(key_code).1,
    {
        match key_code {
            Key::Up => {
                self.projects_to_display.previous();
                true
            },
            Key::Down => {
                self.projects_to_display.next();
                true
            },
            Key::Char(c) => {
                if c == 'a' {
                    self.add_project_request();
                    true
                } else if c == 'd' {
                    self.delete_selected_project();
                    true
                } else if c == 'e' {
                    self.edit_selected_project_description();
                    true
                } else if c == 'n' {
                    self.edit_selected_project_name();
                    true
                } else {
                    false
                }
            },
            _ => false,
        }
    }

    fn refusal_of_name(&self, name: &String) -> (refusal: Option<String>)
        ensures
            match refusal {
                Some(text) => self@.name_refusal(name@) == Some(text@),
                None => self@.name_refusal(name@) is None,
            },
    {
        if name.as_str().is_empty() {
            Some(String::from_str("Project name is empty"))
        } else if self.find_project(name).is_some() {
            Some(String::from_str("Project name is taken"))
        } else {
            None
        }
    }

    fn submit(&mut self)
        ensures
            final(self)@ == old(self)@.submitted(),
    {
        let text = self.project_input_popup.get_input_data();
        match self.input_type {
            ProjectInputType::ProjectAdd => {
                match self.refusal_of_name(&text) {
                    Some(refusal) => self.refuse(refusal),
                    None => {
                        self.pending = ProjectPending::Saving { project: Project::new(text) };
                    },
                }
            },
            ProjectInputType::ProjectNameEdit => {
                match self.selected_project() {
                    Some(project) => match self.refusal_of_name(&text) {
                        Some(refusal) => self.refuse(refusal),
                        None => {
                            let mut project = project;
                            let old_name = project.name;
                            project.name = text;
                            self.pending = ProjectPending::Renaming { project, old_name };
                        },
                    },
                    None => self.refuse(String::from_str("Selected project is invalid")),
                }
            },
            ProjectInputType::ProjectDescriptionEdit => {
                match self.selected_project() {
                    Some(project) => {
                        let mut project = project;
                        project.description = text;
                        self.pending = ProjectPending::Saving { project };
                    },
                    None => self.refuse(String::from_str("Selected project is invalid")),
                }
            },
        }
    }

    fn forward_to_message(&mut self, key_code: Key)
        ensures
            final(self)@ == old(self)@.message_pressed(key_code),
    {
        self.message_popup.handle_input_key(key_code);
        if self.message_popup.is_completed() {
            self.message_popup.set_active(false);
        }
    }

    fn forward_to_input(&mut self, key_code: Key)
        ensures
            final(self)@ == old(self)@.input_pressed(key_code),
    {
        self.project_input_popup.handle_input_key(key_code);
        if self.project_input_popup.is_active() && self.project_input_popup.is_completed() {
            self.submit();
        } else {
            self.settle();
        }
    }

    fn forward_to_choice(&mut self, key_code: Key)
        ensures
            final(self)@ == old(self)@.choice_pressed(key_code),
    {
        self.delete_project_popup.handle_input_key(key_code);
        if self.delete_project_popup.is_completed() {
            self.delete_project_popup.set_active(false);
            self.settle();
            if self.delete_project_popup.get_choice() {
                if let Some(name) = self.get_selected_project_path_name() {
                    self.pending = ProjectPending::Deleting { name };
                }
            }
        }
    }

    fn store(&mut self)
        ensures
            final(self)@ == old(self)@.stored(),
    {
        self.project_input_popup.retire();
        self.pending = ProjectPending::Listing { selection: None };
        self.settle();
    }

    fn write_failure_message(&self, reason: String) -> (message: String)
        ensures
            message@ == self@.write_failure(reason@),
    {
        match self.input_type {
            ProjectInputType::ProjectAdd => reason.concat(" With path: ").concat(
                self.program_work_path.as_str(),
            ),
            _ => reason,
        }
    }

    fn is_idle(&self) -> (idle: bool)
        ensures
            idle == (self@.pending is Idle),
    {
        match &self.pending {
            ProjectPending::Idle => true,
            _ => false,
        }
    }
}

/// The first project of a name among the first `count` projects is the first
/// project of that name among all of them.
proof fn lemma_position_of_prefix(projects: Seq<ProjectView>, count: int, name: Seq<char>)
    requires
        0 < count <= projects.len(),
        projects.len() <= usize::MAX,
        position_of(projects.take(count - 1), name) is None,
        projects[count - 1].name == name,
    ensures
        position_of(projects, name) == Some((count - 1) as usize),
{
    lemma_position_of(projects, name);
    lemma_position_of(projects.take(count - 1), name);
    assert forall|j: int| 0 <= j < count - 1 implies projects[j].name != name by {
        assert(projects.take(count - 1)[j] == projects[j]);
    }
}

impl InputReceptor for ProjectManagementService {
    /// Takes one key: see `ProjectManagementServiceView::after_key`.
    fn handle_input_key(&mut self, key_code: Key) -> (consumed: bool)
        ensures
            final(self)@ == old(self)@.after_key(key_code).0,
            consumed == old(self)@.after_key(key_code).1,
    {
        if !self.is_idle() {
            return true;
        }
        match self.input_mode {
            InputMode::CommandMode => self.command(key_code),
            InputMode::WriteMode => {
                if self.message_popup.is_active() {
                    self.forward_to_message(key_code);
                    true
                } else if self.project_input_popup.is_active() {
                    self.forward_to_input(key_code);
                    true
                } else if self.delete_project_popup.is_active() {
                    self.forward_to_choice(key_code);
                    true
                } else {
                    self.input_mode = InputMode::CommandMode;
                    self.command(key_code)
                }
            },
            InputMode::SubWindowInputs => false,
        }
    }

    fn get_controls_description(&self) -> (controls: String)
        ensures
            controls@ == self@.controls(),
    {
        if self.message_popup.is_active() {
            self.message_popup.get_controls_description()
        } else if self.delete_project_popup.is_active() {
            self.delete_project_popup.get_controls_description()
        } else if self.project_input_popup.is_active() {
            self.project_input_popup.get_controls_description()
        } else {
            String::from_str(
                "Q: Quit | A: Add project | D: Delete project | E: Edit Project Description | N: Edit Project name | Tab: Go to Tasks",
            )
        }
    }

    fn get_input_mode(&self) -> (mode: InputMode)
        ensures
            mode == self@.input_mode,
    {
        self.input_mode
    }
}

impl Service for ProjectManagementService {
    open spec fn pending_request(&self) -> Option<StorageRequestView> {
        self@.request()
    }

    fn set_working_directory(&mut self, path: String)
        ensures
            final(self)@ == (ProjectManagementServiceView { program_work_path: path@, ..old(self)@ }),
    {
        self.program_work_path = path;
    }

    fn handle_input(&mut self, key_code: Key) -> (consumed: bool)
        ensures
            final(self)@ == old(self)@.after_key(key_code).0,
            consumed == old(self)@.after_key(key_code).1,
    {
        self.handle_input_key(key_code)
    }

    fn get_input_possibilities(&self) -> (controls: String)
        ensures
            controls@ == self@.controls(),
    {
        self.get_controls_description()
    }

    fn update_application_state(&mut self, application_state: &mut ApplicationState)
        ensures
            final(self)@ == old(self)@,
            final(application_state)@ == old(self)@.published(old(application_state)@),
    {
        if let Some(project) = self.selected_project() {
            application_state.selected_project = project;
        }
    }

    fn apply_application_state(&mut self, application_state: &ApplicationState)
        ensures
            final(self)@ == old(self)@.focused(application_state@),
    {
        self.pending = ProjectPending::Listing {
            selection: Some(application_state.selected_project.name.clone()),
        };
    }

    fn storage_request(&self) -> (request: Option<StorageRequest>) {
        let folder = self.program_work_path.clone();
        match &self.pending {
            ProjectPending::Idle => None,
            ProjectPending::Saving { project } => Some(project.write_project_full_path(folder)),
            ProjectPending::Renaming { project, old_name } => Some(
                StorageRequest::Rename {
                    folder,
                    from: project_file_name(old_name.as_str()),
                    to: project_file_name(project.name.as_str()),
                },
            ),
            ProjectPending::SavingRenamed { project, old_name } => Some(
                project.write_project_full_path(folder),
            ),
            ProjectPending::Restoring { old_name, new_name, reason } => Some(
                StorageRequest::Rename {
                    folder,
                    from: project_file_name(new_name.as_str()),
                    to: project_file_name(old_name.as_str()),
                },
            ),
            ProjectPending::Deleting { name } => Some(delete_project_of_name(name.clone(), folder)),
            ProjectPending::Listing { selection } => Some(StorageRequest::List { folder }),
        }
    }

    /// Takes the answer of storage: see
    /// `ProjectManagementServiceView::after_reply`.
    fn handle_storage_reply(&mut self, reply: StorageReply)
        ensures
            final(self)@ == old(self)@.after_reply(reply@),
    {
        let mut pending = ProjectPending::Idle;
        core::mem::swap(&mut pending, &mut self.pending);
        match pending {
            ProjectPending::Idle => {},
            ProjectPending::Saving { project } => match reply {
                StorageReply::Done => self.store(),
                StorageReply::Failed(reason) => {
                    let message = self.write_failure_message(reason);
                    self.refuse(message);
                },
                _ => {
                    self.pending = ProjectPending::Saving { project };
                },
            },
            ProjectPending::Renaming { project, old_name } => match reply {
                StorageReply::Done => {
                    self.pending = ProjectPending::SavingRenamed { project, old_name };
                },
                StorageReply::Failed(reason) => self.refuse(reason),
                _ => {
                    self.pending = ProjectPending::Renaming { project, old_name };
                },
            },
            ProjectPending::SavingRenamed { project, old_name } => match reply {
                StorageReply::Done => self.store(),
                StorageReply::Failed(reason) => {
                    self.pending = ProjectPending::Restoring {
                        old_name,
                        new_name: project.name,
                        reason,
                    };
                },
                _ => {
                    self.pending = ProjectPending::SavingRenamed { project, old_name };
                },
            },
            ProjectPending::Restoring { old_name, new_name, reason } => match reply {
                StorageReply::Done => self.refuse(reason),
                StorageReply::Failed(other) => self.refuse(reason),
                _ => {
                    self.pending = ProjectPending::Restoring { old_name, new_name, reason };
                },
            },
            ProjectPending::Deleting { name } => match reply {
                StorageReply::Done => {
                    self.pending = ProjectPending::Listing { selection: None };
                },
                StorageReply::Failed(reason) => {
                    self.pending = ProjectPending::Listing { selection: None };
                    self.create_popup_with_message(reason);
                },
                _ => {
                    self.pending = ProjectPending::Deleting { name };
                },
            },
            ProjectPending::Listing { selection } => match reply {
                StorageReply::Projects(projects) => self.update_projects(projects, selection),
                StorageReply::Failed(reason) => {
                    self.create_popup_with_message(reason);
                },
                _ => {
                    self.pending = ProjectPending::Listing { selection };
                },
            },
        }
    }
}

} // verus!
