//! The state that the views share, and the application that routes keys to
//! the view in focus.

use crate::keys::{Key, KeyPress, Modifiers};
use crate::services::project_s::{ProjectManagementService, ProjectManagementServiceView};
use crate::services::task_s::{TaskService, TaskServiceView};
use crate::services::{Service, ServiceWindow, ServiceWindowView};
use crate::storage::{
    request_view, StorageReply, StorageReplyView, StorageRequest, StorageRequestView,
};
use crate::structure::project::{Project, ProjectView};
use crate::structure::task::{Task, TaskView};
use vstd::prelude::*;

verus! {

/// What one view leaves for the next when the focus moves: the folder, the
/// project last selected and the task last selected, each as a copy.
#[derive(Debug, PartialEq, Eq)]
pub struct ApplicationState {
    pub folder_path: String,
    pub selected_project: Project,
    pub selected_task: Task,
}

/// The shared state, as a mathematical value.
pub ghost struct ApplicationStateView {
    pub folder_path: Seq<char>,
    pub selected_project: ProjectView,
    pub selected_task: TaskView,
}

impl View for ApplicationState {
    type V = ApplicationStateView;

    open spec fn view(&self) -> ApplicationStateView {
        ApplicationStateView {
            folder_path: self.folder_path@,
            selected_project: self.selected_project@,
            selected_task: self.selected_task@,
        }
    }
}

impl ApplicationStateView {
    /// The shared state before any view has written to it.
    pub open spec fn initial(folder_path: Seq<char>) -> ApplicationStateView {
        ApplicationStateView {
            folder_path,
            selected_project: ProjectView::empty(),
            selected_task: TaskView::fresh(Seq::empty(), Seq::empty()),
        }
    }
}

impl Default for ApplicationState {
    fn default() -> (state: ApplicationState)
        ensures
            state@ == ApplicationStateView::initial(Seq::empty()),
    {
        ApplicationState {
            folder_path: String::new(),
            selected_project: Project::default(),
            selected_task: Task::default(),
        }
    }
}

impl Clone for ApplicationState {
    fn clone(&self) -> (copy: ApplicationState)
        ensures
            copy@ == self@,
    {
        ApplicationState {
            folder_path: self.folder_path.clone(),
            selected_project: self.selected_project.clone(),
            selected_task: self.selected_task.clone(),
        }
    }
}

/// The index after `index` among `count` views, the first one after the
/// last.
pub open spec fn next_index(index: int, count: int) -> int {
    if count > 0 {
        (index + 1) % count
    } else {
        index
    }
}

/// The index before `index` among `count` views, the last one before the
/// first.
pub open spec fn previous_index(index: int, count: int) -> int {
    if count > 0 {
        (index + count - 1) % count
    } else {
        index
    }
}

/// Moving the focus forward or backward among the views always lands on a
/// view. Backward from the first view lands on the last one, forward from
/// the last one on the first, and each of the two moves undoes the other.
pub proof fn lemma_focus_moves_wrap_around(index: int, count: int)
    requires
        0 <= index < count,
    ensures
        0 <= next_index(index, count) < count,
        0 <= previous_index(index, count) < count,
        previous_index(0, count) == count - 1,
        next_index(count - 1, count) == 0,
        index > 0 ==> previous_index(index, count) == index - 1,
        index + 1 < count ==> next_index(index, count) == index + 1,
        previous_index(next_index(index, count), count) == index,
        next_index(previous_index(index, count), count) == index,
{
    assert(0 <= next_index(index, count) < count);
    assert(0 <= previous_index(index, count) < count);
    if index + 1 < count {
        assert((index + 1) % count == index + 1) by {
            vstd::arithmetic::div_mod::lemma_small_mod((index + 1) as nat, count as nat);
        }
    } else {
        assert((index + 1) % count == 0) by {
            vstd::arithmetic::div_mod::lemma_mod_self_0(count);
        }
    }
    if index > 0 {
        assert((index + count - 1) % count == index - 1) by {
            vstd::arithmetic::div_mod::lemma_mod_add_multiples_vanish(index - 1, count);
            vstd::arithmetic::div_mod::lemma_small_mod((index - 1) as nat, count as nat);
        }
    } else {
        assert((index + count - 1) % count == count - 1) by {
            vstd::arithmetic::div_mod::lemma_small_mod((count - 1) as nat, count as nat);
        }
    }
    assert((0 + count - 1) % count == count - 1) by {
        vstd::arithmetic::div_mod::lemma_small_mod((count - 1) as nat, count as nat);
    }
    assert((count - 1 + 1) % count == 0) by {
        vstd::arithmetic::div_mod::lemma_mod_self_0(count);
    }
    if count == 1 {
    } else {
        let forward = next_index(index, count);
        let backward = previous_index(index, count);
        if forward > 0 {
            assert((forward + count - 1) % count == forward - 1) by {
                vstd::arithmetic::div_mod::lemma_mod_add_multiples_vanish(forward - 1, count);
                vstd::arithmetic::div_mod::lemma_small_mod((forward - 1) as nat, count as nat);
            }
        }
        if backward + 1 < count {
            assert((backward + 1) % count == backward + 1) by {
                vstd::arithmetic::div_mod::lemma_small_mod((backward + 1) as nat, count as nat);
            }
        }
    }
}

/// The application, as a mathematical value.
pub ghost struct ApplicationView {
    pub services: Seq<ServiceWindowView>,
    pub service_index: int,
    pub is_running: bool,
    pub application_state: ApplicationStateView,
    pub active_folder_path: Seq<char>,
}

impl ApplicationView {
    /// The application that `Application::new` makes: the project view and
    /// the task view, the project view in focus.
    pub open spec fn started(path: Seq<char>) -> ApplicationView {
        ApplicationView {
            services: seq![
                ServiceWindowView::Project(ProjectManagementServiceView::opened(path)),
                ServiceWindowView::Task(TaskServiceView::initial()),
            ],
            service_index: 0,
            is_running: true,
            application_state: ApplicationStateView::initial(path),
            active_folder_path: path,
        }
    }

    /// What holds of the application at all times: there is a view, one of
    /// the views is in focus, and of each view holds what holds of it at all
    /// times.
    pub open spec fn wf(self) -> bool {
        &&& 0 <= self.service_index < self.services.len()
        &&& forall|i: int| 0 <= i < self.services.len() ==> (#[trigger] self.services[i]).wf()
    }

    /// Whether there is a view in focus.
    pub open spec fn has_focus(self) -> bool {
        0 <= self.service_index < self.services.len()
    }

    /// The application with the focus moved to the view at `target`: the view
    /// that loses the focus writes to the shared state, then the view that
    /// gains it reads from the shared state.
    pub open spec fn switched(self, target: int) -> ApplicationView {
        if self.has_focus() && 0 <= target < self.services.len() {
            let state = self.services[self.service_index].published(self.application_state);
            ApplicationView {
                services: self.services.update(target, self.services[target].focused(state)),
                service_index: target,
                application_state: state,
                ..self
            }
        } else {
            self
        }
    }

    /// The application after a key that the view in focus did not consume:
    /// `q` ends the run, Tab moves the focus to the next view, Tab with
    /// shift to the previous one, and nothing else means anything.
    pub open spec fn global(self, press: KeyPress) -> ApplicationView {
        match press.code {
            Key::Char(c) => if c == 'q' {
                ApplicationView { is_running: false, ..self }
            } else {
                self
            },
            Key::Tab => match press.modifiers {
                Modifiers::Plain => self.switched(
                    next_index(self.service_index, self.services.len() as int),
                ),
                Modifiers::Shift => self.switched(
                    previous_index(self.service_index, self.services.len() as int),
                ),
                Modifiers::Other => self,
            },
            _ => self,
        }
    }

    /// The application after a key: the key goes to the view in focus, and
    /// only if that view does not consume it is it held against the global
    /// bindings.
    pub open spec fn after_press(self, press: KeyPress) -> ApplicationView {
        if self.has_focus() {
            let (view, consumed) = self.services[self.service_index].after_key(press.code);
            let offered = ApplicationView {
                services: self.services.update(self.service_index, view),
                ..self
            };
            if consumed {
                offered
            } else {
                offered.global(press)
            }
        } else {
            self.global(press)
        }
    }

    /// The request that the view in focus waits on.
    pub open spec fn request(self) -> Option<StorageRequestView> {
        if self.has_focus() {
            self.services[self.service_index].request()
        } else {
            None
        }
    }

    /// The application after the answer of storage, which goes to the view
    /// in focus.
    pub open spec fn after_reply(self, reply: StorageReplyView) -> ApplicationView {
        if self.has_focus() {
            ApplicationView {
                services: self.services.update(
                    self.service_index,
                    self.services[self.service_index].after_reply(reply),
                ),
                ..self
            }
        } else {
            self
        }
    }
}

/// The application keeps what holds of it at all times through every key
/// and every answer of storage, as long as no answer brings more projects
/// than a list can index.
pub proof fn lemma_application_keeps_wf(
    application: ApplicationView,
    press: KeyPress,
    reply: StorageReplyView,
)
    requires
        application.wf(),
        reply matches StorageReplyView::Projects(projects) ==> projects.len() <= usize::MAX,
    ensures
        application.after_press(press).wf(),
        application.after_reply(reply).wf(),
{
    let index = application.service_index;
    let focus = application.services[index];
    // The answer goes to the view in focus.
    lemma_service_keeps_wf(focus, press.code, reply, application.application_state);
    let answered = application.after_reply(reply);
    assert forall|i: int| 0 <= i < answered.services.len() implies (
    #[trigger] answered.services[i]).wf() by {
        if i != index {
            assert(answered.services[i] == application.services[i]);
        }
    }
    // The key goes to the view in focus, and may then move the focus.
    let offered = ApplicationView {
        services: application.services.update(index, focus.after_key(press.code).0),
        ..application
    };
    assert forall|i: int| 0 <= i < offered.services.len() implies (
    #[trigger] offered.services[i]).wf() by {
        if i != index {
            assert(offered.services[i] == application.services[i]);
        }
    }
    lemma_focus_moves_wrap_around(index, application.services.len() as int);
    let pressed = application.after_press(press);
    if pressed != offered && pressed.is_running == offered.is_running {
        let target = pressed.service_index;
        let state = offered.services[index].published(offered.application_state);
        lemma_service_keeps_wf(offered.services[target], press.code, reply, state);
        assert forall|i: int| 0 <= i < pressed.services.len() implies (
        #[trigger] pressed.services[i]).wf() by {
            if i != target {
                assert(pressed.services[i] == offered.services[i]);
            }
        }
    }
}

proof fn lemma_service_keeps_wf(
    view: ServiceWindowView,
    key: Key,
    reply: StorageReplyView,
    state: ApplicationStateView,
)
    requires
        view.wf(),
        reply matches StorageReplyView::Projects(projects) ==> projects.len() <= usize::MAX,
    ensures
        view.after_key(key).0.wf(),
        view.after_reply(reply).wf(),
        view.focused(state).wf(),
{
    match view {
        ServiceWindowView::Project(view) => {
            crate::services::project_s::lemma_project_view_key_keeps_wf(view, key);
            crate::services::project_s::lemma_project_view_reply_keeps_wf(view, reply, state);
        },
        ServiceWindowView::Task(view) => {
            crate::services::task_s::lemma_task_view_key_keeps_wf(view, key);
            crate::services::task_s::lemma_task_view_reply_keeps_wf(view, reply, state);
        },
    }
}

/// The project that is selected when the project view loses the focus is
/// selected again when the view has the focus back and the folder has been
/// read, whatever the view that had the focus in between did, as long as the
/// folder still holds a project of that name.
pub proof fn lemma_selection_survives_focus_round_trip(
    projects: ProjectManagementServiceView,
    between: ServiceWindowView,
    state: ApplicationStateView,
    listed: Seq<ProjectView>,
)
    requires
        projects.projects_to_display.selected_item() is Some,
        between is Task,
        listed.len() <= usize::MAX,
        exists|i: int|
            0 <= i < listed.len() && (#[trigger] listed[i]).name
                == projects.projects_to_display.selected_item()->0.name,
    ensures
        ({
            let selected = projects.projects_to_display.selected_item()->0;
            let left = projects.published(state);
            let handed_back = between.published(left);
            let back = projects.focused(handed_back).after_reply(StorageReplyView::Projects(listed));
            &&& left.selected_project == selected
            &&& handed_back.selected_project == selected
            &&& back.pending is Idle
            &&& back.projects_to_display.items == listed
            &&& back.projects_to_display.selected_item() matches Some(project)
            &&& project.name == selected.name
        }),
{
    let selected = projects.projects_to_display.selected_item()->0;
    crate::services::project_s::lemma_position_of(listed, selected.name);
}

/// The views of the application, each by its view.
pub open spec fn services_view(services: Seq<ServiceWindow>) -> Seq<ServiceWindowView> {
    Seq::new(services.len(), |i: int| services[i]@)
}

/// The application: the views, the one in focus, and the state they share.
pub struct Application {
    services: Vec<ServiceWindow>,
    service_index: usize,
    is_running: bool,
    application_state: ApplicationState,
    active_folder_path: String,
}

impl View for Application {
    type V = ApplicationView;

    closed spec fn view(&self) -> ApplicationView {
        ApplicationView {
            services: services_view(self.services@),
            service_index: self.service_index as int,
            is_running: self.is_running,
            application_state: self.application_state@,
            active_folder_path: self.active_folder_path@,
        }
    }
}

impl Application {
    /// The application on the given folder, running, with the project view
    /// in focus. The project view waits for the folder to be read.
    pub fn new(path: String) -> (application: Application)
        ensures
            application@ == ApplicationView::started(path@),
    {
        let mut services: Vec<ServiceWindow> = Vec::new();
        services.push(ServiceWindow::Project(ProjectManagementService::new(path.clone())));
        services.push(ServiceWindow::Task(TaskService::default()));
        let mut application_state = ApplicationState::default();
        application_state.folder_path = path.clone();
        let application = Application {
            services,
            service_index: 0,
            is_running: true,
            application_state,
            active_folder_path: path,
        };
        assert(application@.services =~= ApplicationView::started(path@).services);
        application
    }

    fn increment_service_index(&self) -> (index: usize)
        requires
            self@.has_focus(),
        ensures
            index == next_index(self@.service_index, self@.services.len() as int),
            index < self@.services.len(),
    {
        proof {
            lemma_focus_moves_wrap_around(self@.service_index, self@.services.len() as int);
        }
        let count = self.services.len();
        if self.service_index + 1 < count {
            self.service_index + 1
        } else {
            0
        }
    }

    fn decrement_service_index(&self) -> (index: usize)
        requires
            self@.has_focus(),
        ensures
            index == previous_index(self@.service_index, self@.services.len() as int),
            index < self@.services.len(),
    {
        proof {
            lemma_focus_moves_wrap_around(self@.service_index, self@.services.len() as int);
        }
        if self.service_index > 0 {
            self.service_index - 1
        } else {
            self.services.len() - 1
        }
    }

    fn switch_to_window(&mut self, target: usize)
        ensures
            final(self)@ == old(self)@.switched(target as int),
    {
        if self.service_index < self.services.len() && target < self.services.len() {
            self.services[self.service_index].update_application_state(&mut self.application_state);
            self.service_index = target;
            self.services[target].apply_application_state(&self.application_state);
            assert(self@.services =~= old(self)@.switched(target as int).services);
        }
    }

    /// Takes one key: see `ApplicationView::after_press`.
    pub fn handle_inputs(&mut self, key_event: KeyPress)
        ensures
            final(self)@ == old(self)@.after_press(key_event),
    {
        let mut consumed = false;
        if self.service_index < self.services.len() {
            consumed = self.services[self.service_index].handle_input(key_event.code);
        }
        if !consumed {
            match key_event.code {
                Key::Char(c) => {
                    if c == 'q' {
                        self.quit();
                    }
                },
                Key::Tab => {
                    if self.service_index < self.services.len() {
                        match key_event.modifiers {
                            Modifiers::Plain => {
                                let target = self.increment_service_index();
                                self.switch_to_window(target);
                            },
                            Modifiers::Shift => {
                                let target = self.decrement_service_index();
                                self.switch_to_window(target);
                            },
                            Modifiers::Other => {},
                        }
                    }
                },
                _ => {},
            }
        }
        assert(self@.services =~= old(self)@.after_press(key_event).services);
    }

    /// The views, in the order in which the focus moves through them.
    pub fn services(&self) -> (services: &Vec<ServiceWindow>)
        ensures
            services_view(services@) == self@.services,
    {
        &self.services
    }

    /// The index of the view in focus.
    pub fn service_index(&self) -> (index: usize)
        ensures
            index == self@.service_index,
    {
        self.service_index
    }

    /// The state that the views share.
    pub fn application_state(&self) -> (state: &ApplicationState)
        ensures
            state@ == self@.application_state,
    {
        &self.application_state
    }

    /// The folder that the application works on.
    pub fn active_folder_path(&self) -> (path: &String)
        ensures
            path@ == self@.active_folder_path,
    {
        &self.active_folder_path
    }

    /// Whether the run goes on: it does until `q` reaches the global
    /// bindings.
    pub fn is_running(&self) -> (running: bool)
        ensures
            running == self@.is_running,
    {
        self.is_running
    }

    /// Ends the run.
    pub fn quit(&mut self)
        ensures
            final(self)@ == (ApplicationView { is_running: false, ..old(self)@ }),
    {
        self.is_running = false;
    }

    /// The request that the view in focus waits on, if it waits.
    pub fn storage_request(&self) -> (request: Option<StorageRequest>)
        ensures
            request_view(request) == self@.request(),
    {
        if self.service_index < self.services.len() {
            self.services[self.service_index].storage_request()
        } else {
            None
        }
    }

    /// Takes the answer to the request that the view in focus waits on.
    pub fn handle_storage_reply(&mut self, reply: StorageReply)
        ensures
            final(self)@ == old(self)@.after_reply(reply@),
    {
        if self.service_index < self.services.len() {
            self.services[self.service_index].handle_storage_reply(reply);
            assert(self@.services =~= old(self)@.after_reply(reply@).services);
        }
    }
}

} // verus!
