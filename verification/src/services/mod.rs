//! The views.
//!
//! A view never touches storage. Where a command needs storage, the view
//! notes a request and waits: `storage_request` hands the request out, and
//! `handle_storage_reply` takes what storage answered. While a view waits,
//! it takes every key and does nothing with it.

use crate::keys::Key;
use crate::storage::{request_view, StorageReply, StorageReplyView, StorageRequest, StorageRequestView};
use crate::structure::application::{ApplicationState, ApplicationStateView};
use project_s::{ProjectManagementService, ProjectManagementServiceView};
use task_s::{TaskService, TaskServiceView};
use vstd::prelude::*;

pub mod project_s;
pub mod task_s;

verus! {

/// A screen of the application: it takes keys, asks for storage, and hands
/// its selection over when the focus moves.
pub trait Service {
    /// The request that the view waits on, if it waits.
    spec fn pending_request(&self) -> Option<StorageRequestView>;

    /// Names the folder whose projects the view works on.
    fn set_working_directory(&mut self, path: String);

    /// Takes one key and says whether the view consumed it. A view that
    /// waits on storage consumes the key and goes on waiting.
    fn handle_input(&mut self, key_code: Key) -> (consumed: bool)
        ensures
            old(self).pending_request() is Some ==> consumed && final(self).pending_request()
                == old(self).pending_request(),
    ;

    /// One line that tells the user which keys mean something now.
    fn get_input_possibilities(&self) -> String;

    /// Called when the view loses the focus: writes what the view has
    /// selected into the shared state. The view asks nothing new of storage
    /// for it.
    fn update_application_state(&mut self, application_state: &mut ApplicationState)
        ensures
            final(self).pending_request() == old(self).pending_request(),
    ;

    /// Called when the view gains the focus: takes from the shared state
    /// what the view starts from.
    fn apply_application_state(&mut self, application_state: &ApplicationState);

    /// The request that the view waits on, if it waits.
    fn storage_request(&self) -> (request: Option<StorageRequest>)
        ensures
            request_view(request) == self.pending_request(),
    ;

    /// Takes the answer to the request that the view waits on.
    fn handle_storage_reply(&mut self, reply: StorageReply);
}

/// One of the views of the application.
pub enum ServiceWindow {
    Project(ProjectManagementService),
    Task(TaskService),
}

/// One of the views, as a mathematical value.
pub ghost enum ServiceWindowView {
    Project(ProjectManagementServiceView),
    Task(TaskServiceView),
}

impl View for ServiceWindow {
    type V = ServiceWindowView;

    open spec fn view(&self) -> ServiceWindowView {
        match *self {
            ServiceWindow::Project(service) => ServiceWindowView::Project(service@),
            ServiceWindow::Task(service) => ServiceWindowView::Task(service@),
        }
    }
}

impl ServiceWindowView {
    /// What holds of the view at all times.
    pub open spec fn wf(self) -> bool {
        match self {
            ServiceWindowView::Project(view) => view.wf(),
            ServiceWindowView::Task(view) => view.wf(),
        }
    }

    /// The view with another folder to work on.
    pub open spec fn moved_to(self, path: Seq<char>) -> ServiceWindowView {
        match self {
            ServiceWindowView::Project(view) => ServiceWindowView::Project(
                ProjectManagementServiceView { program_work_path: path, ..view },
            ),
            ServiceWindowView::Task(view) => ServiceWindowView::Task(
                TaskServiceView { working_path: path, ..view },
            ),
        }
    }

    /// The view after a key, and whether the view consumed the key.
    pub open spec fn after_key(self, key: Key) -> (ServiceWindowView, bool) {
        match self {
            ServiceWindowView::Project(view) => (
                ServiceWindowView::Project(view.after_key(key).0),
                view.after_key(key).1,
            ),
            ServiceWindowView::Task(view) => (
                ServiceWindowView::Task(view.after_key(key).0),
                view.after_key(key).1,
            ),
        }
    }

    /// The line of keys that mean something now.
    pub open spec fn controls(self) -> Seq<char> {
        match self {
            ServiceWindowView::Project(view) => view.controls(),
            ServiceWindowView::Task(view) => view.controls(),
        }
    }

    /// The shared state after the view has lost the focus.
    pub open spec fn published(self, state: ApplicationStateView) -> ApplicationStateView {
        match self {
            ServiceWindowView::Project(view) => view.published(state),
            ServiceWindowView::Task(view) => view.published(state),
        }
    }

    /// The view after it has gained the focus.
    pub open spec fn focused(self, state: ApplicationStateView) -> ServiceWindowView {
        match self {
            ServiceWindowView::Project(view) => ServiceWindowView::Project(view.focused(state)),
            ServiceWindowView::Task(view) => ServiceWindowView::Task(view.focused(state)),
        }
    }

    /// The request that the view waits on.
    pub open spec fn request(self) -> Option<StorageRequestView> {
        match self {
            ServiceWindowView::Project(view) => view.request(),
            ServiceWindowView::Task(view) => view.request(),
        }
    }

    /// The view after the answer of storage.
    pub open spec fn after_reply(self, reply: StorageReplyView) -> ServiceWindowView {
        match self {
            ServiceWindowView::Project(view) => ServiceWindowView::Project(view.after_reply(reply)),
            ServiceWindowView::Task(view) => ServiceWindowView::Task(view.after_reply(reply)),
        }
    }
}

impl Service for ServiceWindow {
    open spec fn pending_request(&self) -> Option<StorageRequestView> {
        self@.request()
    }

    fn set_working_directory(&mut self, path: String)
        ensures
            final(self)@ == old(self)@.moved_to(path@),
    {
        match self {
            ServiceWindow::Project(service) => service.set_working_directory(path),
            ServiceWindow::Task(service) => service.set_working_directory(path),
        }
    }

    fn handle_input(&mut self, key_code: Key) -> (consumed: bool)
        ensures
            final(self)@ == old(self)@.after_key(key_code).0,
            consumed == old(self)@.after_key(key_code).1,
    {
        match self {
            ServiceWindow::Project(service) => service.handle_input(key_code),
            ServiceWindow::Task(service) => service.handle_input(key_code),
        }
    }

    fn get_input_possibilities(&self) -> (controls: String)
        ensures
            controls@ == self@.controls(),
    {
        match self {
            ServiceWindow::Project(service) => service.get_input_possibilities(),
            ServiceWindow::Task(service) => service.get_input_possibilities(),
        }
    }

    fn update_application_state(&mut self, application_state: &mut ApplicationState)
        ensures
            final(self)@ == old(self)@,
            final(application_state)@ == old(self)@.published(old(application_state)@),
    {
        match self {
            ServiceWindow::Project(service) => service.update_application_state(application_state),
            ServiceWindow::Task(service) => service.update_application_state(application_state),
        }
    }

    fn apply_application_state(&mut self, application_state: &ApplicationState)
        ensures
            final(self)@ == old(self)@.focused(application_state@),
    {
        match self {
            ServiceWindow::Project(service) => service.apply_application_state(application_state),
            ServiceWindow::Task(service) => service.apply_application_state(application_state),
        }
    }

    fn storage_request(&self) -> (request: Option<StorageRequest>) {
        match self {
            ServiceWindow::Project(service) => service.storage_request(),
            ServiceWindow::Task(service) => service.storage_request(),
        }
    }

    fn handle_storage_reply(&mut self, reply: StorageReply)
        ensures
            final(self)@ == old(self)@.after_reply(reply@),
    {
        match self {
            ServiceWindow::Project(service) => service.handle_storage_reply(reply),
            ServiceWindow::Task(service) => service.handle_storage_reply(reply),
        }
    }
}

} // verus!
