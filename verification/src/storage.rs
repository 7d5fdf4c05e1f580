//! What passes between a view and the storage of projects.
//!
//! Storage holds one file for each project of a folder, named after the
//! project. A request names a file by its folder and its name in the
//! folder.

use crate::structure::project::{projects_view, Project, ProjectView};
use crate::utils::{file_name_of, is_project_file, is_project_file_name, project_file_name};
use vstd::prelude::*;

verus! {

/// What a view asks of storage. A file is named by the folder it lies in and
/// its name in that folder.
#[derive(Debug, PartialEq, Eq)]
pub enum StorageRequest {
    /// Read every project of the folder.
    List { folder: String },
    /// Read the project in one file.
    Load { folder: String, file_name: String },
    /// Write a project to one file, replacing what the file held.
    Write { folder: String, file_name: String, project: Project },
    /// Remove one file.
    Delete { folder: String, file_name: String },
    /// Give one file another name in the same folder.
    Rename { folder: String, from: String, to: String },
}

/// A request, as a mathematical value.
pub ghost enum StorageRequestView {
    List { folder: Seq<char> },
    Load { folder: Seq<char>, file_name: Seq<char> },
    Write { folder: Seq<char>, file_name: Seq<char>, project: ProjectView },
    Delete { folder: Seq<char>, file_name: Seq<char> },
    Rename { folder: Seq<char>, from: Seq<char>, to: Seq<char> },
}

impl View for StorageRequest {
    type V = StorageRequestView;

    open spec fn view(&self) -> StorageRequestView {
        match *self {
            StorageRequest::List { folder } => StorageRequestView::List { folder: folder@ },
            StorageRequest::Load { folder, file_name } => StorageRequestView::Load {
                folder: folder@,
                file_name: file_name@,
            },
            StorageRequest::Write { folder, file_name, project } => StorageRequestView::Write {
                folder: folder@,
                file_name: file_name@,
                project: project@,
            },
            StorageRequest::Delete { folder, file_name } => StorageRequestView::Delete {
                folder: folder@,
                file_name: file_name@,
            },
            StorageRequest::Rename { folder, from, to } => StorageRequestView::Rename {
                folder: folder@,
                from: from@,
                to: to@,
            },
        }
    }
}

/// The view of a request that may be absent.
pub open spec fn request_view(request: Option<StorageRequest>) -> Option<StorageRequestView> {
    match request {
        Some(request) => Some(request@),
        None => None,
    }
}

/// What storage answers.
#[derive(Debug, PartialEq, Eq)]
pub enum StorageReply {
    /// The file was written, removed or renamed.
    Done,
    /// The projects of the folder, without the files that could not be read
    /// as a project.
    Projects(Vec<Project>),
    /// The project that the file held.
    Loaded(Project),
    /// The request failed; the text says why.
    Failed(String),
}

/// A reply, as a mathematical value.
pub ghost enum StorageReplyView {
    Done,
    Projects(Seq<ProjectView>),
    Loaded(ProjectView),
    Failed(Seq<char>),
}

impl View for StorageReply {
    type V = StorageReplyView;

    open spec fn view(&self) -> StorageReplyView {
        match *self {
            StorageReply::Done => StorageReplyView::Done,
            StorageReply::Projects(projects) => StorageReplyView::Projects(
                projects_view(projects@),
            ),
            StorageReply::Loaded(project) => StorageReplyView::Loaded(project@),
            StorageReply::Failed(reason) => StorageReplyView::Failed(reason@),
        }
    }
}

impl Project {
    /// The request to write this project to its file in the given folder.
    pub fn write_project_full_path(&self, folder: String) -> (request: StorageRequest)
        ensures
            request@ == (StorageRequestView::Write {
                folder: folder@,
                file_name: file_name_of(self@.name),
                project: self@,
            }),
    {
        StorageRequest::Write {
            folder,
            file_name: project_file_name(self.name.as_str()),
            project: self.clone(),
        }
    }
}

/// The request to read the project of the given name from its file in the
/// given folder.
pub fn load_project_from_path(folder: String, project_name: &str) -> (request: StorageRequest)
    ensures
        request@ == (StorageRequestView::Load {
            folder: folder@,
            file_name: file_name_of(project_name@),
        }),
{
    StorageRequest::Load { folder, file_name: project_file_name(project_name) }
}

/// The request to remove the file of the project of the given name from the
/// given folder.
pub fn delete_project_of_name(project_name: String, working_path: String) -> (request:
    StorageRequest)
    ensures
        request@ == (StorageRequestView::Delete {
            folder: working_path@,
            file_name: file_name_of(project_name@),
        }),
{
    StorageRequest::Delete {
        folder: working_path,
        file_name: project_file_name(project_name.as_str()),
    }
}

/// One entry of a folder, as storage found it: whether it is a file, its
/// name, and the project that it holds if it was read as one.
#[derive(Debug, PartialEq, Eq)]
pub struct FolderEntry {
    pub is_file: bool,
    pub file_name: String,
    pub project: Option<Project>,
}

/// An entry of a folder, as a mathematical value.
pub ghost struct FolderEntryView {
    pub is_file: bool,
    pub file_name: Seq<char>,
    pub project: Option<ProjectView>,
}

impl View for FolderEntry {
    type V = FolderEntryView;

    open spec fn view(&self) -> FolderEntryView {
        FolderEntryView {
            is_file: self.is_file,
            file_name: self.file_name@,
            project: match self.project {
                Some(project) => Some(project@),
                None => None,
            },
        }
    }
}

impl FolderEntryView {
    /// The project that the entry adds to the projects of its folder: the
    /// one it holds, if it is a file named as the file of a project.
    pub open spec fn listed(self) -> Option<ProjectView> {
        if self.is_file && is_project_file_name(self.file_name) {
            self.project
        } else {
            None
        }
    }
}

/// The views of the entries of a folder, in the same order.
pub open spec fn entries_view(entries: Seq<FolderEntry>) -> Seq<FolderEntryView> {
    Seq::new(entries.len(), |i: int| entries[i]@)
}

/// The projects of a folder: in the order of the entries, the project of
/// each entry that adds one. An entry that is no file, that is not named as
/// the file of a project or that could not be read as a project is passed
/// over.
pub open spec fn projects_among(entries: Seq<FolderEntryView>) -> Seq<ProjectView>
    decreases entries.len(),
{
    if entries.len() == 0 {
        Seq::empty()
    } else {
        match entries.last().listed() {
            Some(project) => projects_among(entries.drop_last()).push(project),
            None => projects_among(entries.drop_last()),
        }
    }
}

/// The projects of a folder are no more than its entries, and each of them
/// is held by an entry that is a file named as the file of a project.
pub proof fn lemma_projects_among(entries: Seq<FolderEntryView>)
    ensures
        projects_among(entries).len() <= entries.len(),
        forall|i: int|
            0 <= i < projects_among(entries).len() ==> exists|j: int|
                0 <= j < entries.len() && entries[j].is_file && is_project_file_name(
                    entries[j].file_name,
                ) && entries[j].project == Some(#[trigger] projects_among(entries)[i]),
    decreases entries.len(),
{
    if entries.len() > 0 {
        let front = entries.drop_last();
        lemma_projects_among(front);
        let found = projects_among(entries);
        assert forall|i: int| 0 <= i < found.len() implies exists|j: int|
            0 <= j < entries.len() && entries[j].is_file && is_project_file_name(
                entries[j].file_name,
            ) && entries[j].project == Some(#[trigger] found[i]) by {
            if i < projects_among(front).len() {
                let j = choose|j: int|
                    0 <= j < front.len() && front[j].is_file && is_project_file_name(
                        front[j].file_name,
                    ) && front[j].project == Some(projects_among(front)[i]);
                assert(entries[j] == front[j]);
            } else {
                let j = entries.len() - 1;
                assert(entries[j].project == Some(found[i]));
            }
        }
    }
}

/// The projects of a folder, given its entries.
pub fn get_projects_in_path(entries: &Vec<FolderEntry>) -> (projects: Vec<Project>)
    ensures
        projects_view(projects@) == projects_among(entries_view(entries@)),
{
    let ghost all = entries_view(entries@);
    let mut projects: Vec<Project> = Vec::new();
    let mut i: usize = 0;
    while i < entries.len()
        invariant
            i <= entries.len(),
            all == entries_view(entries@),
            projects_view(projects@) == projects_among(all.take(i as int)),
        decreases entries.len() - i,
    {
        let entry = &entries[i];
        proof {
            assert(all.take(i + 1).drop_last() =~= all.take(i as int));
            assert(all.take(i + 1).last() == entry@);
        }
        if entry.is_file && is_project_file(entry.file_name.as_str()) {
            if let Some(project) = &entry.project {
                let ghost before = projects_view(projects@);
                projects.push(project.clone());
                proof {
                    assert(projects_view(projects@) =~= before.push(project@));
                }
            }
        }
        i += 1;
    }
    proof {
        assert(all.take(i as int) =~= all);
        assert(projects_view(Seq::<Project>::empty()) =~= Seq::empty());
    }
    projects
}

} // verus!
