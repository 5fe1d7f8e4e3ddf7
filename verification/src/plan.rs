//! The vocabulary of a bring-up: the single requests that are made of the
//! kernel and the file system, and the steps that a plan is made of.

use vstd::prelude::*;

verus! {

/// One request, with everything that it needs to be carried out.
#[derive(Debug, Clone, PartialEq, Eq)]
pub enum Action {
    /// Replace the contents of the file `path` with `text`.
    WriteFile { path: String, text: String },
    /// Create the directory `path` with the parents it lacks.
    CreateDirAll { path: String },
    /// Create the directory `root` and unpack the archive into it, leaving out
    /// the entries that `untar` leaves out. The file `lock` is held locked from
    /// before the look for `root` until the archive is unpacked.
    ExtractImage { archive: String, root: String, lock: String, preserve_permissions: bool },
    /// Mount a file system at `target`.
    Mount {
        source: Option<String>,
        target: String,
        fstype: Option<String>,
        flags: u64,
        data: Option<String>,
    },
    /// Make `link` a symbolic link to `points_to`.
    Symlink { points_to: String, link: String },
    /// Create the device node `path`.
    MakeNode { path: String, kind: u32, perm: u32, device: u64 },
    /// Set the host name.
    SetHostname { name: String },
    /// Make `new_root` the root file system and put the old one at `put_old`.
    PivotRoot { new_root: String, put_old: String },
    /// Change the working directory.
    ChangeDir { path: String },
    /// Unmount what is mounted at `target`.
    Unmount { target: String, how: i32 },
    /// Remove the directory `path` with all that it holds.
    RemoveDirAll { path: String },
    /// Set the group id.
    SetGid { gid: u32 },
    /// Set the user id.
    SetUid { uid: u32 },
    /// Replace the process by the command, with an empty environment.
    Execute { command: Vec<String> },
}

/// What an `Action` says, with its texts as sequences of characters.
pub enum ActionModel {
    WriteFile { path: Seq<char>, text: Seq<char> },
    CreateDirAll { path: Seq<char> },
    ExtractImage {
        archive: Seq<char>,
        root: Seq<char>,
        lock: Seq<char>,
        preserve_permissions: bool,
    },
    Mount {
        source: Option<Seq<char>>,
        target: Seq<char>,
        fstype: Option<Seq<char>>,
        flags: u64,
        data: Option<Seq<char>>,
    },
    Symlink { points_to: Seq<char>, link: Seq<char> },
    MakeNode { path: Seq<char>, kind: u32, perm: u32, device: u64 },
    SetHostname { name: Seq<char> },
    PivotRoot { new_root: Seq<char>, put_old: Seq<char> },
    ChangeDir { path: Seq<char> },
    Unmount { target: Seq<char>, how: i32 },
    RemoveDirAll { path: Seq<char> },
    SetGid { gid: u32 },
    SetUid { uid: u32 },
    Execute { command: Seq<Seq<char>> },
}

/// A step of a plan: an action, and the path, if any, whose presence makes
/// the action unnecessary.
#[derive(Debug, Clone, PartialEq, Eq)]
pub struct Step {
    pub unless_exists: Option<String>,
    pub action: Action,
}

/// What a `Step` says, with its texts as sequences of characters.
pub struct StepModel {
    pub unless_exists: Option<Seq<char>>,
    pub action: ActionModel,
}

/// The characters of an optional text.
pub open spec fn optional_text(text: Option<String>) -> Option<Seq<char>> {
    match text {
        Some(t) => Some(t@),
        None => None,
    }
}

/// The characters of each text of a list.
pub open spec fn texts(list: Seq<String>) -> Seq<Seq<char>> {
    list.map_values(|t: String| t@)
}

impl View for Action {
    type V = ActionModel;

    open spec fn view(&self) -> ActionModel {
        match *self {
            Action::WriteFile { path, text } => ActionModel::WriteFile { path: path@, text: text@ },
            Action::CreateDirAll { path } => ActionModel::CreateDirAll { path: path@ },
            Action::ExtractImage {
                archive,
                root,
                lock,
                preserve_permissions,
            } => ActionModel::ExtractImage {
                archive: archive@,
                root: root@,
                lock: lock@,
                preserve_permissions,
            },
            Action::Mount { source, target, fstype, flags, data } => ActionModel::Mount {
                source: optional_text(source),
                target: target@,
                fstype: optional_text(fstype),
                flags,
                data: optional_text(data),
            },
            Action::Symlink { points_to, link } => ActionModel::Symlink {
                points_to: points_to@,
                link: link@,
            },
            Action::MakeNode { path, kind, perm, device } => ActionModel::MakeNode {
                path: path@,
                kind,
                perm,
                device,
            },
            Action::SetHostname { name } => ActionModel::SetHostname { name: name@ },
            Action::PivotRoot { new_root, put_old } => ActionModel::PivotRoot {
                new_root: new_root@,
                put_old: put_old@,
            },
            Action::ChangeDir { path } => ActionModel::ChangeDir { path: path@ },
            Action::Unmount { target, how } => ActionModel::Unmount { target: target@, how },
            Action::RemoveDirAll { path } => ActionModel::RemoveDirAll { path: path@ },
            Action::SetGid { gid } => ActionModel::SetGid { gid },
            Action::SetUid { uid } => ActionModel::SetUid { uid },
            Action::Execute { command } => ActionModel::Execute { command: texts(command@) },
        }
    }
}

impl View for Step {
    type V = StepModel;

    open spec fn view(&self) -> StepModel {
        StepModel { unless_exists: optional_text(self.unless_exists), action: self.action@ }
    }
}

/// What a plan says: what each of its steps says, in order.
pub open spec fn plan_view(steps: Seq<Step>) -> Seq<StepModel> {
    steps.map_values(|s: Step| s@)
}

/// A step that is taken whatever is there.
pub open spec fn always(action: ActionModel) -> StepModel {
    StepModel { unless_exists: None, action }
}

/// A step that is left out when `path` exists.
pub open spec fn unless_exists(path: Seq<char>, action: ActionModel) -> StepModel {
    StepModel { unless_exists: Some(path), action }
}

/// Whether a step has to be taken, given whether the path that it names, if it
/// names one, exists.
pub open spec fn step_due(step: StepModel, exists: bool) -> bool {
    step.unless_exists is None || !exists
}

impl Step {
    /// A step that is taken whatever is there.
    pub fn always(action: Action) -> (step: Step)
        ensures
            step@ == always(action@),
    {
        Step { unless_exists: None, action }
    }

    /// A step that is left out when `path` exists.
    pub fn unless_exists(path: String, action: Action) -> (step: Step)
        ensures
            step@ == unless_exists(path@, action@),
    {
        Step { unless_exists: Some(path), action }
    }

    /// Tells whether this step has to be taken. `exists` says whether the path
    /// that the step names is there; for a step that names none it is not read.
    pub fn due(&self, exists: bool) -> (due: bool)
        ensures
            due == step_due(self@, exists),
    {
        match &self.unless_exists {
            None => true,
            Some(_) => !exists,
        }
    }
}

/// Adds a step at the end of a plan.
pub fn push_step(plan: &mut Vec<Step>, step: Step)
    ensures
        plan_view(final(plan)@) == plan_view(old(plan)@).push(step@),
{
    plan.push(step);
    assert(plan_view(plan@) =~= plan_view(old(plan)@).push(step@));
}

/// Adds the steps of a second plan at the end of a plan.
pub fn push_steps(plan: &mut Vec<Step>, more: Vec<Step>)
    ensures
        plan_view(final(plan)@) == plan_view(old(plan)@) + plan_view(more@),
{
    let mut more = more;
    let ghost added = more@;
    plan.append(&mut more);
    assert(plan_view(plan@) =~= plan_view(old(plan)@) + plan_view(added));
}

} // verus!
