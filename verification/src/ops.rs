//! The primitive changes that the phases make to the container, and the two
//! bridges between container and host that are made of them.

use vstd::prelude::*;
use crate::error::ToolboxError;
use crate::error::ToolboxErrorView;
use crate::names::HOST_ROOT;
use crate::text::decimal;
use crate::text::decimal_string;
use crate::text::join2;
use crate::text::push_str;
use crate::text::push_text;

verus! {

/// One change to the container. None is undone when a later one fails.
#[derive(Debug, PartialEq, Eq)]
pub enum Operation {
    /// Remove the empty directory `path`.
    RemoveDir { path: String },
    /// Create the directory `path`, whose parent exists.
    CreateDir { path: String },
    /// Create the directory `path` and the missing directories above it.
    CreateDirAll { path: String },
    /// Create the directory that holds `path`, and the directories above it.
    CreateParents { path: String },
    /// Remove whatever is at `path`; nothing there is fine.
    RemoveTree { path: String },
    /// Remove the file `path`; nothing there is fine.
    RemoveFile { path: String },
    /// Make `link` a symlink that points to `target`.
    Symlink { target: String, link: String },
    /// Mount `source` and all that is mounted below it at `target`.
    BindMount { source: String, target: String },
    /// Create the read-only file `path` that holds the one line `line`.
    WriteRule { path: String, line: String },
    /// Create the user `username` with id `uid` and home `home`, without
    /// making the home; `admin` adds the user to the administrative group.
    AddUser { username: String, uid: u32, home: String, admin: bool },
    /// Hand `path` to user `uid` and group `gid`.
    Chown { path: String, uid: u32, gid: u32 },
}

/// An `Operation` with its texts as sequences of characters.
pub enum OperationView {
    RemoveDir { path: Seq<char> },
    CreateDir { path: Seq<char> },
    CreateDirAll { path: Seq<char> },
    CreateParents { path: Seq<char> },
    RemoveTree { path: Seq<char> },
    RemoveFile { path: Seq<char> },
    Symlink { target: Seq<char>, link: Seq<char> },
    BindMount { source: Seq<char>, target: Seq<char> },
    WriteRule { path: Seq<char>, line: Seq<char> },
    AddUser { username: Seq<char>, uid: u32, home: Seq<char>, admin: bool },
    Chown { path: Seq<char>, uid: u32, gid: u32 },
}

impl View for Operation {
    type V = OperationView;

    open spec fn view(&self) -> OperationView {
        match *self {
            Operation::RemoveDir { path } => OperationView::RemoveDir { path: path@ },
            Operation::CreateDir { path } => OperationView::CreateDir { path: path@ },
            Operation::CreateDirAll { path } => OperationView::CreateDirAll { path: path@ },
            Operation::CreateParents { path } => OperationView::CreateParents { path: path@ },
            Operation::RemoveTree { path } => OperationView::RemoveTree { path: path@ },
            Operation::RemoveFile { path } => OperationView::RemoveFile { path: path@ },
            Operation::Symlink { target, link } => OperationView::Symlink {
                target: target@,
                link: link@,
            },
            Operation::BindMount { source, target } => OperationView::BindMount {
                source: source@,
                target: target@,
            },
            Operation::WriteRule { path, line } => OperationView::WriteRule {
                path: path@,
                line: line@,
            },
            Operation::AddUser { username, uid, home, admin } => OperationView::AddUser {
                username: username@,
                uid,
                home: home@,
                admin,
            },
            Operation::Chown { path, uid, gid } => OperationView::Chown { path: path@, uid, gid },
        }
    }
}

impl DeepView for Operation {
    type V = OperationView;

    open spec fn deep_view(&self) -> OperationView {
        self@
    }
}

/// Appends `op` to `plan`.
pub fn push_op(plan: &mut Vec<Operation>, op: Operation)
    ensures
        final(plan).deep_view() == old(plan).deep_view().push(op@),
{
    let ghost before = plan.deep_view();
    plan.push(op);
    assert(plan.deep_view() =~= before.push(op@));
}

/// Where the host's `path` is found inside the container.
pub open spec fn host_path(path: Seq<char>) -> Seq<char> {
    HOST_ROOT@ + path
}

/// Where the host's `path` is found inside the container.
pub fn host_path_of(path: &str) -> (r: String)
    ensures
        r@ == host_path(path@),
{
    join2(HOST_ROOT, path)
}

/// A recursive bind mount of `source` at `target`.
pub fn bind_mount(source: &str, target: &str) -> (op: Operation)
    ensures
        op@ == (OperationView::BindMount { source: source@, target: target@ }),
{
    Operation::BindMount { source: String::from_str(source), target: String::from_str(target) }
}

/// The changes that put, in place of whatever is at `path`, a symlink to the
/// host's `path`: the directories above `path` are made, what is at `path`
/// goes, and the symlink is set.
pub open spec fn host_symlink_ops(path: Seq<char>) -> Seq<OperationView> {
    seq![
        OperationView::CreateParents { path },
        OperationView::RemoveTree { path },
        OperationView::Symlink { target: host_path(path), link: path },
    ]
}

/// Appends to `plan` the changes that replace `path` by a symlink to the
/// host's `path`.
pub fn host_symlink(plan: &mut Vec<Operation>, path: &str)
    ensures
        final(plan).deep_view() == old(plan).deep_view() + host_symlink_ops(path@),
{
    let ghost before = plan.deep_view();
    push_op(plan, Operation::CreateParents { path: String::from_str(path) });
    push_op(plan, Operation::RemoveTree { path: String::from_str(path) });
    push_op(plan, Operation::Symlink { target: host_path_of(path), link: String::from_str(path) });
    assert(plan.deep_view() =~= before + host_symlink_ops(path@));
}

impl OperationView {
    /// The program and arguments of the command that carries out this change,
    /// for the two changes that are made by commands: a bind mount and a new
    /// user.
    pub open spec fn command(self) -> Option<Seq<Seq<char>>> {
        match self {
            OperationView::BindMount { source, target } => Some(
                seq!["mount"@, "--rbind"@, source, target],
            ),
            OperationView::AddUser { username, uid, home, admin } => Some(
                seq!["useradd"@, "--no-create-home"@, "--home-dir"@, home, "--uid"@, decimal(
                    uid as nat,
                )] + (if admin {
                    seq!["--groups"@, "wheel"@]
                } else {
                    Seq::empty()
                }) + seq![username],
            ),
            _ => None,
        }
    }
}

impl OperationView {
    /// Whether the change is made to the container's tree of files: to a
    /// directory, a file, a symlink or a mount. The others provide for the
    /// user.
    pub open spec fn touches_tree(self) -> bool {
        !(self is WriteRule || self is AddUser || self is Chown)
    }

    /// The failure that stands for this change having failed with the
    /// words `detail`: a failed change to the tree of files is a failure to
    /// bridge container and host, and a failed provision for the user tells
    /// of a state that does not fit.
    pub open spec fn failure(self, detail: Seq<char>) -> ToolboxErrorView {
        if self.touches_tree() {
            ToolboxErrorView::Mount { detail }
        } else {
            ToolboxErrorView::Provision { detail }
        }
    }
}

impl Operation {
    /// The failure that stands for this change having failed with the words
    /// `detail`.
    pub fn failure(&self, detail: &str) -> (e: ToolboxError)
        ensures
            e@ == self@.failure(detail@),
    {
        match self {
            Operation::WriteRule { .. } => ToolboxError::Provision {
                detail: String::from_str(detail),
            },
            Operation::AddUser { .. } => ToolboxError::Provision {
                detail: String::from_str(detail),
            },
            Operation::Chown { .. } => ToolboxError::Provision { detail: String::from_str(detail) },
            _ => ToolboxError::Mount { detail: String::from_str(detail) },
        }
    }

    /// The program and arguments of the command that carries out this change,
    /// where it is made by a command.
    pub fn command(&self) -> (r: Option<Vec<String>>)
        ensures
            r.deep_view() == self@.command(),
    {
        match self {
            Operation::BindMount { source, target } => {
                let mut argv: Vec<String> = Vec::new();
                assert(argv.deep_view() =~= Seq::<Seq<char>>::empty());
                push_str(&mut argv, "mount");
                push_str(&mut argv, "--rbind");
                push_str(&mut argv, source.as_str());
                push_str(&mut argv, target.as_str());
                assert(argv.deep_view() =~= self@.command().unwrap());
                Some(argv)
            },
            Operation::AddUser { username, uid, home, admin } => {
                let mut argv: Vec<String> = Vec::new();
                assert(argv.deep_view() =~= Seq::<Seq<char>>::empty());
                push_str(&mut argv, "useradd");
                push_str(&mut argv, "--no-create-home");
                push_str(&mut argv, "--home-dir");
                push_str(&mut argv, home.as_str());
                push_str(&mut argv, "--uid");
                push_text(&mut argv, decimal_string(*uid));
                if *admin {
                    push_str(&mut argv, "--groups");
                    push_str(&mut argv, "wheel");
                }
                push_str(&mut argv, username.as_str());
                assert(argv.deep_view() =~= self@.command().unwrap());
                Some(argv)
            },
            _ => None,
        }
    }
}

} // verus!
