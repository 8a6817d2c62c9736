//! What can go wrong, and how it is reported.

use vstd::prelude::*;
use crate::text::join2;
use crate::text::join3;

verus! {

/// The four families of failure.
#[derive(Clone, Copy, Debug, PartialEq, Eq, Structural)]
pub enum ErrorKind {
    /// The environment or the recorded state is missing or invalid.
    Config,
    /// A bridge between container and host could not be made.
    Mount,
    /// The container runtime refused or failed.
    Runtime,
    /// The request does not fit what exists.
    StateConflict,
}

/// A failure of the toolbox.
#[derive(Debug, PartialEq, Eq)]
pub enum ToolboxError {
    /// A command that must run on the host was started inside a container
    /// without permission to nest.
    AlreadyInContainer,
    /// A session was started outside of any container.
    NotInContainer,
    /// Several toolbox images exist and none was chosen.
    MultipleImages,
    /// Neither a toolbox container nor a toolbox image exists.
    NoToolbox,
    /// The named container does not exist, though toolbox images do.
    ContainerMissing { name: String },
    /// Both phases ran and the durable stamp is still absent.
    NotInitialized,
    /// The host state that was carried into the session cannot be read.
    MalformedState { detail: String },
    /// A required environment variable is not set.
    Unset { name: String },
    /// A required environment variable does not hold Unicode text.
    NotUnicode { name: String },
    /// An environment variable that is handed on does not hold Unicode text.
    PreservedNotUnicode { name: String },
    /// The path of the running program is not Unicode text.
    SelfNotUnicode,
    /// The account or the sudo rule of the user could not be made.
    Provision { detail: String },
    /// A change to the container's tree of files failed: a directory, a
    /// symlink or a bind mount.
    Mount { detail: String },
    /// The container runtime failed.
    Runtime { detail: String },
}

/// A `ToolboxError` with its texts as sequences of characters.
pub enum ToolboxErrorView {
    AlreadyInContainer,
    NotInContainer,
    MultipleImages,
    NoToolbox,
    ContainerMissing { name: Seq<char> },
    NotInitialized,
    MalformedState { detail: Seq<char> },
    Unset { name: Seq<char> },
    NotUnicode { name: Seq<char> },
    PreservedNotUnicode { name: Seq<char> },
    SelfNotUnicode,
    Provision { detail: Seq<char> },
    Mount { detail: Seq<char> },
    Runtime { detail: Seq<char> },
}

impl ToolboxErrorView {
    /// The family of the failure.
    pub open spec fn kind(self) -> ErrorKind {
        match self {
            ToolboxErrorView::AlreadyInContainer => ErrorKind::StateConflict,
            ToolboxErrorView::NotInContainer => ErrorKind::StateConflict,
            ToolboxErrorView::MultipleImages => ErrorKind::StateConflict,
            ToolboxErrorView::NoToolbox => ErrorKind::StateConflict,
            ToolboxErrorView::ContainerMissing { .. } => ErrorKind::StateConflict,
            ToolboxErrorView::NotInitialized => ErrorKind::Config,
            ToolboxErrorView::MalformedState { .. } => ErrorKind::Config,
            ToolboxErrorView::Unset { .. } => ErrorKind::Config,
            ToolboxErrorView::NotUnicode { .. } => ErrorKind::Config,
            ToolboxErrorView::PreservedNotUnicode { .. } => ErrorKind::Config,
            ToolboxErrorView::SelfNotUnicode => ErrorKind::Config,
            ToolboxErrorView::Provision { .. } => ErrorKind::Config,
            ToolboxErrorView::Mount { .. } => ErrorKind::Mount,
            ToolboxErrorView::Runtime { .. } => ErrorKind::Runtime,
        }
    }

    /// The sentence shown to the user.
    pub open spec fn message(self) -> Seq<char> {
        match self {
            ToolboxErrorView::AlreadyInContainer => "Already inside a container"@,
            ToolboxErrorView::NotInContainer => "Not inside a container"@,
            ToolboxErrorView::MultipleImages => "Multiple toolbox images found, must specify via -I"@,
            ToolboxErrorView::NoToolbox => "No toolbox container or images found; use `create` to create one"@,
            ToolboxErrorView::ContainerMissing { name } => "No toolbox container '"@ + name + "' found"@,
            ToolboxErrorView::NotInitialized => "toolbox not initialized"@,
            ToolboxErrorView::MalformedState { detail } => detail,
            ToolboxErrorView::Unset { name } => name + " is unset"@,
            ToolboxErrorView::NotUnicode { name } => name + " is invalid UTF-8"@,
            ToolboxErrorView::PreservedNotUnicode { name } => name + " contains invalid UTF-8"@,
            ToolboxErrorView::SelfNotUnicode => "non-UTF8 self"@,
            ToolboxErrorView::Provision { detail } => detail,
            ToolboxErrorView::Mount { detail } => detail,
            ToolboxErrorView::Runtime { detail } => detail,
        }
    }
}

impl View for ToolboxError {
    type V = ToolboxErrorView;

    open spec fn view(&self) -> ToolboxErrorView {
        match *self {
            ToolboxError::AlreadyInContainer => ToolboxErrorView::AlreadyInContainer,
            ToolboxError::NotInContainer => ToolboxErrorView::NotInContainer,
            ToolboxError::MultipleImages => ToolboxErrorView::MultipleImages,
            ToolboxError::NoToolbox => ToolboxErrorView::NoToolbox,
            ToolboxError::ContainerMissing { name } => ToolboxErrorView::ContainerMissing { name: name@ },
            ToolboxError::NotInitialized => ToolboxErrorView::NotInitialized,
            ToolboxError::MalformedState { detail } => ToolboxErrorView::MalformedState {
                detail: detail@,
            },
            ToolboxError::Unset { name } => ToolboxErrorView::Unset { name: name@ },
            ToolboxError::NotUnicode { name } => ToolboxErrorView::NotUnicode { name: name@ },
            ToolboxError::PreservedNotUnicode { name } => ToolboxErrorView::PreservedNotUnicode { name: name@ },
            ToolboxError::SelfNotUnicode => ToolboxErrorView::SelfNotUnicode,
            ToolboxError::Provision { detail } => ToolboxErrorView::Provision { detail: detail@ },
            ToolboxError::Mount { detail } => ToolboxErrorView::Mount { detail: detail@ },
            ToolboxError::Runtime { detail } => ToolboxErrorView::Runtime { detail: detail@ },
        }
    }
}

impl ToolboxError {
    /// The family of the failure.
    pub fn kind(&self) -> (k: ErrorKind)
        ensures
            k == self@.kind(),
    {
        match self {
            ToolboxError::AlreadyInContainer => ErrorKind::StateConflict,
            ToolboxError::NotInContainer => ErrorKind::StateConflict,
            ToolboxError::MultipleImages => ErrorKind::StateConflict,
            ToolboxError::NoToolbox => ErrorKind::StateConflict,
            ToolboxError::ContainerMissing { .. } => ErrorKind::StateConflict,
            ToolboxError::NotInitialized => ErrorKind::Config,
            ToolboxError::MalformedState { .. } => ErrorKind::Config,
            ToolboxError::Unset { .. } => ErrorKind::Config,
            ToolboxError::NotUnicode { .. } => ErrorKind::Config,
            ToolboxError::PreservedNotUnicode { .. } => ErrorKind::Config,
            ToolboxError::SelfNotUnicode => ErrorKind::Config,
            ToolboxError::Provision { .. } => ErrorKind::Config,
            ToolboxError::Mount { .. } => ErrorKind::Mount,
            ToolboxError::Runtime { .. } => ErrorKind::Runtime,
        }
    }

    /// The sentence shown to the user.
    pub fn message(&self) -> (m: String)
        ensures
            m@ == self@.message(),
    {
        match self {
            ToolboxError::AlreadyInContainer => String::from_str("Already inside a container"),
            ToolboxError::NotInContainer => String::from_str("Not inside a container"),
            ToolboxError::MultipleImages => String::from_str(
                "Multiple toolbox images found, must specify via -I",
            ),
            ToolboxError::NoToolbox => String::from_str(
                "No toolbox container or images found; use `create` to create one",
            ),
            ToolboxError::ContainerMissing { name } => join3(
                "No toolbox container '",
                name.as_str(),
                "' found",
            ),
            ToolboxError::NotInitialized => String::from_str("toolbox not initialized"),
            ToolboxError::MalformedState { detail } => detail.clone(),
            ToolboxError::Unset { name } => join2(name.as_str(), " is unset"),
            ToolboxError::NotUnicode { name } => join2(name.as_str(), " is invalid UTF-8"),
            ToolboxError::PreservedNotUnicode { name } => join2(
                name.as_str(),
                " contains invalid UTF-8",
            ),
            ToolboxError::SelfNotUnicode => String::from_str("non-UTF8 self"),
            ToolboxError::Provision { detail } => detail.clone(),
            ToolboxError::Mount { detail } => detail.clone(),
            ToolboxError::Runtime { detail } => detail.clone(),
        }
    }
}

/// The phase during which a failure happened.
#[derive(Clone, Copy, Debug, PartialEq, Eq, Structural)]
pub enum Context {
    /// The one-time phase as a whole.
    StaticPhase,
    /// The per-boot phase as a whole.
    RuntimePhase,
}

impl Context {
    /// The words put in front of a failure from this phase.
    pub open spec fn prefix(self) -> Seq<char> {
        match self {
            Context::StaticPhase => "Initializing container (static)"@,
            Context::RuntimePhase => "Initializing container (runtime)"@,
        }
    }

    /// A failure's text with the phase in front of it.
    pub open spec fn wrap(self, detail: Seq<char>) -> Seq<char> {
        self.prefix() + ": "@ + detail
    }

    /// Puts the phase in front of the text of a failure.
    pub fn describe(self, detail: &str) -> (r: String)
        ensures
            r@ == self.wrap(detail@),
    {
        let prefix = match self {
            Context::StaticPhase => "Initializing container (static)",
            Context::RuntimePhase => "Initializing container (runtime)",
        };
        join3(prefix, ": ", detail)
    }
}

/// The line that reports a failure on standard error.
pub open spec fn report_line(message: Seq<char>) -> Seq<char> {
    "error: "@ + message
}

/// The line that reports a failure on standard error.
pub fn report(message: &str) -> (r: String)
    ensures
        r@ == report_line(message@),
{
    join2("error: ", message)
}

} // verus!
