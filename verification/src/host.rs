//! What a session knows of the host: who started it, what the environment
//! holds, and how the host lays out its files.

use vstd::prelude::*;
use crate::error::ToolboxError;
use crate::error::ToolboxErrorView;
use crate::text::decimal;
use crate::text::decimal_string;
use crate::text::join2;

verus! {

/// What a lookup in the environment gave.
#[derive(Debug, PartialEq, Eq)]
pub enum EnvValue {
    /// The variable is not set.
    Unset,
    /// The variable is set, but not to Unicode text.
    NotUnicode,
    /// The variable's text.
    Text(String),
}

/// An `EnvValue` with its text as a sequence of characters.
pub enum EnvValueView {
    Unset,
    NotUnicode,
    Text(Seq<char>),
}

impl View for EnvValue {
    type V = EnvValueView;

    open spec fn view(&self) -> EnvValueView {
        match *self {
            EnvValue::Unset => EnvValueView::Unset,
            EnvValue::NotUnicode => EnvValueView::NotUnicode,
            EnvValue::Text(s) => EnvValueView::Text(s@),
        }
    }
}

impl DeepView for EnvValue {
    type V = EnvValueView;

    open spec fn deep_view(&self) -> EnvValueView {
        self@
    }
}

/// The text of a variable that must be set, or why there is none.
pub open spec fn required(name: Seq<char>, value: EnvValueView) -> Result<
    Seq<char>,
    ToolboxErrorView,
> {
    match value {
        EnvValueView::Unset => Err(ToolboxErrorView::Unset { name }),
        EnvValueView::NotUnicode => Err(ToolboxErrorView::NotUnicode { name }),
        EnvValueView::Text(s) => Ok(s),
    }
}

/// The view of a text or of the failure in its place.
pub open spec fn text_result_view(r: Result<String, ToolboxError>) -> Result<
    Seq<char>,
    ToolboxErrorView,
> {
    match r {
        Ok(s) => Ok(s@),
        Err(e) => Err(e@),
    }
}

/// The text of the variable `name`, which must be set to Unicode text.
pub fn required_text(name: &str, value: EnvValue) -> (r: Result<String, ToolboxError>)
    ensures
        text_result_view(r) == required(name@, value@),
{
    match value {
        EnvValue::Unset => Err(ToolboxError::Unset { name: String::from_str(name) }),
        EnvValue::NotUnicode => Err(ToolboxError::NotUnicode { name: String::from_str(name) }),
        EnvValue::Text(s) => Ok(s),
    }
}

/// The directory for the files of the user's session: the one that the
/// environment names, else the usual place of user `uid`.
pub open spec fn runtime_dir_of(xdg: EnvValueView, uid: u32) -> Result<
    Seq<char>,
    ToolboxErrorView,
> {
    match xdg {
        EnvValueView::Unset => Ok("/run/user/"@ + decimal(uid as nat)),
        EnvValueView::NotUnicode => Err(
            ToolboxErrorView::NotUnicode { name: "XDG_RUNTIME_DIR"@ },
        ),
        EnvValueView::Text(s) => Ok(s),
    }
}

/// The directory for the files of the user's session, from what the
/// environment holds under `XDG_RUNTIME_DIR` and the user's id.
pub fn runtime_dir(xdg: EnvValue, uid: u32) -> (r: Result<String, ToolboxError>)
    ensures
        text_result_view(r) == runtime_dir_of(xdg@, uid),
{
    match xdg {
        EnvValue::Unset => Ok(join2("/run/user/", decimal_string(uid).as_str())),
        EnvValue::NotUnicode => Err(
            ToolboxError::NotUnicode { name: String::from_str("XDG_RUNTIME_DIR") },
        ),
        EnvValue::Text(s) => Ok(s),
    }
}

/// Who started the session on the host. It is made once on the host, carried
/// into the session, read there once and never stored.
#[derive(Debug, PartialEq, Eq)]
pub struct HostState {
    /// The user's name.
    pub username: String,
    /// The user's real id.
    pub uid: u32,
    /// The user's home directory.
    pub home: String,
}

/// A `HostState` with its texts as sequences of characters.
pub struct HostStateView {
    pub username: Seq<char>,
    pub uid: u32,
    pub home: Seq<char>,
}

impl HostStateView {
    /// Whether the user is root.
    pub open spec fn is_root(self) -> bool {
        self.uid == 0
    }

    /// Whether the record can stand for a user: the name is not empty and the
    /// home is an absolute path.
    pub open spec fn well_formed(self) -> bool {
        self.username.len() > 0 && self.home.len() > 0 && self.home[0] == '/'
    }
}

impl View for HostState {
    type V = HostStateView;

    open spec fn view(&self) -> HostStateView {
        HostStateView { username: self.username@, uid: self.uid, home: self.home@ }
    }
}

/// The view of a host state or of the failure in its place.
pub open spec fn state_result_view(r: Result<HostState, ToolboxError>) -> Result<
    HostStateView,
    ToolboxErrorView,
> {
    match r {
        Ok(s) => Ok(s@),
        Err(e) => Err(e@),
    }
}

/// The host state of user `uid`, whose environment holds `user` under `USER`
/// and `home` under `HOME`. The name is looked at first.
pub open spec fn host_state_of(user: EnvValueView, uid: u32, home: EnvValueView) -> Result<
    HostStateView,
    ToolboxErrorView,
> {
    match required("USER"@, user) {
        Err(e) => Err(e),
        Ok(username) => match required("HOME"@, home) {
            Err(e) => Err(e),
            Ok(h) => Ok(HostStateView { username, uid, home: h }),
        },
    }
}

impl HostState {
    /// The host state of user `uid`, whose environment holds `user` under
    /// `USER` and `home` under `HOME`.
    pub fn from_host(user: EnvValue, uid: u32, home: EnvValue) -> (r: Result<
        HostState,
        ToolboxError,
    >)
        ensures
            state_result_view(r) == host_state_of(user@, uid, home@),
    {
        let username = match required_text("USER", user) {
            Ok(s) => s,
            Err(e) => {
                return Err(e);
            },
        };
        let home = match required_text("HOME", home) {
            Ok(s) => s,
            Err(e) => {
                return Err(e);
            },
        };
        Ok(HostState { username, uid, home })
    }

    /// Whether the user is root.
    pub fn is_root(&self) -> (b: bool)
        ensures
            b == self@.is_root(),
    {
        self.uid == 0
    }

    /// Whether the record can stand for a user.
    pub fn is_well_formed(&self) -> (b: bool)
        ensures
            b == self@.well_formed(),
    {
        let name_len: usize = self.username.as_str().unicode_len();
        let home_len: usize = self.home.as_str().unicode_len();
        name_len > 0 && home_len > 0 && self.home.as_str().get_char(0) == '/'
    }
}

/// How the host lays out its files.
#[derive(Clone, Copy, Debug, PartialEq, Eq, Structural)]
pub enum HostLayoutKind {
    /// The root is an immutable, versioned tree, and what changes lives
    /// below `/var`.
    OstreeBased,
    /// Everything lives where it usually does.
    Conventional,
}

/// The layout of a host, told by whether it has the marker file of an
/// ostree-based system.
pub fn detect_layout(marker_present: bool) -> (kind: HostLayoutKind)
    ensures
        kind == if marker_present {
            HostLayoutKind::OstreeBased
        } else {
            HostLayoutKind::Conventional
        },
{
    if marker_present {
        HostLayoutKind::OstreeBased
    } else {
        HostLayoutKind::Conventional
    }
}

} // verus!
