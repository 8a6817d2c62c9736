//! The start of a session inside the container: what is checked before the
//! phases run and after them, and what is started for the user then.

use vstd::prelude::*;
use crate::error::ToolboxError;
use crate::error::ToolboxErrorView;
use crate::host::HostState;
use crate::host::HostStateView;
use crate::text::push_str;

verus! {

/// The file mode bits that a session takes away from new files: write
/// access for the group and for others.
pub const SESSION_UMASK: u32 = 0o022;

/// A session is set up inside the container only.
pub fn session_guard(in_container: bool) -> (r: Result<(), ToolboxError>)
    ensures
        r is Err <==> !in_container,
        r matches Err(e) ==> e@ == ToolboxErrorView::NotInContainer,
{
    if in_container {
        Ok(())
    } else {
        Err(ToolboxError::NotInContainer)
    }
}

/// After both phases the durable stamp must be there.
pub fn initialized_check(static_stamp: bool) -> (r: Result<(), ToolboxError>)
    ensures
        r is Err <==> !static_stamp,
        r matches Err(e) ==> e@ == ToolboxErrorView::NotInitialized,
{
    if static_stamp {
        Ok(())
    } else {
        Err(ToolboxError::NotInitialized)
    }
}

/// The program that a session ends in. The variable that carried the host
/// state is taken out of its environment in every case.
#[derive(Debug, PartialEq, Eq)]
pub struct SessionCommand {
    /// The program.
    pub program: String,
    /// Its arguments.
    pub args: Vec<String>,
    /// What `HOME` is set to, where it is set.
    pub home: Option<String>,
}

/// A `SessionCommand` with its texts as sequences of characters.
pub struct SessionCommandView {
    pub program: Seq<char>,
    pub args: Seq<Seq<char>>,
    pub home: Option<Seq<char>>,
}

impl View for SessionCommand {
    type V = SessionCommandView;

    open spec fn view(&self) -> SessionCommandView {
        SessionCommandView {
            program: self.program@,
            args: self.args.deep_view(),
            home: self.home.deep_view(),
        }
    }
}

/// The program that the session of `state` ends in. Where the root of the
/// user namespace was asked for, or where sudo is not set up, that is a
/// plain shell. Else the session gives up its privileges and becomes the
/// user, with the environment kept and `HOME` set to the user's home.
pub open spec fn session_command_of(
    state: HostStateView,
    as_userns_root: bool,
    sudoers_dir: bool,
) -> SessionCommandView {
    if as_userns_root || !sudoers_dir {
        SessionCommandView { program: "/bin/bash"@, args: Seq::empty(), home: None }
    } else {
        SessionCommandView {
            program: "setpriv"@,
            args: seq!["--inh-caps=-all"@, "su"@, "--preserve-environment"@, state.username],
            home: Some(state.home),
        }
    }
}

/// The program that the session of `state` ends in: see
/// `session_command_of`.
pub fn session_command(state: &HostState, as_userns_root: bool, sudoers_dir: bool) -> (cmd:
    SessionCommand)
    ensures
        cmd@ == session_command_of(state@, as_userns_root, sudoers_dir),
{
    let mut args: Vec<String> = Vec::new();
    assert(args.deep_view() =~= Seq::<Seq<char>>::empty());
    if as_userns_root || !sudoers_dir {
        SessionCommand { program: String::from_str("/bin/bash"), args, home: None }
    } else {
        push_str(&mut args, "--inh-caps=-all");
        push_str(&mut args, "su");
        push_str(&mut args, "--preserve-environment");
        push_str(&mut args, state.username.as_str());
        assert(args.deep_view() =~= seq![
            "--inh-caps=-all"@,
            "su"@,
            "--preserve-environment"@,
            state.username@,
        ]);
        SessionCommand {
            program: String::from_str("setpriv"),
            args,
            home: Some(state.home.clone()),
        }
    }
}

} // verus!
