use coretoolbox::error::ToolboxError;
use coretoolbox::host::HostState;
use coretoolbox::names::STATE_ENV;
use coretoolbox::session::initialized_check;
use coretoolbox::session::session_command;
use coretoolbox::session::session_guard;
use coretoolbox::session::SessionCommand;
use coretoolbox::session::SESSION_UMASK;

fn bob() -> HostState {
    HostState { username: String::from("bob"), uid: 1001, home: String::from("/home/bob") }
}

fn shell() -> SessionCommand {
    SessionCommand { program: String::from("/bin/bash"), args: Vec::new(), home: None }
}

#[test]
fn a_session_needs_a_container() {
    assert_eq!(session_guard(true), Ok(()));
    assert_eq!(session_guard(false), Err(ToolboxError::NotInContainer));
    assert_eq!(session_guard(false).unwrap_err().message(), "Not inside a container");
}

#[test]
fn the_stamp_must_be_there_in_the_end() {
    assert_eq!(initialized_check(true), Ok(()));
    assert_eq!(initialized_check(false), Err(ToolboxError::NotInitialized));
}

#[test]
fn the_mask_of_a_session() {
    assert_eq!(SESSION_UMASK, 0o022);
    assert_eq!(SESSION_UMASK, 18);
    assert_eq!(STATE_ENV, "TOOLBOX_STATE");
}

#[test]
fn the_user_becomes_itself() {
    assert_eq!(
        session_command(&bob(), false, true),
        SessionCommand {
            program: String::from("setpriv"),
            args: vec![
                String::from("--inh-caps=-all"),
                String::from("su"),
                String::from("--preserve-environment"),
                String::from("bob"),
            ],
            home: Some(String::from("/home/bob")),
        }
    );
}

#[test]
fn a_plain_shell_otherwise() {
    assert_eq!(session_command(&bob(), true, true), shell());
    assert_eq!(session_command(&bob(), true, false), shell());
    assert_eq!(session_command(&bob(), false, false), shell());
}
