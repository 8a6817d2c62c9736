use coretoolbox::error::report;
use coretoolbox::error::Context;
use coretoolbox::error::ErrorKind;
use coretoolbox::error::ToolboxError;

#[test]
fn messages_of_all_failures() {
    assert_eq!(ToolboxError::AlreadyInContainer.message(), "Already inside a container");
    assert_eq!(ToolboxError::NotInContainer.message(), "Not inside a container");
    assert_eq!(
        ToolboxError::MultipleImages.message(),
        "Multiple toolbox images found, must specify via -I"
    );
    assert_eq!(
        ToolboxError::NoToolbox.message(),
        "No toolbox container or images found; use `create` to create one"
    );
    assert_eq!(
        ToolboxError::ContainerMissing { name: String::from("dev") }.message(),
        "No toolbox container 'dev' found"
    );
    assert_eq!(ToolboxError::NotInitialized.message(), "toolbox not initialized");
    assert_eq!(
        ToolboxError::MalformedState { detail: String::from("expected value at line 1") }.message(),
        "expected value at line 1"
    );
    assert_eq!(ToolboxError::Unset { name: String::from("HOME") }.message(), "HOME is unset");
    assert_eq!(
        ToolboxError::NotUnicode { name: String::from("USER") }.message(),
        "USER is invalid UTF-8"
    );
    assert_eq!(
        ToolboxError::PreservedNotUnicode { name: String::from("LANG") }.message(),
        "LANG contains invalid UTF-8"
    );
    assert_eq!(ToolboxError::SelfNotUnicode.message(), "non-UTF8 self");
    assert_eq!(
        ToolboxError::Provision { detail: String::from("useradd failed") }.message(),
        "useradd failed"
    );
    assert_eq!(ToolboxError::Mount { detail: String::from("mount failed") }.message(), "mount failed");
    assert_eq!(ToolboxError::Runtime { detail: String::from("podman failed") }.message(), "podman failed");
}

#[test]
fn families_of_all_failures() {
    let name = || String::from("n");
    assert_eq!(ToolboxError::AlreadyInContainer.kind(), ErrorKind::StateConflict);
    assert_eq!(ToolboxError::NotInContainer.kind(), ErrorKind::StateConflict);
    assert_eq!(ToolboxError::MultipleImages.kind(), ErrorKind::StateConflict);
    assert_eq!(ToolboxError::NoToolbox.kind(), ErrorKind::StateConflict);
    assert_eq!(ToolboxError::ContainerMissing { name: name() }.kind(), ErrorKind::StateConflict);
    assert_eq!(ToolboxError::NotInitialized.kind(), ErrorKind::Config);
    assert_eq!(ToolboxError::MalformedState { detail: name() }.kind(), ErrorKind::Config);
    assert_eq!(ToolboxError::Unset { name: name() }.kind(), ErrorKind::Config);
    assert_eq!(ToolboxError::NotUnicode { name: name() }.kind(), ErrorKind::Config);
    assert_eq!(ToolboxError::PreservedNotUnicode { name: name() }.kind(), ErrorKind::Config);
    assert_eq!(ToolboxError::SelfNotUnicode.kind(), ErrorKind::Config);
    assert_eq!(ToolboxError::Provision { detail: name() }.kind(), ErrorKind::Config);
    assert_eq!(ToolboxError::Mount { detail: name() }.kind(), ErrorKind::Mount);
    assert_eq!(ToolboxError::Runtime { detail: name() }.kind(), ErrorKind::Runtime);
}

#[test]
fn the_step_goes_in_front() {
    assert_eq!(
        Context::StaticPhase.describe("boom"),
        "Initializing container (static): boom"
    );
    assert_eq!(
        Context::RuntimePhase.describe("boom"),
        "Initializing container (runtime): boom"
    );
    assert_eq!(Context::RuntimePhase.describe(""), "Initializing container (runtime): ");
}

#[test]
fn a_failed_change_in_its_phase() {
    let failed = ToolboxError::Mount { detail: String::from("No such file or directory") };
    assert_eq!(
        report(&Context::StaticPhase.describe(&failed.message())),
        "error: Initializing container (static): No such file or directory"
    );
}

#[test]
fn the_report_line() {
    assert_eq!(report("Already inside a container"), "error: Already inside a container");
    assert_eq!(report(&ToolboxError::NotInitialized.message()), "error: toolbox not initialized");
    assert_eq!(report(""), "error: ");
}
