use coretoolbox::env::env_args;
use coretoolbox::env::preserved_names;
use coretoolbox::env::EnvVar;
use coretoolbox::error::ToolboxError;
use coretoolbox::host::detect_layout;
use coretoolbox::host::required_text;
use coretoolbox::host::runtime_dir;
use coretoolbox::host::EnvValue;
use coretoolbox::host::HostLayoutKind;
use coretoolbox::host::HostState;

fn text(s: &str) -> EnvValue {
    EnvValue::Text(String::from(s))
}

fn var(name: &str, value: EnvValue) -> EnvVar {
    EnvVar { name: String::from(name), value }
}

#[test]
fn a_required_variable() {
    assert_eq!(required_text("USER", text("alice")), Ok(String::from("alice")));
    assert_eq!(required_text("USER", text("")), Ok(String::new()));
    assert_eq!(
        required_text("USER", EnvValue::Unset),
        Err(ToolboxError::Unset { name: String::from("USER") })
    );
    assert_eq!(
        required_text("TOOLBOX_STATE", EnvValue::NotUnicode),
        Err(ToolboxError::NotUnicode { name: String::from("TOOLBOX_STATE") })
    );
    assert_eq!(
        required_text("TOOLBOX_STATE", EnvValue::Unset).unwrap_err().message(),
        "TOOLBOX_STATE is unset"
    );
}

#[test]
fn the_runtime_directory() {
    assert_eq!(runtime_dir(text("/run/user/1000"), 7), Ok(String::from("/run/user/1000")));
    assert_eq!(runtime_dir(EnvValue::Unset, 1000), Ok(String::from("/run/user/1000")));
    assert_eq!(runtime_dir(EnvValue::Unset, 0), Ok(String::from("/run/user/0")));
    assert_eq!(runtime_dir(EnvValue::Unset, u32::MAX), Ok(String::from("/run/user/4294967295")));
    let failed = runtime_dir(EnvValue::NotUnicode, 1000).unwrap_err();
    assert_eq!(failed, ToolboxError::NotUnicode { name: String::from("XDG_RUNTIME_DIR") });
    assert_eq!(failed.message(), "XDG_RUNTIME_DIR is invalid UTF-8");
}

#[test]
fn the_host_state_is_made_from_the_environment() {
    assert_eq!(
        HostState::from_host(text("alice"), 1000, text("/home/alice")),
        Ok(HostState {
            username: String::from("alice"),
            uid: 1000,
            home: String::from("/home/alice"),
        })
    );
}

#[test]
fn the_name_is_looked_at_first() {
    assert_eq!(
        HostState::from_host(EnvValue::Unset, 1000, EnvValue::Unset),
        Err(ToolboxError::Unset { name: String::from("USER") })
    );
    assert_eq!(
        HostState::from_host(EnvValue::NotUnicode, 1000, EnvValue::Unset),
        Err(ToolboxError::NotUnicode { name: String::from("USER") })
    );
    assert_eq!(
        HostState::from_host(text("alice"), 1000, EnvValue::Unset),
        Err(ToolboxError::Unset { name: String::from("HOME") })
    );
    assert_eq!(
        HostState::from_host(text("alice"), 1000, EnvValue::NotUnicode),
        Err(ToolboxError::NotUnicode { name: String::from("HOME") })
    );
}

#[test]
fn root_and_well_formed_states() {
    let alice = HostState { username: String::from("alice"), uid: 1000, home: String::from("/home/alice") };
    let root = HostState { username: String::from("root"), uid: 0, home: String::from("/root") };
    assert!(!alice.is_root());
    assert!(root.is_root());
    assert!(alice.is_well_formed());
    assert!(root.is_well_formed());
    let nameless = HostState { username: String::new(), uid: 1, home: String::from("/") };
    assert!(!nameless.is_well_formed());
    let homeless = HostState { username: String::from("a"), uid: 1, home: String::new() };
    assert!(!homeless.is_well_formed());
    let relative = HostState { username: String::from("a"), uid: 1, home: String::from("home/a") };
    assert!(!relative.is_well_formed());
}

#[test]
fn the_layout_of_the_host() {
    assert_eq!(detect_layout(true), HostLayoutKind::OstreeBased);
    assert_eq!(detect_layout(false), HostLayoutKind::Conventional);
}

#[test]
fn the_names_that_are_handed_on() {
    assert_eq!(
        preserved_names(),
        vec![
            "COLORTERM",
            "DBUS_SESSION_BUS_ADDRESS",
            "DESKTOP_SESSION",
            "DISPLAY",
            "USER",
            "LANG",
            "SSH_AUTH_SOCK",
            "TERM",
            "VTE_VERSION",
            "XDG_CURRENT_DESKTOP",
            "XDG_DATA_DIRS",
            "XDG_MENU_PREFIX",
            "XDG_RUNTIME_DIR",
            "XDG_SEAT",
            "XDG_SESSION_DESKTOP",
            "XDG_SESSION_ID",
            "XDG_SESSION_TYPE",
            "XDG_VTNR",
            "WAYLAND_DISPLAY",
        ]
    );
}

#[test]
fn flags_for_what_is_set() {
    let vars = vec![
        var("COLORTERM", EnvValue::Unset),
        var("TERM", text("xterm-256color")),
        var("DISPLAY", text(":0")),
        var("LANG", EnvValue::Unset),
        var("EMPTY", text("")),
    ];
    assert_eq!(
        env_args(&vars),
        Ok(vec![
            String::from("--env=TERM=xterm-256color"),
            String::from("--env=DISPLAY=:0"),
            String::from("--env=EMPTY="),
        ])
    );
    assert_eq!(env_args(&Vec::new()), Ok(Vec::new()));
}

#[test]
fn the_first_bad_variable_fails() {
    let vars = vec![
        var("TERM", text("xterm")),
        var("LANG", EnvValue::NotUnicode),
        var("DISPLAY", EnvValue::NotUnicode),
    ];
    let failed = env_args(&vars).unwrap_err();
    assert_eq!(failed, ToolboxError::PreservedNotUnicode { name: String::from("LANG") });
    assert_eq!(failed.message(), "LANG contains invalid UTF-8");
}
