use coretoolbox::host::HostState;
use coretoolbox::lifecycle::enter_command;

/// The host state as the text that is carried into a session.
fn written(state: &HostState) -> String {
    let mut fields = serde_json::Map::new();
    fields.insert(String::from("username"), serde_json::Value::from(state.username.as_str()));
    fields.insert(String::from("uid"), serde_json::Value::from(state.uid));
    fields.insert(String::from("home"), serde_json::Value::from(state.home.as_str()));
    serde_json::to_string(&serde_json::Value::Object(fields)).unwrap()
}

/// The host state that a session reads from the text.
fn read(text: &str) -> HostState {
    let value: serde_json::Value = serde_json::from_str(text).unwrap();
    HostState {
        username: String::from(value["username"].as_str().unwrap()),
        uid: value["uid"].as_u64().unwrap() as u32,
        home: String::from(value["home"].as_str().unwrap()),
    }
}

#[test]
fn the_host_state_survives_the_journey() {
    let travellers = [
        HostState { username: String::from("alice"), uid: 1000, home: String::from("/home/alice") },
        HostState { username: String::from("a b"), uid: 1, home: String::from("/") },
        HostState {
            username: String::from("d\u{e9}j\u{e0} \"vu\" \\ =x"),
            uid: u32::MAX,
            home: String::from("/home/d\u{e9}j\u{e0}\n"),
        },
    ];
    for state in travellers {
        let text = written(&state);
        let args = enter_command("coreos-toolbox", &Vec::new(), &text, false);
        let carried = args[3].strip_prefix("--env=TOOLBOX_STATE=").unwrap();
        assert_eq!(read(carried), state);
    }
}
