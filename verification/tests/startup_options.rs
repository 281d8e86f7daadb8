use livelove::extension::LiveLoveExtension;
use livelove::options::{
    build_initialization_options, Entry, InitializationOptions, Section, Setting, SERVER_HOST,
    SERVER_PORT,
};

fn toggle(name: &str) -> Section {
    Section {
        name: name.to_string(),
        entries: vec![Entry { key: "enabled".to_string(), value: Setting::Flag(true) }],
    }
}

fn expected() -> InitializationOptions {
    InitializationOptions {
        sections: vec![
            Section {
                name: "serverOptions".to_string(),
                entries: vec![
                    Entry { key: "port".to_string(), value: Setting::Number(12345) },
                    Entry { key: "host".to_string(), value: Setting::Text("127.0.0.1".to_string()) },
                ],
            },
            toggle("inlayHints"),
            toggle("codeActions"),
            toggle("codeLens"),
        ],
    }
}

#[test]
fn endpoint_constants() {
    assert_eq!(SERVER_PORT, 12345);
    assert_eq!(SERVER_HOST, "127.0.0.1");
}

#[test]
fn document_has_the_four_sections() {
    let document = build_initialization_options();
    let names: Vec<&str> = document.sections.iter().map(|s| s.name.as_str()).collect();
    assert_eq!(names, vec!["serverOptions", "inlayHints", "codeActions", "codeLens"]);
}

#[test]
fn document_values() {
    assert_eq!(build_initialization_options(), expected());
}

#[test]
fn section_names_differ() {
    let document = build_initialization_options();
    for (i, a) in document.sections.iter().enumerate() {
        for (j, b) in document.sections.iter().enumerate() {
            if i != j {
                assert_ne!(a.name, b.name);
            }
        }
    }
}

#[test]
fn options_of_a_fresh_instance() {
    let extension = LiveLoveExtension::new();
    assert_eq!(extension.language_server_initialization_options(), Ok(Some(expected())));
    assert!(!extension.did_find_server());
}

#[test]
fn options_do_not_depend_on_what_came_before() {
    let mut extension = LiveLoveExtension::new();
    let before = extension.language_server_initialization_options();
    let _ = extension.server_script_path(true);
    let _ = extension.language_server_command(
        true,
        Ok("node".to_string()),
        Ok("/home/u/project".to_string()),
    );
    let after = extension.language_server_initialization_options();
    let again = extension.language_server_initialization_options();
    assert_eq!(before, Ok(Some(expected())));
    assert_eq!(after, before);
    assert_eq!(again, before);
}
