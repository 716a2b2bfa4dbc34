use spring_tui::config_state::{Field, SprintInitConfig};
use spring_tui::schema::{
    CapabilityGroup, CapabilityValue, Dependency, InitializrCapabilities, InitializrDependencies,
    Link,
};
use spring_tui::session::{Action, ActivePane, App, InputEvent, Modal};

fn value(id: &str) -> CapabilityValue {
    CapabilityValue {
        id: id.to_string(),
        name: id.to_string(),
        description: None,
        action: None,
        tags: Vec::new(),
    }
}

fn group(default: &str, ids: &[&str]) -> Option<CapabilityGroup> {
    Some(CapabilityGroup {
        capability_type: "single-select".to_string(),
        default: Some(default.to_string()),
        values: ids.iter().map(|i| value(i)).collect(),
    })
}

fn text(default: &str) -> Option<spring_tui::schema::TextCapability> {
    Some(spring_tui::schema::TextCapability {
        capability_type: "text".to_string(),
        default: default.to_string(),
    })
}

fn schema() -> InitializrCapabilities {
    InitializrCapabilities {
        links: vec![(
            "maven-project".to_string(),
            Link {
                href: "https://start.spring.io/starter.zip?type=maven-project{&dependencies}"
                    .to_string(),
                templated: Some(true),
            },
        )],
        packaging: group("jar", &["jar", "war"]),
        java_version: group("17", &["25", "21", "17"]),
        language: group("java", &["java", "kotlin", "groovy"]),
        boot_version: group("3.2.0", &["3.2.0", "3.1.5"]),
        project_type: group("maven-project", &["gradle-project", "maven-project"]),
        group_id: text("com.example"),
        artifact_id: text("demo"),
        version: text("0.0.1-SNAPSHOT"),
        name: text("demo"),
        description: text("Demo project for Spring Boot"),
        package_name: text("com.example.demo"),
    }
}

fn catalog() -> InitializrDependencies {
    let dep = |g: &str| Dependency {
        group_id: g.to_string(),
        artifact_id: g.to_string(),
        scope: "compile".to_string(),
        bom: None,
    };
    InitializrDependencies {
        boot_version: "3.2.0".to_string(),
        dependencies: vec![
            ("web".to_string(), dep("org.springframework")),
            ("lombok".to_string(), dep("org.projectlombok")),
            ("devtools".to_string(), dep("org.springframework")),
            ("Security".to_string(), dep("org.springframework.security")),
        ],
    }
}

fn fresh() -> App {
    App::new(schema(), catalog())
}

#[test]
fn fresh_session_takes_schema_defaults() {
    let app = fresh();
    assert_eq!(app.config.project_type, "maven-project");
    assert_eq!(app.config.language, "java");
    assert_eq!(app.config.packaging, "jar");
    assert_eq!(app.config.java_version, 17);
    assert_eq!(app.config.group_id, "com.example");
    assert_eq!(app.config.artifact_id, "demo");
    assert_eq!(app.config.package_name, "com.example.demo");
    assert_eq!(app.config.boot_version, "3.2.0");
    assert_eq!(app.config.version, "0.0.1-SNAPSHOT");
    assert_eq!(app.config.configuration_file_format, "properties");
    assert_eq!(app.config.dependencies, "");
    assert!(matches!(app.modal, Modal::Normal));
    assert!(matches!(app.current_field, Field::ProjectType));
    assert!(matches!(app.active_pane, ActivePane::Config));
}

#[test]
fn missing_schema_groups_fall_back() {
    let caps = InitializrCapabilities {
        links: Vec::new(),
        packaging: None,
        java_version: None,
        language: None,
        boot_version: None,
        project_type: None,
        group_id: None,
        artifact_id: None,
        version: None,
        name: None,
        description: None,
        package_name: None,
    };
    let config = SprintInitConfig::from_capabilities(&caps);
    assert_eq!(config.project_type, "maven-project");
    assert_eq!(config.language, "java");
    assert_eq!(config.packaging, "jar");
    assert_eq!(config.java_version, 17);
    assert_eq!(config.description, "Demo project for Spring Boot");
    assert_eq!(config.boot_version, "3.2.0");
}

#[test]
fn set_field_rejects_value_outside_schema() {
    let caps = schema();
    let mut config = SprintInitConfig::from_capabilities(&caps);
    let before = config.snapshot();
    let r = config.set_field(&caps, Field::Language, "rust");
    assert!(r.is_err());
    assert_eq!(config.language, before.language);
    assert_eq!(config.project_type, before.project_type);
    assert_eq!(config.package_name, before.package_name);
}

#[test]
fn set_field_accepts_schema_value() {
    let caps = schema();
    let mut config = SprintInitConfig::from_capabilities(&caps);
    let r = config.set_field(&caps, Field::Language, "kotlin");
    assert!(r.is_ok());
    assert_eq!(config.language, "kotlin");
}

#[test]
fn set_field_java_version_parses_number() {
    let caps = schema();
    let mut config = SprintInitConfig::from_capabilities(&caps);
    let r = config.set_field(&caps, Field::JavaVersion, "21");
    assert!(r.is_ok());
    assert_eq!(config.java_version, 21);
    let r2 = config.set_field(&caps, Field::JavaVersion, "latest");
    assert!(r2.is_err());
    assert_eq!(config.java_version, 21);
}

#[test]
fn package_name_derived_from_group_and_artifact() {
    let mut app = fresh();
    app.current_field = Field::GroupId;
    app.modal = Modal::TextEditor {
        buffer: "com.example".to_string(),
    };
    app.finish_edit();
    app.current_field = Field::ArtifactId;
    app.modal = Modal::TextEditor {
        buffer: "demo-app".to_string(),
    };
    app.finish_edit();
    assert_eq!(app.config.group_id, "com.example");
    assert_eq!(app.config.artifact_id, "demo-app");
    assert_eq!(app.config.package_name, "com.exampledemoapp");
}

#[test]
fn direct_package_name_edit_is_not_overwritten() {
    let mut app = fresh();
    app.current_field = Field::PackageName;
    app.modal = Modal::TextEditor {
        buffer: "org.custom.pkg".to_string(),
    };
    app.finish_edit();
    assert_eq!(app.config.package_name, "org.custom.pkg");
}

#[test]
fn toggle_dependency_twice_restores_the_set() {
    let mut app = fresh();
    app.active_pane = ActivePane::Dependencies;
    app.deps_cursor = 1;
    // The sorted filtered list is Security, devtools, lombok, web.
    app.toggle_dependency();
    assert_eq!(app.config.dependencies, "devtools");
    app.toggle_dependency();
    assert_eq!(app.config.dependencies, "");
    assert!(app.selected_deps.is_empty());
}

#[test]
fn dependency_string_is_sorted_comma_join() {
    let mut app = fresh();
    app.deps_cursor = 3; // web
    app.toggle_dependency();
    app.deps_cursor = 1; // devtools
    app.toggle_dependency();
    app.deps_cursor = 0; // Security
    app.toggle_dependency();
    assert_eq!(app.config.dependencies, "Security,devtools,web");
}

#[test]
fn dependency_search_is_case_insensitive_substring() {
    let mut app = fresh();
    app.deps_search = "SEC".to_string();
    let options = app.dependency_options();
    assert_eq!(options, vec!["Security".to_string()]);
    app.deps_search = "o".to_string();
    let options = app.dependency_options();
    assert_eq!(options, vec!["devtools".to_string(), "lombok".to_string()]);
}

#[test]
fn empty_search_lists_whole_catalog_sorted() {
    let app = fresh();
    let options = app.dependency_options();
    assert_eq!(
        options,
        vec![
            "Security".to_string(),
            "devtools".to_string(),
            "lombok".to_string(),
            "web".to_string(),
        ]
    );
}

#[test]
fn blank_search_lists_whole_catalog_too() {
    let mut app = fresh();
    app.deps_search = "  ".to_string();
    let options = app.dependency_options();
    assert_eq!(options.len(), 4);
}

#[test]
fn field_cycle_wraps_both_ways() {
    let mut app = fresh();
    for _ in 0..13 {
        app.next_field();
    }
    assert!(matches!(app.current_field, Field::ProjectType));
    app.previous_field();
    assert!(matches!(app.current_field, Field::Generate));
}

#[test]
fn picker_opens_seeded_on_current_value() {
    let mut app = fresh();
    // The current project type is maven-project, the second entry.
    let act = app.handle_event(InputEvent::Enter);
    assert!(matches!(act, Action::Stay));
    match &app.modal {
        Modal::OptionPicker { index } => assert_eq!(*index, 1),
        _ => panic!("expected the option picker"),
    }
}

#[test]
fn picker_falls_back_to_first_entry_for_stale_value() {
    let mut app = fresh();
    app.config.project_type = "ant-project".to_string();
    app.handle_event(InputEvent::Enter);
    match &app.modal {
        Modal::OptionPicker { index } => assert_eq!(*index, 0),
        _ => panic!("expected the option picker"),
    }
}

#[test]
fn picker_confirm_writes_value_and_closes() {
    let mut app = fresh();
    app.current_field = Field::Language;
    app.handle_event(InputEvent::Enter);
    app.handle_event(InputEvent::Down);
    app.handle_event(InputEvent::Enter);
    assert!(matches!(app.modal, Modal::Normal));
    assert_eq!(app.config.language, "kotlin");
}

#[test]
fn editor_types_and_commits() {
    let mut app = fresh();
    app.current_field = Field::ArtifactId;
    app.handle_event(InputEvent::Enter);
    assert!(matches!(app.modal, Modal::TextEditor { .. }));
    app.handle_event(InputEvent::Backspace);
    app.handle_event(InputEvent::Backspace);
    app.handle_event(InputEvent::Backspace);
    app.handle_event(InputEvent::Backspace);
    app.handle_event(InputEvent::Char('a'));
    app.handle_event(InputEvent::Char('p'));
    app.handle_event(InputEvent::Char('i'));
    app.handle_event(InputEvent::Enter);
    assert_eq!(app.config.artifact_id, "api");
    assert_eq!(app.config.package_name, "com.exampleapi");
}

#[test]
fn editor_cancel_discards_buffer() {
    let mut app = fresh();
    app.current_field = Field::Name;
    app.handle_event(InputEvent::Enter);
    app.handle_event(InputEvent::Char('x'));
    app.handle_event(InputEvent::Esc);
    assert!(matches!(app.modal, Modal::Normal));
    assert_eq!(app.config.name, "demo");
}

#[test]
fn quit_only_from_normal_state() {
    let mut app = fresh();
    app.current_field = Field::Name;
    app.handle_event(InputEvent::Enter);
    let act = app.handle_event(InputEvent::Char('q'));
    assert!(matches!(act, Action::Stay));
    app.handle_event(InputEvent::Esc);
    let act = app.handle_event(InputEvent::Char('q'));
    assert!(matches!(act, Action::Quit));
}

#[test]
fn generate_triggers_only_on_generate_field() {
    let mut app = fresh();
    let act = app.handle_event(InputEvent::Char('g'));
    assert!(matches!(act, Action::Stay));
    assert!(matches!(app.current_field, Field::Generate));
    let act = app.handle_event(InputEvent::Enter);
    assert!(matches!(act, Action::Generate));
    assert_eq!(app.status_message, "Generating...");
}

#[test]
fn export_dialog_chooses_format_and_name() {
    let mut app = fresh();
    app.current_field = Field::Export;
    app.handle_event(InputEvent::Enter);
    assert!(matches!(app.modal, Modal::ExportDialog { .. }));
    app.handle_event(InputEvent::Tab);
    app.handle_event(InputEvent::Right);
    let act = app.handle_event(InputEvent::Enter);
    match act {
        Action::Export { file_type, filename } => {
            assert!(matches!(file_type, spring_tui::config::FileType::Json));
            assert_eq!(filename, Some("config".to_string()));
        }
        _ => panic!("expected an export action"),
    }
    assert!(matches!(app.modal, Modal::Normal));
}

#[test]
fn export_dialog_left_right_clamp() {
    let mut app = fresh();
    app.current_field = Field::Export;
    app.handle_event(InputEvent::Enter);
    app.handle_event(InputEvent::Tab);
    app.handle_event(InputEvent::Left);
    assert_eq!(app.export_format_idx, 0);
    app.handle_event(InputEvent::Char('l'));
    app.handle_event(InputEvent::Char('l'));
    app.handle_event(InputEvent::Char('l'));
    assert_eq!(app.export_format_idx, 2);
}

#[test]
fn settings_dialog_toggles_extraction() {
    let mut app = fresh();
    app.handle_event(InputEvent::Char('C'));
    assert!(matches!(app.modal, Modal::SettingsDialog));
    app.handle_event(InputEvent::Char(' '));
    assert!(app.extract_project);
    app.handle_event(InputEvent::Enter);
    assert!(!app.extract_project);
    app.handle_event(InputEvent::Esc);
    assert!(matches!(app.modal, Modal::Normal));
}

#[test]
fn message_dialog_must_be_acknowledged() {
    let mut app = fresh();
    app.report_generate_result(false, "boom".to_string());
    match &app.modal {
        Modal::MessageDialog { title, text, is_error } => {
            assert_eq!(title, "Generation Failed");
            assert_eq!(text, "boom");
            assert!(is_error);
        }
        _ => panic!("expected the message dialog"),
    }
    let act = app.handle_event(InputEvent::Char('q'));
    assert!(matches!(act, Action::Stay));
    assert!(matches!(app.modal, Modal::MessageDialog { .. }));
    app.handle_event(InputEvent::Enter);
    assert!(matches!(app.modal, Modal::Normal));
}

#[test]
fn generate_success_message_names_the_artifact() {
    let mut app = fresh();
    app.report_generate_result(true, String::new());
    match &app.modal {
        Modal::MessageDialog { title, text, is_error } => {
            assert_eq!(title, "Success");
            assert_eq!(text, "Project 'demo' generated successfully!");
            assert!(!is_error);
        }
        _ => panic!("expected the message dialog"),
    }
    assert_eq!(app.status_message, "Success! Saved.");
}

#[test]
fn typing_in_dependency_pane_filters_and_resets_cursor() {
    let mut app = fresh();
    app.handle_event(InputEvent::Tab);
    assert!(matches!(app.active_pane, ActivePane::Dependencies));
    app.handle_event(InputEvent::Down);
    assert_eq!(app.deps_cursor, 1);
    app.handle_event(InputEvent::Char('w'));
    assert_eq!(app.deps_search, "w");
    assert_eq!(app.deps_cursor, 0);
    assert_eq!(app.dependency_options(), vec!["web".to_string()]);
    app.handle_event(InputEvent::Backspace);
    assert_eq!(app.deps_search, "");
}

#[test]
fn space_toggles_dependency_under_cursor() {
    let mut app = fresh();
    app.handle_event(InputEvent::Tab);
    app.handle_event(InputEvent::Char(' '));
    assert_eq!(app.config.dependencies, "Security");
}

#[test]
fn snapshot_is_an_equal_copy() {
    let app = fresh();
    let snap = app.config.snapshot();
    assert_eq!(snap.project_type, app.config.project_type);
    assert_eq!(snap.java_version, app.config.java_version);
    assert_eq!(snap.description, app.config.description);
}
