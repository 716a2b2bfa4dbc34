use spring_tui::codec::{emit_json, emit_toml, emit_yaml, parse_config, parse_json, parse_toml, parse_yaml};
use spring_tui::config_state::SprintInitConfig;

fn sample() -> SprintInitConfig {
    SprintInitConfig {
        project_type: "maven-project".to_string(),
        language: "java".to_string(),
        platform_version: "".to_string(),
        packaging: "jar".to_string(),
        configuration_file_format: "properties".to_string(),
        java_version: 17,
        group_id: "com.example".to_string(),
        artifact_id: "demo-app".to_string(),
        name: "demo".to_string(),
        description: "Demo project for Spring Boot".to_string(),
        package_name: "com.exampledemoapp".to_string(),
        dependencies: "lombok,web".to_string(),
        boot_version: "3.2.0".to_string(),
        version: "0.0.1-SNAPSHOT".to_string(),
    }
}

fn assert_same(a: &SprintInitConfig, b: &SprintInitConfig) {
    assert_eq!(a.project_type, b.project_type);
    assert_eq!(a.language, b.language);
    assert_eq!(a.platform_version, b.platform_version);
    assert_eq!(a.packaging, b.packaging);
    assert_eq!(a.configuration_file_format, b.configuration_file_format);
    assert_eq!(a.java_version, b.java_version);
    assert_eq!(a.group_id, b.group_id);
    assert_eq!(a.artifact_id, b.artifact_id);
    assert_eq!(a.name, b.name);
    assert_eq!(a.description, b.description);
    assert_eq!(a.package_name, b.package_name);
    assert_eq!(a.dependencies, b.dependencies);
    assert_eq!(a.boot_version, b.boot_version);
    assert_eq!(a.version, b.version);
}

#[test]
fn yaml_round_trip_recovers_every_field() {
    let c = sample();
    let doc = emit_yaml(&c);
    let back = parse_yaml(&doc).expect("the canonical document parses");
    assert_same(&c, &back);
}

#[test]
fn json_round_trip_recovers_every_field() {
    let c = sample();
    let doc = emit_json(&c);
    let back = parse_json(&doc).expect("the canonical document parses");
    assert_same(&c, &back);
}

#[test]
fn toml_round_trip_recovers_every_field() {
    let c = sample();
    let doc = emit_toml(&c);
    let back = parse_toml(&doc).expect("the canonical document parses");
    assert_same(&c, &back);
}

#[test]
fn negative_java_version_round_trips() {
    let mut c = sample();
    c.java_version = -8;
    let back = parse_yaml(&emit_yaml(&c)).unwrap();
    assert_eq!(back.java_version, -8);
}

#[test]
fn emitted_yaml_is_real_yaml() {
    let doc = emit_yaml(&sample());
    let v: serde_yaml::Value = serde_yaml::from_str(&doc).unwrap();
    assert_eq!(v["projectType"].as_str(), Some("maven-project"));
    assert_eq!(v["javaVersion"].as_i64(), Some(17));
    assert_eq!(v["platformVersion"].as_str(), Some(""));
    assert_eq!(v["packageName"].as_str(), Some("com.exampledemoapp"));
}

#[test]
fn emitted_json_is_real_json() {
    let doc = emit_json(&sample());
    let v: serde_json::Value = serde_json::from_str(&doc).unwrap();
    assert_eq!(v["projectType"].as_str(), Some("maven-project"));
    assert_eq!(v["javaVersion"].as_i64(), Some(17));
    assert_eq!(v["dependencies"].as_str(), Some("lombok,web"));
}

#[test]
fn emitted_toml_is_real_toml() {
    let doc = emit_toml(&sample());
    let v: toml::Table = toml::from_str(&doc).unwrap();
    assert_eq!(v["projectType"].as_str(), Some("maven-project"));
    assert_eq!(v["javaVersion"].as_integer(), Some(17));
    assert_eq!(v["bootVersion"].as_str(), Some("3.2.0"));
}

#[test]
fn yaml_exact_document_shape() {
    let mut c = sample();
    c.dependencies = String::new();
    let doc = emit_yaml(&c);
    let expected = "projectType: maven-project\n\
                    language: java\n\
                    platformVersion: ''\n\
                    packaging: jar\n\
                    configurationFileFormat: properties\n\
                    javaVersion: 17\n\
                    groupId: com.example\n\
                    artifactId: demo-app\n\
                    name: demo\n\
                    description: Demo project for Spring Boot\n\
                    packageName: com.exampledemoapp\n\
                    dependencies: ''\n\
                    bootVersion: 3.2.0\n\
                    version: 0.0.1-SNAPSHOT\n";
    assert_eq!(doc, expected);
}

#[test]
fn parse_config_dispatches_on_extension() {
    let c = sample();
    let yaml = emit_yaml(&c);
    let json = emit_json(&c);
    let toml_doc = emit_toml(&c);
    let from_yaml = parse_config("a/b/app.yaml".to_string(), &yaml).unwrap();
    assert_same(&c, &from_yaml);
    let from_json = parse_config("app.json".to_string(), &json).unwrap();
    assert_same(&c, &from_json);
    let from_toml = parse_config("app.toml".to_string(), &toml_doc).unwrap();
    assert_same(&c, &from_toml);
}

#[test]
fn toml_extension_selects_the_toml_parser() {
    // A TOML document under a .toml path must be read as TOML, never as
    // JSON or YAML.
    let c = sample();
    let doc = emit_toml(&c);
    let parsed = parse_config("config.toml".to_string(), &doc).unwrap();
    assert_eq!(parsed.group_id, "com.example");
    // The same content under a .json path is not valid canonical JSON.
    assert!(parse_config("config.json".to_string(), &doc).is_err());
}

#[test]
fn parse_config_rejects_unknown_and_missing_extensions() {
    let err = parse_config("config.ini".to_string(), "x").unwrap_err();
    assert_eq!(err.message(), "Unsuppored file type");
    let err = parse_config("config".to_string(), "x").unwrap_err();
    assert_eq!(err.message(), "No file extension found");
    let err = parse_config("config.yaml".to_string(), "not: a: canonical: doc").unwrap_err();
    assert_eq!(err.message(), "Could not parse configuration file");
}
