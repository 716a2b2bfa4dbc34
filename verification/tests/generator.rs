use spring_tui::config::FileType;
use spring_tui::config_state::SprintInitConfig;
use spring_tui::generator::{build_download_url, config_file_name, download_url, export_config};
use spring_tui::schema::{InitializrCapabilities, Link};

fn sample() -> SprintInitConfig {
    SprintInitConfig {
        project_type: "maven-project".to_string(),
        language: "java".to_string(),
        platform_version: "".to_string(),
        packaging: "jar".to_string(),
        configuration_file_format: "properties".to_string(),
        java_version: 17,
        group_id: "com.example".to_string(),
        artifact_id: "demo".to_string(),
        name: "demo".to_string(),
        description: "Demo".to_string(),
        package_name: "com.exampledemo".to_string(),
        dependencies: "lombok,web".to_string(),
        boot_version: "3.2.0".to_string(),
        version: "0.0.1-SNAPSHOT".to_string(),
    }
}

fn caps_with_maven_link() -> InitializrCapabilities {
    InitializrCapabilities {
        links: vec![(
            "maven-project".to_string(),
            Link {
                href: "https://start.spring.io/starter.zip?type=maven-project{&dependencies,packaging}"
                    .to_string(),
                templated: Some(true),
            },
        )],
        packaging: None,
        java_version: None,
        language: None,
        boot_version: None,
        project_type: None,
        group_id: None,
        artifact_id: None,
        version: None,
        name: None,
        description: None,
        package_name: None,
    }
}

#[test]
fn download_url_appends_parameters_in_fixed_order() {
    let url = download_url(&sample(), "https://start.spring.io/starter.zip?type=maven-project");
    assert_eq!(
        url,
        "https://start.spring.io/starter.zip?type=maven-project\
         &dependencies=lombok,web&packaging=jar&javaVersion=17&language=java\
         &bootVersion=3.2.0&groupId=com.example&artifactId=demo&version=0.0.1-SNAPSHOT\
         &name=demo&description=Demo&packageName=com.exampledemo\
         &configurationFileFormat=properties"
    );
}

#[test]
fn download_url_is_deterministic() {
    let a = download_url(&sample(), "base");
    let b = download_url(&sample(), "base");
    assert_eq!(a, b);
}

#[test]
fn build_download_url_truncates_template_at_placeholder() {
    let url = build_download_url(&sample(), &caps_with_maven_link()).unwrap();
    assert!(url.starts_with("https://start.spring.io/starter.zip?type=maven-project&dependencies="));
    assert!(!url.contains('{'));
}

#[test]
fn build_download_url_rejects_unknown_project_type() {
    let mut config = sample();
    config.project_type = "bazel-project".to_string();
    let before = config.snapshot();
    let err = build_download_url(&config, &caps_with_maven_link()).unwrap_err();
    assert_eq!(err.message(), "Unsupported project type");
    // The configuration is untouched by the failed assembly.
    assert_eq!(config.project_type, before.project_type);
    assert_eq!(config.dependencies, before.dependencies);
}

#[test]
fn config_file_name_appends_missing_extension() {
    assert_eq!(config_file_name(FileType::Yaml, None), "config.yaml");
    assert_eq!(config_file_name(FileType::Json, None), "config.json");
    assert_eq!(config_file_name(FileType::Toml, None), "config.toml");
    assert_eq!(
        config_file_name(FileType::Yaml, Some("mine".to_string())),
        "mine.yaml"
    );
    assert_eq!(
        config_file_name(FileType::Json, Some("mine.json".to_string())),
        "mine.json"
    );
    assert_eq!(
        config_file_name(FileType::Toml, Some("mine.json".to_string())),
        "mine.json.toml"
    );
}

#[test]
fn export_config_pairs_name_and_content() {
    let (name, content) = export_config(&sample(), FileType::Yaml, None);
    assert_eq!(name, "config.yaml");
    assert!(content.starts_with("projectType: maven-project\n"));
    let (name, content) = export_config(&sample(), FileType::Json, Some("out".to_string()));
    assert_eq!(name, "out.json");
    assert!(content.starts_with("{\n  \"projectType\": \"maven-project\",\n"));
}

#[test]
fn base_url_is_fixed() {
    assert_eq!(spring_tui::api::get_base_url(), "https://start.spring.io/");
}

#[test]
fn failure_detail_prefers_structured_message() {
    let parsed = spring_tui::api::ErrorResponse {
        timestamp: "now".to_string(),
        status: 400,
        error: "Bad Request".to_string(),
        message: "unknown dependency".to_string(),
        path: "/starter.zip".to_string(),
    };
    assert_eq!(
        spring_tui::api::failure_detail(Some(parsed), "raw body".to_string()),
        "unknown dependency"
    );
    assert_eq!(
        spring_tui::api::failure_detail(None, "raw body".to_string()),
        "raw body"
    );
    let e = spring_tui::SpringError::DownloadFailed("unknown dependency".to_string());
    assert_eq!(e.message(), "Download failed: unknown dependency");
}
