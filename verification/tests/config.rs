use spring_tui::config::{ConfigMetadata, FileType, GlobalConfig, get_config, modify_global_config};
use spring_tui::text::{i32_to_string, parse_i32, str_lt};

#[test]
fn from_path_reads_the_extension() {
    assert!(matches!(
        ConfigMetadata::from_path("a/b/c.yaml".to_string()).unwrap().file_type,
        FileType::Yaml
    ));
    assert!(matches!(
        ConfigMetadata::from_path("c.yml".to_string()).unwrap().file_type,
        FileType::Yaml
    ));
    assert!(matches!(
        ConfigMetadata::from_path("./c.json".to_string()).unwrap().file_type,
        FileType::Json
    ));
    let meta = ConfigMetadata::from_path("/tmp/x/settings.toml".to_string()).unwrap();
    assert!(matches!(meta.file_type, FileType::Toml));
    assert_eq!(meta.path, "/tmp/x/settings.toml");
}

#[test]
fn from_path_rejects_missing_or_unknown_extension() {
    let err = ConfigMetadata::from_path("noext".to_string()).unwrap_err();
    assert_eq!(err.message(), "No file extension found");
    let err = ConfigMetadata::from_path(".gitignore".to_string()).unwrap_err();
    assert_eq!(err.message(), "No file extension found");
    let err = ConfigMetadata::from_path("a.conf".to_string()).unwrap_err();
    assert_eq!(err.message(), "Unsuppored file type");
    let err = ConfigMetadata::from_path("dir.d/file".to_string()).unwrap_err();
    assert_eq!(err.message(), "No file extension found");
}

#[test]
fn config_metadata_new_keeps_its_arguments() {
    let meta = ConfigMetadata::new(FileType::Json, "a.json".to_string());
    assert!(matches!(meta.file_type, FileType::Json));
    assert_eq!(meta.path, "a.json");
}

#[test]
fn global_config_construction() {
    let g = GlobalConfig::new("/downloads");
    assert_eq!(g.dir, "/downloads");
    let g2 = modify_global_config("/other");
    assert_eq!(g2.dir, "/other");
}

#[test]
fn get_config_reads_each_format() {
    let g = get_config(Some("config.yaml".to_string()), "dir: /downloads\n").unwrap();
    assert_eq!(g.dir, "/downloads");
    let g = get_config(
        Some("config.json".to_string()),
        "{\n  \"dir\": \"/downloads\"\n}",
    )
    .unwrap();
    assert_eq!(g.dir, "/downloads");
    let g = get_config(Some("config.toml".to_string()), "dir = \"/downloads\"\n").unwrap();
    assert_eq!(g.dir, "/downloads");
}

#[test]
fn get_config_without_a_path_is_missing() {
    let err = get_config(None, "").unwrap_err();
    assert_eq!(err.message(), "No global configuration file found");
    let err = get_config(Some("config.yaml".to_string()), "nonsense").unwrap_err();
    assert_eq!(err.message(), "Could not parse configuration file");
}

#[test]
fn parse_i32_follows_from_str() {
    assert_eq!(parse_i32("17"), Some(17));
    assert_eq!(parse_i32("+17"), Some(17));
    assert_eq!(parse_i32("-17"), Some(-17));
    assert_eq!(parse_i32("2147483647"), Some(2147483647));
    assert_eq!(parse_i32("-2147483648"), Some(-2147483648));
    assert_eq!(parse_i32("2147483648"), None);
    assert_eq!(parse_i32("-2147483649"), None);
    assert_eq!(parse_i32(""), None);
    assert_eq!(parse_i32("+"), None);
    assert_eq!(parse_i32("1.8"), None);
    assert_eq!(parse_i32(" 17"), None);
    assert_eq!(parse_i32("99999999999999999999"), None);
}

#[test]
fn i32_to_string_renders_decimal() {
    assert_eq!(i32_to_string(0), "0");
    assert_eq!(i32_to_string(17), "17");
    assert_eq!(i32_to_string(-8), "-8");
    assert_eq!(i32_to_string(i32::MAX), "2147483647");
    assert_eq!(i32_to_string(i32::MIN), "-2147483648");
}

#[test]
fn string_order_is_lexicographic() {
    assert!(str_lt("Security", "devtools"));
    assert!(str_lt("dev", "devtools"));
    assert!(!str_lt("web", "web"));
    assert!(str_lt("lombok", "web"));
}
