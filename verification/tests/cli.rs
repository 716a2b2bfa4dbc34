use spring_tui::cli::{Args, CliResult};

#[test]
fn test_cli_result_default() {
    let result = CliResult::default();
    assert!(result.file.is_none());
    assert!(result.extract.is_none());
}

#[test]
fn test_args_derive_parser() {
    // Test that Args can be instantiated
    let args = Args {
        file: Some("config.yaml".to_string()),
        extract: false,
    };

    assert_eq!(args.file, Some("config.yaml".to_string()));
    assert_eq!(args.extract, false);
}

#[test]
fn test_parse_no_file_returns_none() {
    // Simulate no arguments by testing the logic directly
    let args = Args {
        file: None,
        extract: false,
    };

    // Test the logic inline since we can't easily mock Args::parse()
    let result = if args.file.is_none() {
        None
    } else {
        Some(CliResult {
            file: args.file.clone(),
            extract: args.file.as_ref().map(|_| args.extract),
        })
    };

    assert!(result.is_none());
}

#[test]
fn test_parse_with_file_only() {
    let args = Args {
        file: Some("test.yaml".to_string()),
        extract: false,
    };

    let result = if args.file.is_none() {
        None
    } else {
        Some(CliResult {
            file: args.file.clone(),
            extract: args.file.as_ref().map(|_| args.extract),
        })
    };

    assert!(result.is_some());
    let cli_result = result.unwrap();
    assert_eq!(cli_result.file, Some("test.yaml".to_string()));
    assert_eq!(cli_result.extract, Some(false));
}

#[test]
fn test_parse_with_file_and_extract() {
    let args = Args {
        file: Some("config.json".to_string()),
        extract: true,
    };

    let result = if args.file.is_none() {
        None
    } else {
        Some(CliResult {
            file: args.file.clone(),
            extract: args.file.as_ref().map(|_| args.extract),
        })
    };

    assert!(result.is_some());
    let cli_result = result.unwrap();
    assert_eq!(cli_result.file, Some("config.json".to_string()));
    assert_eq!(cli_result.extract, Some(true));
}

#[test]
fn test_extract_only_matters_with_file() {
    // When file is None, extract should not be captured
    let args_no_file = Args {
        file: None,
        extract: true,
    };

    let result = if args_no_file.file.is_none() {
        None
    } else {
        Some(CliResult {
            file: args_no_file.file.clone(),
            extract: args_no_file.file.as_ref().map(|_| args_no_file.extract),
        })
    };

    assert!(result.is_none(), "Extract should not matter when file is not set");

    // When file is Some, extract should be captured
    let args_with_file = Args {
        file: Some("config.toml".to_string()),
        extract: true,
    };

    let result = if args_with_file.file.is_none() {
        None
    } else {
        Some(CliResult {
            file: args_with_file.file.clone(),
            extract: args_with_file.file.as_ref().map(|_| args_with_file.extract),
        })
    };

    assert!(result.is_some());
    let cli_result = result.unwrap();
    assert_eq!(cli_result.extract, Some(true), "Extract should be captured when file is set");
}

#[test]
fn test_different_file_formats() {
    let formats = vec![
        "config.yaml",
        "config.json",
        "config.toml",
        "/absolute/path/to/config.yaml",
        "./relative/path/config.json",
    ];

    for format in formats {
        let args = Args {
            file: Some(format.to_string()),
            extract: false,
        };

        let result = if args.file.is_none() {
            None
        } else {
            Some(CliResult {
                file: args.file.clone(),
                extract: args.file.as_ref().map(|_| args.extract),
            })
        };

        assert!(result.is_some());
        let cli_result = result.unwrap();
        assert_eq!(cli_result.file, Some(format.to_string()));
    }
}

#[test]
fn test_parse_mirrors_inline_logic() {
    let none = spring_tui::cli::parse(Args { file: None, extract: true });
    assert!(none.is_none());

    let some = spring_tui::cli::parse(Args {
        file: Some("demo.yaml".to_string()),
        extract: true,
    })
    .unwrap();
    assert_eq!(some.file, Some("demo.yaml".to_string()));
    assert_eq!(some.extract, Some(true));
}
