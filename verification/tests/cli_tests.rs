use sentri::cli::{Cli, Commands};

fn args_of(parts: &[&str]) -> Vec<String> {
    let mut v = Vec::new();
    for p in parts {
        v.push(String::from(*p));
    }
    v
}

#[test]
fn test_cli_creation() {
    let args = args_of(&["sentri", "single", "--domain", "example.com"]);
    let cli = Cli::try_parse_from(args).unwrap();

    match &cli.command {
        Commands::Single { domain } => {
            assert_eq!(domain, "example.com");
        }
        _ => panic!("Expected Single command"),
    }

    // Test default values
    assert_eq!(cli.concurrent_requests, 100); // Default value
    assert_eq!(cli.timeout_ms, 5000); // Default value
}

#[test]
fn test_cli_batch_command() {
    let args = args_of(&[
        "sentri",
        "batch",
        "--input-file",
        "input.txt",
        "--output-file",
        "output.json",
        "--chunk-size",
        "500",
        "--rate-limit",
        "30",
    ]);
    let cli = Cli::try_parse_from(args).unwrap();

    match &cli.command {
        Commands::Batch {
            input_file,
            output_file,
            chunk_size,
            rate_limit,
        } => {
            assert_eq!(input_file, "input.txt");
            match output_file {
                Some(path) => assert_eq!(path, "output.json"),
                None => panic!("Expected Some output_file"),
            }
            assert_eq!(*chunk_size, 500);
            assert_eq!(*rate_limit, 30);
        }
        _ => panic!("Expected Batch command"),
    }
}

#[test]
fn test_cli_with_concurrent_requests() {
    let args = args_of(&[
        "sentri",
        "--concurrent-requests",
        "50",
        "single",
        "--domain",
        "example.com",
    ]);
    let cli = Cli::try_parse_from(args).unwrap();

    match &cli.command {
        Commands::Single { domain } => {
            assert_eq!(domain, "example.com");
        }
        _ => panic!("Expected Single command"),
    }

    assert_eq!(cli.concurrent_requests, 50);
    assert_eq!(cli.timeout_ms, 5000); // Default value
}

#[test]
fn test_cli_with_timeout() {
    let args = args_of(&[
        "sentri",
        "--timeout-ms",
        "10000",
        "single",
        "--domain",
        "example.com",
    ]);
    let cli = Cli::try_parse_from(args).unwrap();

    match &cli.command {
        Commands::Single { domain } => {
            assert_eq!(domain, "example.com");
        }
        _ => panic!("Expected Single command"),
    }

    assert_eq!(cli.concurrent_requests, 100); // Default value
    assert_eq!(cli.timeout_ms, 10000);
}

#[test]
fn test_cli_short_flags_and_errors() {
    let cli = Cli::try_parse_from(args_of(&["sentri", "-c", "8", "-t", "250", "single", "-d", "a.com"]))
        .unwrap();
    assert_eq!(cli.concurrent_requests, 8);
    assert_eq!(cli.timeout_ms, 250);

    // No mode word.
    assert!(Cli::try_parse_from(args_of(&["sentri"])).is_err());
    // A flag without its value.
    assert!(Cli::try_parse_from(args_of(&["sentri", "single", "--domain"])).is_err());
    // A number that is not one.
    assert!(Cli::try_parse_from(args_of(&["sentri", "-c", "many", "single", "-d", "a.com"])).is_err());
    // Batch without an input file.
    assert!(Cli::try_parse_from(args_of(&["sentri", "batch"])).is_err());
}
