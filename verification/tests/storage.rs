use master_time::config::{AppConfig, ConfigError, PollingPreferences, ServerProfile};
use master_time::storage::{decode, encode, parse, serialize, StorageError};
use master_time::time::Duration;

fn sample() -> AppConfig {
    let mut config = AppConfig::default();
    config.add_server(ServerProfile::new("A name = 日本", "time.example.test").unwrap());
    config.add_server(ServerProfile::new("Backup", "backup.example.test").unwrap());
    config.set_polling(PollingPreferences::new(Duration::from_secs(30)).unwrap());
    config
}

#[test]
fn rejects_invalid_and_incomplete_input() {
    let error = parse("version=1\npoll_interval_secs=1\nactive_server=none\nserver_count=0\n")
        .unwrap_err();
    assert!(matches!(error, StorageError::InvalidConfig { .. }));
    let error = parse("version=1\npoll_interval_secs=60\nactive_server=0\nserver_count=0\n")
        .unwrap_err();
    assert!(matches!(
        error,
        StorageError::InvalidConfig {
            source: ConfigError::ActiveServerOutOfBounds { .. }
        }
    ));
    assert!(matches!(
        parse("version=2\npoll_interval_secs=60\nactive_server=none\nserver_count=0"),
        Err(StorageError::InvalidFormat { .. })
    ));
}

#[test]
fn serialized_sample_has_the_documented_layout() {
    let text = serialize(&sample());
    assert_eq!(
        text,
        "# Master Time configuration\nversion=1\npoll_interval_secs=30\nactive_server=0\n\
         server_count=2\nserver=A%20name%20%3D%20%E6%97%A5%E6%9C%AC\ttime.example.test\n\
         server=Backup\tbackup.example.test\n"
    );
}

#[test]
fn default_configuration_serializes_to_the_header() {
    assert_eq!(
        serialize(&AppConfig::default()),
        "# Master Time configuration\nversion=1\npoll_interval_secs=60\nactive_server=none\nserver_count=0\n"
    );
}

#[test]
fn serialized_configuration_parses_back() {
    let config = sample();
    let parsed = parse(&serialize(&config)).unwrap();
    assert_eq!(parsed, config);

    let mut selected = sample();
    selected.set_active_server(Some(1)).unwrap();
    assert_eq!(parse(&serialize(&selected)).unwrap(), selected);
    assert_eq!(parse(&serialize(&AppConfig::default())).unwrap(), AppConfig::default());
}

#[test]
fn parse_skips_comments_blank_lines_and_carriage_returns() {
    let config = parse(
        "# comment\r\n\r\nversion=1\r\npoll_interval_secs=120\r\nactive_server=0\r\nserver_count=1\r\nserver=Main\tmain.example.test\r\n",
    )
    .unwrap();
    assert_eq!(config.servers().len(), 1);
    assert_eq!(config.servers()[0].name(), "Main");
    assert_eq!(config.servers()[0].hostname(), "main.example.test");
    assert_eq!(config.active_server_index(), Some(0));
    assert_eq!(config.polling().interval(), Duration::from_secs(120));
}

fn format_error(text: &str) -> (Option<usize>, String) {
    match parse(text) {
        Err(StorageError::InvalidFormat { line, message }) => (line, message),
        other => panic!("expected a format error, got {:?}", other.map(|_| ())),
    }
}

#[test]
fn format_errors_name_line_and_cause() {
    assert_eq!(
        format_error("version=1\nnonsense\n"),
        (Some(2), "expected key=value".to_string())
    );
    assert_eq!(
        format_error("version=1\nversion=1\n"),
        (Some(2), "duplicate version".to_string())
    );
    assert_eq!(format_error("colour=blue\n"), (Some(1), "unknown key".to_string()));
    assert_eq!(
        format_error("server=no-tab\n"),
        (Some(1), "server must contain encoded name and hostname".to_string())
    );
    assert_eq!(
        format_error("server=name\t\n"),
        (Some(1), "server hostname is malformed".to_string())
    );
    assert_eq!(
        format_error("server=bad%4\thost.example\n"),
        (Some(1), "incomplete percent escape".to_string())
    );
    assert_eq!(
        format_error("server=bad%G1\thost.example\n"),
        (Some(1), "invalid percent escape".to_string())
    );
    assert_eq!(
        format_error("server=%FF\thost.example\n"),
        (Some(1), "server name is not valid UTF-8".to_string())
    );
    assert_eq!(format_error(""), (None, "missing version".to_string()));
    assert_eq!(
        format_error("version=2\n"),
        (None, "unsupported format version".to_string())
    );
    assert_eq!(
        format_error("version=1\n"),
        (None, "missing poll_interval_secs".to_string())
    );
    assert_eq!(
        format_error("version=1\npoll_interval_secs=x\n"),
        (None, "poll interval is not an unsigned integer".to_string())
    );
    assert_eq!(
        format_error("version=1\npoll_interval_secs=60\n"),
        (None, "missing active_server".to_string())
    );
    assert_eq!(
        format_error("version=1\npoll_interval_secs=60\nactive_server=-1\n"),
        (None, "active server index is not a valid integer".to_string())
    );
    assert_eq!(
        format_error("version=1\npoll_interval_secs=60\nactive_server=none\n"),
        (None, "missing server_count".to_string())
    );
    assert_eq!(
        format_error("version=1\npoll_interval_secs=60\nactive_server=none\nserver_count=two\n"),
        (None, "server count is not a valid integer".to_string())
    );
    assert_eq!(
        format_error("version=1\npoll_interval_secs=60\nactive_server=none\nserver_count=1\n"),
        (None, "server_count does not match server records".to_string())
    );
}

#[test]
fn invalid_server_records_are_configuration_errors() {
    assert!(matches!(
        parse("server=%20\thost.example\n"),
        Err(StorageError::InvalidConfig {
            source: ConfigError::EmptyServerName
        })
    ));
    assert!(matches!(
        parse("server=name\tbad host\n"),
        Err(StorageError::InvalidConfig {
            source: ConfigError::InvalidHostname
        })
    ));
}

#[test]
fn percent_encoding_keeps_unreserved_bytes() {
    assert_eq!(encode("Az09-._~"), "Az09-._~");
    assert_eq!(encode("a b=c"), "a%20b%3Dc");
    assert_eq!(encode("é"), "%C3%A9");
    assert_eq!(encode(""), "");
}

#[test]
fn percent_decoding_inverts_encoding() {
    assert_eq!(decode("a%20b%3dc"), Ok("a b=c".to_string()));
    assert_eq!(decode(&encode("A name = 日本")), Ok("A name = 日本".to_string()));
    assert_eq!(decode("%2"), Err("incomplete percent escape".to_string()));
    assert_eq!(decode("%zz"), Err("invalid percent escape".to_string()));
    assert_eq!(decode("%C3"), Err("server name is not valid UTF-8".to_string()));
}

#[test]
fn storage_errors_have_messages() {
    let located = StorageError::InvalidFormat {
        line: Some(3),
        message: "unknown key".to_string(),
    };
    assert_eq!(located.to_string(), "invalid configuration on line 3: unknown key");
    let general = StorageError::InvalidFormat {
        line: None,
        message: "missing version".to_string(),
    };
    assert_eq!(general.to_string(), "invalid configuration: missing version");
    let invalid = StorageError::InvalidConfig {
        source: ConfigError::EmptyHostname,
    };
    assert_eq!(
        invalid.to_string(),
        "configuration validation failed: hostname cannot be empty"
    );
    let io = StorageError::Io {
        operation: "open",
        source: std::io::Error::new(std::io::ErrorKind::NotFound, "no such file"),
    };
    assert_eq!(io.to_string(), "could not open configuration: no such file");
}
