use beef_market::settings::{app_config_from_fields, read_config};
use config::{Config, ConfigError, File, FileFormat};

const SAMPLE: &str = r#"
[db]
conn_str = "sqlite://db.db"

[ollama]
host = "localhost"
port = 11434
embedding_model = "nomic-embed-text"

[geckodriver]
host = "localhost"
port = 4444
"#;

fn load(text: &str) -> Config {
    Config::builder().add_source(File::from_str(text, FileFormat::Toml)).build().unwrap()
}

#[test]
fn test_read_config() {
    let c = read_config(&load(SAMPLE)).unwrap();
    assert_eq!(c.db.conn_str, "sqlite://db.db");
    assert_eq!(c.ollama.host, "localhost");
    assert_eq!(c.ollama.port, 11434);
    assert_eq!(c.ollama.embedding_model, "nomic-embed-text");
    assert_eq!(c.geckodriver.host, "localhost");
    assert_eq!(c.geckodriver.port, 4444);
}

#[test]
fn missing_setting_is_an_error() {
    let text = SAMPLE.replace("embedding_model = \"nomic-embed-text\"", "");
    assert!(read_config(&load(&text)).is_err());
}

#[test]
fn port_out_of_range_is_an_error() {
    let text = SAMPLE.replace("port = 4444", "port = 70000");
    assert!(read_config(&load(&text)).is_err());
}

#[test]
fn first_missing_field_gives_the_error() {
    let r = app_config_from_fields(
        Ok("db".to_string()),
        Err(ConfigError::NotFound("ollama.host".to_string())),
        Ok(1),
        Err(ConfigError::NotFound("ollama.embedding_model".to_string())),
        Ok("h".to_string()),
        Ok(2),
    );
    match r {
        Err(ConfigError::NotFound(k)) => assert_eq!(k, "ollama.host"),
        _ => panic!("expected the first missing field"),
    }
}
