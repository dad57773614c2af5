//! The application's settings and how they are read out of a loaded
//! `config::Config`.
use vstd::prelude::*;

verus! {

#[verifier::external_type_specification]
#[verifier::external_body]
pub struct ExConfig(::config::Config);

#[verifier::external_type_specification]
#[verifier::external_body]
pub struct ExConfigError(::config::ConfigError);

/// All settings of the application.
#[derive(Clone, Debug)]
pub struct AppConfig {
    pub db: Db,
    pub ollama: OllamaConfig,
    pub geckodriver: GeckoDriver,
}

/// Where the Ollama server runs and which model makes the embeddings.
#[derive(Clone, Debug)]
pub struct OllamaConfig {
    pub host: String,
    pub port: u16,
    pub embedding_model: String,
}

/// The SQLite connection string.
#[derive(Clone, Debug)]
pub struct Db {
    pub conn_str: String,
}

/// Where the WebDriver (geckodriver) listens.
#[derive(Clone, Debug)]
pub struct GeckoDriver {
    pub host: String,
    pub port: u16,
}

/// What a loaded configuration holds, read as strings: each key path whose
/// value converts to a string, with that string.
pub uninterp spec fn config_strings(cfg: ::config::Config) -> Map<Seq<char>, Seq<char>>;

/// What a loaded configuration holds, read as 16-bit unsigned integers: each
/// key path whose value converts to one, with that number.
pub uninterp spec fn config_u16s(cfg: ::config::Config) -> Map<Seq<char>, u16>;

/// `Config::get_string` (config): looks the key path up (`get_value`) and
/// converts the value with `Value::into_string`. The contract states that it
/// succeeds exactly for the keys that `config_strings` holds and then gives
/// their string; which error it gives otherwise is not stated.
#[verifier::external_body]
fn config_string(cfg: &::config::Config, key: &str) -> (r: Result<String, ::config::ConfigError>)
    ensures
        r is Ok <==> config_strings(*cfg).contains_key(key@),
        r matches Ok(v) ==> v@ == config_strings(*cfg)[key@],
{
    cfg.get_string(key)
}

/// `Config::get::<u16>` (config): looks the key path up and deserializes the
/// value as a `u16` (`into_uint`, refused when it does not fit 16 bits). The
/// contract states that it succeeds exactly for the keys that `config_u16s`
/// holds and then gives their number; which error it gives otherwise is not
/// stated.
#[verifier::external_body]
fn config_u16(cfg: &::config::Config, key: &str) -> (r: Result<u16, ::config::ConfigError>)
    ensures
        r is Ok <==> config_u16s(*cfg).contains_key(key@),
        r matches Ok(v) ==> v == config_u16s(*cfg)[key@],
{
    cfg.get::<u16>(key)
}

/// The settings built from the value read for each field, in the order in
/// which the structs declare them; the first field that could not be read
/// gives the error.
pub open spec fn app_config_of(
    db_conn_str: Result<String, ::config::ConfigError>,
    ollama_host: Result<String, ::config::ConfigError>,
    ollama_port: Result<u16, ::config::ConfigError>,
    ollama_embedding_model: Result<String, ::config::ConfigError>,
    geckodriver_host: Result<String, ::config::ConfigError>,
    geckodriver_port: Result<u16, ::config::ConfigError>,
) -> Result<AppConfig, ::config::ConfigError> {
    match (
        db_conn_str,
        ollama_host,
        ollama_port,
        ollama_embedding_model,
        geckodriver_host,
        geckodriver_port,
    ) {
        (Err(e), _, _, _, _, _) => Err(e),
        (Ok(_), Err(e), _, _, _, _) => Err(e),
        (Ok(_), Ok(_), Err(e), _, _, _) => Err(e),
        (Ok(_), Ok(_), Ok(_), Err(e), _, _) => Err(e),
        (Ok(_), Ok(_), Ok(_), Ok(_), Err(e), _) => Err(e),
        (Ok(_), Ok(_), Ok(_), Ok(_), Ok(_), Err(e)) => Err(e),
        (Ok(c), Ok(oh), Ok(op), Ok(om), Ok(gh), Ok(gp)) => Ok(
            AppConfig {
                db: Db { conn_str: c },
                ollama: OllamaConfig { host: oh, port: op, embedding_model: om },
                geckodriver: GeckoDriver { host: gh, port: gp },
            },
        ),
    }
}

/// Builds the settings from the value read for each field (see
/// `app_config_of`).
pub fn app_config_from_fields(
    db_conn_str: Result<String, ::config::ConfigError>,
    ollama_host: Result<String, ::config::ConfigError>,
    ollama_port: Result<u16, ::config::ConfigError>,
    ollama_embedding_model: Result<String, ::config::ConfigError>,
    geckodriver_host: Result<String, ::config::ConfigError>,
    geckodriver_port: Result<u16, ::config::ConfigError>,
) -> (r: Result<AppConfig, ::config::ConfigError>)
    ensures
        r == app_config_of(
            db_conn_str,
            ollama_host,
            ollama_port,
            ollama_embedding_model,
            geckodriver_host,
            geckodriver_port,
        ),
{
    let conn_str = match db_conn_str {
        Ok(v) => v,
        Err(e) => return Err(e),
    };
    let host = match ollama_host {
        Ok(v) => v,
        Err(e) => return Err(e),
    };
    let port = match ollama_port {
        Ok(v) => v,
        Err(e) => return Err(e),
    };
    let embedding_model = match ollama_embedding_model {
        Ok(v) => v,
        Err(e) => return Err(e),
    };
    let gecko_host = match geckodriver_host {
        Ok(v) => v,
        Err(e) => return Err(e),
    };
    let gecko_port = match geckodriver_port {
        Ok(v) => v,
        Err(e) => return Err(e),
    };
    Ok(
        AppConfig {
            db: Db { conn_str },
            ollama: OllamaConfig { host, port, embedding_model },
            geckodriver: GeckoDriver { host: gecko_host, port: gecko_port },
        },
    )
}

/// Whether a loaded configuration holds every setting.
pub open spec fn has_all_settings(cfg: ::config::Config) -> bool {
    &&& config_strings(cfg).contains_key("db.conn_str"@)
    &&& config_strings(cfg).contains_key("ollama.host"@)
    &&& config_u16s(cfg).contains_key("ollama.port"@)
    &&& config_strings(cfg).contains_key("ollama.embedding_model"@)
    &&& config_strings(cfg).contains_key("geckodriver.host"@)
    &&& config_u16s(cfg).contains_key("geckodriver.port"@)
}

/// Whether the settings are the ones the configuration holds.
pub open spec fn settings_of(c: AppConfig, cfg: ::config::Config) -> bool {
    &&& c.db.conn_str@ == config_strings(cfg)["db.conn_str"@]
    &&& c.ollama.host@ == config_strings(cfg)["ollama.host"@]
    &&& c.ollama.port == config_u16s(cfg)["ollama.port"@]
    &&& c.ollama.embedding_model@ == config_strings(cfg)["ollama.embedding_model"@]
    &&& c.geckodriver.host@ == config_strings(cfg)["geckodriver.host"@]
    &&& c.geckodriver.port == config_u16s(cfg)["geckodriver.port"@]
}

/// Reads the settings out of a loaded configuration: `db.conn_str`,
/// `ollama.host`, `ollama.port`, `ollama.embedding_model`,
/// `geckodriver.host` and `geckodriver.port`, the ports as 16-bit unsigned
/// integers. It succeeds exactly when every one of them can be read. When
/// one cannot, the error that the configuration reports for the first such
/// key, in this order, is returned; the contract states when an error comes,
/// not which one.
pub fn read_config(cfg: &::config::Config) -> (r: Result<AppConfig, ::config::ConfigError>)
    ensures
        r is Ok <==> has_all_settings(*cfg),
        r matches Ok(c) ==> settings_of(c, *cfg),
{
    app_config_from_fields(
        config_string(cfg, "db.conn_str"),
        config_string(cfg, "ollama.host"),
        config_u16(cfg, "ollama.port"),
        config_string(cfg, "ollama.embedding_model"),
        config_string(cfg, "geckodriver.host"),
        config_u16(cfg, "geckodriver.port"),
    )
}

} // verus!
