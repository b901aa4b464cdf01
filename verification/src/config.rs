//! The settings of the application, their defaults and the rules that a
//! usable configuration obeys. Reading files and the environment stands
//! outside; what was read comes in as text.

use vstd::prelude::*;
use vstd::utf8::encode_utf8;
use crate::text::{decimal, push_decimal, parse_unsigned, parsed_unsigned, is_text};

verus! {

#[derive(Debug)]
pub struct AppConfig {
    pub server: ServerConfig,
    pub database: DatabaseConfig,
    pub services: ServicesConfig,
    pub logging: LoggingConfig,
    pub security: SecurityConfig,
    pub monitoring: MonitoringConfig,
}

#[derive(Debug)]
pub struct ServerConfig {
    pub host: String,
    pub port: u16,
    pub cors_enabled: bool,
    pub max_connections: usize,
    pub request_timeout_seconds: u64,
}

#[derive(Debug)]
pub struct DatabaseConfig {
    pub url: String,
    pub namespace: String,
    pub database: String,
    pub connection_pool_size: u32,
    pub connection_timeout_seconds: u64,
    pub query_timeout_seconds: u64,
}

#[derive(Debug)]
pub struct ServicesConfig {
    pub optimization: OptimizationConfig,
    pub ingestion: IngestionConfig,
    pub websocket: WebSocketConfig,
}

#[derive(Debug)]
pub struct OptimizationConfig {
    pub grpc_endpoint: Option<String>,
    pub max_computation_time_seconds: u32,
    pub default_time_horizon_minutes: u32,
    pub enable_caching: bool,
    pub cache_ttl_seconds: u64,
}

#[derive(Debug)]
pub struct IngestionConfig {
    pub enabled: bool,
    pub external_apis: Vec<ExternalApiConfig>,
    pub polling_interval_seconds: u64,
    pub batch_size: usize,
    pub retry_attempts: u32,
    pub retry_delay_seconds: u64,
}

#[derive(Debug)]
pub struct ExternalApiConfig {
    pub name: String,
    pub url: String,
    pub api_key: Option<String>,
    pub timeout_seconds: u64,
    pub enabled: bool,
}

#[derive(Clone, Copy, Debug, PartialEq, Eq, Structural)]
pub struct WebSocketConfig {
    pub max_connections: usize,
    pub message_buffer_size: usize,
    pub heartbeat_interval_seconds: u64,
    pub connection_timeout_seconds: u64,
}

#[derive(Debug)]
pub struct LoggingConfig {
    pub level: String,
    pub file_output: bool,
    pub file_path: Option<String>,
    pub json_format: bool,
    pub include_line_numbers: bool,
}

#[derive(Debug)]
pub struct SecurityConfig {
    pub jwt_secret: String,
    pub jwt_expiry_hours: u64,
    pub api_rate_limit_per_minute: u32,
    pub enable_api_key_auth: bool,
    pub cors_origins: Vec<String>,
}

#[derive(Debug)]
pub struct MonitoringConfig {
    pub prometheus_enabled: bool,
    pub prometheus_endpoint: String,
    pub metrics_collection_interval_seconds: u64,
    pub health_check_enabled: bool,
    pub alert_webhook_url: Option<String>,
}

/// The fewest bytes that a signing secret may have.
pub const MIN_JWT_SECRET_BYTES: usize = 32;

/// What is wrong with a configuration.
#[derive(Clone, Copy, Debug, PartialEq, Eq, Structural)]
pub enum ConfigError {
    ZeroPort,
    EmptyDatabaseUrl,
    ShortJwtSecret,
    ZeroComputationTime,
    /// The port that the environment names is no number from 0 to 65535.
    InvalidPort,
}

impl ConfigError {
    pub open spec fn spec_message(&self) -> Seq<char> {
        match self {
            ConfigError::ZeroPort => "Server port cannot be 0"@,
            ConfigError::EmptyDatabaseUrl => "Database URL cannot be empty"@,
            ConfigError::ShortJwtSecret => "JWT secret must be at least 32 characters"@,
            ConfigError::ZeroComputationTime => "Optimization computation time must be greater than 0"@,
            ConfigError::InvalidPort => "invalid digit found in string"@,
        }
    }

    /// The error as it is shown.
    pub fn message(&self) -> (text: String)
        ensures
            text@ == self.spec_message(),
    {
        match self {
            ConfigError::ZeroPort => "Server port cannot be 0".to_owned(),
            ConfigError::EmptyDatabaseUrl => "Database URL cannot be empty".to_owned(),
            ConfigError::ShortJwtSecret => "JWT secret must be at least 32 characters".to_owned(),
            ConfigError::ZeroComputationTime => "Optimization computation time must be greater than 0".to_owned(),
            ConfigError::InvalidPort => "invalid digit found in string".to_owned(),
        }
    }
}

/// The length of a text in bytes, as UTF-8 holds it.
pub open spec fn byte_length(text: Seq<char>) -> nat {
    encode_utf8(text).len()
}

/// A text has at least as many bytes as characters.
pub proof fn lemma_bytes_at_least_chars(text: Seq<char>)
    ensures
        byte_length(text) >= text.len(),
    decreases text.len(),
{
    if text.len() > 0 {
        lemma_bytes_at_least_chars(text.drop_first());
    }
}

/// What the environment can say of the configuration; a variable that is
/// not set is `None`.
#[derive(Debug)]
pub struct EnvOverrides {
    pub server_host: Option<String>,
    pub server_port: Option<String>,
    pub database_url: Option<String>,
    pub database_namespace: Option<String>,
    pub database_name: Option<String>,
    pub jwt_secret: Option<String>,
    pub log_level: Option<String>,
}

/// The text that is used: the override where there is one.
pub open spec fn overridden(current: Seq<char>, change: Option<String>) -> Seq<char> {
    match change {
        Some(s) => s@,
        None => current,
    }
}

impl AppConfig {
    /// The first rule that the configuration breaks, if any.
    pub open spec fn defect(&self) -> Option<ConfigError> {
        if self.server.port == 0 {
            Some(ConfigError::ZeroPort)
        } else if self.database.url@.len() == 0 {
            Some(ConfigError::EmptyDatabaseUrl)
        } else if byte_length(self.security.jwt_secret@) < MIN_JWT_SECRET_BYTES {
            Some(ConfigError::ShortJwtSecret)
        } else if self.services.optimization.max_computation_time_seconds == 0 {
            Some(ConfigError::ZeroComputationTime)
        } else {
            None
        }
    }

    /// A configuration is usable when the port is set, the database has a
    /// URL, the signing secret is long enough and optimization is given time.
    pub open spec fn valid(&self) -> bool {
        &&& self.server.port != 0
        &&& self.database.url@.len() > 0
        &&& byte_length(self.security.jwt_secret@) >= MIN_JWT_SECRET_BYTES
        &&& self.services.optimization.max_computation_time_seconds > 0
    }

    /// Whether this is the configuration that is used where nothing else is
    /// said.
    pub open spec fn is_default(&self) -> bool {
        &&& self.server.host@ == "0.0.0.0"@
        &&& self.server.port == 8000
        &&& self.server.cors_enabled
        &&& self.server.max_connections == 1000
        &&& self.server.request_timeout_seconds == 30
        &&& self.database.url@ == "127.0.0.1:8000"@
        &&& self.database.namespace@ == "railway"@
        &&& self.database.database@ == "intelligence"@
        &&& self.database.connection_pool_size == 10
        &&& self.database.connection_timeout_seconds == 10
        &&& self.database.query_timeout_seconds == 30
        &&& self.services.optimization.grpc_endpoint is None
        &&& self.services.optimization.max_computation_time_seconds == 300
        &&& self.services.optimization.default_time_horizon_minutes == 120
        &&& self.services.optimization.enable_caching
        &&& self.services.optimization.cache_ttl_seconds == 300
        &&& self.services.ingestion.enabled
        &&& self.services.ingestion.external_apis@.len() == 1
        &&& self.services.ingestion.external_apis@[0].name@ == "Indian Railways API"@
        &&& self.services.ingestion.external_apis@[0].url@ == "https://api.indianrail.gov.in"@
        &&& self.services.ingestion.external_apis@[0].api_key is None
        &&& self.services.ingestion.external_apis@[0].timeout_seconds == 30
        &&& !self.services.ingestion.external_apis@[0].enabled
        &&& self.services.ingestion.polling_interval_seconds == 60
        &&& self.services.ingestion.batch_size == 100
        &&& self.services.ingestion.retry_attempts == 3
        &&& self.services.ingestion.retry_delay_seconds == 5
        &&& self.services.websocket == (WebSocketConfig {
            max_connections: 1000,
            message_buffer_size: 1000,
            heartbeat_interval_seconds: 30,
            connection_timeout_seconds: 300,
        })
        &&& self.logging.level@ == "info"@
        &&& self.logging.file_output
        &&& self.logging.file_path matches Some(path) && path@ == "logs/railway-backend.log"@
        &&& !self.logging.json_format
        &&& self.logging.include_line_numbers
        &&& self.security.jwt_secret@ == "your-super-secret-jwt-key-change-in-production"@
        &&& self.security.jwt_expiry_hours == 24
        &&& self.security.api_rate_limit_per_minute == 100
        &&& !self.security.enable_api_key_auth
        &&& self.security.cors_origins@.len() == 1
        &&& self.security.cors_origins@[0]@ == "*"@
        &&& self.monitoring.prometheus_enabled
        &&& self.monitoring.prometheus_endpoint@ == "/metrics"@
        &&& self.monitoring.metrics_collection_interval_seconds == 15
        &&& self.monitoring.health_check_enabled
        &&& self.monitoring.alert_webhook_url is None
    }

    /// "surreal://URL?ns=NAMESPACE&db=DATABASE"
    pub open spec fn spec_database_connection_string(&self) -> Seq<char> {
        "surreal://"@ + self.database.url@ + "?ns="@ + self.database.namespace@ + "&db="@
            + self.database.database@
    }

    /// "HOST:PORT"
    pub open spec fn spec_server_bind_address(&self) -> Seq<char> {
        self.server.host@ + ":"@ + decimal(self.server.port as nat)
    }

    /// Accepts a usable configuration and names the first rule that any
    /// other breaks.
    pub fn validate(&self) -> (checked: Result<(), ConfigError>)
        ensures
            checked is Ok <==> self.valid(),
            match self.defect() {
                Some(error) => checked == Err::<(), ConfigError>(error),
                None => checked is Ok,
            },
    {
        if self.server.port == 0 {
            return Err(ConfigError::ZeroPort);
        }
        if self.database.url.as_str().is_empty() {
            return Err(ConfigError::EmptyDatabaseUrl);
        }
        if self.security.jwt_secret.as_str().as_bytes().len() < MIN_JWT_SECRET_BYTES {
            return Err(ConfigError::ShortJwtSecret);
        }
        if self.services.optimization.max_computation_time_seconds == 0 {
            return Err(ConfigError::ZeroComputationTime);
        }
        Ok(())
    }

    /// The address under which the record store is reached.
    pub fn database_connection_string(&self) -> (address: String)
        ensures
            address@ == self.spec_database_connection_string(),
    {
        let mut address = "surreal://".to_owned();
        address.append(self.database.url.as_str());
        address.append("?ns=");
        address.append(self.database.namespace.as_str());
        address.append("&db=");
        address.append(self.database.database.as_str());
        address
    }

    /// The address that the server listens on.
    pub fn server_bind_address(&self) -> (address: String)
        ensures
            address@ == self.spec_server_bind_address(),
    {
        let mut address = self.server.host.clone();
        address.append(":");
        push_decimal(&mut address, self.server.port as u64);
        address
    }

    /// Takes over what the environment says: each variable that is set
    /// replaces its setting. A port that is no number leaves the
    /// configuration as it was and is reported.
    pub fn apply_overrides(&mut self, overrides: EnvOverrides) -> (applied: Result<(), ConfigError>)
        ensures
            match overrides.server_port {
                Some(text) => match parsed_unsigned(text@, 65535) {
                    Some(port) => applied is Ok && final(self).server.port == port,
                    None => applied == Err::<(), ConfigError>(ConfigError::InvalidPort),
                },
                None => applied is Ok && final(self).server.port == old(self).server.port,
            },
            applied is Ok ==> {
                &&& final(self).server.host@ == overridden(
                    old(self).server.host@,
                    overrides.server_host,
                )
                &&& final(self).database.url@ == overridden(
                    old(self).database.url@,
                    overrides.database_url,
                )
                &&& final(self).database.namespace@ == overridden(
                    old(self).database.namespace@,
                    overrides.database_namespace,
                )
                &&& final(self).database.database@ == overridden(
                    old(self).database.database@,
                    overrides.database_name,
                )
                &&& final(self).security.jwt_secret@ == overridden(
                    old(self).security.jwt_secret@,
                    overrides.jwt_secret,
                )
                &&& final(self).logging.level@ == overridden(
                    old(self).logging.level@,
                    overrides.log_level,
                )
                &&& final(self).services == old(self).services
                &&& final(self).monitoring == old(self).monitoring
            },
            applied is Err ==> *final(self) == *old(self),
    {
        let port: Option<u16> = match &overrides.server_port {
            Some(text) => match parse_unsigned(text.as_str(), 65535) {
                Some(n) => Some(n as u16),
                None => {
                    return Err(ConfigError::InvalidPort);
                },
            },
            None => None,
        };
        match overrides.server_host {
            Some(host) => {
                self.server.host = host;
            },
            None => {},
        }
        match port {
            Some(p) => {
                self.server.port = p;
            },
            None => {},
        }
        match overrides.database_url {
            Some(url) => {
                self.database.url = url;
            },
            None => {},
        }
        match overrides.database_namespace {
            Some(namespace) => {
                self.database.namespace = namespace;
            },
            None => {},
        }
        match overrides.database_name {
            Some(name) => {
                self.database.database = name;
            },
            None => {},
        }
        match overrides.jwt_secret {
            Some(secret) => {
                self.security.jwt_secret = secret;
            },
            None => {},
        }
        match overrides.log_level {
            Some(level) => {
                self.logging.level = level;
            },
            None => {},
        }
        Ok(())
    }
}

impl Default for AppConfig {
    fn default() -> (config: Self)
        ensures
            config.is_default(),
            config.valid(),
    {
        let mut external_apis: Vec<ExternalApiConfig> = Vec::new();
        external_apis.push(
            ExternalApiConfig {
                name: "Indian Railways API".to_owned(),
                url: "https://api.indianrail.gov.in".to_owned(),
                api_key: None,
                timeout_seconds: 30,
                enabled: false,
            },
        );
        let mut cors_origins: Vec<String> = Vec::new();
        cors_origins.push("*".to_owned());
        let config = AppConfig {
            server: ServerConfig {
                host: "0.0.0.0".to_owned(),
                port: 8000,
                cors_enabled: true,
                max_connections: 1000,
                request_timeout_seconds: 30,
            },
            database: DatabaseConfig {
                url: "127.0.0.1:8000".to_owned(),
                namespace: "railway".to_owned(),
                database: "intelligence".to_owned(),
                connection_pool_size: 10,
                connection_timeout_seconds: 10,
                query_timeout_seconds: 30,
            },
            services: ServicesConfig {
                optimization: OptimizationConfig {
                    grpc_endpoint: None,
                    max_computation_time_seconds: 300,
                    default_time_horizon_minutes: 120,
                    enable_caching: true,
                    cache_ttl_seconds: 300,
                },
                ingestion: IngestionConfig {
                    enabled: true,
                    external_apis,
                    polling_interval_seconds: 60,
                    batch_size: 100,
                    retry_attempts: 3,
                    retry_delay_seconds: 5,
                },
                websocket: WebSocketConfig {
                    max_connections: 1000,
                    message_buffer_size: 1000,
                    heartbeat_interval_seconds: 30,
                    connection_timeout_seconds: 300,
                },
            },
            logging: LoggingConfig {
                level: "info".to_owned(),
                file_output: true,
                file_path: Some("logs/railway-backend.log".to_owned()),
                json_format: false,
                include_line_numbers: true,
            },
            security: SecurityConfig {
                jwt_secret: "your-super-secret-jwt-key-change-in-production".to_owned(),
                jwt_expiry_hours: 24,
                api_rate_limit_per_minute: 100,
                enable_api_key_auth: false,
                cors_origins,
            },
            monitoring: MonitoringConfig {
                prometheus_enabled: true,
                prometheus_endpoint: "/metrics".to_owned(),
                metrics_collection_interval_seconds: 15,
                health_check_enabled: true,
                alert_webhook_url: None,
            },
        };
        proof {
            reveal_strlit("127.0.0.1:8000");
            reveal_strlit("your-super-secret-jwt-key-change-in-production");
            lemma_bytes_at_least_chars(config.security.jwt_secret@);
        }
        config
    }
}

/// Where the application runs.
#[derive(Clone, Copy, Debug, PartialEq, Eq, Structural)]
pub enum Environment {
    Development,
    Testing,
    Staging,
    Production,
}

impl Environment {
    /// The environment that a name stands for; development where the name
    /// is not set or not known.
    pub open spec fn spec_from_name(name: Option<Seq<char>>) -> Environment {
        match name {
            Some(n) => if n == "prod"@ || n == "production"@ {
                Environment::Production
            } else if n == "staging"@ {
                Environment::Staging
            } else if n == "test"@ || n == "testing"@ {
                Environment::Testing
            } else {
                Environment::Development
            },
            None => Environment::Development,
        }
    }

    /// The environment that the variable `ENVIRONMENT` names, given its
    /// value.
    pub fn from_name(name: Option<&String>) -> (environment: Environment)
        ensures
            environment == Environment::spec_from_name(
                match name {
                    Some(n) => Some(n@),
                    None => None,
                },
            ),
    {
        match name {
            Some(n) => {
                if is_text(n, "prod") || is_text(n, "production") {
                    Environment::Production
                } else if is_text(n, "staging") {
                    Environment::Staging
                } else if is_text(n, "test") || is_text(n, "testing") {
                    Environment::Testing
                } else {
                    Environment::Development
                }
            },
            None => Environment::Development,
        }
    }

    pub open spec fn spec_is_production(&self) -> bool {
        *self == Environment::Production
    }

    pub open spec fn spec_is_development(&self) -> bool {
        *self == Environment::Development
    }

    #[verifier::when_used_as_spec(spec_is_production)]
    pub fn is_production(&self) -> (b: bool)
        ensures
            b == self.spec_is_production(),
    {
        match self {
            Environment::Production => true,
            _ => false,
        }
    }

    #[verifier::when_used_as_spec(spec_is_development)]
    pub fn is_development(&self) -> (b: bool)
        ensures
            b == self.spec_is_development(),
    {
        match self {
            Environment::Development => true,
            _ => false,
        }
    }
}

/// A configuration has a defect exactly when it is not usable.
pub proof fn lemma_config_defect_iff_invalid(config: AppConfig)
    ensures
        config.defect() is None <==> config.valid(),
{
}

} // verus!
