//! Layered application settings and their defaults.

use crate::text::{decimal, decimal_text, str_equal};
use vstd::prelude::*;
use vstd::string::StringExecFns;

verus! {

/// Environment name used when none is configured.
pub const DEFAULT_ENV: &'static str = "local";

/// Name of the variable that selects the environment.
pub const ENV_VAR_NAME: &'static str = "ATLAS_ENV";

/// Name of the variable that points at the configuration directory.
pub const CONFIG_DIR_ENV: &'static str = "ATLAS_CONFIG_DIR";

/// Deployment environment the application is running in.
#[derive(Debug, Clone, Copy, PartialEq, Eq, Structural)]
pub enum Environment {
    Local,
    Staging,
    Production,
}

impl Default for Environment {
    fn default() -> (env: Self)
        ensures
            env == Environment::Local,
    {
        Environment::Local
    }
}

/// Why settings could not be resolved.
#[derive(Debug)]
pub enum SettingsError {
    /// The selected environment is none of local, staging, production.
    UnsupportedEnvironment { name: String },
}

impl SettingsError {
    /// The text of the error, as shown to the operator.
    pub open spec fn message_spec(self) -> Seq<char> {
        match self {
            SettingsError::UnsupportedEnvironment { name } => "unsupported environment '"@ + name@
                + "'; expected local/staging/production"@,
        }
    }

    /// Renders the error for the operator.
    pub fn message(&self) -> (text: String)
        ensures
            text@ == self.message_spec(),
    {
        match self {
            SettingsError::UnsupportedEnvironment { name } => {
                let mut text = String::from_str("unsupported environment '");
                text.append(name.as_str());
                text.append("'; expected local/staging/production");
                text
            },
        }
    }
}

/// The environment that a name selects, if it selects one.
pub open spec fn environment_named(name: Seq<char>) -> Option<Environment> {
    if name == "local"@ {
        Some(Environment::Local)
    } else if name == "staging"@ {
        Some(Environment::Staging)
    } else if name == "production"@ {
        Some(Environment::Production)
    } else {
        None
    }
}

impl Environment {
    /// Parses an environment name; any name but the three known ones is an error
    /// that carries the name.
    pub fn from_name(name: &str) -> (parsed: Result<Environment, SettingsError>)
        ensures
            match parsed {
                Ok(env) => environment_named(name@) == Some(env),
                Err(SettingsError::UnsupportedEnvironment { name: given }) => {
                    &&& environment_named(name@) is None
                    &&& given@ == name@
                },
            },
    {
        if str_equal(name, "local") {
            Ok(Environment::Local)
        } else if str_equal(name, "staging") {
            Ok(Environment::Staging)
        } else if str_equal(name, "production") {
            Ok(Environment::Production)
        } else {
            Err(SettingsError::UnsupportedEnvironment { name: name.to_string() })
        }
    }
}

/// File name of the overlay for the environment called `environment`.
pub fn environment_file_name(environment: &str) -> (file: String)
    ensures
        file@ == environment@ + ".toml"@,
{
    let mut file = environment.to_string();
    file.append(".toml");
    file
}

/// HTTP listener settings.
#[derive(Debug)]
pub struct ServerSettings {
    pub host: String,
    pub port: u16,
    pub request_timeout_ms: u64,
}

impl ServerSettings {
    pub fn default_host() -> (host: String)
        ensures
            host@ == "0.0.0.0"@,
    {
        "0.0.0.0".to_string()
    }

    pub fn default_port() -> (port: u16)
        ensures
            port == 8080,
    {
        8080
    }

    pub fn default_request_timeout_ms() -> (timeout: u64)
        ensures
            timeout == 15000,
    {
        15000
    }

    /// The address that the server listens on: host, a colon and the port in
    /// decimal.
    pub fn bind_address(&self) -> (address: String)
        ensures
            address@ == self.host@ + ":"@ + decimal_text(self.port as nat),
    {
        let mut address = self.host.clone();
        address.append(":");
        address.append(decimal(self.port).as_str());
        address
    }
}

impl Default for ServerSettings {
    fn default() -> (server: Self)
        ensures
            server.host@ == "0.0.0.0"@,
            server.port == 8080,
            server.request_timeout_ms == 15000,
    {
        ServerSettings {
            host: Self::default_host(),
            port: Self::default_port(),
            request_timeout_ms: Self::default_request_timeout_ms(),
        }
    }
}

impl Clone for ServerSettings {
    fn clone(&self) -> (copy: Self)
        ensures
            copy == *self,
    {
        ServerSettings {
            host: self.host.clone(),
            port: self.port,
            request_timeout_ms: self.request_timeout_ms,
        }
    }
}

/// Where the database is reached.
#[derive(Debug)]
pub struct DatabaseSettings {
    pub endpoint: String,
    pub namespace: String,
    pub database: String,
}

impl DatabaseSettings {
    pub fn default_endpoint() -> (endpoint: String)
        ensures
            endpoint@ == "ws://127.0.0.1:8000"@,
    {
        "ws://127.0.0.1:8000".to_string()
    }

    pub fn default_namespace() -> (namespace: String)
        ensures
            namespace@ == "atlas"@,
    {
        "atlas".to_string()
    }

    pub fn default_database() -> (database: String)
        ensures
            database@ == "core"@,
    {
        "core".to_string()
    }
}

impl Default for DatabaseSettings {
    fn default() -> (database: Self)
        ensures
            database.endpoint@ == "ws://127.0.0.1:8000"@,
            database.namespace@ == "atlas"@,
            database.database@ == "core"@,
    {
        DatabaseSettings {
            endpoint: Self::default_endpoint(),
            namespace: Self::default_namespace(),
            database: Self::default_database(),
        }
    }
}

impl Clone for DatabaseSettings {
    fn clone(&self) -> (copy: Self)
        ensures
            copy == *self,
    {
        DatabaseSettings {
            endpoint: self.endpoint.clone(),
            namespace: self.namespace.clone(),
            database: self.database.clone(),
        }
    }
}

/// How log lines are rendered.
#[derive(Debug, Clone, Copy, PartialEq, Eq, Structural)]
pub enum LogFormat {
    Pretty,
    Json,
}

impl Default for LogFormat {
    fn default() -> (format: Self)
        ensures
            format == LogFormat::Pretty,
    {
        LogFormat::Pretty
    }
}

/// Where traces and metrics go.
#[derive(Debug)]
pub struct TelemetrySettings {
    pub otlp_endpoint: Option<String>,
    pub prometheus_bind: Option<String>,
    pub log_format: LogFormat,
}

impl Default for TelemetrySettings {
    fn default() -> (telemetry: Self)
        ensures
            telemetry.otlp_endpoint is None,
            telemetry.prometheus_bind matches Some(bind) && bind@ == "127.0.0.1:9000"@,
            telemetry.log_format == LogFormat::Pretty,
    {
        TelemetrySettings {
            otlp_endpoint: None,
            prometheus_bind: Some("127.0.0.1:9000".to_string()),
            log_format: LogFormat::Pretty,
        }
    }
}

impl Clone for TelemetrySettings {
    fn clone(&self) -> (copy: Self)
        ensures
            copy == *self,
    {
        let otlp_endpoint = match &self.otlp_endpoint {
            Some(endpoint) => Some(endpoint.clone()),
            None => None,
        };
        let prometheus_bind = match &self.prometheus_bind {
            Some(bind) => Some(bind.clone()),
            None => None,
        };
        TelemetrySettings { otlp_endpoint, prometheus_bind, log_format: self.log_format }
    }
}

/// Where the authorization model and policy are read from.
#[derive(Debug)]
pub struct AuthSettings {
    pub casbin_model_path: String,
    pub casbin_policy_path: String,
}

impl AuthSettings {
    pub fn default_model_path() -> (path: String)
        ensures
            path@ == "config/auth/model.conf"@,
    {
        "config/auth/model.conf".to_string()
    }

    pub fn default_policy_path() -> (path: String)
        ensures
            path@ == "config/auth/policy.csv"@,
    {
        "config/auth/policy.csv".to_string()
    }
}

impl Default for AuthSettings {
    fn default() -> (auth: Self)
        ensures
            auth.casbin_model_path@ == "config/auth/model.conf"@,
            auth.casbin_policy_path@ == "config/auth/policy.csv"@,
    {
        AuthSettings {
            casbin_model_path: Self::default_model_path(),
            casbin_policy_path: Self::default_policy_path(),
        }
    }
}

impl Clone for AuthSettings {
    fn clone(&self) -> (copy: Self)
        ensures
            copy == *self,
    {
        AuthSettings {
            casbin_model_path: self.casbin_model_path.clone(),
            casbin_policy_path: self.casbin_policy_path.clone(),
        }
    }
}

/// Top-level configuration, one section per concern.
#[derive(Debug)]
pub struct Settings {
    pub environment: Environment,
    pub server: ServerSettings,
    pub database: DatabaseSettings,
    pub telemetry: TelemetrySettings,
    pub auth: AuthSettings,
}

impl Default for Settings {
    fn default() -> (settings: Self)
        ensures
            settings.environment == Environment::Local,
            settings.server.host@ == "0.0.0.0"@,
            settings.server.port == 8080,
            settings.server.request_timeout_ms == 15000,
            settings.database.endpoint@ == "ws://127.0.0.1:8000"@,
            settings.database.namespace@ == "atlas"@,
            settings.database.database@ == "core"@,
            settings.telemetry.otlp_endpoint is None,
            settings.telemetry.prometheus_bind matches Some(bind) && bind@ == "127.0.0.1:9000"@,
            settings.telemetry.log_format == LogFormat::Pretty,
            settings.auth.casbin_model_path@ == "config/auth/model.conf"@,
            settings.auth.casbin_policy_path@ == "config/auth/policy.csv"@,
    {
        Settings {
            environment: Environment::default(),
            server: ServerSettings::default(),
            database: DatabaseSettings::default(),
            telemetry: TelemetrySettings::default(),
            auth: AuthSettings::default(),
        }
    }
}

impl Clone for Settings {
    fn clone(&self) -> (copy: Self)
        ensures
            copy == *self,
    {
        Settings {
            environment: self.environment,
            server: self.server.clone(),
            database: self.database.clone(),
            telemetry: self.telemetry.clone(),
            auth: self.auth.clone(),
        }
    }
}

impl Settings {
    /// Puts the environment that `name` selects into `self`. The other sections
    /// stay as loaded; an unknown name is an error and yields no settings.
    pub fn with_environment(self, name: &str) -> (resolved: Result<Settings, SettingsError>)
        ensures
            match resolved {
                Ok(settings) => {
                    &&& environment_named(name@) == Some(settings.environment)
                    &&& settings.server == self.server
                    &&& settings.database == self.database
                    &&& settings.telemetry == self.telemetry
                    &&& settings.auth == self.auth
                },
                Err(SettingsError::UnsupportedEnvironment { name: given }) => {
                    &&& environment_named(name@) is None
                    &&& given@ == name@
                },
            },
    {
        match Environment::from_name(name) {
            Ok(environment) => {
                let mut settings = self;
                settings.environment = environment;
                Ok(settings)
            },
            Err(error) => Err(error),
        }
    }
}

} // verus!
