//! Process configuration as an explicit value handed into constructors; the
//! surrounding program reads it from the environment and passes it in.

use vstd::prelude::*;

verus! {

/// How verbose the process logs.
#[derive(Debug, Clone, Copy, PartialEq, Eq, Structural)]
pub enum LogLevel {
    Trace,
    Debug,
    Info,
    Warn,
    Error,
}

/// Logging settings.
#[derive(Debug)]
pub struct LogConfig {
    pub level: LogLevel,
}

/// Settings of the background sync loop.
#[derive(Debug)]
pub struct SyncConfig {
    /// Whether the background loop performs transfers at all.
    pub enabled: bool,
    /// Minutes between checks for due watchers.
    pub check_interval_mins: u32,
}

/// Where the database lives.
#[derive(Debug)]
pub struct DbConfig {
    pub url: String,
}

/// Settings of the HTTP front end.
#[derive(Debug)]
pub struct WebConfig {
    pub host: String,
    pub port: u16,
    pub public_url: String,
    pub jwt_secret: String,
}

/// The application's credentials at the remote provider.
#[derive(Debug)]
pub struct SpotifyConfig {
    pub client_id: String,
    pub client_secret: String,
}

/// Where error reports go.
#[derive(Debug)]
pub struct SentryConfig {
    pub dsn: String,
}

/// The whole process configuration.
#[derive(Debug)]
pub struct Config {
    pub log: LogConfig,
    pub sync: SyncConfig,
    pub database: DbConfig,
    pub web: WebConfig,
    pub spotify: SpotifyConfig,
    pub sentry: SentryConfig,
}

impl Clone for LogConfig {
    fn clone(&self) -> (r: LogConfig)
        ensures
            r == *self,
    {
        LogConfig { level: self.level }
    }
}

impl Clone for SyncConfig {
    fn clone(&self) -> (r: SyncConfig)
        ensures
            r == *self,
    {
        SyncConfig { enabled: self.enabled, check_interval_mins: self.check_interval_mins }
    }
}

impl Clone for DbConfig {
    fn clone(&self) -> (r: DbConfig)
        ensures
            r == *self,
    {
        DbConfig { url: self.url.clone() }
    }
}

impl Clone for WebConfig {
    fn clone(&self) -> (r: WebConfig)
        ensures
            r == *self,
    {
        WebConfig {
            host: self.host.clone(),
            port: self.port,
            public_url: self.public_url.clone(),
            jwt_secret: self.jwt_secret.clone(),
        }
    }
}

impl Clone for SpotifyConfig {
    fn clone(&self) -> (r: SpotifyConfig)
        ensures
            r == *self,
    {
        SpotifyConfig {
            client_id: self.client_id.clone(),
            client_secret: self.client_secret.clone(),
        }
    }
}

impl Clone for SentryConfig {
    fn clone(&self) -> (r: SentryConfig)
        ensures
            r == *self,
    {
        SentryConfig { dsn: self.dsn.clone() }
    }
}

impl Clone for Config {
    fn clone(&self) -> (r: Config)
        ensures
            r == *self,
    {
        Config {
            log: self.log.clone(),
            sync: self.sync.clone(),
            database: self.database.clone(),
            web: self.web.clone(),
            spotify: self.spotify.clone(),
            sentry: self.sentry.clone(),
        }
    }
}

} // verus!
