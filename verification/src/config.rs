use std::path::PathBuf;

use vstd::prelude::*;

verus! {

/// A path on the file system, carried through unread.
#[verifier::external_type_specification]
#[verifier::external_body]
pub struct ExPathBuf(PathBuf);

/// `PathBuf::clone`, which the derived `Clone` of [`Configuration`] calls;
/// nothing is claimed of the copy it returns.
pub assume_specification[ <PathBuf as Clone>::clone ](path: &PathBuf) -> PathBuf;

/// The settings of the service.
#[derive(Debug, Clone)]
pub struct Configuration {
    pub app: AppConfig,
    pub log: LogConfig,
    pub server: ServerConfig,
    pub database_url: String,
    pub jwt_pub_key: PathBuf,
}

/// The name and mode of the service.
#[derive(Debug, Clone)]
pub struct AppConfig {
    pub name: String,
    pub env: Environment,
    pub debug: bool,
}

/// Where and how the HTTP server listens.
#[derive(Debug, Clone)]
pub struct ServerConfig {
    pub addr: String,
    pub port: u16,
    pub workers: usize,
}

/// The environment the service runs in.
#[derive(Debug, Clone, Copy, PartialEq, Eq)]
pub enum Environment {
    Prod,
    Dev,
    Test,
}

/// How much is logged, and in which format.
#[derive(Debug, Clone)]
pub struct LogConfig {
    pub format: LogFormat,
    pub level: String,
}

/// The formats the log can be written in.
#[derive(Debug, Clone, Copy, PartialEq, Eq)]
pub enum LogFormat {
    Full,
    JSON,
    Pretty,
    Compact,
}

} // verus!
