//! Configuration: the port to listen on, where the database is, and the
//! ceiling on the size of an upload.

use crate::decimal::{parse_bounded, parse_nat};
use vstd::prelude::*;
use vstd::string::*;

verus! {

/// Bytes in a megabyte, the unit in which the upload ceiling is configured.
pub const MEGABYTE: usize = 1_000_000;

/// The last port there is.
pub const LAST_PORT: u64 = 65_535;

/// What a [`Config`] holds.
pub struct ConfigView {
    pub port: u16,
    pub db_url: Seq<char>,
    pub max_upload_size_mb: usize,
}

/// The service's configuration.
#[derive(Debug)]
pub struct Config {
    port: u16,
    db_url: String,
    max_upload_size_mb: usize,
}

impl View for Config {
    type V = ConfigView;

    closed spec fn view(&self) -> ConfigView {
        ConfigView {
            port: self.port,
            db_url: self.db_url@,
            max_upload_size_mb: self.max_upload_size_mb,
        }
    }
}

/// The setting that a configuration could not be read from.
#[derive(Clone, Copy, Debug, PartialEq, Eq, Structural)]
pub enum ConfigError {
    /// The port is not a number, or there is no such port.
    Port,
    /// The upload ceiling is not a number, or the machine cannot count that
    /// many bytes.
    MaxUploadSize,
}

/// Whether the machine can count the bytes of `megabytes` megabytes.
pub open spec fn fits(megabytes: int) -> bool {
    0 <= megabytes && megabytes * MEGABYTE <= usize::MAX
}

impl ConfigView {
    /// Whether the upload ceiling can be counted in bytes.
    pub open spec fn wf(self) -> bool {
        fits(self.max_upload_size_mb as int)
    }
}

/// The configuration that three settings give, each as the text in which it
/// is set: the port, the database's address, and the upload ceiling in
/// megabytes. The two numbers are written in decimal digits, with nothing
/// around them but an optional leading `+`; the port is read first.
pub open spec fn config_of(port: Seq<char>, db_url: Seq<char>, max_upload_size_mb: Seq<char>) -> Result<
    ConfigView,
    ConfigError,
> {
    if parse_nat(port).is_none() || parse_nat(port).unwrap() > LAST_PORT {
        Err(ConfigError::Port)
    } else if parse_nat(max_upload_size_mb).is_none() || !fits(
        parse_nat(max_upload_size_mb).unwrap() as int,
    ) {
        Err(ConfigError::MaxUploadSize)
    } else {
        Ok(
            ConfigView {
                port: parse_nat(port).unwrap() as u16,
                db_url,
                max_upload_size_mb: parse_nat(max_upload_size_mb).unwrap() as usize,
            },
        )
    }
}

/// A configuration read from settings, or the reason why there is none, as a
/// mathematical value.
pub open spec fn outcome_view(outcome: Result<Config, ConfigError>) -> Result<ConfigView, ConfigError> {
    match outcome {
        Ok(config) => Ok(config@),
        Err(error) => Err(error),
    }
}

impl Config {
    /// Whether the upload ceiling can be counted in bytes.
    pub open spec fn wf(&self) -> bool {
        self@.wf()
    }

    /// Reads the configuration from the values of the settings `PORT`,
    /// `DATABASE_URL` and `MAX_UPLOAD_SIZE_MB`.
    pub fn read_from_env(port: &str, db_url: &str, max_upload_size_mb: &str) -> (outcome: Result<
        Config,
        ConfigError,
    >)
        ensures
            outcome_view(outcome) == config_of(port@, db_url@, max_upload_size_mb@),
            outcome is Ok ==> outcome->Ok_0.wf(),
    {
        let port: u16 = match parse_bounded(port, LAST_PORT) {
            Some(port) => port as u16,
            None => {
                return Err(ConfigError::Port);
            },
        };
        let most: u64 = (usize::MAX / MEGABYTE) as u64;
        let max_upload_size_mb: usize = match parse_bounded(max_upload_size_mb, most) {
            Some(megabytes) => megabytes as usize,
            None => {
                return Err(ConfigError::MaxUploadSize);
            },
        };
        Ok(Config { port, db_url: db_url.to_owned(), max_upload_size_mb })
    }

    /// The port to listen on.
    pub fn port(&self) -> (port: u16)
        ensures
            port == self@.port,
    {
        self.port
    }

    /// The address of the database.
    pub fn db_url(&self) -> (db_url: &str)
        ensures
            db_url@ == self@.db_url,
    {
        self.db_url.as_str()
    }

    /// The ceiling on the size of an upload, in bytes.
    pub fn max_upload_size(&self) -> (bytes: usize)
        requires
            self.wf(),
        ensures
            bytes == self@.max_upload_size_mb * MEGABYTE,
    {
        assert(fits(self@.max_upload_size_mb as int));
        MEGABYTE * self.max_upload_size_mb
    }

    /// A configuration for trials: any free port, a database in memory, and
    /// the given upload ceiling in megabytes.
    pub fn test_config(max_upload_size_mb: usize) -> (config: Config)
        requires
            fits(max_upload_size_mb as int),
        ensures
            config.wf(),
            config@ == (ConfigView { port: 0, db_url: ":memory:"@, max_upload_size_mb }),
    {
        Config { port: 0, db_url: ":memory:".to_owned(), max_upload_size_mb }
    }
}

} // verus!
